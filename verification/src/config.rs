//! The kubeconfig data model and the credential resolver.
//!
//! The structs mirror the layered kubeconfig document: named clusters, named
//! identities and named contexts, each as plain data.  Loading the document
//! from disk and decoding it from YAML is the caller's concern; the library
//! receives the already-parsed value.  Credential material may be carried
//! inline (base64) or by a file reference; since the library itself performs
//! no file I/O, the functions that resolve a credential take the referenced
//! file's contents as an argument where the caller has read them.

use vstd::prelude::*;

use crate::errors::KubernetesError;
use std::collections::HashMap;

verus! {

/// The top-level kubeconfig document.
#[derive(Clone, Debug)]
pub struct KubeConfig {
    pub kind: Option<String>,
    pub api_version: Option<String>,
    pub preferences: Option<Preferences>,
    pub clusters: Vec<NamedCluster>,
    pub auth_infos: Vec<NamedAuthInfo>,
    pub contexts: Vec<NamedContext>,
    pub current_context: String,
    pub extensions: Option<Vec<NamedExtension>>,
}

/// Preferences stores extensions for cli.
#[derive(Clone, Debug)]
pub struct Preferences {
    pub colors: Option<bool>,
    pub extensions: Option<Vec<NamedExtension>>,
}

/// NamedExtension associates name with extension.
#[derive(Clone, Debug)]
pub struct NamedExtension {
    pub name: String,
    pub extension: String,
}

/// NamedCluster associates name with cluster.
#[derive(Clone, Debug)]
pub struct NamedCluster {
    pub name: String,
    pub cluster: Cluster,
}

/// Cluster stores information to connect a Kubernetes cluster.
#[derive(Clone, Debug)]
pub struct Cluster {
    pub server: String,
    pub insecure_skip_tls_verify: Option<bool>,
    pub certificate_authority: Option<String>,
    pub certificate_authority_data: Option<String>,
}

/// NamedAuthInfo associates name with authentication.
#[derive(Clone, Debug)]
pub struct NamedAuthInfo {
    pub name: String,
    pub auth_info: AuthInfo,
}

/// AuthInfo stores information that tells the cluster who you are.
#[derive(Clone, Debug)]
pub struct AuthInfo {
    pub username: Option<String>,
    pub password: Option<String>,
    pub token: Option<String>,
    pub token_file: Option<String>,
    pub client_certificate: Option<String>,
    pub client_certificate_data: Option<String>,
    pub client_key: Option<String>,
    pub client_key_data: Option<String>,
    pub impersonate: Option<String>,
    pub impersonate_groups: Option<Vec<String>>,
    pub auth_provider: Option<AuthProviderConfig>,
    pub exec_config: Option<ExecConfig>,
}

/// AuthProviderConfig stores auth for a specified cloud provider.
#[derive(Clone, Debug)]
pub struct AuthProviderConfig {
    pub name: String,
    pub config: HashMap<String, String>,
}

/// ExecConfig stores credential-plugin configuration.
#[derive(Clone, Debug)]
pub struct ExecConfig {
    pub api_version: Option<String>,
    pub args: Option<Vec<String>>,
    pub command: String,
    pub env: Option<Vec<HashMap<String, String>>>,
}

/// NamedContext associates name with context.
#[derive(Clone, Debug)]
pub struct NamedContext {
    pub name: String,
    pub context: Context,
}

/// Context stores a tuple of cluster and user information.
#[derive(Clone, Debug)]
pub struct Context {
    pub cluster: String,
    pub user: String,
    pub namespace: Option<String>,
    pub extensions: Option<Vec<NamedExtension>>,
}

/// The characters that base64-encoding a byte sequence produces, with the
/// standard alphabet and padding.  Uninterpreted: the trusted wrappers below
/// state the facts the contracts need.
pub uninterp spec fn base64_encoding_of(bytes: Seq<u8>) -> Seq<char>;

/// What base64-decoding a character sequence yields: the decoded bytes, or
/// the decode diagnostic's text where the sequence is not valid base64.
pub uninterp spec fn base64_decoding_of(s: Seq<char>) -> Result<Seq<u8>, Seq<char>>;

/// Relies on base64::decode (standard alphabet, with padding): the whole
/// outcome — bytes or rendered diagnostic — is a function of the input
/// characters alone, and decoding fails exactly on malformed input.
#[verifier::external_body]
fn decode_base64(s: &str) -> (r: Result<Vec<u8>, String>)
    ensures
        r matches Ok(v) ==> (base64_decoding_of(s@) matches Ok(bytes) && bytes == v@),
        r matches Err(m) ==> (base64_decoding_of(s@) matches Err(diag) && diag == m@),
{
    match base64::decode(s) {
        Ok(v) => Ok(v),
        Err(err) => Err(format!("{}", err)),
    }
}

/// The successful decode outcome carrying `bytes`.
pub open spec fn decoded_ok(bytes: Seq<u8>) -> Result<Seq<u8>, Seq<char>> {
    Ok(bytes)
}

/// Relies on base64::encode (standard alphabet, with padding), and on the
/// documented identity that base64::decode returns exactly the bytes that
/// were encoded.
#[verifier::external_body]
fn encode_base64(bytes: &Vec<u8>) -> (r: String)
    ensures
        r@ == base64_encoding_of(bytes@),
        base64_decoding_of(r@) == decoded_ok(bytes@),
{
    base64::encode(bytes)
}

/// Builds the inline form of a credential, as kubeconfig documents carry it.
/// Resolving the returned value inline yields exactly `bytes` again: see
/// `resolve_post`.
pub fn inline_credential(bytes: &Vec<u8>) -> (r: String)
    ensures
        r@ == base64_encoding_of(bytes@),
        base64_decoding_of(r@) == decoded_ok(bytes@),
{
    encode_base64(bytes)
}

/// What resolving a credential from an optional inline value and optional
/// already-read file contents must return: the decoded inline bytes, else the
/// file contents, else `InvalidDataError`.
pub open spec fn resolve_post(
    data: Option<String>,
    file: Option<Vec<u8>>,
    r: Result<Vec<u8>, KubernetesError>,
) -> bool {
    match data {
        Some(d) => match base64_decoding_of(d@) {
            Ok(bytes) => r matches Ok(v) && v@ == bytes,
            Err(diag) => r matches Err(e) && (e matches KubernetesError::Base64DecodeError {
                message,
            } && message@ == diag),
        },
        None => match file {
            Some(f) => r matches Ok(v) && v@ == f@,
            None => r matches Err(e) && e is InvalidDataError,
        },
    }
}

/// Resolves a credential.  An inline value is base64-decoded; failing that
/// the caller-supplied contents of the referenced file are returned; with
/// neither source present the credential is absent and an error is returned.
///
/// Together with `inline_credential`, whose result decodes to the bytes it
/// was built from, `resolve_post` gives the inline round trip: resolving an
/// encoded value yields exactly the original bytes.
pub fn data_or_file_with_base64(data: &Option<String>, file: &Option<Vec<u8>>) -> (r: Result<
    Vec<u8>,
    KubernetesError,
>)
    ensures
        resolve_post(*data, *file, r),
{
    match data {
        Some(d) => match decode_base64(d.as_str()) {
            Ok(v) => Ok(v),
            Err(message) => Err(KubernetesError::Base64DecodeError { message }),
        },
        None => match file {
            Some(f) => {
                let mut out: Vec<u8> = Vec::new();
                let mut i: usize = 0;
                while i < f.len()
                    invariant
                        i <= f@.len(),
                        out@ == f@.take(i as int),
                    decreases f@.len() - i,
                {
                    out.push(f[i]);
                    i = i + 1;
                    proof {
                        assert(out@ =~= f@.take(i as int));
                    }
                }
                proof {
                    assert(out@ =~= f@);
                }
                Ok(out)
            },
            None => Err(KubernetesError::InvalidDataError),
        },
    }
}

impl Cluster {
    /// Loads the cluster's certificate-authority material, if the cluster
    /// names any: inline data is decoded, otherwise the caller-read contents
    /// of the referenced file are returned.  `ca_file` holds what the caller
    /// read from the path in `certificate_authority`, since the library
    /// itself performs no file I/O.
    pub fn load_certificate_authority(&self, ca_file: &Option<Vec<u8>>) -> (r: Option<
        Result<Vec<u8>, KubernetesError>,
    >)
        ensures
            (self.certificate_authority_data is Some || self.certificate_authority is Some)
                ==> (r matches Some(res) && resolve_post(
                self.certificate_authority_data,
                *ca_file,
                res,
            )),
            (self.certificate_authority_data is None && self.certificate_authority is None)
                ==> r is None,
    {
        if self.certificate_authority_data.is_some() || self.certificate_authority.is_some() {
            Some(data_or_file_with_base64(&self.certificate_authority_data, ca_file))
        } else {
            None
        }
    }
}

impl AuthInfo {
    /// Loads the identity's client certificate.  `cert_file` holds what the
    /// caller read from the path in `client_certificate`, if any.
    pub fn load_client_certificate(&self, cert_file: &Option<Vec<u8>>) -> (r: Result<
        Vec<u8>,
        KubernetesError,
    >)
        ensures
            resolve_post(self.client_certificate_data, *cert_file, r),
    {
        data_or_file_with_base64(&self.client_certificate_data, cert_file)
    }

    /// Loads the identity's client key.  `key_file` holds what the caller
    /// read from the path in `client_key`, if any.
    pub fn load_client_key(&self, key_file: &Option<Vec<u8>>) -> (r: Result<
        Vec<u8>,
        KubernetesError,
    >)
        ensures
            resolve_post(self.client_key_data, *key_file, r),
    {
        data_or_file_with_base64(&self.client_key_data, key_file)
    }
}

} // verus!
