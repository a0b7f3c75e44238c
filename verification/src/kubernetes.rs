//! The client session: connecting, and listing resources.
//!
//! `connect` turns an already-loaded kubeconfig into a ready session: it
//! selects the first cluster and first identity, requires their inline TLS
//! material, writes the CA text to a transient file (the transport accepts
//! trust roots only as a path), decodes the certificate and key, builds the
//! TLS-capable client, and composes the base URI.  The CA file's handle is
//! kept inside the session, so the file is removed when the session is
//! dropped, on error paths included.  The selection and every decision are
//! verified; the transport calls stand behind trusted wrappers.
//!
//! Certificate-chain validation is deliberately disabled when the client is
//! built — a permissive default fit for development clusters only; see
//! `build_tls_client`.

use vstd::prelude::*;

use crate::config::KubeConfig;
use crate::config::data_or_file_with_base64;
use crate::config::base64_decoding_of;
use crate::decode::EventDecoder;
use crate::decode::ListStep;
use crate::decode::PodDecoder;
use crate::decode::event_buf;
use crate::decode::event_list_outcome;
use crate::decode::event_parse;
use crate::decode::event_status;
use crate::decode::event_append;
use crate::decode::new_event_decoder;
use crate::decode::new_pod_decoder;
use crate::decode::pod_buf;
use crate::decode::pod_list_outcome;
use crate::decode::pod_parse;
use crate::decode::pod_status;
use crate::decode::pod_append;
use crate::decode::drain_err_post;
use crate::decode::event_outcome_fn;
use crate::decode::pod_outcome_fn;
use crate::decode::spec_status_success;
use crate::errors::KubernetesError;
use crate::resources::Event;
use crate::resources::Pod;
use crate::resources::filter_since;
use crate::resources::filter_since_post;
use crate::uri::resolve_base_uri;
use crate::uri::spec_base_uri;
use std::io::Read;
use std::io::Write;
use isahc::config::Configurable;

verus! {

/// isahc's synchronous HTTP client handle, held opaquely.
#[verifier::external_type_specification]
#[verifier::external_body]
pub struct ExHttpClient(isahc::HttpClient);

/// isahc's response body stream, held opaquely.
#[verifier::external_type_specification]
#[verifier::external_body]
pub struct ExBody(isahc::Body);

/// tempfile's owned path of a transient file, held opaquely; dropping it
/// removes the file.
#[verifier::external_type_specification]
#[verifier::external_body]
pub struct ExTempPath(tempfile::TempPath);

/// How sending a request failed: the request could not be built at all, or
/// the transport failed to carry it.
pub enum SendFailure {
    InvalidRequest(String),
    Transport,
}

/// Relies on tempfile::NamedTempFile and writeln: creates a fresh transient
/// file, writes the text followed by a newline, and returns the file's
/// owned path handle together with the path as text.  The file exists as
/// long as the handle lives.
#[verifier::external_body]
fn write_temp_file(text: &str) -> (r: Result<(tempfile::TempPath, String), String>)
{
    let mut file = tempfile::NamedTempFile::new().map_err(|e| format!("{}", e))?;
    writeln!(file, "{}", text).map_err(|e| format!("{}", e))?;
    let path = file.into_temp_path();
    let path_text = path.to_string_lossy().into_owned();
    Ok((path, path_text))
}

/// Relies on isahc's HttpClientBuilder: the client presents the given PEM
/// certificate and key pair (no passphrase), trusts the CA bundle file at
/// `ca_path`, and accepts invalid certificates — validation is switched off
/// wholesale, a security-relevant permissive default fit for development
/// clusters only.
#[verifier::external_body]
fn build_tls_client(crt: Vec<u8>, key: Vec<u8>, ca_path: &str) -> (r: Result<
    isahc::HttpClient,
    String,
>)
{
    isahc::HttpClient::builder()
        .ssl_client_certificate(
            isahc::config::ClientCertificate::pem(crt, isahc::config::PrivateKey::pem(key, None)),
        )
        .ssl_ca_certificate(isahc::config::CaCertificate::file(ca_path))
        .ssl_options(isahc::config::SslOption::DANGER_ACCEPT_INVALID_CERTS)
        .build()
        .map_err(|e| format!("{}", e))
}

/// Relies on isahc's Request builder and HttpClient::send: builds a GET
/// request for `uri` with an empty body, sends it, and hands back the
/// response's status code and body stream.
#[verifier::external_body]
fn send_get(client: &isahc::HttpClient, uri: &str) -> (r: Result<(u16, isahc::Body), SendFailure>)
{
    let request = match isahc::Request::builder().uri(uri).body(Vec::<u8>::new()) {
        Ok(rq) => rq,
        Err(err) => {
            return Err(SendFailure::InvalidRequest(format!("{:?}", err)));
        },
    };
    match client.send(request) {
        Ok(response) => {
            let status = response.status().as_u16();
            Ok((status, response.into_body()))
        },
        Err(_) => Err(SendFailure::Transport),
    }
}

/// Relies on std::io::Read::read through isahc's Body: a successful read
/// returns how many bytes were placed at the front of the buffer, never
/// more than its length, and leaves the length unchanged.
#[verifier::external_body]
fn read_chunk(body: &mut isahc::Body, buf: &mut Vec<u8>) -> (r: Result<usize, String>)
    ensures
        r matches Ok(n) ==> n <= old(buf)@.len(),
        final(buf)@.len() == old(buf)@.len(),
{
    body.read(buf.as_mut_slice()).map_err(|e| format!("{}", e))
}

/// Relies on k8s_openapi's Event::list_event_for_all_namespaces with
/// default options: its request target is the fixed events path.
#[verifier::external_body]
fn event_list_request() -> (r: Result<String, String>)
    ensures
        r matches Ok(p) ==> p@ == "/api/v1/events?"@,
{
    let (request, _) = k8s_openapi::api::core::v1::Event::list_event_for_all_namespaces(
        Default::default(),
    ).map_err(|e| format!("{}", e))?;
    Ok(request.uri().to_string())
}

/// The request target that listing the pods of a namespace uses: a function
/// of the namespace alone (it is percent-encoded into the path).
pub uninterp spec fn pod_list_path_of(namespace: Seq<char>) -> Seq<char>;

/// Relies on k8s_openapi's Pod::list_namespaced_pod with default options:
/// its request target depends on the namespace alone.
#[verifier::external_body]
fn pod_list_request(namespace: &str) -> (r: Result<String, String>)
    ensures
        r matches Ok(p) ==> p@ == pod_list_path_of(namespace@),
{
    let (request, _) = k8s_openapi::api::core::v1::Pod::list_namespaced_pod(
        namespace,
        Default::default(),
    ).map_err(|e| format!("{}", e))?;
    Ok(request.uri().to_string())
}

/// The identity piece whose absence stops the connection build, in the
/// fixed check order.
#[derive(Debug, PartialEq, Eq, Structural, Clone, Copy)]
pub enum MissingPiece {
    /// No cluster entry at all.
    Cluster,
    /// No identity entry at all.
    AuthInfo,
    /// The first identity has no inline client certificate.
    Certificate,
    /// The first cluster has no inline certificate-authority data.
    CertificateAuthority,
    /// The first identity has no inline client key.
    Key,
}

/// Selecting the TLS material from a configuration: the first cluster and
/// first identity are consulted, and the inline certificate, CA and key are
/// required, checked in exactly that order — the reported missing piece is
/// the first unmet one.
pub open spec fn selection_of(conf: KubeConfig) -> Result<
    (Seq<char>, Seq<char>, Seq<char>),
    MissingPiece,
> {
    if conf.clusters@.len() == 0 {
        Err(MissingPiece::Cluster)
    } else if conf.auth_infos@.len() == 0 {
        Err(MissingPiece::AuthInfo)
    } else {
        match conf.auth_infos@[0].auth_info.client_certificate_data {
            None => Err(MissingPiece::Certificate),
            Some(crt) => match conf.clusters@[0].cluster.certificate_authority_data {
                None => Err(MissingPiece::CertificateAuthority),
                Some(ca) => match conf.auth_infos@[0].auth_info.client_key_data {
                    None => Err(MissingPiece::Key),
                    Some(key) => Ok((crt@, ca@, key@)),
                },
            },
        }
    }
}

/// The error that reports a missing piece, with the exact message the
/// library uses for it.
pub open spec fn missing_piece_error(p: MissingPiece, e: KubernetesError) -> bool {
    match p {
        MissingPiece::Cluster => e is ConfigLoadError,
        MissingPiece::AuthInfo => e matches KubernetesError::HttpClientBuildError { message }
            && message@ == "No auth_info item found in kubeconfig."@,
        MissingPiece::Certificate => e matches KubernetesError::HttpClientBuildError { message }
            && message@ == "Couldn't get client certificate from kubeconfig."@,
        MissingPiece::CertificateAuthority => e matches KubernetesError::HttpClientBuildError {
            message,
        } && message@ == "Couldn't get CA certificate from kubeconfig."@,
        MissingPiece::Key => e matches KubernetesError::HttpClientBuildError { message } && message@
            == "Couldn't get client key from kubeconfig."@,
    }
}

/// The inline TLS material selected from a configuration, still encoded.
#[derive(Debug)]
pub struct TlsMaterials {
    pub client_certificate_b64: String,
    pub certificate_authority_b64: String,
    pub client_key_b64: String,
}

/// Selects the TLS material per `selection_of`: first cluster, first
/// identity, inline forms required, checked certificate first, CA second,
/// key last.
pub fn select_tls_materials(conf: &KubeConfig) -> (r: Result<TlsMaterials, KubernetesError>)
    ensures
        match selection_of(*conf) {
            Ok(sel) => r matches Ok(m) && m.client_certificate_b64@ == sel.0
                && m.certificate_authority_b64@ == sel.1 && m.client_key_b64@ == sel.2,
            Err(p) => r matches Err(e) && missing_piece_error(p, e),
        },
{
    if conf.clusters.len() == 0 {
        return Err(KubernetesError::ConfigLoadError);
    }
    if conf.auth_infos.len() == 0 {
        return Err(
            KubernetesError::HttpClientBuildError {
                message: String::from_str("No auth_info item found in kubeconfig."),
            },
        );
    }
    let user = &conf.auth_infos[0].auth_info;
    let cluster = &conf.clusters[0].cluster;
    let crt = match &user.client_certificate_data {
        Some(c) => c.clone(),
        None => {
            return Err(
                KubernetesError::HttpClientBuildError {
                    message: String::from_str("Couldn't get client certificate from kubeconfig."),
                },
            );
        },
    };
    let ca = match &cluster.certificate_authority_data {
        Some(c) => c.clone(),
        None => {
            return Err(
                KubernetesError::HttpClientBuildError {
                    message: String::from_str("Couldn't get CA certificate from kubeconfig."),
                },
            );
        },
    };
    let key = match &user.client_key_data {
        Some(c) => c.clone(),
        None => {
            return Err(
                KubernetesError::HttpClientBuildError {
                    message: String::from_str("Couldn't get client key from kubeconfig."),
                },
            );
        },
    };
    Ok(
        TlsMaterials {
            client_certificate_b64: crt,
            certificate_authority_b64: ca,
            client_key_b64: key,
        },
    )
}

/// A configuration whose first cluster carries inline CA data and whose
/// first identity carries inline certificate and key data always selects
/// successfully, with exactly that material.
pub proof fn lemma_complete_config_selects(conf: KubeConfig)
    requires
        conf.clusters@.len() > 0,
        conf.auth_infos@.len() > 0,
        conf.auth_infos@[0].auth_info.client_certificate_data is Some,
        conf.clusters@[0].cluster.certificate_authority_data is Some,
        conf.auth_infos@[0].auth_info.client_key_data is Some,
    ensures
        selection_of(conf) matches Ok(sel) && sel.0
            == conf.auth_infos@[0].auth_info.client_certificate_data->0@ && sel.1
            == conf.clusters@[0].cluster.certificate_authority_data->0@ && sel.2
            == conf.auth_infos@[0].auth_info.client_key_data->0@,
{
}

/// With the certificate, the CA and the key all absent from an otherwise
/// populated configuration, the reported missing piece is the certificate:
/// the checks run in the fixed order certificate, CA, key, and the first
/// unmet one wins.
pub proof fn lemma_first_missing_piece_is_certificate(conf: KubeConfig)
    requires
        conf.clusters@.len() > 0,
        conf.auth_infos@.len() > 0,
        conf.auth_infos@[0].auth_info.client_certificate_data is None,
        conf.clusters@[0].cluster.certificate_authority_data is None,
        conf.auth_infos@[0].auth_info.client_key_data is None,
    ensures
        selection_of(conf) == Err::<(Seq<char>, Seq<char>, Seq<char>), MissingPiece>(
            MissingPiece::Certificate,
        ),
{
}

/// A connected session: the loaded configuration it was built from, the
/// TLS-capable client, and the base URI every request is prefixed with.
/// The transient CA file lives as long as the session and is removed when
/// the session is dropped.
#[derive(Debug)]
pub struct Kubernetes {
    pub kubeconfig: Result<KubeConfig, KubernetesError>,
    pub http_client: isahc::HttpClient,
    pub base_uri: String,
    /// Owns the transient CA file; the file is removed when the session is
    /// dropped.
    pub ca_file: tempfile::TempPath,
}

/// What `connect` must return.  A failed configuration load propagates as
/// the very error it carried; a selection failure is reported with the
/// first missing piece's error; past selection, a returned session carries
/// the given configuration and the derived base URI, a failure is the
/// transient file's I/O error, a decode failure of material that really
/// does not decode (with that decode's own diagnostic), or the transport
/// builder's own failure — and undecodable material obliges failure.
pub open spec fn connect_post(
    kubeconfig: Result<KubeConfig, KubernetesError>,
    scheme: Option<String>,
    host: Option<String>,
    port: Option<u32>,
    search_uri: bool,
    env_host: Option<String>,
    env_port: Option<String>,
    r: Result<Kubernetes, KubernetesError>,
) -> bool {
    match kubeconfig {
        Err(load_err) => r matches Err(e) && e == load_err,
        Ok(conf) => match selection_of(conf) {
            Err(p) => r matches Err(e) && missing_piece_error(p, e),
            Ok(sel) => {
                &&& (r matches Ok(k) ==> k.base_uri@ == spec_base_uri(
                    scheme,
                    host,
                    port,
                    search_uri,
                    env_host,
                    env_port,
                ) && (k.kubeconfig matches Ok(c) && c == conf))
                &&& ((base64_decoding_of(sel.0) is Err || base64_decoding_of(sel.2) is Err)
                    ==> r is Err)
                &&& (r matches Err(e) ==> (e matches KubernetesError::IoError { .. } || (e matches
                    KubernetesError::Base64DecodeError { message } && ((base64_decoding_of(sel.0)
                        matches Err(diag) && message@ == diag) || (base64_decoding_of(sel.2)
                        matches Err(diag) && message@ == diag))) || (e matches
                    KubernetesError::HttpClientBuildError { message } && (exists|diag: Seq<char>|
                        message@ == "Failed to initialize http client with client certificate: "@
                            + diag))))
            },
        },
    }
}

impl Kubernetes {
    /// Builds a session from an already-loaded configuration.  The explicit
    /// scheme, host and port and the service-discovery environment values
    /// (read by the caller, consulted only when `search_uri` is set) drive
    /// the base-URI derivation; see `connect_post` for the exact contract.
    pub fn connect(
        kubeconfig: Result<KubeConfig, KubernetesError>,
        scheme: Option<String>,
        host: Option<String>,
        port: Option<u32>,
        search_uri: bool,
        env_host: Option<String>,
        env_port: Option<String>,
    ) -> (r: Result<Kubernetes, KubernetesError>)
        ensures
            connect_post(kubeconfig, scheme, host, port, search_uri, env_host, env_port, r),
    {
        let conf = match kubeconfig {
            Ok(c) => c,
            Err(load_err) => {
                return Err(load_err);
            },
        };
        let mats = match select_tls_materials(&conf) {
            Ok(m) => m,
            Err(e) => {
                return Err(e);
            },
        };
        let (ca_file, ca_path) = match write_temp_file(mats.certificate_authority_b64.as_str()) {
            Ok(p) => p,
            Err(message) => {
                return Err(KubernetesError::IoError { message });
            },
        };
        let crt = match data_or_file_with_base64(
            &Some(mats.client_certificate_b64.clone()),
            &None,
        ) {
            Ok(v) => v,
            Err(e) => {
                return Err(e);
            },
        };
        let key = match data_or_file_with_base64(&Some(mats.client_key_b64.clone()), &None) {
            Ok(v) => v,
            Err(e) => {
                return Err(e);
            },
        };
        let http_client = match build_tls_client(crt, key, ca_path.as_str()) {
            Ok(c) => c,
            Err(diag) => {
                let message = String::from_str(
                    "Failed to initialize http client with client certificate: ",
                ).concat(diag.as_str());
                proof {
                    assert(message@ == "Failed to initialize http client with client certificate: "@
                        + diag@);
                }
                return Err(KubernetesError::HttpClientBuildError { message });
            },
        };
        let base_uri = resolve_base_uri(
            &scheme,
            &host,
            &port,
            search_uri,
            &env_host,
            &env_port,
        );
        Ok(Kubernetes { kubeconfig: Ok(conf), http_client, base_uri, ca_file })
    }

    /// Prefixes the request target with the base URI, sends the request,
    /// and gates on the status: only a success status yields the body, and
    /// every failure is the transport's request error or the builder's
    /// prefixed diagnostic.
    fn request(&self, path: &str) -> (r: Result<(u16, isahc::Body), KubernetesError>)
        ensures
            r matches Ok(p) ==> spec_status_success(p.0),
            r matches Err(e) ==> (e is HttpClientRequestError || (e matches
                KubernetesError::HttpClientBuildError { message } && (exists|diag: Seq<char>|
                    message@ == "Couldn't build request. Error: "@ + diag))),
    {
        let uri = self.base_uri.clone().concat(path);
        match send_get(&self.http_client, uri.as_str()) {
            Ok((status, body)) => {
                match check_status(status) {
                    Ok(_) => Ok((status, body)),
                    Err(e) => Err(e),
                }
            },
            Err(SendFailure::InvalidRequest(diag)) => {
                let message = String::from_str("Couldn't build request. Error: ").concat(
                    diag.as_str(),
                );
                proof {
                    assert(message@ == "Couldn't build request. Error: "@ + diag@);
                }
                Err(KubernetesError::HttpClientBuildError { message })
            },
            Err(SendFailure::Transport) => Err(KubernetesError::HttpClientRequestError),
        }
    }

    /// Fetches the event list across all namespaces and applies the time
    /// filter.  A returned list is the decode of some complete response
    /// body read under a success status, post-filtered per
    /// `filter_since_post`; in particular a malformed `since` value is
    /// always an error, never a silently unfiltered list.
    pub fn get_events(&self, since: Option<String>) -> (r: Result<Vec<Event>, KubernetesError>)
        ensures
            r matches Ok(v) ==> exists|status: u16, bytes: Seq<u8>, items: Vec<Event>|
                #![trigger event_list_outcome(status, bytes), filter_since_post(items@, since, Ok::<Vec<Event>, KubernetesError>(v))]
                spec_status_success(status) && event_list_outcome(status, bytes) == ListStep::<
                    Event,
                >::Done(items) && filter_since_post(
                    items@,
                    since,
                    Ok::<Vec<Event>, KubernetesError>(v),
                ),
            since matches Some(s) && crate::resources::rfc3339_micros_of(s@) is None ==> r is Err,
            r matches Err(e) ==> (e matches KubernetesError::ApiRequestError { .. } || e
                is HttpClientRequestError || (e matches KubernetesError::HttpClientBuildError {
                message,
            } && (exists|diag: Seq<char>| message@ == "Couldn't build request. Error: "@ + diag))
                || (exists|status: u16| #[trigger] spec_status_success(status) && drain_err_post(
                event_outcome_fn(status),
                e,
            )) || e matches KubernetesError::WrongDatetimeFormat { .. }),
    {
        let path = match event_list_request() {
            Ok(p) => p,
            Err(message) => {
                return Err(KubernetesError::ApiRequestError { message });
            },
        };
        let (status, mut body) = match self.request(path.as_str()) {
            Ok(p) => p,
            Err(e) => {
                return Err(e);
            },
        };
        let mut decoder = new_event_decoder(status);
        let items = match drain_event_decoder(&mut body, &mut decoder) {
            Ok(v) => v,
            Err(e) => {
                proof {
                    assert(spec_status_success(status) && drain_err_post(
                        event_outcome_fn(status),
                        e,
                    ));
                }
                return Err(e);
            },
        };
        let ghost items_snapshot = items;
        let r = filter_since(items, since);
        proof {
            if r is Ok {
                let bytes = choose|bytes: Seq<u8>|
                    event_list_outcome(status, bytes) == ListStep::<Event>::Done(items_snapshot);
                assert(spec_status_success(status) && event_list_outcome(status, bytes)
                    == ListStep::<Event>::Done(items_snapshot) && filter_since_post(
                    items_snapshot@,
                    since,
                    r,
                ));
            }
        }
        r
    }

    /// Fetches the pod list of a namespace.  A returned list is the decode
    /// of some complete response body read under a success status, in
    /// server order.
    pub fn list_pods(&self, namespace: String) -> (r: Result<Vec<Pod>, KubernetesError>)
        ensures
            r matches Ok(v) ==> exists|status: u16, bytes: Seq<u8>|
                spec_status_success(status) && #[trigger] pod_list_outcome(status, bytes)
                    == ListStep::<Pod>::Done(v),
            r matches Err(e) ==> (e matches KubernetesError::ApiRequestError { .. } || e
                is HttpClientRequestError || (e matches KubernetesError::HttpClientBuildError {
                message,
            } && (exists|diag: Seq<char>| message@ == "Couldn't build request. Error: "@ + diag))
                || (exists|status: u16| #[trigger] spec_status_success(status) && drain_err_post(
                pod_outcome_fn(status),
                e,
            ))),
    {
        let path = match pod_list_request(namespace.as_str()) {
            Ok(p) => p,
            Err(message) => {
                return Err(KubernetesError::ApiRequestError { message });
            },
        };
        let (status, mut body) = match self.request(path.as_str()) {
            Ok(p) => p,
            Err(e) => {
                return Err(e);
            },
        };
        let mut decoder = new_pod_decoder(status);
        let r = drain_pod_decoder(&mut body, &mut decoder);
        proof {
            if r is Err {
                let e = r->Err_0;
                assert(spec_status_success(status) && drain_err_post(pod_outcome_fn(status), e));
            }
        }
        r
    }
}

/// The status gate: exactly the success statuses pass, and any other
/// observed status is the request error — decided before the body is
/// touched.
fn check_status(status: u16) -> (r: Result<(), KubernetesError>)
    ensures
        r is Ok <==> spec_status_success(status),
        !spec_status_success(status) ==> (r matches Err(e) && e is HttpClientRequestError),
{
    if 200 <= status && status < 300 {
        Ok(())
    } else {
        Err(KubernetesError::HttpClientRequestError)
    }
}

/// Builds the fixed-size read buffer the fetch loops use.
fn make_buffer() -> (r: Vec<u8>)
    ensures
        r@.len() == 4096,
{
    let mut v: Vec<u8> = Vec::new();
    let mut i: usize = 0;
    while i < 4096
        invariant
            v@.len() == i,
            i <= 4096,
        decreases 4096 - i,
    {
        v.push(0u8);
        i = i + 1;
    }
    v
}

/// Reads the response body chunk by chunk into the event decoder until a
/// decisive parse.  A returned list is the decode outcome of the bytes
/// accumulated under the decoder's status; an end of stream (or an
/// exhausted retry budget) with the parse still pending is a parse error.
fn drain_event_decoder(body: &mut isahc::Body, d: &mut EventDecoder) -> (r: Result<
    Vec<Event>,
    KubernetesError,
>)
    ensures
        r matches Ok(v) ==> exists|bytes: Seq<u8>| #[trigger] event_list_outcome(
            event_status(*old(d)),
            bytes,
        ) == ListStep::<Event>::Done(v),
        r matches Err(e) ==> drain_err_post(event_outcome_fn(event_status(*old(d))), e),
{
    let mut buf = make_buffer();
    let mut attempts: u64 = 0;
    while attempts < 0xFFFF_FFFF_FFFF_FFFF
        invariant
            buf@.len() == 4096,
            event_status(*d) == event_status(*old(d)),
        decreases 0xFFFF_FFFF_FFFF_FFFF - attempts,
    {
        let n = match read_chunk(body, &mut buf) {
            Ok(n) => n,
            Err(diag) => {
                let message = String::from_str("Got error: ").concat(diag.as_str());
                proof {
                    assert(message@ == "Got error: "@ + diag@);
                }
                return Err(KubernetesError::HttpClientParseResponseError { message });
            },
        };
        if n == 0 {
            let message = String::from_str("response body ended while more data was expected");
            return Err(KubernetesError::HttpClientParseResponseError { message });
        }
        event_append(d, &buf, n);
        let ghost fed = event_buf(*d);
        let step = event_parse(d);
        match step {
            ListStep::Done(items) => {
                proof {
                    assert(event_list_outcome(event_status(*old(d)), fed) == ListStep::<
                        Event,
                    >::Done(items));
                }
                return Ok(items);
            },
            ListStep::NeedMore => {
            },
            ListStep::WrongShape(m) => {
                let message = String::from_str("expected Ok but got ").concat(m.as_str());
                proof {
                    assert((event_outcome_fn(event_status(*old(d))))(fed) matches ListStep::WrongShape(
                        mm,
                    ) && message@ == "expected Ok but got "@ + mm@);
                }
                return Err(KubernetesError::HttpClientParseResponseError { message });
            },
            ListStep::Failed(m) => {
                let message = String::from_str("error: ").concat(m.as_str());
                proof {
                    assert((event_outcome_fn(event_status(*old(d))))(fed) matches ListStep::Failed(mm)
                        && message@ == "error: "@ + mm@);
                }
                return Err(KubernetesError::HttpClientParseResponseError { message });
            },
        }
        attempts = attempts + 1;
    }
    let message = String::from_str("response body did not complete");
    Err(KubernetesError::HttpClientParseResponseError { message })
}

/// Reads the response body chunk by chunk into the pod decoder until a
/// decisive parse, exactly as `drain_event_decoder` does for events.
fn drain_pod_decoder(body: &mut isahc::Body, d: &mut PodDecoder) -> (r: Result<
    Vec<Pod>,
    KubernetesError,
>)
    ensures
        r matches Ok(v) ==> exists|bytes: Seq<u8>| #[trigger] pod_list_outcome(
            pod_status(*old(d)),
            bytes,
        ) == ListStep::<Pod>::Done(v),
        r matches Err(e) ==> drain_err_post(pod_outcome_fn(pod_status(*old(d))), e),
{
    let mut buf = make_buffer();
    let mut attempts: u64 = 0;
    while attempts < 0xFFFF_FFFF_FFFF_FFFF
        invariant
            buf@.len() == 4096,
            pod_status(*d) == pod_status(*old(d)),
        decreases 0xFFFF_FFFF_FFFF_FFFF - attempts,
    {
        let n = match read_chunk(body, &mut buf) {
            Ok(n) => n,
            Err(diag) => {
                let message = String::from_str("Got error: ").concat(diag.as_str());
                proof {
                    assert(message@ == "Got error: "@ + diag@);
                }
                return Err(KubernetesError::HttpClientParseResponseError { message });
            },
        };
        if n == 0 {
            let message = String::from_str("response body ended while more data was expected");
            return Err(KubernetesError::HttpClientParseResponseError { message });
        }
        pod_append(d, &buf, n);
        let ghost fed = pod_buf(*d);
        let step = pod_parse(d);
        match step {
            ListStep::Done(items) => {
                proof {
                    assert(pod_list_outcome(pod_status(*old(d)), fed) == ListStep::<Pod>::Done(
                        items,
                    ));
                }
                return Ok(items);
            },
            ListStep::NeedMore => {
            },
            ListStep::WrongShape(m) => {
                let message = String::from_str("expected Ok but got ").concat(m.as_str());
                proof {
                    assert((pod_outcome_fn(pod_status(*old(d))))(fed) matches ListStep::WrongShape(
                        mm,
                    ) && message@ == "expected Ok but got "@ + mm@);
                }
                return Err(KubernetesError::HttpClientParseResponseError { message });
            },
            ListStep::Failed(m) => {
                let message = String::from_str("error: ").concat(m.as_str());
                proof {
                    assert((pod_outcome_fn(pod_status(*old(d))))(fed) matches ListStep::Failed(mm)
                        && message@ == "error: "@ + mm@);
                }
                return Err(KubernetesError::HttpClientParseResponseError { message });
            },
        }
        attempts = attempts + 1;
    }
    let message = String::from_str("response body did not complete");
    Err(KubernetesError::HttpClientParseResponseError { message })
}

} // verus!
