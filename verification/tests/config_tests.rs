use k8s_sync::config::AuthInfo;
use k8s_sync::config::Cluster;
use k8s_sync::config::data_or_file_with_base64;
use k8s_sync::config::inline_credential;
use k8s_sync::errors::KubernetesError;

fn auth_info(
    cert_data: Option<String>,
    key_data: Option<String>,
    cert_path: Option<String>,
    key_path: Option<String>,
) -> AuthInfo {
    AuthInfo {
        username: None,
        password: None,
        token: None,
        token_file: None,
        client_certificate: cert_path,
        client_certificate_data: cert_data,
        client_key: key_path,
        client_key_data: key_data,
        impersonate: None,
        impersonate_groups: None,
        auth_provider: None,
        exec_config: None,
    }
}

#[test]
fn inline_round_trip() {
    let bytes: Vec<u8> = (0u8..=255u8).collect();
    let encoded = inline_credential(&bytes);
    assert_eq!(encoded, base64::encode(&bytes));
    let resolved = data_or_file_with_base64(&Some(encoded), &None);
    assert_eq!(resolved.unwrap(), bytes);
}

#[test]
fn inline_round_trip_empty() {
    let bytes: Vec<u8> = Vec::new();
    let encoded = inline_credential(&bytes);
    let resolved = data_or_file_with_base64(&Some(encoded), &None);
    assert_eq!(resolved.unwrap(), bytes);
}

#[test]
fn file_contents_returned_exactly() {
    let contents: Vec<u8> = b"-----BEGIN CERTIFICATE-----\nabc\n".to_vec();
    let resolved = data_or_file_with_base64(&None, &Some(contents.clone()));
    assert_eq!(resolved.unwrap(), contents);
}

#[test]
fn inline_preferred_over_file() {
    let inline = inline_credential(&b"inline".to_vec());
    let resolved = data_or_file_with_base64(&Some(inline), &Some(b"file".to_vec()));
    assert_eq!(resolved.unwrap(), b"inline".to_vec());
}

#[test]
fn absent_credential_is_invalid_data() {
    let resolved = data_or_file_with_base64(&None, &None);
    assert!(matches!(resolved, Err(KubernetesError::InvalidDataError)));
}

#[test]
fn malformed_base64_is_decode_error() {
    let resolved = data_or_file_with_base64(&Some(String::from("!!not base64!!")), &None);
    match resolved {
        Err(KubernetesError::Base64DecodeError { message }) => {
            let expected = format!("{}", base64::decode("!!not base64!!").unwrap_err());
            assert_eq!(message, expected);
        },
        other => panic!("expected a decode error, got {:?}", other),
    }
}

#[test]
fn resolution_is_repeatable() {
    let bad = Some(String::from("!!not base64!!"));
    let first = data_or_file_with_base64(&bad, &None);
    let second = data_or_file_with_base64(&bad, &None);
    match (first, second) {
        (
            Err(KubernetesError::Base64DecodeError { message: m1 }),
            Err(KubernetesError::Base64DecodeError { message: m2 }),
        ) => assert_eq!(m1, m2),
        other => panic!("expected matching decode errors, got {:?}", other),
    }
}

#[test]
fn load_client_certificate_decodes_inline() {
    let user = auth_info(Some(base64::encode(b"CERT")), None, None, None);
    let loaded = user.load_client_certificate(&None);
    assert_eq!(loaded.unwrap(), b"CERT".to_vec());
}

#[test]
fn load_client_key_uses_file_contents() {
    let user = auth_info(None, None, None, Some(String::from("/tmp/key.pem")));
    let loaded = user.load_client_key(&Some(b"KEY".to_vec()));
    assert_eq!(loaded.unwrap(), b"KEY".to_vec());
}

#[test]
fn load_certificate_authority_absent_is_none() {
    let cluster = Cluster {
        server: String::from("https://example:6443"),
        insecure_skip_tls_verify: None,
        certificate_authority: None,
        certificate_authority_data: None,
    };
    assert!(cluster.load_certificate_authority(&None).is_none());
}

#[test]
fn load_certificate_authority_inline() {
    let cluster = Cluster {
        server: String::from("https://example:6443"),
        insecure_skip_tls_verify: None,
        certificate_authority: None,
        certificate_authority_data: Some(base64::encode(b"CA")),
    };
    let loaded = cluster.load_certificate_authority(&None).unwrap();
    assert_eq!(loaded.unwrap(), b"CA".to_vec());
}

#[test]
fn error_descriptions() {
    assert_eq!(
        KubernetesError::ConfigLoadError.describe(),
        String::from("Could not load Kube Config.")
    );
    let e = KubernetesError::Base64DecodeError { message: String::from("bad pad") };
    assert_eq!(e.describe(), String::from("Couldn't decode base 64. Source: bad pad"));
    let e = KubernetesError::ApiRequestError { message: String::from("boom") };
    assert_eq!(e.describe(), String::from("API returned error: boom."));
}
