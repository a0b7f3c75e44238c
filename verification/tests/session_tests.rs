use k8s_sync::config::AuthInfo;
use k8s_sync::config::Cluster;
use k8s_sync::config::KubeConfig;
use k8s_sync::config::NamedAuthInfo;
use k8s_sync::config::NamedCluster;
use k8s_sync::errors::KubernetesError;
use k8s_sync::kubernetes::Kubernetes;
use k8s_sync::kubernetes::select_tls_materials;
use k8s_sync::uri::u32_to_string;

fn auth_info(cert_data: Option<String>, key_data: Option<String>) -> AuthInfo {
    AuthInfo {
        username: None,
        password: None,
        token: None,
        token_file: None,
        client_certificate: None,
        client_certificate_data: cert_data,
        client_key: None,
        client_key_data: key_data,
        impersonate: None,
        impersonate_groups: None,
        auth_provider: None,
        exec_config: None,
    }
}

fn kubeconfig(
    ca_data: Option<String>,
    cert_data: Option<String>,
    key_data: Option<String>,
) -> KubeConfig {
    KubeConfig {
        kind: Some(String::from("Config")),
        api_version: Some(String::from("v1")),
        preferences: None,
        clusters: vec![NamedCluster {
            name: String::from("local"),
            cluster: Cluster {
                server: String::from("https://localhost:6443"),
                insecure_skip_tls_verify: None,
                certificate_authority: None,
                certificate_authority_data: ca_data,
            },
        }],
        auth_infos: vec![NamedAuthInfo {
            name: String::from("admin"),
            auth_info: auth_info(cert_data, key_data),
        }],
        contexts: Vec::new(),
        current_context: String::from("local"),
        extensions: None,
    }
}

fn complete_kubeconfig() -> KubeConfig {
    kubeconfig(
        Some(base64::encode(b"CA PEM")),
        Some(base64::encode(b"CERT PEM")),
        Some(base64::encode(b"KEY PEM")),
    )
}

#[test]
fn read_config() {
    let client = Kubernetes::connect(
        Ok(complete_kubeconfig()),
        None,
        None,
        None,
        false,
        None,
        None,
    );
    assert!(client.is_ok());
    let client = client.unwrap();
    assert!(client.kubeconfig.is_ok());
    let kubeconfig = client.kubeconfig.unwrap();
    assert!(!kubeconfig.auth_infos.is_empty())
}

#[test]
fn list_pods() {
    // Nothing listens on the default endpoint here, so the fetch must fail
    // with the transport's request error rather than hang or panic.
    let client = Kubernetes::connect(
        Ok(complete_kubeconfig()),
        None,
        None,
        None,
        false,
        None,
        None,
    );
    if let Ok(c) = client {
        let pods = c.list_pods(String::from("kube-system"));
        assert!(matches!(pods, Err(KubernetesError::HttpClientRequestError)));
    } else {
        panic!("Couldn't connect to cluster");
    }
}

#[test]
fn get_events_against_unreachable_endpoint() {
    let client = Kubernetes::connect(
        Ok(complete_kubeconfig()),
        None,
        None,
        None,
        false,
        None,
        None,
    )
    .unwrap();
    let events = client.get_events(None);
    assert!(matches!(events, Err(KubernetesError::HttpClientRequestError)));
}

#[test]
fn base_uri_defaults() {
    let c = Kubernetes::connect(Ok(complete_kubeconfig()), None, None, None, false, None, None)
        .unwrap();
    assert_eq!(c.base_uri, String::from("https://localhost:6443"));
}

#[test]
fn base_uri_explicit_parts() {
    let c = Kubernetes::connect(
        Ok(complete_kubeconfig()),
        Some(String::from("http")),
        Some(String::from("cluster.example")),
        Some(8080),
        false,
        None,
        None,
    )
    .unwrap();
    assert_eq!(c.base_uri, String::from("http://cluster.example:8080"));
}

#[test]
fn base_uri_discovery_uses_environment_values() {
    let c = Kubernetes::connect(
        Ok(complete_kubeconfig()),
        Some(String::from("http")),
        Some(String::from("explicit.example")),
        Some(8080),
        true,
        Some(String::from("svc.example")),
        Some(String::from("443")),
    )
    .unwrap();
    assert_eq!(c.base_uri, String::from("https://svc.example:443"));
}

#[test]
fn base_uri_discovery_port_80_is_http() {
    let c = Kubernetes::connect(
        Ok(complete_kubeconfig()),
        None,
        None,
        None,
        true,
        Some(String::from("svc.example")),
        Some(String::from("80")),
    )
    .unwrap();
    assert_eq!(c.base_uri, String::from("http://svc.example:80"));
}

#[test]
fn base_uri_discovery_other_port_is_https() {
    let c = Kubernetes::connect(
        Ok(complete_kubeconfig()),
        None,
        None,
        None,
        true,
        Some(String::from("svc.example")),
        Some(String::from("8443")),
    )
    .unwrap();
    assert_eq!(c.base_uri, String::from("https://svc.example:8443"));
}

#[test]
fn base_uri_discovery_falls_back_without_environment() {
    let c = Kubernetes::connect(
        Ok(complete_kubeconfig()),
        None,
        Some(String::from("fallback.example")),
        Some(9443),
        true,
        None,
        None,
    )
    .unwrap();
    assert_eq!(c.base_uri, String::from("https://fallback.example:9443"));
}

#[test]
fn connect_propagates_failed_config_load() {
    let r = Kubernetes::connect(
        Err(KubernetesError::ConfigLoadError),
        None,
        None,
        None,
        false,
        None,
        None,
    );
    assert!(matches!(r, Err(KubernetesError::ConfigLoadError)));
    let r = Kubernetes::connect(
        Err(KubernetesError::IoError { message: String::from("open failed") }),
        None,
        None,
        None,
        false,
        None,
        None,
    );
    match r {
        Err(KubernetesError::IoError { message }) => {
            assert_eq!(message, String::from("open failed"));
        },
        other => panic!("expected the carried io error, got {:?}", other),
    }
}

#[test]
fn connect_without_clusters_is_config_load_error() {
    let mut conf = complete_kubeconfig();
    conf.clusters = Vec::new();
    let r = Kubernetes::connect(Ok(conf), None, None, None, false, None, None);
    assert!(matches!(r, Err(KubernetesError::ConfigLoadError)));
}

#[test]
fn connect_without_auth_info_names_it() {
    let mut conf = complete_kubeconfig();
    conf.auth_infos = Vec::new();
    let r = Kubernetes::connect(Ok(conf), None, None, None, false, None, None);
    match r {
        Err(KubernetesError::HttpClientBuildError { message }) => {
            assert_eq!(message, String::from("No auth_info item found in kubeconfig."));
        },
        other => panic!("expected a build error, got {:?}", other),
    }
}

#[test]
fn first_missing_piece_is_certificate() {
    // With certificate, CA and key all absent, the fixed check order makes
    // the certificate the reported missing piece.
    let conf = kubeconfig(None, None, None);
    let r = select_tls_materials(&conf);
    match r {
        Err(KubernetesError::HttpClientBuildError { message }) => {
            assert_eq!(message, String::from("Couldn't get client certificate from kubeconfig."));
        },
        other => panic!("expected a build error, got {:?}", other),
    }
}

#[test]
fn missing_ca_reported_after_certificate() {
    let conf = kubeconfig(None, Some(base64::encode(b"CERT")), None);
    let r = select_tls_materials(&conf);
    match r {
        Err(KubernetesError::HttpClientBuildError { message }) => {
            assert_eq!(message, String::from("Couldn't get CA certificate from kubeconfig."));
        },
        other => panic!("expected a build error, got {:?}", other),
    }
}

#[test]
fn missing_key_reported_last() {
    let conf = kubeconfig(Some(base64::encode(b"CA")), Some(base64::encode(b"CERT")), None);
    let r = select_tls_materials(&conf);
    match r {
        Err(KubernetesError::HttpClientBuildError { message }) => {
            assert_eq!(message, String::from("Couldn't get client key from kubeconfig."));
        },
        other => panic!("expected a build error, got {:?}", other),
    }
}

#[test]
fn connect_rejects_undecodable_certificate() {
    let conf = kubeconfig(
        Some(base64::encode(b"CA")),
        Some(String::from("!!not base64!!")),
        Some(base64::encode(b"KEY")),
    );
    let r = Kubernetes::connect(Ok(conf), None, None, None, false, None, None);
    assert!(matches!(r, Err(KubernetesError::Base64DecodeError { .. })));
}

#[test]
fn decimal_formatting() {
    assert_eq!(u32_to_string(0), String::from("0"));
    assert_eq!(u32_to_string(6443), String::from("6443"));
    assert_eq!(u32_to_string(4294967295), String::from("4294967295"));
}
