use k8s_sync::decode::decode_event_chunks;
use k8s_sync::decode::decode_pod_chunks;
use k8s_sync::errors::KubernetesError;

fn event_list_body() -> Vec<u8> {
    let item = "{\"metadata\":{\"name\":\"e1\",\"namespace\":\"ns\"},\"involvedObject\":{},\"reason\":\"Started\",\"message\":\"container started\",\"eventTime\":\"2024-01-01T00:00:00.000000Z\"}";
    let untimed = "{\"metadata\":{\"name\":\"e2\"},\"involvedObject\":{}}";
    format!(
        "{{\"kind\":\"EventList\",\"apiVersion\":\"v1\",\"metadata\":{{}},\"items\":[{},{}]}}",
        item, untimed
    )
    .into_bytes()
}

fn pod_list_body() -> Vec<u8> {
    let item = "{\"metadata\":{\"name\":\"p1\",\"namespace\":\"kube-system\"},\"status\":{\"phase\":\"Running\"}}";
    format!(
        "{{\"kind\":\"PodList\",\"apiVersion\":\"v1\",\"metadata\":{{}},\"items\":[{}]}}",
        item
    )
    .into_bytes()
}

fn one_byte_chunks(body: &[u8]) -> Vec<Vec<u8>> {
    body.iter().map(|b| vec![*b]).collect()
}

fn sized_chunks(body: &[u8], size: usize) -> Vec<Vec<u8>> {
    body.chunks(size).map(|c| c.to_vec()).collect()
}

#[test]
fn whole_body_decodes_event_list() {
    let body = event_list_body();
    let items = decode_event_chunks(200, &vec![body]).unwrap();
    assert_eq!(items.len(), 2);
    assert_eq!(items[0].name, Some(String::from("e1")));
    assert_eq!(items[0].namespace, Some(String::from("ns")));
    assert_eq!(items[0].reason, Some(String::from("Started")));
    assert_eq!(items[0].message, Some(String::from("container started")));
    assert_eq!(items[0].event_time_micros, Some(1_704_067_200_000_000));
    assert_eq!(items[1].name, Some(String::from("e2")));
    assert_eq!(items[1].event_time_micros, None);
}

#[test]
fn one_byte_chunking_gives_same_event_list() {
    let body = event_list_body();
    let whole = decode_event_chunks(200, &vec![body.clone()]).unwrap();
    let trickled = decode_event_chunks(200, &one_byte_chunks(&body)).unwrap();
    assert_eq!(whole, trickled);
}

#[test]
fn large_chunking_gives_same_event_list() {
    let body = event_list_body();
    let whole = decode_event_chunks(200, &vec![body.clone()]).unwrap();
    let chunked = decode_event_chunks(200, &sized_chunks(&body, 4096)).unwrap();
    assert_eq!(whole, chunked);
    let chunked7 = decode_event_chunks(200, &sized_chunks(&body, 7)).unwrap();
    assert_eq!(whole, chunked7);
}

#[test]
fn non_success_status_is_request_error() {
    let body = event_list_body();
    let r = decode_event_chunks(404, &vec![body]);
    assert!(matches!(r, Err(KubernetesError::HttpClientRequestError)));
    let r = decode_event_chunks(500, &vec![event_list_body()]);
    assert!(matches!(r, Err(KubernetesError::HttpClientRequestError)));
}

#[test]
fn non_list_shape_is_parse_error() {
    // A success status that is not 200 parses as the "other" response shape.
    let body = event_list_body();
    let r = decode_event_chunks(201, &vec![body]);
    match r {
        Err(KubernetesError::HttpClientParseResponseError { message }) => {
            assert!(message.starts_with("expected Ok but got "));
        },
        other => panic!("expected a parse error, got {:?}", other),
    }
}

#[test]
fn malformed_body_is_parse_error() {
    let body = b"{\"unexpected\":true}".to_vec();
    let r = decode_event_chunks(200, &vec![body]);
    match r {
        Err(KubernetesError::HttpClientParseResponseError { message }) => {
            assert!(message.starts_with("error: "));
        },
        other => panic!("expected a parse error, got {:?}", other),
    }
}

#[test]
fn truncated_body_is_parse_error() {
    let body = event_list_body();
    let truncated = body[..body.len() - 5].to_vec();
    let r = decode_event_chunks(200, &one_byte_chunks(&truncated));
    assert!(matches!(r, Err(KubernetesError::HttpClientParseResponseError { .. })));
}

#[test]
fn empty_body_is_parse_error() {
    let r = decode_event_chunks(200, &Vec::new());
    assert!(matches!(r, Err(KubernetesError::HttpClientParseResponseError { .. })));
}

#[test]
fn whole_body_decodes_pod_list() {
    let body = pod_list_body();
    let items = decode_pod_chunks(200, &vec![body]).unwrap();
    assert_eq!(items.len(), 1);
    assert_eq!(items[0].name, Some(String::from("p1")));
    assert_eq!(items[0].namespace, Some(String::from("kube-system")));
    assert_eq!(items[0].phase, Some(String::from("Running")));
}

#[test]
fn one_byte_chunking_gives_same_pod_list() {
    let body = pod_list_body();
    let whole = decode_pod_chunks(200, &vec![body.clone()]).unwrap();
    let trickled = decode_pod_chunks(200, &one_byte_chunks(&body)).unwrap();
    assert_eq!(whole, trickled);
}
