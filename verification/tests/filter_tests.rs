use k8s_sync::errors::KubernetesError;
use k8s_sync::resources::Event;
use k8s_sync::resources::filter_since;

fn event(name: &str, time_micros: Option<i64>) -> Event {
    Event {
        name: Some(String::from(name)),
        namespace: None,
        reason: None,
        message: None,
        event_time_micros: time_micros,
    }
}

const T_2023_12_31_23_59_59: i64 = 1_704_067_199_000_000;
const T_2024_01_01_00_00_00: i64 = 1_704_067_200_000_000;
const T_2024_06_01_00_00_00: i64 = 1_717_200_000_000_000;

#[test]
fn no_cutoff_returns_all_events_unchanged() {
    let events = vec![
        event("a", Some(T_2023_12_31_23_59_59)),
        event("b", None),
        event("c", Some(T_2024_06_01_00_00_00)),
    ];
    let out = filter_since(events.clone(), None).unwrap();
    assert_eq!(out, events);
}

#[test]
fn cutoff_keeps_boundary_and_later_in_order() {
    let events = vec![
        event("before", Some(T_2023_12_31_23_59_59)),
        event("boundary", Some(T_2024_01_01_00_00_00)),
        event("later", Some(T_2024_06_01_00_00_00)),
        event("untimed", None),
    ];
    let out = filter_since(events, Some(String::from("2024-01-01T00:00:00Z"))).unwrap();
    assert_eq!(out.len(), 2);
    assert_eq!(out[0].name, Some(String::from("boundary")));
    assert_eq!(out[1].name, Some(String::from("later")));
}

#[test]
fn malformed_cutoff_is_datetime_error_not_passthrough() {
    let events = vec![event("a", Some(T_2024_06_01_00_00_00))];
    let out = filter_since(events, Some(String::from("not-a-date")));
    assert!(matches!(out, Err(KubernetesError::WrongDatetimeFormat { .. })));
}

#[test]
fn cutoff_on_empty_list() {
    let out = filter_since(Vec::new(), Some(String::from("2024-01-01T00:00:00Z"))).unwrap();
    assert!(out.is_empty());
}

#[test]
fn cutoff_with_offset_timezone() {
    // 2024-01-01T01:00:00+01:00 is the same instant as midnight UTC.
    let events = vec![
        event("before", Some(T_2023_12_31_23_59_59)),
        event("boundary", Some(T_2024_01_01_00_00_00)),
    ];
    let out = filter_since(events, Some(String::from("2024-01-01T01:00:00+01:00"))).unwrap();
    assert_eq!(out.len(), 1);
    assert_eq!(out[0].name, Some(String::from("boundary")));
}
