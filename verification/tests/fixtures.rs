use debug_counter::fixtures::{test_data, GetTimeoutAsSeconds};

#[test]
fn test_data_holds_two_pairs() {
    let data = test_data();
    assert_eq!(
        data,
        vec![
            ("key1".to_string(), "val1".to_string()),
            ("key2".to_string(), "val2".to_string()),
        ]
    );
}

#[test]
fn timeout_is_echoed_in_seconds() {
    let svc = GetTimeoutAsSeconds;
    let reply = svc.call(Some(1_000_000_000));
    assert_eq!(reply.status, 200);
    assert_eq!(reply.body, "1");
    let reply = svc.call(Some(5_000_000_000));
    assert_eq!(reply.status, 200);
    assert_eq!(reply.body, "5");
    let reply = svc.call(Some(1_999_000_000));
    assert_eq!(reply.body, "1");
    let reply = svc.call(Some(999_999_999));
    assert_eq!(reply.body, "0");
}

#[test]
fn missing_timeout_is_a_server_error() {
    let reply = GetTimeoutAsSeconds.call(None);
    assert_eq!(reply.status, 500);
    assert_eq!(reply.body, "");
}
