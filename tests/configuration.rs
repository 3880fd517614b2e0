use azure_iot_sdk::config::{
    client_options, confirmation_timeout, do_work_frequency, parse_u64, ClientOption, RetryPolicy,
    RetrySetting,
};

#[test]
fn do_work_frequency_values() {
    assert_eq!(do_work_frequency(None), 100);
    assert_eq!(do_work_frequency(Some("0")), 0);
    assert_eq!(do_work_frequency(Some("42")), 42);
    assert_eq!(do_work_frequency(Some("+7")), 7);
    assert_eq!(do_work_frequency(Some("100")), 100);
    assert_eq!(do_work_frequency(Some("101")), 100);
    assert_eq!(do_work_frequency(Some("-1")), 100);
    assert_eq!(do_work_frequency(Some(" 5")), 100);
    assert_eq!(do_work_frequency(Some("")), 100);
}

#[test]
fn confirmation_timeout_values() {
    assert_eq!(confirmation_timeout(None), 30);
    assert_eq!(confirmation_timeout(Some("300")), 300);
    assert_eq!(confirmation_timeout(Some("5s")), 30);
    assert_eq!(confirmation_timeout(Some("18446744073709551615")), u64::MAX);
    assert_eq!(confirmation_timeout(Some("18446744073709551616")), 30);
}

#[test]
fn retry_codes() {
    assert_eq!(RetryPolicy::NoRetry.native_code(), 0);
    assert_eq!(RetryPolicy::ExponentialBackoffWithJitter.native_code(), 5);
    assert_eq!(RetryPolicy::Random.native_code(), 6);
}

#[test]
fn options_in_order() {
    let retry = RetrySetting { policy: RetryPolicy::Interval, timeout_secs: 60 };
    let v = client_options(Some("50"), true, Some("dtmi:x;1".to_string()), Some(retry)).unwrap();
    assert_eq!(v.len(), 4);
    assert!(matches!(v[0], ClientOption::DoWorkFrequency(50)));
    assert!(matches!(v[1], ClientOption::LogTrace));
    assert!(matches!(&v[2], ClientOption::ModelId(m) if m == "dtmi:x;1"));
    assert!(matches!(v[3], ClientOption::Retry(r) if r == retry));
    let v = client_options(None, false, None, None).unwrap();
    assert_eq!(v.len(), 1);
    assert!(matches!(v[0], ClientOption::DoWorkFrequency(100)));
    assert!(client_options(None, false, Some("a\0".to_string()), None).is_err());
}

#[test]
fn decimal_reading() {
    assert_eq!(parse_u64("0"), Some(0));
    assert_eq!(parse_u64("007"), Some(7));
    assert_eq!(parse_u64("+12"), Some(12));
    assert_eq!(parse_u64("+"), None);
    assert_eq!(parse_u64(""), None);
    assert_eq!(parse_u64("++1"), None);
    assert_eq!(parse_u64("1a"), None);
    assert_eq!(parse_u64("18446744073709551615"), Some(u64::MAX));
    assert_eq!(parse_u64("18446744073709551616"), None);
    assert_eq!(parse_u64("99999999999999999999x"), None);
}
