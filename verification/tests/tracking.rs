use rastercar::text::{chars_of, format_int, parse_i32};
use rastercar::tracking::{
    check_subscription_size, decide_tracker_event, plan_subscription, split_chars, TrackerEvent,
    TRACKER_SUBSCRIPTION_PER_USER_LIMIT,
};

#[test]
fn format_int_renders_decimal() {
    assert_eq!(format_int(0), "0");
    assert_eq!(format_int(42), "42");
    assert_eq!(format_int(-7), "-7");
    assert_eq!(format_int(i64::MIN), "-9223372036854775808");
    assert_eq!(format_int(i64::MAX), "9223372036854775807");
}

#[test]
fn parse_i32_reads_what_format_writes() {
    for n in [0i32, 1, -1, 123456, i32::MAX, i32::MIN] {
        let s = format_int(n as i64);
        assert_eq!(parse_i32(&chars_of(&s), 0), Some(n));
    }
}

#[test]
fn parse_i32_follows_str_parse() {
    for s in ["+5", "-0", "007", "", "-", "+", "12a", "2147483648", "-2147483649", "-2147483648", "99999999999"] {
        assert_eq!(parse_i32(&chars_of(s), 0), s.parse::<i32>().ok(), "input {s:?}");
    }
}

#[test]
fn split_chars_matches_str_split() {
    for s in ["", ".", "a.b.c", "..", "abc", "h02.location.123."] {
        let parts: Vec<String> = split_chars(&chars_of(s), '.')
            .into_iter()
            .map(|p| p.into_iter().collect())
            .collect();
        let expected: Vec<String> = s.split('.').map(String::from).collect();
        assert_eq!(parts, expected, "input {s:?}");
    }
}

#[test]
fn h02_location_event_is_handled() {
    match decide_tracker_event("h02.location.863829055667777") {
        TrackerEvent::H02Location(imei) => assert_eq!(imei, "863829055667777"),
        other => panic!("unexpected {other:?}"),
    }
}

#[test]
fn unsupported_event_names_protocol_and_type() {
    match decide_tracker_event("h02.alert.123") {
        TrackerEvent::UnsupportedEvent(pe) => assert_eq!(pe, "h02.alert"),
        other => panic!("unexpected {other:?}"),
    }
    match decide_tracker_event("gt06.location.123") {
        TrackerEvent::UnsupportedEvent(pe) => assert_eq!(pe, "gt06.location"),
        other => panic!("unexpected {other:?}"),
    }
}

#[test]
fn malformed_routing_keys_are_invalid() {
    for key in ["", "h02.location", "h02.location.1.2", "h02..123", ".location.1", "h02.location."] {
        assert!(matches!(decide_tracker_event(key), TrackerEvent::InvalidRoutingKey), "key {key:?}");
    }
}

#[test]
fn subscription_limit_is_twenty() {
    assert_eq!(TRACKER_SUBSCRIPTION_PER_USER_LIMIT, 20);
    assert!(check_subscription_size(&(0..20).collect()).is_ok());
    assert_eq!(
        check_subscription_size(&(0..21).collect()),
        Err(String::from("cannot listen to over 20 trackers"))
    );
}

#[test]
fn subscription_reports_missing_trackers() {
    let plan = plan_subscription(&vec![1, 2, 3, 4], &vec![2, 4]);
    assert_eq!(plan.error.as_deref(), Some("cannot listen to not found trackers: 1, 3"));
    assert_eq!(plan.rooms, vec![String::from("2"), String::from("4")]);
}

#[test]
fn subscription_without_missing_trackers_has_no_error() {
    let plan = plan_subscription(&vec![7, -3], &vec![-3, 7]);
    assert!(plan.error.is_none());
    assert_eq!(plan.rooms, vec![String::from("-3"), String::from("7")]);
    let empty = plan_subscription(&vec![], &vec![]);
    assert!(empty.error.is_none());
    assert!(empty.rooms.is_empty());
}
