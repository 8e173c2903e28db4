use aws_iot_device_sdk::topic::{check_filter, check_topic};

#[test]
fn plain_topics_are_valid() {
    assert!(check_topic("devices/thing-1/shadow"));
    assert!(check_topic(""));
    assert!(check_topic("a/b/c"));
}

#[test]
fn wildcard_topics_are_invalid() {
    assert!(!check_topic("devices/+/shadow"));
    assert!(!check_topic("devices/#"));
    assert!(!check_topic("#"));
    assert!(!check_topic("a+b"));
}

#[test]
fn plain_filters_are_valid() {
    assert!(check_filter("devices/thing-1/shadow"));
    assert!(check_filter("a"));
    assert!(check_filter("/"));
}

#[test]
fn well_placed_wildcards_are_valid_filters() {
    assert!(check_filter("#"));
    assert!(check_filter("devices/#"));
    assert!(check_filter("+"));
    assert!(check_filter("devices/+/shadow"));
    assert!(check_filter("+/+"));
    assert!(check_filter("devices/+"));
}

#[test]
fn misplaced_wildcards_are_invalid_filters() {
    assert!(!check_filter(""));
    assert!(!check_filter("devices#"));
    assert!(!check_filter("devices/#/shadow"));
    assert!(!check_filter("devices/th#ng"));
    assert!(!check_filter("devices+"));
    assert!(!check_filter("devices/+x"));
    assert!(!check_filter("devices/x+/shadow"));
    assert!(!check_filter("##"));
    assert!(!check_filter("++"));
}
