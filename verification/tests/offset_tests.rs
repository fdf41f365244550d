use durable_streams::{LiveMode, Offset};
use std::cmp::Ordering;

#[test]
fn live_mode_query_values() {
    assert_eq!(LiveMode::Off.to_query_value(), None);
    assert_eq!(LiveMode::Auto.to_query_value(), Some("sse"));
    assert_eq!(LiveMode::LongPoll.to_query_value(), Some("long-poll"));
    assert_eq!(LiveMode::Sse.to_query_value(), Some("sse"));
}

#[test]
fn live_mode_is_live_except_off() {
    assert!(!LiveMode::Off.is_live());
    assert!(LiveMode::Auto.is_live());
    assert!(LiveMode::LongPoll.is_live());
    assert!(LiveMode::Sse.is_live());
    assert_eq!(LiveMode::default(), LiveMode::Off);
}

#[test]
fn parse_maps_sentinels_and_tokens() {
    assert!(Offset::parse("-1").is_beginning());
    assert!(Offset::parse("").is_beginning());
    assert!(Offset::parse("now").is_now());
    let at = Offset::parse("0000000042");
    assert!(!at.is_beginning());
    assert!(!at.is_now());
    assert_eq!(at.to_query_value(), "0000000042");
}

#[test]
fn parse_then_to_query_value_round_trips() {
    for input in ["-1", "now", "abc123", "0", " ", "zzz"] {
        assert_eq!(Offset::parse(input).to_query_value(), input);
    }
    // The empty string is the one exception: it parses to the beginning.
    assert_eq!(Offset::parse("").to_query_value(), "-1");
}

#[test]
fn at_constructor_keeps_the_token() {
    let o = Offset::at("abc123");
    assert_eq!(o.to_query_value(), "abc123");
    assert_eq!(o.as_str(), "abc123");
}

#[test]
fn as_str_matches_query_value_for_sentinels() {
    assert_eq!(Offset::Beginning.as_str(), "-1");
    assert_eq!(Offset::Now.as_str(), "now");
}

#[test]
fn default_is_beginning() {
    assert!(Offset::default().is_beginning());
}

#[test]
fn equality_is_by_value() {
    assert_eq!(Offset::parse("abc"), Offset::at("abc"));
    assert_ne!(Offset::parse("abc"), Offset::at("abd"));
    assert_eq!(Offset::parse("-1"), Offset::Beginning);
    assert_ne!(Offset::Beginning, Offset::Now);
}

#[test]
fn at_tokens_compare_lexicographically() {
    let a = Offset::at("abc");
    let b = Offset::at("abd");
    assert_eq!(a.partial_cmp(&b), Some(Ordering::Less));
    assert_eq!(b.partial_cmp(&a), Some(Ordering::Greater));
    assert_eq!(a.partial_cmp(&Offset::at("abc")), Some(Ordering::Equal));
    assert_eq!(
        Offset::at("ab").partial_cmp(&Offset::at("abc")),
        Some(Ordering::Less)
    );
}

#[test]
fn beginning_is_below_every_token() {
    let b = Offset::Beginning;
    let t = Offset::at("0");
    assert_eq!(b.partial_cmp(&t), Some(Ordering::Less));
    assert_eq!(t.partial_cmp(&b), Some(Ordering::Greater));
    assert_eq!(b.partial_cmp(&Offset::Beginning), Some(Ordering::Equal));
}

#[test]
fn now_compares_only_with_itself() {
    assert_eq!(Offset::Now.partial_cmp(&Offset::Now), Some(Ordering::Equal));
    assert_eq!(Offset::Now.partial_cmp(&Offset::Beginning), None);
    assert_eq!(Offset::Now.partial_cmp(&Offset::at("x")), None);
    assert_eq!(Offset::at("x").partial_cmp(&Offset::Now), None);
}
