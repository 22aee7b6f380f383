use sawtooth_pbft::{
    decode_members, get_members_from_settings, merge_millis_setting_if_set,
    merge_secs_setting_if_set, merge_setting_if_set, merge_setting_if_set_and_map,
    parse_decimal_u64, requested_setting_keys, ConfigError, Interval, PbftConfig, RetryAction,
    RetryBackoff, Settings, BLOCK_PUBLISHING_DELAY_KEY, COMMIT_TIMEOUT_KEY,
    FORCED_VIEW_CHANGE_PERIOD_KEY, IDLE_TIMEOUT_KEY, MEMBERS_KEY, VIEW_CHANGE_DURATION_KEY,
};

fn settings(pairs: &[(&str, &str)]) -> Settings {
    let mut s = Settings::new();
    for (k, v) in pairs {
        s.insert(k.to_string(), v.to_string());
    }
    s
}

const MEMBERS: &str = "[\"0a1b\", \"ff\", \"0a1b\"]";

fn assert_same(a: &PbftConfig, b: &PbftConfig) {
    assert_eq!(a.members, b.members);
    assert_eq!(a.block_publishing_delay, b.block_publishing_delay);
    assert_eq!(a.update_recv_timeout, b.update_recv_timeout);
    assert_eq!(a.exponential_retry_base, b.exponential_retry_base);
    assert_eq!(a.exponential_retry_max, b.exponential_retry_max);
    assert_eq!(a.idle_timeout, b.idle_timeout);
    assert_eq!(a.commit_timeout, b.commit_timeout);
    assert_eq!(a.view_change_duration, b.view_change_duration);
    assert_eq!(a.forced_view_change_period, b.forced_view_change_period);
    assert_eq!(a.max_log_size, b.max_log_size);
    assert_eq!(a.storage, b.storage);
}

#[test]
fn defaults_are_the_documented_values() {
    let c = PbftConfig::default();
    assert!(c.members.is_empty());
    assert_eq!(c.block_publishing_delay.as_millis(), 200);
    assert_eq!(c.update_recv_timeout.as_millis(), 10);
    assert_eq!(c.exponential_retry_base.as_millis(), 100);
    assert_eq!(c.exponential_retry_max.as_millis(), 60_000);
    assert_eq!(c.idle_timeout.as_millis(), 30_000);
    assert_eq!(c.commit_timeout.as_millis(), 30_000);
    assert_eq!(c.view_change_duration.as_millis(), 5_000);
    assert_eq!(c.forced_view_change_period, 30);
    assert_eq!(c.max_log_size, 1000);
    assert_eq!(c.storage, "memory");
}

#[test]
fn default_delay_below_idle_timeout() {
    let c = PbftConfig::default();
    assert!(c.block_publishing_delay.as_millis() < c.idle_timeout.as_millis());
}

#[test]
fn members_decoded_in_order_with_repeats() {
    let s = settings(&[(MEMBERS_KEY, MEMBERS)]);
    let m = get_members_from_settings(&s).unwrap();
    assert_eq!(m, vec![vec![0x0a, 0x1b], vec![0xff], vec![0x0a, 0x1b]]);
    let mut c = PbftConfig::default();
    assert_eq!(c.load_settings(&s), Ok(()));
    assert_eq!(c.members, m);
}

#[test]
fn members_accept_upper_case_and_empty_strings() {
    let list = vec!["ABcd".to_string(), String::new()];
    assert_eq!(decode_members(&list), Ok(vec![vec![0xab, 0xcd], vec![]]));
}

#[test]
fn missing_members_is_fatal() {
    let s = settings(&[(IDLE_TIMEOUT_KEY, "40"), (COMMIT_TIMEOUT_KEY, "10")]);
    let mut c = PbftConfig::default();
    assert_eq!(c.load_settings(&s), Err(ConfigError::MissingMembers));
    assert_eq!(get_members_from_settings(&s), Err(ConfigError::MissingMembers));
}

#[test]
fn members_not_json_is_fatal() {
    let s = settings(&[(MEMBERS_KEY, "not json")]);
    let mut c = PbftConfig::default();
    assert_eq!(c.load_settings(&s), Err(ConfigError::MembersNotJson));
}

#[test]
fn members_of_wrong_json_type_is_fatal() {
    let s = settings(&[(MEMBERS_KEY, "[1, 2]")]);
    assert_eq!(get_members_from_settings(&s), Err(ConfigError::MembersNotJson));
}

#[test]
fn non_hex_member_is_fatal() {
    let s = settings(&[(MEMBERS_KEY, "[\"0a1b\", \"zz\"]")]);
    let mut c = PbftConfig::default();
    assert_eq!(c.load_settings(&s), Err(ConfigError::InvalidMember));
}

#[test]
fn odd_length_member_is_fatal() {
    let list = vec!["abc".to_string()];
    assert_eq!(decode_members(&list), Err(ConfigError::InvalidMember));
}

#[test]
fn delay_not_below_idle_is_fatal() {
    let s = settings(&[
        (MEMBERS_KEY, MEMBERS),
        (BLOCK_PUBLISHING_DELAY_KEY, "5000"),
        (IDLE_TIMEOUT_KEY, "5"),
    ]);
    let mut c = PbftConfig::default();
    assert_eq!(
        c.load_settings(&s),
        Err(ConfigError::PublishingDelayNotBelowIdle {
            block_publishing_delay_ms: 5000,
            idle_timeout_ms: 5000,
        })
    );
    assert_same(&c, &PbftConfig::default());
}

#[test]
fn delay_just_below_idle_is_accepted() {
    let s = settings(&[
        (MEMBERS_KEY, MEMBERS),
        (BLOCK_PUBLISHING_DELAY_KEY, "4999"),
        (IDLE_TIMEOUT_KEY, "5"),
    ]);
    let mut c = PbftConfig::default();
    assert_eq!(c.load_settings(&s), Ok(()));
    assert_eq!(c.block_publishing_delay.as_millis(), 4999);
    assert_eq!(c.idle_timeout.as_millis(), 5000);
}

#[test]
fn unparsable_optional_setting_keeps_default() {
    let s = settings(&[(MEMBERS_KEY, MEMBERS), (COMMIT_TIMEOUT_KEY, "abc")]);
    let mut c = PbftConfig::default();
    assert_eq!(c.load_settings(&s), Ok(()));
    assert_eq!(c.commit_timeout.as_millis(), 30_000);
}

#[test]
fn optional_settings_are_merged() {
    let s = settings(&[
        (MEMBERS_KEY, MEMBERS),
        (BLOCK_PUBLISHING_DELAY_KEY, "1000"),
        (IDLE_TIMEOUT_KEY, "60"),
        (COMMIT_TIMEOUT_KEY, "+20"),
        (VIEW_CHANGE_DURATION_KEY, "7"),
        (FORCED_VIEW_CHANGE_PERIOD_KEY, "100"),
    ]);
    let mut c = PbftConfig::default();
    assert_eq!(c.load_settings(&s), Ok(()));
    assert_eq!(c.block_publishing_delay, Interval::from_millis(1000));
    assert_eq!(c.idle_timeout, Interval::from_secs(60));
    assert_eq!(c.commit_timeout.as_millis(), 20_000);
    assert_eq!(c.view_change_duration.as_millis(), 7_000);
    assert_eq!(c.forced_view_change_period, 100);
    assert_eq!(c.update_recv_timeout.as_millis(), 10);
    assert_eq!(c.max_log_size, 1000);
    assert_eq!(c.storage, "memory");
}

#[test]
fn loading_twice_gives_the_same_record() {
    let s = settings(&[
        (MEMBERS_KEY, MEMBERS),
        (IDLE_TIMEOUT_KEY, "12"),
        (VIEW_CHANGE_DURATION_KEY, "x"),
    ]);
    let mut a = PbftConfig::default();
    let mut b = PbftConfig::default();
    assert_eq!(a.load_settings(&s), Ok(()));
    assert_eq!(b.load_settings(&s), Ok(()));
    assert_same(&a, &b);
    assert_eq!(a.load_settings(&s), Ok(()));
    assert_same(&a, &b);
}

#[test]
fn backoff_doubles_up_to_the_cap() {
    let mut b = RetryBackoff::new(Interval::from_millis(100), Interval::from_millis(1000));
    let waits: Vec<u128> = (0..6).map(|_| b.next_wait().as_millis()).collect();
    assert_eq!(waits, vec![100, 200, 400, 800, 1000, 1000]);
}

#[test]
fn backoff_base_above_cap_waits_the_cap() {
    let mut b = RetryBackoff::new(Interval::from_secs(90), Interval::from_secs(60));
    assert_eq!(b.next_wait().as_millis(), 60_000);
    assert_eq!(b.next_wait().as_millis(), 60_000);
}

#[test]
fn retry_returns_after_failures() {
    let mut b = RetryBackoff::new(Interval::from_millis(100), Interval::from_secs(60));
    let outcomes: Vec<Result<u32, ()>> = vec![Err(()), Err(()), Err(()), Ok(7)];
    let mut waited: u128 = 0;
    let mut got = None;
    for o in outcomes {
        match b.after_attempt(o) {
            RetryAction::Wait(w) => waited += w.as_millis(),
            RetryAction::Return(v) => got = Some(v),
        }
    }
    assert_eq!(got, Some(7));
    assert_eq!(waited, 700);
}

#[test]
fn decimal_parsing_follows_std() {
    for text in ["0", "42", "+5", "007", "", "+", "-1", " 5", "5 ", "1a", "18446744073709551615",
        "18446744073709551616", "99999999999999999999999", "+-1", "١"]
    {
        assert_eq!(parse_decimal_u64(text), text.parse::<u64>().ok(), "{text:?}");
    }
}

#[test]
fn settings_later_insert_replaces() {
    let mut s = Settings::new();
    assert_eq!(s.get("k"), None);
    s.insert("k".to_string(), "1".to_string());
    s.insert("j".to_string(), "2".to_string());
    s.insert("k".to_string(), "3".to_string());
    assert_eq!(s.get("k").map(|v| v.as_str()), Some("3"));
    assert_eq!(s.get("j").map(|v| v.as_str()), Some("2"));
}

#[test]
fn merge_helpers_convert_units() {
    let s = settings(&[("a", "3"), ("b", "oops")]);
    let mut secs = Interval::from_millis(1);
    merge_secs_setting_if_set(&s, &mut secs, "a");
    assert_eq!(secs.as_millis(), 3000);
    let mut millis = Interval::from_millis(1);
    merge_millis_setting_if_set(&s, &mut millis, "a");
    assert_eq!(millis.as_millis(), 3);
    let mut n: u64 = 9;
    merge_setting_if_set(&s, &mut n, "b");
    assert_eq!(n, 9);
    merge_setting_if_set(&s, &mut n, "missing");
    assert_eq!(n, 9);
    merge_setting_if_set(&s, &mut n, "a");
    assert_eq!(n, 3);
    let mut text = String::new();
    merge_setting_if_set_and_map(&s, &mut text, "a", |v| format!("<{v}>"));
    assert_eq!(text, "<3>");
}

#[test]
fn requested_keys_are_the_six_settings() {
    assert_eq!(
        requested_setting_keys(),
        vec![
            MEMBERS_KEY,
            BLOCK_PUBLISHING_DELAY_KEY,
            IDLE_TIMEOUT_KEY,
            COMMIT_TIMEOUT_KEY,
            VIEW_CHANGE_DURATION_KEY,
            FORCED_VIEW_CHANGE_PERIOD_KEY,
        ]
    );
    assert_eq!(MEMBERS_KEY, "sawtooth.consensus.pbft.members");
}
