use wallp::retention::applied_is_stale;
use wallp::timestamp::{from_rfc3339, now, rfc3339_after_minutes, to_rfc3339};
use wallp::{
    decide_tick, parse_retention, split_collection_ids, AppData, TickAction, Timestamp,
    WallpError,
};

fn configured(next_run_at: &str) -> AppData {
    let mut data = AppData::default();
    data.config.unsplash_access_key = "key".to_string();
    data.state.next_run_at = next_run_at.to_string();
    data
}

#[test]
fn test_should_run_next_when_past_time() {
    let current = now();
    let past = Timestamp { secs: current.secs - 5 * 60, nanos: current.nanos };
    let data = configured(&to_rfc3339(past).unwrap());
    assert_eq!(decide_tick(&data, current), Ok(TickAction::Fetch));
}

#[test]
fn test_should_not_run_when_future_time() {
    let current = now();
    let data = configured(&rfc3339_after_minutes(current, 30).unwrap());
    assert_eq!(decide_tick(&data, current), Ok(TickAction::Wait));
}

#[test]
fn test_next_run_calculation() {
    let current = now();
    let next = from_rfc3339(&rfc3339_after_minutes(current, 60).unwrap()).unwrap();
    assert!(current.is_before(&next));
    assert_eq!(next.secs - current.secs, 60 * 60);
}

#[test]
fn test_interval_parsing() {
    let intervals = [15u64, 30, 60, 120, 240];
    for interval in intervals {
        let current = now();
        let next = from_rfc3339(&rfc3339_after_minutes(current, interval).unwrap()).unwrap();
        let diff = (next.secs - current.secs) / 60;
        assert!((diff - interval as i64).abs() <= 1);
    }
}

#[test]
fn due_exactly_now_fetches() {
    let t = Timestamp { secs: 1_704_067_200, nanos: 0 };
    let data = configured("2024-01-01T00:00:00Z");
    assert_eq!(decide_tick(&data, t), Ok(TickAction::Fetch));
    let earlier = Timestamp { secs: 1_704_067_199, nanos: 999_999_999 };
    assert_eq!(decide_tick(&data, earlier), Ok(TickAction::Wait));
}

#[test]
fn tick_without_key_or_stopped_is_skipped() {
    let t = Timestamp { secs: 1_704_067_200, nanos: 0 };
    let mut data = configured("garbage");
    data.config.unsplash_access_key.clear();
    assert_eq!(decide_tick(&data, t), Ok(TickAction::Skip));
    let mut stopped = configured("2000-01-01T00:00:00Z");
    stopped.state.is_running = false;
    assert_eq!(decide_tick(&stopped, t), Ok(TickAction::Skip));
}

#[test]
fn unreadable_due_time_fails_the_tick() {
    let t = Timestamp { secs: 0, nanos: 0 };
    let data = configured("not a timestamp");
    assert_eq!(
        decide_tick(&data, t),
        Err(WallpError::CorruptRecord("not a timestamp".to_string()))
    );
}

#[test]
fn test_timestamp_parsing() {
    assert!(from_rfc3339("2024-01-15T10:30:00Z").is_some());
    assert!(from_rfc3339("not a timestamp").is_none());
}

#[test]
fn test_collection_id_parsing() {
    let collections = split_collection_ids("123,456, 789 ,  1000");
    assert_eq!(collections, vec!["123", "456", "789", "1000"]);
    assert!(split_collection_ids("").is_empty());
    assert!(split_collection_ids(" , ,").is_empty());
}

#[test]
fn test_retention_days_parsing() {
    assert_eq!(parse_retention(""), None);
    assert_eq!(parse_retention("7"), Some(7));
    assert_eq!(parse_retention("0"), Some(0));
    assert_eq!(parse_retention("365"), Some(365));
    assert_eq!(parse_retention("-1"), None);
    assert_eq!(parse_retention("abc"), None);
}

#[test]
fn unreadable_due_time_fails_even_when_stopped() {
    let t = Timestamp { secs: 0, nanos: 0 };
    let mut data = configured("garbled");
    data.state.is_running = false;
    assert_eq!(
        decide_tick(&data, t),
        Err(WallpError::CorruptRecord("garbled".to_string()))
    );
}

#[test]
fn tick_action_on_read_due_times() {
    let t = Timestamp { secs: 100, nanos: 0 };
    let data = configured("ignored");
    let due = Timestamp { secs: 100, nanos: 1 };
    assert_eq!(wallp::tick_action(&data, Some(due), t), Ok(TickAction::Wait));
    assert_eq!(wallp::tick_action(&data, Some(t), t), Ok(TickAction::Fetch));
    assert_eq!(
        wallp::tick_action(&data, None, t),
        Err(WallpError::CorruptRecord("ignored".to_string()))
    );
}

#[test]
fn stale_only_when_time_read_and_older() {
    let at = Timestamp { secs: 10 * 86400, nanos: 5 };
    assert!(applied_is_stale(Some(Timestamp { secs: 3 * 86400, nanos: 4 }), 7, at));
    assert!(!applied_is_stale(Some(Timestamp { secs: 3 * 86400, nanos: 5 }), 7, at));
    assert!(!applied_is_stale(None, 7, at));
}
