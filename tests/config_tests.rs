use wallp::retention::RetentionPolicy;
use wallp::timestamp::{from_rfc3339, now, to_rfc3339};
use wallp::{get_current_wallpaper, prune, AppData, Config, State, Timestamp, Wallpaper};

fn entry(id: &str, applied_at: &str) -> Wallpaper {
    Wallpaper {
        id: id.to_string(),
        filename: format!("{id}.jpg"),
        applied_at: applied_at.to_string(),
        title: None,
        author: None,
        url: None,
    }
}

#[test]
fn test_config_default() {
    let config = Config::default();
    assert!(config.unsplash_access_key.is_empty());
    assert_eq!(config.collections.len(), 3);
    assert_eq!(config.interval_minutes, 1440);
    assert_eq!(config.retention_days, Some(7));
}

#[test]
fn test_state_default() {
    let state = State::default();
    assert!(state.is_running);
    assert!(state.next_run_at.contains('T'));
    assert!(state.last_run_at.contains('T'));
    assert!(state.current_wallpaper_id.is_none());
    assert_eq!(state.current_history_index, 0);
}

#[test]
fn test_app_data_default() {
    let app_data = AppData::default();
    assert_eq!(app_data.history.len(), 0);
}

#[test]
fn test_cleanup_old_wallpapers_keep_forever() {
    let mut app_data = AppData::default();
    app_data.config.retention_days = None;
    app_data.history.push(Wallpaper {
        id: "1".to_string(),
        filename: "1.jpg".to_string(),
        applied_at: "2010-01-01T00:00:00Z".to_string(),
        title: None,
        author: None,
        url: None,
    });

    let removed = app_data.cleanup_old_wallpapers();
    assert_eq!(removed.len(), 0);
    assert_eq!(app_data.history.len(), 1);
}

#[test]
fn test_cleanup_old_wallpapers_zero_retention() {
    let mut app_data = AppData::default();
    app_data.config.retention_days = Some(0);
    let stamp = chrono::Utc::now().to_rfc3339();
    for i in 1..=3 {
        app_data.history.push(entry(&i.to_string(), &stamp));
    }

    let removed = app_data.cleanup_old_wallpapers();
    assert_eq!(removed.len(), 2);
    assert_eq!(app_data.history.len(), 1);
    assert_eq!(app_data.history[0].id, "3");
    assert_eq!(removed[0].filename, "1.jpg");
    assert_eq!(removed[1].filename, "2.jpg");
}

#[test]
fn test_cleanup_old_wallpapers_standard_retention() {
    let mut app_data = AppData::default();
    app_data.config.retention_days = Some(3);

    let current = chrono::Utc::now();
    let old_time = current - chrono::Duration::days(5);
    let recent_time = current - chrono::Duration::days(1);
    app_data.history.push(entry("old", &old_time.to_rfc3339()));
    app_data.history.push(entry("recent", &recent_time.to_rfc3339()));

    let removed = app_data.cleanup_old_wallpapers();
    assert_eq!(removed.len(), 1);
    assert_eq!(removed[0].filename, "old.jpg");
    assert_eq!(app_data.history.len(), 1);
    assert_eq!(app_data.history[0].id, "recent");
}

#[test]
fn test_get_current_wallpaper_empty_history() {
    let mut app_data = AppData::default();
    app_data.history.clear();
    app_data.state.current_history_index = 0;
    assert!(get_current_wallpaper(&app_data).is_none());
}

#[test]
fn test_get_current_wallpaper_with_history() {
    let mut app_data = AppData::default();
    app_data.history.push(Wallpaper {
        id: "test_id".to_string(),
        filename: "test.jpg".to_string(),
        applied_at: "2024-01-01T00:00:00Z".to_string(),
        title: Some("Test Title".to_string()),
        author: Some("Test Author".to_string()),
        url: Some("https://example.com".to_string()),
    });
    app_data.state.current_history_index = 0;

    let result = get_current_wallpaper(&app_data);
    assert!(result.is_some());
    assert_eq!(result.unwrap().id, "test_id");
}

#[test]
fn current_wallpaper_out_of_range_is_none() {
    let mut app_data = AppData::default();
    app_data.history.push(entry("a", "2024-01-01T00:00:00Z"));
    app_data.state.current_history_index = 3;
    assert!(get_current_wallpaper(&app_data).is_none());
}

#[test]
fn restore_invariant_clamps_cursor_and_sets_id() {
    let mut app_data = AppData::default();
    app_data.history.push(entry("a", "2024-01-01T00:00:00Z"));
    app_data.history.push(entry("b", "2024-01-02T00:00:00Z"));
    app_data.state.current_history_index = 9;
    assert!(!app_data.is_consistent());
    app_data.restore_invariant();
    assert_eq!(app_data.state.current_history_index, 1);
    assert_eq!(app_data.state.current_wallpaper_id, Some("b".to_string()));
    assert!(app_data.is_consistent());
}

#[test]
fn retention_zero_keeps_last_of_three_past_entries() {
    let mut app_data = AppData::default();
    app_data.config.retention_days = Some(0);
    app_data.history.push(entry("a", "2020-01-01T00:00:00Z"));
    app_data.history.push(entry("b", "2020-01-02T00:00:00Z"));
    app_data.history.push(entry("c", "2020-01-03T00:00:00Z"));
    app_data.state.current_history_index = 2;
    let at = Timestamp { secs: 1_700_000_000, nanos: 0 };
    let removed = app_data.prune_history(at);
    assert_eq!(app_data.history.len(), 1);
    assert_eq!(app_data.history[0].id, "c");
    let names: Vec<&str> = removed.iter().map(|w| w.filename.as_str()).collect();
    assert_eq!(names, vec!["a.jpg", "b.jpg"]);
    assert_eq!(app_data.state.current_history_index, 0);
    assert_eq!(app_data.state.current_wallpaper_id, Some("c".to_string()));
}

#[test]
fn delete_immediately_keeps_at_most_one() {
    let at = Timestamp { secs: 0, nanos: 0 };
    for n in 0..4 {
        let history: Vec<Wallpaper> = (0..n).map(|i| entry(&i.to_string(), "x")).collect();
        let (kept, removed) = prune(history, RetentionPolicy::DeleteImmediately, at);
        assert!(kept.len() <= 1);
        assert_eq!(kept.len() + removed.len(), n);
    }
}

#[test]
fn keep_days_removes_exactly_the_stale_entries() {
    // 2024-01-10T00:00:00Z
    let at = Timestamp { secs: 1_704_844_800, nanos: 500 };
    let history = vec![
        entry("old", "2024-01-01T00:00:00Z"),
        entry("garbled", "yesterday"),
        entry("edge", "2024-01-03T00:00:00.000000500Z"),
        entry("just_old", "2024-01-03T00:00:00.000000499Z"),
        entry("new", "2024-01-09T12:00:00+02:00"),
    ];
    let (kept, removed) = prune(history, RetentionPolicy::KeepDays(7), at);
    let kept_ids: Vec<&str> = kept.iter().map(|w| w.id.as_str()).collect();
    let removed_ids: Vec<&str> = removed.iter().map(|w| w.id.as_str()).collect();
    assert_eq!(kept_ids, vec!["garbled", "edge", "new"]);
    assert_eq!(removed_ids, vec!["old", "just_old"]);
}

#[test]
fn forever_keeps_everything() {
    let history = vec![entry("a", "2000-01-01T00:00:00Z")];
    let (kept, removed) = prune(history, RetentionPolicy::Forever, now());
    assert_eq!(kept.len(), 1);
    assert!(removed.is_empty());
}

#[test]
fn retention_policy_from_setting() {
    assert_eq!(RetentionPolicy::from_retention_days(None), RetentionPolicy::Forever);
    assert_eq!(
        RetentionPolicy::from_retention_days(Some(0)),
        RetentionPolicy::DeleteImmediately
    );
    assert_eq!(
        RetentionPolicy::from_retention_days(Some(5)),
        RetentionPolicy::KeepDays(5)
    );
}

#[test]
fn timestamps_round_trip_through_text() {
    let t = Timestamp { secs: 1_705_314_600, nanos: 0 };
    let text = to_rfc3339(t).unwrap();
    assert_eq!(text, "2024-01-15T10:30:00+00:00");
    assert_eq!(from_rfc3339(&text), Some(t));
    assert_eq!(to_rfc3339(Timestamp { secs: i64::MAX, nanos: 0 }), None);
}

#[test]
fn readable_datetime_or_text_unchanged() {
    assert_eq!(
        wallp::format_datetime("2024-01-15T10:30:00Z"),
        "Jan 15, 2024 at 10:30 AM"
    );
    assert_eq!(wallp::format_datetime("soon"), "soon");
}
