use share_modal::{Fragment, LoopSelection, ShareUrl, TimeCursor, TimePoint, TimeSelection};

fn url_with_range(range: Option<TimeSelection>) -> ShareUrl {
    ShareUrl {
        source: "https://host/rec.rrd".to_string(),
        time_range: Some(range),
        fragment: None,
    }
}

#[test]
fn rendered_without_prefix_is_source() {
    let url = url_with_range(None);
    assert_eq!(url.rendered(false, None), "https://host/rec.rrd");
    assert_eq!(url.rendered(true, None), "https://host/rec.rrd");
}

#[test]
fn rendered_with_prefix_changes_string() {
    let url = url_with_range(None);
    let prefix = "https://app.example/?url=".to_string();
    let full = url.rendered(true, Some(&prefix));
    assert_eq!(full, "https://app.example/?url=https://host/rec.rrd");
    assert_ne!(full, url.rendered(false, Some(&prefix)));
    assert_eq!(url.rendered(false, Some(&prefix)), "https://host/rec.rrd");
}

#[test]
fn trim_entire_recording_clears_range() {
    let selection = LoopSelection {
        timeline: "log_time".to_string(),
        min: TimePoint { whole: 10, has_frac: true },
        max: TimePoint { whole: 20, has_frac: true },
    };
    let stored = TimeSelection {
        timeline: "log_time".to_string(),
        range: share_modal::TimeRange { min: 3, max: 7 },
    };
    let mut url = url_with_range(Some(stored));
    url.apply_trim_choice(true, &Some(selection));
    assert_eq!(url.time_range, Some(None));
}

#[test]
fn trim_to_selection_floors_start_and_ceils_end() {
    let selection = LoopSelection {
        timeline: "log_time".to_string(),
        min: TimePoint { whole: 10, has_frac: true },
        max: TimePoint { whole: 20, has_frac: true },
    };
    let mut url = url_with_range(None);
    url.apply_trim_choice(false, &Some(selection));
    let stored = url.time_range.unwrap().unwrap();
    assert_eq!(stored.timeline, "log_time");
    assert_eq!(stored.range.min, 10);
    assert_eq!(stored.range.max, 21);
}

#[test]
fn trim_to_exact_selection_keeps_bounds() {
    let selection = LoopSelection {
        timeline: "frame".to_string(),
        min: TimePoint { whole: 10, has_frac: false },
        max: TimePoint { whole: 20, has_frac: false },
    };
    let mut url = url_with_range(None);
    url.apply_trim_choice(false, &Some(selection));
    let stored = url.time_range.unwrap().unwrap();
    assert_eq!(stored.range.min, 10);
    assert_eq!(stored.range.max, 20);
}

#[test]
fn trim_without_selection_clears_range() {
    let stored = TimeSelection {
        timeline: "log_time".to_string(),
        range: share_modal::TimeRange { min: 3, max: 7 },
    };
    let mut url = url_with_range(Some(stored));
    url.apply_trim_choice(false, &None);
    assert_eq!(url.time_range, Some(None));
}

#[test]
fn ceil_saturates_at_top_of_axis() {
    let p = TimePoint { whole: i64::MAX, has_frac: true };
    assert_eq!(p.ceil(), i64::MAX);
    assert_eq!(p.floor(), i64::MAX);
    let q = TimePoint { whole: -5, has_frac: true };
    assert_eq!(q.floor(), -5);
    assert_eq!(q.ceil(), -4);
}

#[test]
fn cursor_current_time_stores_cursor() {
    let mut url = ShareUrl {
        source: "https://host/rec.rrd".to_string(),
        time_range: None,
        fragment: Some(Fragment { when: None }),
    };
    let cursor = TimeCursor { timeline: "log_time".to_string(), time: 42 };
    url.apply_time_cursor_choice(true, &Some(cursor));
    let when = url.fragment.unwrap().when.unwrap();
    assert_eq!(when.timeline, "log_time");
    assert_eq!(when.time, 42);
}

#[test]
fn cursor_at_start_clears_fragment_time() {
    let mut url = ShareUrl {
        source: "https://host/rec.rrd".to_string(),
        time_range: None,
        fragment: Some(
            Fragment { when: Some(TimeCursor { timeline: "log_time".to_string(), time: 42 }) },
        ),
    };
    url.apply_time_cursor_choice(false, &None);
    assert!(url.fragment.unwrap().when.is_none());
}

#[test]
fn cursor_current_without_cursor_clears() {
    let mut url = ShareUrl {
        source: "https://host/rec.rrd".to_string(),
        time_range: None,
        fragment: Some(
            Fragment { when: Some(TimeCursor { timeline: "log_time".to_string(), time: 42 }) },
        ),
    };
    url.apply_time_cursor_choice(true, &None);
    assert!(url.fragment.unwrap().when.is_none());
}
