use share_modal::{
    BuildMode, FrameInput, ShareModal, ShareUrl, TimeControl, TimeCursor, TimePoint, UrlError,
};
use share_modal::{DownloadableFile, LoopSelection};

fn plain_url(source: &str) -> ShareUrl {
    ShareUrl { source: source.to_string(), time_range: None, fragment: None }
}

fn url_with_settings(source: &str) -> ShareUrl {
    ShareUrl {
        source: source.to_string(),
        time_range: Some(None),
        fragment: Some(share_modal::Fragment { when: None }),
    }
}

fn no_time() -> TimeControl {
    TimeControl { loop_selection: None, cursor: None }
}

#[test]
fn default_modal_is_closed_native() {
    let modal = ShareModal::default();
    assert_eq!(modal.mode, BuildMode::Native);
    assert!(!modal.is_open);
    assert!(modal.url.is_none());
    assert!(!modal.create_web_viewer_url);
    assert!(!modal.show_copied_feedback);
    assert!(modal.additional_files.is_empty());
    assert!(modal.selected_files.is_empty());
}

#[test]
fn web_hosted_modal_defaults_to_full_link() {
    let modal = ShareModal::new(BuildMode::WebHosted);
    assert!(modal.create_web_viewer_url);
    assert!(!modal.is_open);
}

#[test]
fn open_success_populates_url_and_three_files() {
    let mut modal = ShareModal::default();
    let r = modal.open(Ok(plain_url("https://host/rec.rrd")));
    assert!(r.is_ok());
    assert!(modal.is_open);
    assert_eq!(modal.url.as_ref().unwrap().source, "https://host/rec.rrd");
    assert_eq!(modal.additional_files.len(), 3);
    assert_eq!(modal.additional_files[0].url, "https://host/rec_annotations.mp4");
    assert_eq!(modal.additional_files[1].url, "https://host/rec_coordinates.csv");
    assert_eq!(modal.additional_files[2].url, "https://host/rec_actions.json");
    assert_eq!(
        modal.selected_files,
        vec!["annotations.mp4", "coordinates.csv", "actions.json"],
    );
}

#[test]
fn open_failure_returns_error_and_stays_closed() {
    let mut modal = ShareModal::default();
    let r = modal.open(Err(UrlError { message: "unsupported display mode".to_string() }));
    assert_eq!(r.unwrap_err().message, "unsupported display mode");
    assert!(!modal.is_open);
    assert!(modal.url.is_none());
    assert!(modal.additional_files.is_empty());
}

#[test]
fn trigger_button_disabled_with_tooltip_on_failure() {
    let mut modal = ShareModal::default();
    let b = modal.button_ui(
        Err(UrlError { message: "unsupported display mode".to_string() }),
        false,
        false,
    );
    assert!(!b.enabled);
    assert_eq!(b.label, "Share");
    let tooltip = b.disabled_tooltip.unwrap();
    assert_eq!(tooltip, "Cannot create share URL: unsupported display mode");
    assert!(!tooltip.is_empty());
    assert!(!modal.is_open);
}

#[test]
fn trigger_button_uses_export_wording_on_web() {
    let mut modal = ShareModal::new(BuildMode::WebHosted);
    let b = modal.button_ui(Err(UrlError { message: "no recording".to_string() }), false, false);
    assert_eq!(b.label, "Export");
    assert_eq!(b.disabled_tooltip.unwrap(), "Cannot create export URL: no recording");
}

#[test]
fn trigger_button_disabled_on_examples_source() {
    let mut modal = ShareModal::default();
    let b = modal.button_ui(Ok(plain_url("https://host/rec.rrd")), true, true);
    assert!(!b.enabled);
    assert!(b.disabled_tooltip.is_none());
    assert!(!modal.is_open);
}

#[test]
fn trigger_button_click_opens_modal() {
    let mut modal = ShareModal::default();
    let b = modal.button_ui(Ok(plain_url("https://host/rec.rrd")), false, true);
    assert!(b.enabled);
    assert!(modal.is_open);
    assert_eq!(modal.additional_files.len(), 3);
}

#[test]
fn closed_modal_frame_is_a_no_op() {
    let mut modal = ShareModal::default();
    let out = modal.ui(&FrameInput::idle(), &no_time(), None);
    assert_eq!(out.url_text, "");
    assert!(out.downloads.is_empty());
    assert!(out.copy_text.is_none());
    assert!(!modal.is_open);
}

#[test]
fn frame_renders_url_and_prefix_toggle_changes_it() {
    let mut modal = ShareModal::default();
    modal.open(Ok(plain_url("https://host/rec.rrd"))).unwrap();
    let prefix = "https://app.example/?url=".to_string();

    let out = modal.ui(&FrameInput::idle(), &no_time(), Some(&prefix));
    assert_eq!(out.url_text, "https://host/rec.rrd");

    let mut input = FrameInput::idle();
    input.link_format_clicked = Some(true);
    modal.ui(&input, &no_time(), Some(&prefix));
    assert!(modal.create_web_viewer_url);

    let out = modal.ui(&FrameInput::idle(), &no_time(), Some(&prefix));
    assert_eq!(out.url_text, "https://app.example/?url=https://host/rec.rrd");
}

#[test]
fn prefix_toggle_without_prefix_leaves_url_unchanged() {
    let mut modal = ShareModal::default();
    modal.open(Ok(plain_url("https://host/rec.rrd"))).unwrap();

    let mut input = FrameInput::idle();
    input.link_format_clicked = Some(true);
    modal.ui(&input, &no_time(), None);
    let out = modal.ui(&FrameInput::idle(), &no_time(), None);
    assert_eq!(out.url_text, "https://host/rec.rrd");
}

#[test]
fn download_click_fires_once_and_busy_click_is_ignored() {
    let mut modal = ShareModal::new(BuildMode::WebHosted);
    modal.open(Ok(plain_url("https://host/rec.rrd"))).unwrap();
    modal.create_web_viewer_url = false;

    let mut input = FrameInput::idle();
    input.rrd_clicked = true;
    input.rrd_hovered = true;
    let out = modal.ui(&input, &no_time(), None);
    assert_eq!(out.downloads.len(), 1);
    assert_eq!(out.downloads[0].url, "https://host/rec.rrd.rrd");
    assert_eq!(out.downloads[0].filename, "recording.rrd");
    assert!(modal.download_feedback.get(&"rrd".to_string()));

    let out = modal.ui(&input, &no_time(), None);
    assert!(out.downloads.is_empty());
    assert!(modal.download_feedback.get(&"rrd".to_string()));
}

#[test]
fn busy_flag_clears_when_hover_ends() {
    let mut modal = ShareModal::new(BuildMode::WebHosted);
    modal.open(Ok(plain_url("https://host/rec.rrd"))).unwrap();

    let mut input = FrameInput::idle();
    input.video_clicked = true;
    input.video_hovered = true;
    let out = modal.ui(&input, &no_time(), None);
    assert_eq!(out.downloads.len(), 1);
    assert_eq!(out.downloads[0].url, "https://host/rec_annotations.mp4");
    assert_eq!(out.downloads[0].filename, "annotations.mp4");
    assert!(modal.download_feedback.get(&"video".to_string()));

    let mut hovering = FrameInput::idle();
    hovering.video_hovered = true;
    modal.ui(&hovering, &no_time(), None);
    assert!(modal.download_feedback.get(&"video".to_string()));

    modal.ui(&FrameInput::idle(), &no_time(), None);
    assert!(!modal.download_feedback.get(&"video".to_string()));
}

#[test]
fn each_annotation_button_downloads_its_file() {
    let mut modal = ShareModal::new(BuildMode::WebHosted);
    modal.open(Ok(plain_url("https://host/rec.rrd"))).unwrap();

    let mut input = FrameInput::idle();
    input.coordinates_clicked = true;
    input.actions_clicked = true;
    let out = modal.ui(&input, &no_time(), None);
    assert_eq!(out.downloads.len(), 2);
    assert_eq!(out.downloads[0].url, "https://host/rec_coordinates.csv");
    assert_eq!(out.downloads[0].filename, "coordinates.csv");
    assert_eq!(out.downloads[1].url, "https://host/rec_actions.json");
    assert_eq!(out.downloads[1].filename, "actions.json");
    assert!(out.copy_text.is_none());
}

#[test]
fn copy_link_sets_indicator_and_clears_off_hover() {
    let mut modal = ShareModal::default();
    modal.open(Ok(plain_url("https://host/rec.rrd"))).unwrap();

    let mut input = FrameInput::idle();
    input.copy_clicked = true;
    input.copy_hovered = true;
    let out = modal.ui(&input, &no_time(), None);
    assert_eq!(out.copy_text.unwrap(), "https://host/rec.rrd");
    assert!(modal.show_copied_feedback);
    assert!(out.downloads.is_empty());

    let mut hovering = FrameInput::idle();
    hovering.copy_hovered = true;
    let out = modal.ui(&hovering, &no_time(), None);
    assert!(out.copy_text.is_none());
    assert!(modal.show_copied_feedback);

    modal.ui(&FrameInput::idle(), &no_time(), None);
    assert!(!modal.show_copied_feedback);
}

#[test]
fn trim_option_disabled_without_selection() {
    let c = ShareModal::trim_option(&no_time());
    assert!(!c.enabled);
    assert_eq!(c.disabled_tooltip.unwrap(), "No time range selected.");
}

#[test]
fn trim_option_enabled_with_selection() {
    let t = TimeControl {
        loop_selection: Some(
            LoopSelection {
                timeline: "log_time".to_string(),
                min: TimePoint { whole: 1, has_frac: false },
                max: TimePoint { whole: 2, has_frac: false },
            },
        ),
        cursor: None,
    };
    let c = ShareModal::trim_option(&t);
    assert!(c.enabled);
    assert!(c.disabled_tooltip.is_none());
}

#[test]
fn cursor_option_disabled_without_cursor() {
    let c = ShareModal::cursor_option(&no_time());
    assert!(!c.enabled);
    assert_eq!(c.disabled_tooltip.unwrap(), "No time selected.");
}

#[test]
fn frame_applies_trim_choice() {
    let mut modal = ShareModal::default();
    modal.open(Ok(url_with_settings("https://host/rec.rrd"))).unwrap();
    let t = TimeControl {
        loop_selection: Some(
            LoopSelection {
                timeline: "log_time".to_string(),
                min: TimePoint { whole: 10, has_frac: true },
                max: TimePoint { whole: 20, has_frac: true },
            },
        ),
        cursor: None,
    };

    let mut input = FrameInput::idle();
    input.trim_clicked = Some(false);
    modal.ui(&input, &t, None);
    let stored = modal.url.as_ref().unwrap().time_range.clone().unwrap().unwrap();
    assert_eq!(stored.timeline, "log_time");
    assert_eq!(stored.range.min, 10);
    assert_eq!(stored.range.max, 21);

    let mut input = FrameInput::idle();
    input.trim_clicked = Some(true);
    modal.ui(&input, &t, None);
    assert_eq!(modal.url.as_ref().unwrap().time_range, Some(None));
}

#[test]
fn stale_trim_clears_when_selection_is_gone() {
    let mut modal = ShareModal::default();
    let mut url = url_with_settings("https://host/rec.rrd");
    url.time_range = Some(
        Some(
            share_modal::TimeSelection {
                timeline: "log_time".to_string(),
                range: share_modal::TimeRange { min: 3, max: 7 },
            },
        ),
    );
    modal.open(Ok(url)).unwrap();

    modal.ui(&FrameInput::idle(), &no_time(), None);
    assert_eq!(modal.url.as_ref().unwrap().time_range, Some(None));
}

#[test]
fn frame_applies_cursor_choice() {
    let mut modal = ShareModal::default();
    modal.open(Ok(url_with_settings("https://host/rec.rrd"))).unwrap();
    let t = TimeControl {
        loop_selection: None,
        cursor: Some(TimeCursor { timeline: "log_time".to_string(), time: 42 }),
    };

    let mut input = FrameInput::idle();
    input.cursor_clicked = Some(true);
    modal.ui(&input, &t, None);
    let when = modal.url.as_ref().unwrap().fragment.clone().unwrap().when.unwrap();
    assert_eq!(when.timeline, "log_time");
    assert_eq!(when.time, 42);

    let mut input = FrameInput::idle();
    input.cursor_clicked = Some(false);
    modal.ui(&input, &t, None);
    assert!(modal.url.as_ref().unwrap().fragment.clone().unwrap().when.is_none());
}

#[test]
fn set_additional_files_selects_all() {
    let mut modal = ShareModal::default();
    modal.set_additional_files(
        vec![
            DownloadableFile {
                name: "report.pdf".to_string(),
                url: "https://host/report.pdf".to_string(),
                file_type: "pdf".to_string(),
                description: "Summary report".to_string(),
            },
            DownloadableFile {
                name: "trace.log".to_string(),
                url: "https://host/trace.log".to_string(),
                file_type: "log".to_string(),
                description: "Raw trace".to_string(),
            },
        ],
    );
    assert_eq!(modal.additional_files.len(), 2);
    assert_eq!(modal.selected_files, vec!["report.pdf", "trace.log"]);
}

#[test]
fn modal_title_follows_build_mode() {
    assert_eq!(ShareModal::default().modal_title(), "Share");
    assert_eq!(ShareModal::new(BuildMode::WebHosted).modal_title(), "Export");
}

#[test]
fn close_keeps_url_but_hides_modal() {
    let mut modal = ShareModal::default();
    modal.open(Ok(plain_url("https://host/rec.rrd"))).unwrap();
    modal.close();
    assert!(!modal.is_open);
    assert!(modal.url.is_some());

    let out = modal.ui(&FrameInput::idle(), &no_time(), None);
    assert_eq!(out.url_text, "");
}

#[test]
fn feedback_map_reads_and_writes_flags() {
    let mut m = share_modal::FeedbackMap::new();
    assert!(!m.get(&"rrd".to_string()));
    m.insert(&"rrd".to_string(), true);
    assert!(m.get(&"rrd".to_string()));
    m.insert(&"video".to_string(), true);
    m.insert(&"rrd".to_string(), false);
    assert!(!m.get(&"rrd".to_string()));
    assert!(m.get(&"video".to_string()));
}

#[test]
fn feedback_button_step_transitions() {
    let mut m = share_modal::FeedbackMap::new();
    let id = "video".to_string();
    assert!(m.button_step(&id, true, true));
    assert!(m.get(&id));
    assert!(!m.button_step(&id, true, true));
    assert!(m.get(&id));
    assert!(!m.button_step(&id, false, false));
    assert!(!m.get(&id));
}
