//! The share modal itself: its transient state and every decision of its
//! lifecycle and of its per-frame rendering.
//!
//! The modal is presentation-neutral. A host shell derives the shareable
//! URL from the application context, draws the widgets, and feeds each
//! frame's widget responses back in; the functions here say what state
//! follows and which actions — downloads to start, text to copy — the host
//! is to perform.

use vstd::prelude::*;
use vstd::string::*;
use crate::feedback::{FeedbackMap, spec_button_fires, spec_button_step};
use crate::files::{
    DownloadableFile, annotation_files, get_annotation_base_url, spec_annotation_base,
    spec_annotation_files, spec_actions_url, spec_coordinates_url, spec_video_url,
};
use crate::share_url::{Fragment, ShareUrl};
use crate::time_ctrl::{LoopSelection, TimeControl, TimeCursor, TimeRange, TimeSelection};

verus! {

/// How the application is hosted, which decides the modal's wording and
/// its primary action: a browser-hosted build exports files, an installed
/// build shares a link.
#[derive(Clone, Copy, Debug, PartialEq, Eq, Structural)]
pub enum BuildMode {
    WebHosted,
    Native,
}

/// The one failure the modal surfaces: the current application context
/// could not produce a shareable URL.
#[derive(Clone, Debug, PartialEq, Eq)]
pub struct UrlError {
    pub message: String,
}

/// The trigger control that opens the modal: whether it is enabled, its
/// wording, and the explanatory tooltip it carries while disabled.
#[derive(Clone, Debug, PartialEq, Eq)]
pub struct TriggerButtonState {
    pub enabled: bool,
    pub label: String,
    pub disabled_tooltip: Option<String>,
}

/// One choice of a settings toggle: whether it may be selected, and the
/// explanatory tooltip it carries while it may not.
#[derive(Clone, Debug, PartialEq, Eq)]
pub struct ChoiceState {
    pub enabled: bool,
    pub disabled_tooltip: Option<String>,
}

pub open spec fn spec_trigger_label(mode: BuildMode) -> Seq<char> {
    match mode {
        BuildMode::WebHosted => "Export"@,
        BuildMode::Native => "Share"@,
    }
}

pub open spec fn spec_error_prefix(mode: BuildMode) -> Seq<char> {
    match mode {
        BuildMode::WebHosted => "Cannot create export URL: "@,
        BuildMode::Native => "Cannot create share URL: "@,
    }
}

pub open spec fn spec_modal_title(mode: BuildMode) -> Seq<char> {
    match mode {
        BuildMode::WebHosted => "Export"@,
        BuildMode::Native => "Share"@,
    }
}

/// The share modal's transient state.
pub struct ShareModal {
    pub mode: BuildMode,
    /// Whether the modal is shown; it never opens without a URL.
    pub is_open: bool,
    /// The URL being shared, absent until the modal is first opened for a
    /// context that could produce one.
    pub url: Option<ShareUrl>,
    /// Whether the rendered link carries the full web-viewer prefix.
    pub create_web_viewer_url: bool,
    /// Whether the copy-link button shows copied-to-clipboard feedback.
    pub show_copied_feedback: bool,
    /// The downloadable companion files of the current URL.
    pub additional_files: Vec<DownloadableFile>,
    /// Which companion files are selected for download.
    pub selected_files: Vec<String>,
    /// The per-button download-in-progress flags.
    pub download_feedback: FeedbackMap,
}

impl ShareModal {
    pub open spec fn wf(&self) -> bool {
        &&& self.download_feedback.wf()
        &&& (self.is_open ==> self.url is Some)
        &&& (self.url matches Some(u) ==> u.wf())
    }

    /// A closed modal for the given build, with the full-link toggle on
    /// exactly for the browser-hosted build.
    pub fn new(mode: BuildMode) -> (m: ShareModal)
        ensures
            m.wf(),
            m.mode == mode,
            !m.is_open,
            m.url is None,
            m.create_web_viewer_url == (mode is WebHosted),
            !m.show_copied_feedback,
            m.additional_files@.len() == 0,
            m.selected_files@.len() == 0,
            m.download_feedback@ == Map::<Seq<char>, bool>::empty(),
    {
        let create_web_viewer_url = match mode {
            BuildMode::WebHosted => true,
            BuildMode::Native => false,
        };
        ShareModal {
            mode,
            is_open: false,
            url: None,
            create_web_viewer_url,
            show_copied_feedback: false,
            additional_files: Vec::new(),
            selected_files: Vec::new(),
            download_feedback: FeedbackMap::new(),
        }
    }

    /// Replaces the companion-file list, selecting every file by default.
    pub fn set_additional_files(&mut self, files: Vec<DownloadableFile>)
        ensures
            final(self).additional_files == files,
            final(self).selected_files@.len() == files@.len(),
            forall|i: int|
                0 <= i < files@.len() ==> final(self).selected_files@[i]@ == files@[i].name@,
            final(self).mode == old(self).mode,
            final(self).is_open == old(self).is_open,
            final(self).url == old(self).url,
            final(self).create_web_viewer_url == old(self).create_web_viewer_url,
            final(self).show_copied_feedback == old(self).show_copied_feedback,
            final(self).download_feedback == old(self).download_feedback,
    {
        let n = files.len();
        let mut selected: Vec<String> = Vec::new();
        let mut i: usize = 0;
        while i < n
            invariant
                n == files@.len(),
                i <= n,
                selected@.len() == i,
                forall|k: int| 0 <= k < i ==> selected@[k]@ == files@[k].name@,
            decreases n - i,
        {
            selected.push(files[i].name.clone());
            i += 1;
        }
        self.additional_files = files;
        self.selected_files = selected;
    }

    /// Derives the companion files of `url_string` and stores them as the
    /// modal's file list, all selected.
    pub fn generate_annotation_files(&mut self, url_string: &str)
        ensures
            spec_annotation_files(final(self).additional_files@, url_string@),
            final(self).selected_files@.len() == 3,
            forall|i: int|
                0 <= i < 3 ==> final(self).selected_files@[i]@
                    == final(self).additional_files@[i].name@,
            final(self).mode == old(self).mode,
            final(self).is_open == old(self).is_open,
            final(self).url == old(self).url,
            final(self).create_web_viewer_url == old(self).create_web_viewer_url,
            final(self).show_copied_feedback == old(self).show_copied_feedback,
            final(self).download_feedback == old(self).download_feedback,
    {
        let files = annotation_files(url_string);
        self.set_additional_files(files);
    }

    /// Opens the modal on `url`: stores the URL, derives its companion
    /// files, and shows the modal.
    pub fn open_with_url(&mut self, url: ShareUrl)
        requires
            old(self).wf(),
            url.wf(),
        ensures
            final(self).wf(),
            final(self).is_open,
            final(self).url == Some(url),
            spec_annotation_files(final(self).additional_files@, url.source@),
            final(self).selected_files@.len() == 3,
            forall|i: int|
                0 <= i < 3 ==> final(self).selected_files@[i]@
                    == final(self).additional_files@[i].name@,
            final(self).mode == old(self).mode,
            final(self).create_web_viewer_url == old(self).create_web_viewer_url,
            final(self).show_copied_feedback == old(self).show_copied_feedback,
            final(self).download_feedback == old(self).download_feedback,
    {
        let url_string = url.rendered(false, None);
        self.url = Some(url);
        self.generate_annotation_files(url_string.as_str());
        self.is_open = true;
    }

    /// Opens the modal on the outcome of deriving a shareable URL from the
    /// current context: on success as [`Self::open_with_url`]; on failure
    /// the error is returned and the modal is left exactly as it was.
    pub fn open(&mut self, derived: Result<ShareUrl, UrlError>) -> (r: Result<(), UrlError>)
        requires
            old(self).wf(),
            derived matches Ok(u) ==> u.wf(),
        ensures
            final(self).wf(),
            r is Ok <==> derived is Ok,
            derived matches Err(e) ==> r == Err::<(), UrlError>(e) && *final(self) == *old(self),
            derived matches Ok(u) ==> {
                &&& final(self).is_open
                &&& final(self).url == Some(u)
                &&& spec_annotation_files(final(self).additional_files@, u.source@)
                &&& final(self).selected_files@.len() == 3
                &&& (forall|i: int|
                    0 <= i < 3 ==> final(self).selected_files@[i]@
                        == final(self).additional_files@[i].name@)
                &&& final(self).mode == old(self).mode
                &&& final(self).create_web_viewer_url == old(self).create_web_viewer_url
                &&& final(self).show_copied_feedback == old(self).show_copied_feedback
                &&& final(self).download_feedback == old(self).download_feedback
            },
    {
        match derived {
            Ok(u) => {
                self.open_with_url(u);
                Ok(())
            },
            Err(e) => Err(e),
        }
    }

    /// Closes the modal, keeping the rest of the state.
    pub fn close(&mut self)
        ensures
            !final(self).is_open,
            final(self).mode == old(self).mode,
            final(self).url == old(self).url,
            final(self).create_web_viewer_url == old(self).create_web_viewer_url,
            final(self).show_copied_feedback == old(self).show_copied_feedback,
            final(self).additional_files == old(self).additional_files,
            final(self).selected_files == old(self).selected_files,
            final(self).download_feedback == old(self).download_feedback,
    {
        self.is_open = false;
    }

    /// The modal's title for the build at hand.
    pub fn modal_title(&self) -> (t: String)
        ensures
            t@ == spec_modal_title(self.mode),
    {
        match self.mode {
            BuildMode::WebHosted => String::from_str("Export"),
            BuildMode::Native => String::from_str("Share"),
        }
    }

    /// The trigger control that opens the modal, given the outcome of
    /// deriving a shareable URL from the current context and whether the
    /// current display mode is the reserved built-in examples source.
    ///
    /// The control is enabled exactly when derivation succeeded and the
    /// display mode is not the examples source. On failure it carries a
    /// non-empty explanatory tooltip. A click on the enabled control opens
    /// the modal on the derived URL.
    pub fn button_ui(
        &mut self,
        derived: Result<ShareUrl, UrlError>,
        display_mode_is_examples: bool,
        clicked: bool,
    ) -> (b: TriggerButtonState)
        requires
            old(self).wf(),
            derived matches Ok(u) ==> u.wf(),
        ensures
            final(self).wf(),
            b.enabled == (derived is Ok && !display_mode_is_examples),
            b.label@ == spec_trigger_label(old(self).mode),
            derived is Ok ==> b.disabled_tooltip is None,
            derived matches Err(e) ==> {
                &&& b.disabled_tooltip matches Some(t)
                &&& (b.disabled_tooltip matches Some(t) ==> t@ == spec_error_prefix(
                    old(self).mode,
                ) + e.message@ && t@.len() > 0)
                &&& *final(self) == *old(self)
            },
            derived matches Ok(u) ==> (clicked && !display_mode_is_examples ==> {
                &&& final(self).is_open
                &&& final(self).url == Some(u)
                &&& spec_annotation_files(final(self).additional_files@, u.source@)
            }),
            derived matches Ok(u) ==> (!(clicked && !display_mode_is_examples) ==> *final(self)
                == *old(self)),
    {
        let label = match self.mode {
            BuildMode::WebHosted => String::from_str("Export"),
            BuildMode::Native => String::from_str("Share"),
        };
        match derived {
            Err(e) => {
                let prefix = match self.mode {
                    BuildMode::WebHosted => String::from_str("Cannot create export URL: "),
                    BuildMode::Native => String::from_str("Cannot create share URL: "),
                };
                proof {
                    reveal_strlit("Cannot create export URL: ");
                    reveal_strlit("Cannot create share URL: ");
                }
                let tooltip = prefix.concat(e.message.as_str());
                TriggerButtonState { enabled: false, label, disabled_tooltip: Some(tooltip) }
            },
            Ok(u) => {
                let enabled = !display_mode_is_examples;
                if clicked && enabled {
                    self.open_with_url(u);
                }
                TriggerButtonState { enabled, label, disabled_tooltip: None }
            },
        }
    }

    /// The "trim to selection" choice: selectable exactly when a
    /// loop/selection range exists, and carrying an explanatory tooltip
    /// while it is not.
    pub fn trim_option(time_ctrl: &TimeControl) -> (c: ChoiceState)
        ensures
            c.enabled == (time_ctrl.loop_selection is Some),
            c.enabled ==> c.disabled_tooltip is None,
            !c.enabled ==> {
                &&& c.disabled_tooltip matches Some(t)
                &&& (c.disabled_tooltip matches Some(t) ==> t@ == "No time range selected."@
                    && t@.len() > 0)
            },
    {
        if time_ctrl.loop_selection.is_some() {
            ChoiceState { enabled: true, disabled_tooltip: None }
        } else {
            proof {
                reveal_strlit("No time range selected.");
            }
            ChoiceState {
                enabled: false,
                disabled_tooltip: Some(String::from_str("No time range selected.")),
            }
        }
    }

    /// The "current time" cursor choice: selectable exactly when a time
    /// cursor exists, and carrying an explanatory tooltip while it is not.
    pub fn cursor_option(time_ctrl: &TimeControl) -> (c: ChoiceState)
        ensures
            c.enabled == (time_ctrl.cursor is Some),
            c.enabled ==> c.disabled_tooltip is None,
            !c.enabled ==> {
                &&& c.disabled_tooltip matches Some(t)
                &&& (c.disabled_tooltip matches Some(t) ==> t@ == "No time selected."@ && t@.len()
                    > 0)
            },
    {
        if time_ctrl.cursor.is_some() {
            ChoiceState { enabled: true, disabled_tooltip: None }
        } else {
            proof {
                reveal_strlit("No time selected.");
            }
            ChoiceState {
                enabled: false,
                disabled_tooltip: Some(String::from_str("No time selected.")),
            }
        }
    }
}

/// What the host reports of the widgets it drew this frame: for each
/// button whether it was clicked and whether the pointer hovers it, and
/// for each settings toggle which choice, if any, was clicked.
#[derive(Clone, Copy, Debug)]
pub struct FrameInput {
    pub rrd_clicked: bool,
    pub rrd_hovered: bool,
    pub video_clicked: bool,
    pub video_hovered: bool,
    pub coordinates_clicked: bool,
    pub coordinates_hovered: bool,
    pub actions_clicked: bool,
    pub actions_hovered: bool,
    pub copy_clicked: bool,
    pub copy_hovered: bool,
    /// `Some(true)` when the full-viewer-link choice was clicked,
    /// `Some(false)` when the source-only choice was.
    pub link_format_clicked: Option<bool>,
    /// `Some(true)` when "entire recording" was clicked, `Some(false)`
    /// when "trim to selection" was.
    pub trim_clicked: Option<bool>,
    /// `Some(true)` when "current time" was clicked, `Some(false)` when
    /// "at the start" was.
    pub cursor_clicked: Option<bool>,
}

impl FrameInput {
    /// A frame on which nothing was clicked or hovered.
    pub fn idle() -> (i: FrameInput)
        ensures
            !i.rrd_clicked && !i.rrd_hovered,
            !i.video_clicked && !i.video_hovered,
            !i.coordinates_clicked && !i.coordinates_hovered,
            !i.actions_clicked && !i.actions_hovered,
            !i.copy_clicked && !i.copy_hovered,
            i.link_format_clicked is None,
            i.trim_clicked is None,
            i.cursor_clicked is None,
    {
        FrameInput {
            rrd_clicked: false,
            rrd_hovered: false,
            video_clicked: false,
            video_hovered: false,
            coordinates_clicked: false,
            coordinates_hovered: false,
            actions_clicked: false,
            actions_hovered: false,
            copy_clicked: false,
            copy_hovered: false,
            link_format_clicked: None,
            trim_clicked: None,
            cursor_clicked: None,
        }
    }
}

/// A download the host is to start: the URL to fetch and the filename to
/// suggest.
#[derive(Clone, Debug, PartialEq, Eq)]
pub struct DownloadRequest {
    pub url: String,
    pub filename: String,
}

/// What one frame of the open modal hands back to the host: the link text
/// to display, the downloads to start, and the text to copy to the
/// clipboard, if any.
#[derive(Clone, Debug, PartialEq, Eq)]
pub struct FrameOutput {
    pub url_text: String,
    pub downloads: Vec<DownloadRequest>,
    pub copy_text: Option<String>,
}

/// The view of the prefix argument the host supplies.
pub open spec fn spec_supplied_prefix(p: Option<&String>) -> Option<Seq<char>> {
    match p {
        Some(s) => Some(s@),
        None => None,
    }
}

/// The recording download: the displayed link with the `.rrd` extension
/// appended, suggested as `recording.rrd`.
pub open spec fn spec_rrd_request(url_text: Seq<char>) -> (Seq<char>, Seq<char>) {
    (url_text + ".rrd"@, "recording.rrd"@)
}

pub open spec fn spec_video_request(url_text: Seq<char>) -> (Seq<char>, Seq<char>) {
    (spec_video_url(spec_annotation_base(url_text)), "annotations.mp4"@)
}

pub open spec fn spec_coordinates_request(url_text: Seq<char>) -> (Seq<char>, Seq<char>) {
    (spec_coordinates_url(spec_annotation_base(url_text)), "coordinates.csv"@)
}

pub open spec fn spec_actions_request(url_text: Seq<char>) -> (Seq<char>, Seq<char>) {
    (spec_actions_url(spec_annotation_base(url_text)), "actions.json"@)
}

/// A singleton of `x` when `b` holds, else nothing: the contribution of
/// one button to the frame's download list.
pub open spec fn request_if(b: bool, x: (Seq<char>, Seq<char>)) -> Seq<(Seq<char>, Seq<char>)> {
    if b {
        seq![x]
    } else {
        Seq::empty()
    }
}

/// The feedback flags after the four download buttons of one frame, in
/// the order they are drawn.
pub open spec fn spec_feedback_after(m: Map<Seq<char>, bool>, input: FrameInput) -> Map<
    Seq<char>,
    bool,
> {
    let m1 = spec_button_step(m, "rrd"@, input.rrd_clicked, input.rrd_hovered);
    let m2 = spec_button_step(m1, "video"@, input.video_clicked, input.video_hovered);
    let m3 = spec_button_step(
        m2,
        "coordinates"@,
        input.coordinates_clicked,
        input.coordinates_hovered,
    );
    spec_button_step(m3, "actions"@, input.actions_clicked, input.actions_hovered)
}

/// The downloads one frame starts, as (URL, filename) pairs, in the order
/// the buttons are drawn: each button contributes exactly when its click
/// fires.
pub open spec fn spec_downloads(
    m: Map<Seq<char>, bool>,
    input: FrameInput,
    url_text: Seq<char>,
) -> Seq<(Seq<char>, Seq<char>)> {
    let m1 = spec_button_step(m, "rrd"@, input.rrd_clicked, input.rrd_hovered);
    let m2 = spec_button_step(m1, "video"@, input.video_clicked, input.video_hovered);
    let m3 = spec_button_step(
        m2,
        "coordinates"@,
        input.coordinates_clicked,
        input.coordinates_hovered,
    );
    request_if(spec_button_fires(m, "rrd"@, input.rrd_clicked), spec_rrd_request(url_text))
        + request_if(
        spec_button_fires(m1, "video"@, input.video_clicked),
        spec_video_request(url_text),
    ) + request_if(
        spec_button_fires(m2, "coordinates"@, input.coordinates_clicked),
        spec_coordinates_request(url_text),
    ) + request_if(
        spec_button_fires(m3, "actions"@, input.actions_clicked),
        spec_actions_request(url_text),
    )
}

/// Whether the download list `ds` is exactly the expected (URL, filename)
/// pairs.
pub open spec fn downloads_match(
    ds: Seq<DownloadRequest>,
    expected: Seq<(Seq<char>, Seq<char>)>,
) -> bool {
    &&& ds.len() == expected.len()
    &&& forall|i: int|
        0 <= i < ds.len() ==> ds[i].url@ == expected[i].0 && ds[i].filename@ == expected[i].1
}

/// The copied-to-clipboard indicator after one frame: a click raises it, a
/// frame without hover clears it, hovering without a click keeps it.
pub open spec fn spec_copied_after(flag: bool, clicked: bool, hovered: bool) -> bool {
    if clicked {
        true
    } else if !hovered {
        false
    } else {
        flag
    }
}

/// The trim range stored after a frame: clear for "entire recording", the
/// floored/ceiled current selection for "trim to selection" — or clear,
/// when no selection exists.
pub open spec fn spec_trim_result(entire: bool, current: Option<LoopSelection>) -> Option<
    TimeSelection,
> {
    if entire {
        None
    } else {
        match current {
            Some(sel) => Some(
                TimeSelection {
                    timeline: sel.timeline,
                    range: (TimeRange { min: sel.min.spec_floor(), max: sel.max.spec_ceil() }),
                },
            ),
            None => None,
        }
    }
}

/// The fragment cursor stored after a frame: the current cursor for
/// "current time" — or none, when no cursor exists — and none for "at the
/// start".
pub open spec fn spec_cursor_result(use_current: bool, current: Option<TimeCursor>) -> Option<
    TimeCursor,
> {
    if use_current {
        current
    } else {
        None
    }
}

/// The URL after the settings section of one frame: the trim choice and
/// the cursor choice applied to the sub-fields the URL carries, with an
/// unclicked toggle re-asserting the state it shows.
pub open spec fn spec_url_after_settings(
    u: ShareUrl,
    input: FrameInput,
    time_ctrl: TimeControl,
) -> ShareUrl {
    let u1 = match u.time_range {
        Some(stored) => {
            let entire = match input.trim_clicked {
                Some(v) => v,
                None => stored is None,
            };
            ShareUrl {
                source: u.source,
                time_range: Some(spec_trim_result(entire, time_ctrl.loop_selection)),
                fragment: u.fragment,
            }
        },
        None => u,
    };
    match u1.fragment {
        Some(f) => {
            let use_current = match input.cursor_clicked {
                Some(v) => v,
                None => f.when is Some,
            };
            ShareUrl {
                source: u1.source,
                time_range: u1.time_range,
                fragment: Some(
                    Fragment { when: spec_cursor_result(use_current, time_ctrl.cursor) },
                ),
            }
        },
        None => u1,
    }
}

impl ShareModal {
    /// One frame of the open modal. A closed modal is a no-op frame.
    ///
    /// For the open modal: the link text is rendered from the stored URL
    /// and the full-link toggle; on the browser-hosted build the four
    /// download buttons take their busy-flag transitions and each click
    /// that fires contributes its download, a click on a busy button
    /// contributing none; on the installed build a click on "copy link"
    /// hands the link text back for the clipboard and raises the copied
    /// indicator, which clears on the next frame the button is not
    /// hovered; and the settings section applies the link-format, trim-
    /// range and time-cursor choices.
    pub fn ui(
        &mut self,
        input: &FrameInput,
        time_ctrl: &TimeControl,
        web_viewer_base_url: Option<&String>,
    ) -> (out: FrameOutput)
        requires
            old(self).wf(),
        ensures
            final(self).wf(),
            !old(self).is_open ==> *final(self) == *old(self) && out.url_text@.len() == 0
                && out.downloads@.len() == 0 && out.copy_text is None,
            old(self).is_open ==> (old(self).url matches Some(u) ==> {
                &&& out.url_text@ == u.spec_rendered(
                    ShareUrl::spec_effective_prefix(
                        old(self).create_web_viewer_url,
                        spec_supplied_prefix(web_viewer_base_url),
                    ),
                )
                &&& out.url_text@.len() > 0
                &&& final(self).url == Some(spec_url_after_settings(u, *input, *time_ctrl))
                &&& final(self).is_open
                &&& final(self).mode == old(self).mode
                &&& final(self).additional_files == old(self).additional_files
                &&& final(self).selected_files == old(self).selected_files
                &&& final(self).create_web_viewer_url == (match input.link_format_clicked {
                    Some(v) => v,
                    None => old(self).create_web_viewer_url,
                })
                &&& old(self).mode is WebHosted ==> {
                    &&& out.copy_text is None
                    &&& final(self).show_copied_feedback == old(self).show_copied_feedback
                    &&& final(self).download_feedback@ == spec_feedback_after(
                        old(self).download_feedback@,
                        *input,
                    )
                    &&& downloads_match(
                        out.downloads@,
                        spec_downloads(old(self).download_feedback@, *input, out.url_text@),
                    )
                }
                &&& old(self).mode is Native ==> {
                    &&& out.downloads@.len() == 0
                    &&& final(self).download_feedback == old(self).download_feedback
                    &&& final(self).show_copied_feedback == spec_copied_after(
                        old(self).show_copied_feedback,
                        input.copy_clicked,
                        input.copy_hovered,
                    )
                    &&& input.copy_clicked ==> (out.copy_text matches Some(s) && s@
                        == out.url_text@)
                    &&& !input.copy_clicked ==> out.copy_text is None
                }
            }),
    {
        if !self.is_open {
            return FrameOutput { url_text: String::new(), downloads: Vec::new(), copy_text: None };
        }
        let url_text = match &self.url {
            Some(u) => u.rendered(self.create_web_viewer_url, web_viewer_base_url),
            None => String::new(),
        };
        let mut downloads: Vec<DownloadRequest> = Vec::new();
        let mut copy_text: Option<String> = None;
        match self.mode {
            BuildMode::WebHosted => {
                let ghost m0 = self.download_feedback@;
                let id_rrd = String::from_str("rrd");
                let fired_rrd = self.download_feedback.button_step(
                    &id_rrd,
                    input.rrd_clicked,
                    input.rrd_hovered,
                );
                if fired_rrd {
                    downloads.push(
                        DownloadRequest {
                            url: url_text.clone().concat(".rrd"),
                            filename: String::from_str("recording.rrd"),
                        },
                    );
                }
                proof {
                    assert(downloads_match(
                        downloads@,
                        request_if(
                            spec_button_fires(m0, "rrd"@, input.rrd_clicked),
                            spec_rrd_request(url_text@),
                        ),
                    ));
                }
                let base = match get_annotation_base_url(url_text.as_str()) {
                    Some(b) => b,
                    None => String::new(),
                };
                let id_video = String::from_str("video");
                let fired_video = self.download_feedback.button_step(
                    &id_video,
                    input.video_clicked,
                    input.video_hovered,
                );
                if fired_video {
                    downloads.push(
                        DownloadRequest {
                            url: base.clone().concat("_annotations.mp4"),
                            filename: String::from_str("annotations.mp4"),
                        },
                    );
                }
                let ghost m1 = spec_button_step(m0, "rrd"@, input.rrd_clicked, input.rrd_hovered);
                proof {
                    assert(downloads_match(
                        downloads@,
                        request_if(
                            spec_button_fires(m0, "rrd"@, input.rrd_clicked),
                            spec_rrd_request(url_text@),
                        ) + request_if(
                            spec_button_fires(m1, "video"@, input.video_clicked),
                            spec_video_request(url_text@),
                        ),
                    ));
                }
                let id_coordinates = String::from_str("coordinates");
                let fired_coordinates = self.download_feedback.button_step(
                    &id_coordinates,
                    input.coordinates_clicked,
                    input.coordinates_hovered,
                );
                if fired_coordinates {
                    downloads.push(
                        DownloadRequest {
                            url: base.clone().concat("_coordinates.csv"),
                            filename: String::from_str("coordinates.csv"),
                        },
                    );
                }
                let ghost m2 = spec_button_step(
                    m1,
                    "video"@,
                    input.video_clicked,
                    input.video_hovered,
                );
                proof {
                    assert(downloads_match(
                        downloads@,
                        request_if(
                            spec_button_fires(m0, "rrd"@, input.rrd_clicked),
                            spec_rrd_request(url_text@),
                        ) + request_if(
                            spec_button_fires(m1, "video"@, input.video_clicked),
                            spec_video_request(url_text@),
                        ) + request_if(
                            spec_button_fires(m2, "coordinates"@, input.coordinates_clicked),
                            spec_coordinates_request(url_text@),
                        ),
                    ));
                }
                let id_actions = String::from_str("actions");
                let fired_actions = self.download_feedback.button_step(
                    &id_actions,
                    input.actions_clicked,
                    input.actions_hovered,
                );
                if fired_actions {
                    downloads.push(
                        DownloadRequest {
                            url: base.concat("_actions.json"),
                            filename: String::from_str("actions.json"),
                        },
                    );
                }
                let ghost m3 = spec_button_step(
                    m2,
                    "coordinates"@,
                    input.coordinates_clicked,
                    input.coordinates_hovered,
                );
                proof {
                    assert(downloads_match(
                        downloads@,
                        spec_downloads(m0, *input, url_text@),
                    ));
                }
            },
            BuildMode::Native => {
                if input.copy_clicked {
                    copy_text = Some(url_text.clone());
                    self.show_copied_feedback = true;
                } else if !input.copy_hovered {
                    self.show_copied_feedback = false;
                }
            },
        }
        match input.link_format_clicked {
            Some(v) => {
                self.create_web_viewer_url = v;
            },
            None => {},
        }
        match &mut self.url {
            Some(u) => {
                if u.supports_time_range() {
                    let entire = match input.trim_clicked {
                        Some(v) => v,
                        None => match &u.time_range {
                            Some(stored) => stored.is_none(),
                            None => false,
                        },
                    };
                    u.apply_trim_choice(entire, &time_ctrl.loop_selection);
                }
                if u.supports_fragment() {
                    let use_current = match input.cursor_clicked {
                        Some(v) => v,
                        None => match &u.fragment {
                            Some(f) => f.when.is_some(),
                            None => false,
                        },
                    };
                    u.apply_time_cursor_choice(use_current, &time_ctrl.cursor);
                }
            },
            None => {},
        }
        FrameOutput { url_text, downloads, copy_text }
    }
}

impl Default for ShareModal {
    /// A closed modal for the installed build.
    fn default() -> (m: Self)
        ensures
            m.wf(),
            m.mode == BuildMode::Native,
            !m.is_open,
            m.url is None,
            !m.create_web_viewer_url,
            !m.show_copied_feedback,
            m.additional_files@.len() == 0,
            m.selected_files@.len() == 0,
            m.download_feedback@ == Map::<Seq<char>, bool>::empty(),
    {
        ShareModal::new(BuildMode::Native)
    }
}

} // verus!
