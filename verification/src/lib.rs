//! State model of a share/export modal: the dialog that offers the user a
//! shareable link or downloadable files for the current recording view.
//!
//! The crate holds the modal's state and every decision it makes — deriving
//! companion-file URLs, rendering the link for the current toggle settings,
//! download busy-flag bookkeeping, clipboard feedback, and the trim-range and
//! time-cursor choices. A host shell draws the widgets, feeds the widget
//! responses of each frame into [`modal::ShareModal::ui`], and performs the
//! actions it returns.

use vstd::prelude::*;

pub mod feedback;
pub mod files;
pub mod modal;
pub mod share_url;
pub mod time_ctrl;

verus! {

pub use crate::feedback::FeedbackMap;
pub use crate::files::DownloadableFile;
pub use crate::modal::{
    BuildMode, ChoiceState, DownloadRequest, FrameInput, FrameOutput, ShareModal,
    TriggerButtonState, UrlError,
};
pub use crate::share_url::{Fragment, ShareUrl};
pub use crate::time_ctrl::{
    LoopSelection, TimeControl, TimeCursor, TimePoint, TimeRange, TimeSelection,
};

} // verus!

