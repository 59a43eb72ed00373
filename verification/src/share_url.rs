//! Plain-value model of a shareable URL, as far as the share modal reads and
//! mutates one.
//!
//! A shareable URL is built elsewhere from the application context; the
//! modal treats it as a source URL string plus two optional sub-fields, a
//! trim range and a time-cursor fragment, which the settings section of the
//! modal edits. Not every kind of URL carries the sub-fields: where a
//! sub-field is absent altogether, the corresponding setting is not offered.

use vstd::prelude::*;
use vstd::string::*;
use crate::time_ctrl::{LoopSelection, TimeCursor, TimeRange, TimeSelection};

verus! {

/// The fragment of a shareable URL, holding the time cursor the link opens
/// at; `when` is `None` when the link opens at the start.
#[derive(Clone, Debug, PartialEq, Eq)]
pub struct Fragment {
    pub when: Option<TimeCursor>,
}

/// A shareable URL.
///
/// `time_range` and `fragment` are `None` for kinds of URL that do not
/// carry the respective sub-field at all; `Some(None)` is a carried but
/// empty sub-field.
#[derive(Clone, Debug, PartialEq, Eq)]
pub struct ShareUrl {
    /// The URL in source form, without any web-viewer prefix.
    pub source: String,
    /// The trim range: a carried range, a carried-but-empty one, or no such
    /// sub-field.
    pub time_range: Option<Option<TimeSelection>>,
    /// The fragment, when the kind of URL carries one.
    pub fragment: Option<Fragment>,
}

impl ShareUrl {
    /// A shareable URL always names a location: its source form is never
    /// the empty string.
    pub open spec fn wf(self) -> bool {
        self.source@.len() > 0
    }

    /// What the URL renders to: its source form, or the web-viewer prefix
    /// followed by the source form.
    pub open spec fn spec_rendered(self, prefix: Option<Seq<char>>) -> Seq<char> {
        match prefix {
            Some(p) => p + self.source@,
            None => self.source@,
        }
    }

    /// The prefix that takes effect: the supplied one when the full-link
    /// toggle is on, none otherwise.
    pub open spec fn spec_effective_prefix(
        use_prefix: bool,
        supplied: Option<Seq<char>>,
    ) -> Option<Seq<char>> {
        if use_prefix {
            supplied
        } else {
            None
        }
    }

    /// Renders the URL for display: with `use_prefix` on and a prefix
    /// supplied, the full web-viewer link, else the source form.
    pub fn rendered(&self, use_prefix: bool, supplied: Option<&String>) -> (r: String)
        ensures
            r@ == self.spec_rendered(
                Self::spec_effective_prefix(
                    use_prefix,
                    match supplied {
                        Some(p) => Some(p@),
                        None => None,
                    },
                ),
            ),
    {
        if use_prefix {
            match supplied {
                Some(p) => p.clone().concat(self.source.as_str()),
                None => self.source.clone(),
            }
        } else {
            self.source.clone()
        }
    }

    /// Whether this kind of URL carries a trim range at all.
    pub fn supports_time_range(&self) -> (b: bool)
        ensures
            b == (self.time_range is Some),
    {
        self.time_range.is_some()
    }

    /// Whether this kind of URL carries a time-cursor fragment at all.
    pub fn supports_fragment(&self) -> (b: bool)
        ensures
            b == (self.fragment is Some),
    {
        self.fragment.is_some()
    }

    /// Applies the trim-range choice: "entire recording" clears the stored
    /// range; "trim to selection" stores the current selection with its
    /// start floored and its end ceiled, or clears the range when no
    /// selection exists.
    pub fn apply_trim_choice(&mut self, entire: bool, current: &Option<LoopSelection>)
        requires
            old(self).time_range is Some,
        ensures
            final(self).source == old(self).source,
            final(self).fragment == old(self).fragment,
            entire ==> final(self).time_range == Some(Option::<TimeSelection>::None),
            !entire && current is None ==> final(self).time_range == Some(
                Option::<TimeSelection>::None,
            ),
            !entire ==> (current matches Some(sel) ==> final(self).time_range == Some(
                Some(TimeSelection {
                    timeline: sel.timeline,
                    range: (TimeRange { min: sel.min.spec_floor(), max: sel.max.spec_ceil() }),
                }),
            )),
    {
        if entire {
            self.time_range = Some(None);
        } else {
            match current {
                Some(sel) => {
                    self.time_range = Some(Some(TimeSelection::from_loop_selection(sel)));
                },
                None => {
                    self.time_range = Some(None);
                },
            }
        }
    }

    /// Applies the time-cursor choice: "at the start" clears the fragment's
    /// cursor; "current time" stores the current cursor, or clears it when
    /// none exists.
    pub fn apply_time_cursor_choice(&mut self, use_current: bool, current: &Option<TimeCursor>)
        requires
            old(self).fragment is Some,
        ensures
            final(self).source == old(self).source,
            final(self).time_range == old(self).time_range,
            !use_current ==> final(self).fragment == Some(
                Fragment { when: Option::<TimeCursor>::None },
            ),
            use_current && current is None ==> final(self).fragment == Some(
                Fragment { when: Option::<TimeCursor>::None },
            ),
            use_current ==> (current matches Some(c) ==> final(self).fragment == Some(
                Fragment { when: Some(TimeCursor { timeline: c.timeline, time: c.time }) },
            )),
    {
        if use_current {
            match current {
                Some(c) => {
                    self.fragment = Some(
                        Fragment {
                            when: Some(TimeCursor { timeline: c.timeline.clone(), time: c.time }),
                        },
                    );
                },
                None => {
                    self.fragment = Some(Fragment { when: None });
                },
            }
        } else {
            self.fragment = Some(Fragment { when: None });
        }
    }
}

/// Law: with a non-empty prefix supplied, turning the full-link toggle on
/// changes the rendered URL string; with no prefix supplied, the toggle
/// leaves it unchanged.
pub proof fn lemma_prefix_toggle_rendering(url: ShareUrl, supplied: Option<Seq<char>>)
    requires
        url.wf(),
        supplied matches Some(p) ==> p.len() > 0,
    ensures
        supplied is Some ==> url.spec_rendered(ShareUrl::spec_effective_prefix(true, supplied))
            != url.spec_rendered(ShareUrl::spec_effective_prefix(false, supplied)),
        supplied is None ==> url.spec_rendered(ShareUrl::spec_effective_prefix(true, supplied))
            == url.spec_rendered(ShareUrl::spec_effective_prefix(false, supplied)),
{
    if let Some(p) = supplied {
        assert((p + url.source@).len() == p.len() + url.source@.len());
    }
}

} // verus!
