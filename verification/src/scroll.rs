//! The scroll policy of the log view: follow the newest entry, or stay where
//! the user put the viewport.

use vstd::prelude::*;

verus! {

/// The viewport offset of the newest entry. Offsets are thousandths of the
/// scrollable height, from 0 at the oldest entry.
pub const OFFSET_END: u32 = 1000;

/// What the scroll policy asks of the presentation layer.
#[derive(Clone, Copy, Debug, PartialEq, Eq, Structural)]
pub enum ScrollDirective {
    /// Move the viewport to the newest entry.
    SnapToEnd,
}

/// The scroll policy's state. While `auto_follow` is set the view is kept at
/// the newest entry and `last_offset` is only advisory.
#[derive(Clone, Copy, Debug, PartialEq, Eq, Structural)]
pub struct ScrollState {
    pub auto_follow: bool,
    pub last_offset: u32,
}

/// The offset that is kept for a reported one: offsets past the end count as
/// the end.
pub open spec fn clamp_offset(offset: u32) -> u32 {
    if offset > OFFSET_END {
        OFFSET_END
    } else {
        offset
    }
}

impl Default for ScrollState {
    /// The state at the start of a session: following, at the end.
    fn default() -> (state: ScrollState)
        ensures
            state == (ScrollState { auto_follow: true, last_offset: OFFSET_END }),
    {
        ScrollState { auto_follow: true, last_offset: OFFSET_END }
    }
}

impl ScrollState {
    /// The offset lies within the scrollable height.
    pub open spec fn wf(self) -> bool {
        self.last_offset <= OFFSET_END
    }

    /// The state after the auto-follow switch was flipped.
    pub open spec fn toggled(self) -> ScrollState {
        ScrollState { auto_follow: !self.auto_follow, last_offset: self.last_offset }
    }

    /// The state after the user moved the viewport to `offset`: kept in manual
    /// mode, ignored while following.
    pub open spec fn moved(self, offset: u32) -> ScrollState {
        if self.auto_follow {
            self
        } else {
            ScrollState { auto_follow: false, last_offset: clamp_offset(offset) }
        }
    }

    /// What is asked of the presentation layer once `appended` entries were
    /// added to the log.
    pub open spec fn after_append_spec(self, appended: nat) -> Option<ScrollDirective> {
        if self.auto_follow && appended > 0 {
            Some(ScrollDirective::SnapToEnd)
        } else {
            None
        }
    }

    /// The state at the start of a session: following, at the end.
    pub fn new() -> (state: ScrollState)
        ensures
            state == (ScrollState { auto_follow: true, last_offset: OFFSET_END }),
            state.wf(),
    {
        ScrollState { auto_follow: true, last_offset: OFFSET_END }
    }

    /// Flips between following and manual mode. Entering the following mode
    /// asks for one snap to the end, whatever the manual offset was; leaving
    /// it asks for nothing.
    pub fn toggle_auto_follow(&mut self) -> (directive: Option<ScrollDirective>)
        ensures
            *final(self) == old(self).toggled(),
            old(self).wf() ==> final(self).wf(),
            !old(self).auto_follow ==> directive == Some(ScrollDirective::SnapToEnd),
            old(self).auto_follow ==> directive is None,
    {
        self.auto_follow = !self.auto_follow;
        if self.auto_follow {
            Some(ScrollDirective::SnapToEnd)
        } else {
            None
        }
    }

    /// Takes note of a viewport movement. In manual mode the offset is kept;
    /// while following, the movement changes nothing. Neither asks anything
    /// of the presentation layer, and no movement re-enters the following
    /// mode.
    pub fn viewport_moved(&mut self, offset: u32)
        ensures
            *final(self) == old(self).moved(offset),
            final(self).auto_follow == old(self).auto_follow,
            old(self).wf() ==> final(self).wf(),
    {
        if !self.auto_follow {
            self.last_offset = if offset > OFFSET_END {
                OFFSET_END
            } else {
                offset
            };
        }
    }

    /// To be called after a batch of `appended` entries went into the log:
    /// asks for a snap to the end where the batch was not empty and the
    /// policy is following.
    pub fn after_append(&self, appended: usize) -> (directive: Option<ScrollDirective>)
        ensures
            directive == self.after_append_spec(appended as nat),
    {
        if self.auto_follow && appended > 0 {
            Some(ScrollDirective::SnapToEnd)
        } else {
            None
        }
    }
}

} // verus!
