//! The fullscreen watcher's decision: hide the always-on-top bars while a
//! fullscreen window is in the foreground, and restore them afterwards.
use vstd::prelude::*;

verus! {

/// What to do with the always-on-top bars after an observation.
#[derive(Clone, Copy, Debug, PartialEq, Eq, Structural)]
pub enum VisibilityChange {
    Hide,
    Restore,
    Keep,
}

/// Whether the always-on-top bars are currently hidden.
#[derive(Clone, Copy, Debug, PartialEq, Eq, Structural)]
pub struct FullscreenWatch {
    pub hidden: bool,
}

impl FullscreenWatch {
    /// A watcher whose bars are shown.
    pub fn new() -> (r: FullscreenWatch)
        ensures
            !r.hidden,
    {
        FullscreenWatch { hidden: false }
    }

    /// Records whether a fullscreen window is in the foreground and says how
    /// the bars' visibility changes: hidden exactly while fullscreen lasts.
    pub fn observe(&mut self, fullscreen: bool) -> (r: VisibilityChange)
        ensures
            final(self).hidden == fullscreen,
            r == (if fullscreen && !old(self).hidden {
                VisibilityChange::Hide
            } else if !fullscreen && old(self).hidden {
                VisibilityChange::Restore
            } else {
                VisibilityChange::Keep
            }),
    {
        let was_hidden = self.hidden;
        self.hidden = fullscreen;
        if fullscreen && !was_hidden {
            VisibilityChange::Hide
        } else if !fullscreen && was_hidden {
            VisibilityChange::Restore
        } else {
            VisibilityChange::Keep
        }
    }
}

} // verus!
