//! The parsed runtime configuration, as far as the control plane reads it.
use vstd::prelude::*;

verus! {

/// One docked bar's settings.
pub struct BarSettings {
    /// The bar's identifier in the configuration.
    pub id: String,
    /// Whether the bar stays above other windows; unset means no.
    pub always_on_top: Option<bool>,
}

/// All docked-bar definitions of one loaded configuration.
pub struct RuntimeConfig {
    pub bars: Vec<BarSettings>,
}

impl BarSettings {
    /// True when the bar asks to stay on top.
    pub open spec fn on_top(&self) -> bool {
        self.always_on_top == Some(true)
    }
}

impl RuntimeConfig {
    /// Some bar of the configuration asks to stay on top.
    pub open spec fn wants_fullscreen_watch(&self) -> bool {
        exists|i: int| 0 <= i < self.bars@.len() && #[trigger] self.bars@[i].on_top()
    }

    /// Whether the fullscreen watcher is needed: at least one bar has
    /// `always_on_top` set to true.
    pub fn any_always_on_top(&self) -> (r: bool)
        ensures
            r == self.wants_fullscreen_watch(),
    {
        let mut i: usize = 0;
        while i < self.bars.len()
            invariant
                0 <= i <= self.bars@.len(),
                forall|j: int| 0 <= j < i ==> !(#[trigger] self.bars@[j].on_top()),
            decreases self.bars@.len() - i,
        {
            match self.bars[i].always_on_top {
                Some(true) => {
                    assert(self.bars@[i as int].on_top());
                    return true;
                },
                _ => {},
            }
            i = i + 1;
        }
        false
    }
}

} // verus!
