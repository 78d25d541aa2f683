//! The durability bar: every click on the button wears it down, the fix
//! button restores it.

use vstd::prelude::*;
use crate::gauge::{Bar, BarBehavior, BarEvent, OnBarEmpty};
use crate::mechanic::GameMechanic;
use crate::mechanics::click_target::OnButtonClicked;
use crate::outcome::{FailReason, Outcome};

verus! {

/// The durability of an unworn button.
pub const MAX_DURABILITY: i64 = 6;

/// The durability that one click costs.
pub const CLICK_DAMAGE: i64 = 1;

/// The bar that shows how many clicks the button can still take.
#[derive(Clone, Copy, Debug, PartialEq, Eq, Structural)]
pub struct DurabilityBar {
    pub bar: Bar,
}

impl DurabilityBar {
    /// The bar reports running empty and nothing else.
    pub open spec fn behavior_spec() -> BarBehavior {
        BarBehavior { trigger_on_full: false, trigger_on_empty: true }
    }

    /// The bar runs from zero to the full durability and holds a value
    /// between.
    pub open spec fn wf(self) -> bool {
        &&& self.bar.min == 0
        &&& self.bar.max == MAX_DURABILITY
        &&& self.bar.is_clamped()
    }

    /// A full bar.
    pub open spec fn full() -> DurabilityBar {
        DurabilityBar { bar: Bar { min: 0, max: MAX_DURABILITY, current: MAX_DURABILITY } }
    }

    /// The bar after a click on the button.
    pub open spec fn after_click(self) -> DurabilityBar {
        DurabilityBar { bar: self.bar.after_set(self.bar.current - CLICK_DAMAGE) }
    }

    /// The bar after a click on the fix button.
    pub open spec fn fixed(self) -> DurabilityBar {
        DurabilityBar { bar: self.bar.after_set(self.bar.max as int) }
    }

    /// The verdict of a click on the button: the button breaks with the
    /// click that takes the last of its durability, and with no click after.
    pub open spec fn verdict_of_click(self) -> Outcome {
        if 0 < self.bar.current <= CLICK_DAMAGE {
            Outcome::Fail(FailReason::Broken)
        } else {
            Outcome::Continue
        }
    }

    /// The bar reports running empty and nothing else.
    #[verifier::when_used_as_spec(behavior_spec)]
    pub fn behavior() -> (behavior: BarBehavior)
        ensures
            behavior == Self::behavior_spec(),
    {
        BarBehavior { trigger_on_full: false, trigger_on_empty: true }
    }

    /// A full bar.
    pub fn spawn_durability_bar() -> (durability: Self)
        ensures
            durability == Self::full(),
            durability.wf(),
    {
        DurabilityBar { bar: Bar { min: 0, max: MAX_DURABILITY, current: MAX_DURABILITY } }
    }

    /// What an empty bar means: the round is lost if the bar is this one.
    pub fn on_durability_zero(event: OnBarEmpty) -> (outcome: Outcome)
        ensures
            outcome == if event.sender == GameMechanic::Durability {
                Outcome::Fail(FailReason::Broken)
            } else {
                Outcome::Continue
            },
    {
        if event.sender == GameMechanic::Durability {
            Outcome::Fail(FailReason::Broken)
        } else {
            Outcome::Continue
        }
    }

    /// The button has been clicked: it loses one click's worth of
    /// durability, and breaks with the click that takes the last of it.
    pub fn update_durability(&mut self, clicked: OnButtonClicked) -> (outcome: Outcome)
        requires
            old(self).wf(),
        ensures
            *final(self) == old(self).after_click(),
            final(self).wf(),
            final(self).bar.current == if old(self).bar.current >= CLICK_DAMAGE {
                old(self).bar.current - CLICK_DAMAGE
            } else {
                0
            },
            outcome == old(self).verdict_of_click(),
    {
        match self.bar.adjust(-CLICK_DAMAGE, &Self::behavior(), GameMechanic::Durability) {
            Some(BarEvent::Empty(event)) => Self::on_durability_zero(event),
            _ => Outcome::Continue,
        }
    }

    /// The fix button has been clicked: the bar is full again.
    pub fn on_fix_button_click(&mut self)
        requires
            old(self).wf(),
        ensures
            *final(self) == old(self).fixed(),
            final(self).wf(),
            final(self).bar.current == MAX_DURABILITY,
    {
        self.bar.fill(&Self::behavior(), GameMechanic::Durability);
    }
}

} // verus!
