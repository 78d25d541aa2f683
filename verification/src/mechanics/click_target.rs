//! The button, and the time bar it has to be clicked against.

use vstd::prelude::*;
use crate::gauge::{Bar, BarBehavior, BarEvent, OnBarEmpty};
use crate::geometry::Point;
use crate::mechanic::GameMechanic;
use crate::outcome::{FailReason, Outcome};
use crate::player::Player;

verus! {

/// The radius of the button.
pub const THE_BUTTON_SIZE: u32 = 96_000;

/// How long the button may go unclicked, in microseconds.
pub const TIME_BAR_DURATION: i64 = 8_000_000;

/// The button has been clicked.
#[derive(Clone, Copy, Debug, PartialEq, Eq, Structural)]
pub struct OnButtonClicked;

/// The button: the target of the player's clicks and of the projectiles.
#[derive(Clone, Copy, Debug, PartialEq, Eq, Structural)]
pub struct TheButton {
    pub position: Point,
}

/// The bar that counts down while the button goes unclicked.
#[derive(Clone, Copy, Debug, PartialEq, Eq, Structural)]
pub struct ButtonTimeBar {
    pub bar: Bar,
}

impl TheButton {
    /// The button in the middle of the field.
    pub fn spawn_button() -> (button: Self)
        ensures
            button.position == (Point { x: 0, y: 0 }),
    {
        TheButton { position: Point { x: 0, y: 0 } }
    }

    /// A click has landed on the button: the player has hit a target, and
    /// every hazard that listens to the button hears of it.
    pub fn handle_button_click(&self, player: &mut Player) -> (clicked: OnButtonClicked)
        ensures
            *final(player) == (Player { clicked_on_target: true, ..*old(player) }),
    {
        player.clicked_on_target = true;
        OnButtonClicked
    }
}

impl ButtonTimeBar {
    /// The bar reports running empty and nothing else.
    pub open spec fn behavior_spec() -> BarBehavior {
        BarBehavior { trigger_on_full: false, trigger_on_empty: true }
    }

    /// The bar runs from zero to the full duration and holds a value between.
    pub open spec fn wf(self) -> bool {
        &&& self.bar.min == 0
        &&& self.bar.max == TIME_BAR_DURATION
        &&& self.bar.is_clamped()
    }

    /// A full bar.
    pub open spec fn full() -> ButtonTimeBar {
        ButtonTimeBar { bar: Bar { min: 0, max: TIME_BAR_DURATION, current: TIME_BAR_DURATION } }
    }

    /// The bar after `dt` microseconds without a click.
    pub open spec fn after_tick(self, dt: u64) -> ButtonTimeBar {
        ButtonTimeBar { bar: self.bar.after_set(self.bar.current - dt) }
    }

    /// The bar after a click on the button.
    pub open spec fn refilled(self) -> ButtonTimeBar {
        ButtonTimeBar { bar: self.bar.after_set(self.bar.max as int) }
    }

    /// The verdict of a tick of `dt` microseconds: the bar runs out on the
    /// tick that takes the last of its time, and on no tick after it.
    pub open spec fn verdict_of_tick(self, dt: u64) -> Outcome {
        if 0 < self.bar.current <= dt {
            Outcome::Fail(FailReason::TimedOut)
        } else {
            Outcome::Continue
        }
    }

    /// The bar reports running empty and nothing else.
    #[verifier::when_used_as_spec(behavior_spec)]
    pub fn behavior() -> (behavior: BarBehavior)
        ensures
            behavior == Self::behavior_spec(),
    {
        BarBehavior { trigger_on_full: false, trigger_on_empty: true }
    }

    /// A full bar.
    pub fn spawn_button_time_bar() -> (time_bar: Self)
        ensures
            time_bar == Self::full(),
            time_bar.wf(),
    {
        ButtonTimeBar { bar: Bar { min: 0, max: TIME_BAR_DURATION, current: TIME_BAR_DURATION } }
    }

    /// What an empty bar means: the round is lost if the bar is this one.
    pub fn on_button_time_up(event: OnBarEmpty) -> (outcome: Outcome)
        ensures
            outcome == if event.sender == GameMechanic::TimedClickTarget {
                Outcome::Fail(FailReason::TimedOut)
            } else {
                Outcome::Continue
            },
    {
        if event.sender == GameMechanic::TimedClickTarget {
            Outcome::Fail(FailReason::TimedOut)
        } else {
            Outcome::Continue
        }
    }

    /// Takes `dt` microseconds off the bar.
    pub fn update_button_time(&mut self, dt: u64) -> (outcome: Outcome)
        requires
            old(self).wf(),
        ensures
            *final(self) == old(self).after_tick(dt),
            final(self).wf(),
            final(self).bar.current == if dt >= old(self).bar.current {
                0
            } else {
                old(self).bar.current - dt
            },
            outcome == old(self).verdict_of_tick(dt),
    {
        match self.bar.drain(dt, &Self::behavior(), GameMechanic::TimedClickTarget) {
            Some(BarEvent::Empty(event)) => Self::on_button_time_up(event),
            _ => Outcome::Continue,
        }
    }

    /// The button has been clicked: the bar is full again.
    pub fn fill_time_bar_on_button_click(&mut self, clicked: OnButtonClicked)
        requires
            old(self).wf(),
        ensures
            *final(self) == old(self).refilled(),
            final(self).wf(),
            final(self).bar.current == TIME_BAR_DURATION,
    {
        self.bar.fill(&Self::behavior(), GameMechanic::TimedClickTarget);
    }
}

/// A bar that loses `step` microseconds a tick runs out on the tick that
/// takes the last of the time it held, and reports it on that tick alone:
/// not before, and not on any tick after.
pub proof fn lemma_time_runs_out_once(time_bar: ButtonTimeBar, step: u64, ticks: nat)
    requires
        time_bar.wf(),
        step > 0,
    ensures
        after_ticks(time_bar, step, ticks).wf(),
        after_ticks(time_bar, step, ticks).bar.current == if ticks * step >= time_bar.bar.current {
            0
        } else {
            time_bar.bar.current - ticks * step
        },
        ticks > 0 ==> (after_ticks(time_bar, step, (ticks - 1) as nat).verdict_of_tick(step)
            == Outcome::Fail(FailReason::TimedOut) <==> (ticks - 1) * step < time_bar.bar.current
            <= ticks * step),
    decreases ticks,
{
    if ticks > 0 {
        lemma_time_runs_out_once(time_bar, step, (ticks - 1) as nat);
        assert(ticks * step == (ticks - 1) * step + step) by (nonlinear_arith);
    } else {
        assert(ticks * step == 0) by (nonlinear_arith)
            requires
                ticks == 0,
        ;
    }
}

/// The bar after `ticks` ticks of `step` microseconds each.
pub open spec fn after_ticks(time_bar: ButtonTimeBar, step: u64, ticks: nat) -> ButtonTimeBar
    decreases ticks,
{
    if ticks == 0 {
        time_bar
    } else {
        after_ticks(time_bar, step, (ticks - 1) as nat).after_tick(step)
    }
}

} // verus!
