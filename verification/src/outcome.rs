//! What a hazard reports each tick, and the single slot that records how the
//! round ended.

use vstd::prelude::*;
use crate::mechanic::GameMechanic;

verus! {

/// Why a hazard ended the round.
#[derive(Clone, Copy, Debug, PartialEq, Eq, Structural)]
pub enum FailReason {
    /// The button was not clicked before its time bar ran out.
    TimedOut,
    /// The durability bar reached zero.
    Broken,
    /// A projectile reached the button.
    Destroyed,
    /// The homing shape reached the player.
    Caught,
}

/// The verdict of one hazard for one tick.
#[derive(Clone, Copy, Debug, PartialEq, Eq, Structural)]
pub enum Outcome {
    Continue,
    Fail(FailReason),
    Succeed,
}

/// The round is over; the tag names the hazard that ended it, or `Victory`.
#[derive(Clone, Copy, Debug, PartialEq, Eq, Structural)]
pub struct GameOver(pub GameMechanic);

/// The slot the end-of-round screen reads: empty while the round runs.
#[derive(Clone, Copy, Debug, PartialEq, Eq, Structural)]
pub struct GameOverData {
    pub reason: Option<GameMechanic>,
}

impl FailReason {
    /// The hazard that fails for this reason.
    pub open spec fn mechanic_spec(self) -> GameMechanic {
        match self {
            FailReason::TimedOut => GameMechanic::TimedClickTarget,
            FailReason::Broken => GameMechanic::Durability,
            FailReason::Destroyed => GameMechanic::ProjectileWave,
            FailReason::Caught => GameMechanic::HomingShape,
        }
    }

    /// The hazard that fails for this reason.
    #[verifier::when_used_as_spec(mechanic_spec)]
    pub fn mechanic(self) -> (mechanic: GameMechanic)
        ensures
            mechanic == self.mechanic_spec(),
    {
        match self {
            FailReason::TimedOut => GameMechanic::TimedClickTarget,
            FailReason::Broken => GameMechanic::Durability,
            FailReason::Destroyed => GameMechanic::ProjectileWave,
            FailReason::Caught => GameMechanic::HomingShape,
        }
    }
}

impl Outcome {
    /// The end of the round that this verdict asks for, if it asks for one.
    pub open spec fn game_over_spec(self) -> Option<GameOver> {
        match self {
            Outcome::Continue => None,
            Outcome::Fail(reason) => Some(GameOver(reason.mechanic())),
            Outcome::Succeed => Some(GameOver(GameMechanic::Victory)),
        }
    }

    /// The end of the round that this verdict asks for, if it asks for one.
    #[verifier::when_used_as_spec(game_over_spec)]
    pub fn game_over(self) -> (event: Option<GameOver>)
        ensures
            event == self.game_over_spec(),
    {
        match self {
            Outcome::Continue => None,
            Outcome::Fail(reason) => Some(GameOver(reason.mechanic())),
            Outcome::Succeed => Some(GameOver(GameMechanic::Victory)),
        }
    }

    /// The first of two verdicts that is not `Continue`, taken in order.
    pub open spec fn or_spec(self, later: Outcome) -> Outcome {
        if self is Continue {
            later
        } else {
            self
        }
    }

    /// The first of two verdicts that is not `Continue`, taken in order.
    #[verifier::when_used_as_spec(or_spec)]
    pub fn or(self, later: Outcome) -> (first: Outcome)
        ensures
            first == self.or_spec(later),
    {
        match self {
            Outcome::Continue => later,
            _ => self,
        }
    }
}

impl Default for GameOverData {
    fn default() -> (slot: Self)
        ensures
            slot.reason is None,
    {
        GameOverData { reason: None }
    }
}

impl GameOverData {
    /// The slot after `event` has been handed in: the first event is kept.
    pub open spec fn after(self, event: GameOver) -> GameOverData {
        if self.reason is Some {
            self
        } else {
            GameOverData { reason: Some(event.0) }
        }
    }

    /// The slot after a verdict has been handed in.
    pub open spec fn after_outcome(self, outcome: Outcome) -> GameOverData {
        match outcome.game_over() {
            Some(event) => self.after(event),
            None => self,
        }
    }

    /// The slot after a run of verdicts, in the order they were raised.
    pub open spec fn after_outcomes(self, outcomes: Seq<Outcome>) -> GameOverData
        decreases outcomes.len(),
    {
        if outcomes.len() == 0 {
            self
        } else {
            self.after_outcome(outcomes[0]).after_outcomes(outcomes.drop_first())
        }
    }

    /// The round has ended.
    pub open spec fn is_over_spec(&self) -> bool {
        self.reason is Some
    }

    /// The round has ended.
    #[verifier::when_used_as_spec(is_over_spec)]
    pub fn is_over(&self) -> (over: bool)
        ensures
            over == self.is_over_spec(),
    {
        self.reason.is_some()
    }

    /// Records the end of the round. Returns whether this call ended it: a
    /// round that is already over keeps its reason and ends no second time.
    pub fn on_game_over(&mut self, event: GameOver) -> (ended_now: bool)
        ensures
            *final(self) == old(self).after(event),
            ended_now == !old(self).is_over(),
            final(self).is_over(),
    {
        if self.reason.is_some() {
            false
        } else {
            self.reason = Some(event.0);
            true
        }
    }

    /// Hands in the verdict of a hazard: `Continue` is ignored, anything else
    /// ends the round unless it has ended before.
    pub fn offer(&mut self, outcome: Outcome) -> (ended_now: bool)
        ensures
            *final(self) == old(self).after_outcome(outcome),
            ended_now == (!old(self).is_over() && !(outcome is Continue)),
    {
        match outcome.game_over() {
            Some(event) => self.on_game_over(event),
            None => false,
        }
    }

    /// Empties the slot for the next round.
    pub fn clear(&mut self)
        ensures
            final(self).reason is None,
    {
        self.reason = None;
    }
}

/// A round can end for this reason, so the end-of-round screen has words
/// for it.
pub open spec fn ends_rounds_spec(reason: GameMechanic) -> bool {
    ||| reason == GameMechanic::TimedClickTarget
    ||| reason == GameMechanic::Durability
    ||| reason == GameMechanic::ProjectileWave
    ||| reason == GameMechanic::HomingShape
    ||| reason == GameMechanic::Victory
}

/// The headline of the end-of-round screen.
pub open spec fn title_of(reason: GameMechanic) -> Seq<char> {
    if reason == GameMechanic::Victory {
        "VICTORY"@
    } else {
        "GAME OVER"@
    }
}

/// The sentence of the end-of-round screen that says why the round ended,
/// for the reasons a round can end for.
pub open spec fn explanation_of(reason: GameMechanic) -> Option<Seq<char>> {
    match reason {
        GameMechanic::TimedClickTarget => Some(
            "THE BUTTON was not clicked during the last 6 seconds."@,
        ),
        GameMechanic::Durability => Some("THE BUTTON durability reached zero."@),
        GameMechanic::ProjectileWave => Some("THE BUTTON was destroyed by triangle."@),
        GameMechanic::HomingShape => Some("You were caught by pentagon."@),
        GameMechanic::Victory => Some("CG. You managed to survive the chaos."@),
        _ => None,
    }
}

/// Whether a round can end for this reason.
#[verifier::when_used_as_spec(ends_rounds_spec)]
pub fn ends_rounds(reason: GameMechanic) -> (known: bool)
    ensures
        known == ends_rounds_spec(reason),
{
    match reason {
        GameMechanic::TimedClickTarget
        | GameMechanic::Durability
        | GameMechanic::ProjectileWave
        | GameMechanic::HomingShape
        | GameMechanic::Victory => true,
        _ => false,
    }
}

/// The headline of the end-of-round screen.
pub fn title(reason: GameMechanic) -> (title: &'static str)
    ensures
        title@ == title_of(reason),
{
    match reason {
        GameMechanic::Victory => "VICTORY",
        _ => "GAME OVER",
    }
}

/// The sentence of the end-of-round screen that says why the round ended.
/// It exists for the reasons a round can end for, and for no other: there is
/// no sentence to fall back on.
pub fn explanation(reason: GameMechanic) -> (sentence: Option<&'static str>)
    ensures
        sentence is Some <==> ends_rounds(reason),
        match sentence {
            Some(sentence) => explanation_of(reason) == Some(sentence@),
            None => explanation_of(reason) is None,
        },
{
    match reason {
        GameMechanic::TimedClickTarget => Some(
            "THE BUTTON was not clicked during the last 6 seconds.",
        ),
        GameMechanic::Durability => Some("THE BUTTON durability reached zero."),
        GameMechanic::ProjectileWave => Some("THE BUTTON was destroyed by triangle."),
        GameMechanic::HomingShape => Some("You were caught by pentagon."),
        GameMechanic::Victory => Some("CG. You managed to survive the chaos."),
        _ => None,
    }
}

/// Every verdict that ends a round names a reason that the end-of-round
/// screen has words for.
pub proof fn lemma_every_end_has_words(outcome: Outcome)
    ensures
        outcome.game_over() matches Some(event) ==> ends_rounds(event.0) && explanation_of(
            event.0,
        ) is Some,
{
}

/// Once a round is over, no run of later verdicts changes the reason it
/// ended for.
pub proof fn lemma_first_outcome_stands(slot: GameOverData, outcomes: Seq<Outcome>)
    requires
        slot.is_over(),
    ensures
        slot.after_outcomes(outcomes) == slot,
    decreases outcomes.len(),
{
    if outcomes.len() > 0 {
        lemma_first_outcome_stands(slot, outcomes.drop_first());
    }
}

/// A running round ends for the reason of the first verdict that is not
/// `Continue`, whatever follows it; while every verdict is `Continue` it
/// keeps running.
pub proof fn lemma_first_outcome_wins(slot: GameOverData, outcomes: Seq<Outcome>, first: int)
    requires
        !slot.is_over(),
        0 <= first <= outcomes.len(),
        forall|i: int| 0 <= i < first ==> outcomes[i] is Continue,
        first < outcomes.len() ==> !(outcomes[first] is Continue),
    ensures
        first == outcomes.len() ==> slot.after_outcomes(outcomes) == slot,
        first < outcomes.len() ==> slot.after_outcomes(outcomes) == slot.after_outcome(
            outcomes[first],
        ),
    decreases outcomes.len(),
{
    if outcomes.len() > 0 {
        if first == 0 {
            lemma_first_outcome_stands(slot.after_outcome(outcomes[0]), outcomes.drop_first());
        } else {
            let rest = outcomes.drop_first();
            assert(forall|i: int| 0 <= i < first - 1 ==> rest[i] == outcomes[i + 1]);
            lemma_first_outcome_wins(slot, rest, first - 1);
        }
    }
}

} // verus!
