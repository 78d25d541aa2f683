//! A bounded value that clamps on every write and reports the write that
//! lands it on a bound.

use vstd::prelude::*;
use crate::mechanic::GameMechanic;

verus! {

/// A value kept between `min` and `max`.
#[derive(Clone, Copy, Debug, PartialEq, Eq, Structural)]
pub struct Bar {
    pub min: i64,
    pub max: i64,
    pub current: i64,
}

/// Which bounds of a [`Bar`] report being reached.
#[derive(Clone, Copy, Debug, PartialEq, Eq, Structural)]
pub struct BarBehavior {
    pub trigger_on_full: bool,
    pub trigger_on_empty: bool,
}

/// A bar has just dropped onto its lower bound.
#[derive(Clone, Copy, Debug, PartialEq, Eq, Structural)]
pub struct OnBarEmpty {
    /// The hazard that owns the bar.
    pub sender: GameMechanic,
}

/// A bar has just risen onto its upper bound.
#[derive(Clone, Copy, Debug, PartialEq, Eq, Structural)]
pub struct OnBarFull {
    /// The hazard that owns the bar.
    pub sender: GameMechanic,
}

/// What a single write to a [`Bar`] can report.
#[derive(Clone, Copy, Debug, PartialEq, Eq, Structural)]
pub enum BarEvent {
    Empty(OnBarEmpty),
    Full(OnBarFull),
}

/// `value` moved to the nearest point of `[min, max]`.
pub open spec fn clamp(value: int, min: int, max: int) -> int {
    if value < min {
        min
    } else if value > max {
        max
    } else {
        value
    }
}

impl Default for Bar {
    fn default() -> (bar: Self)
        ensures
            bar == (Bar { min: 0, max: 0, current: 0 }),
    {
        Bar { min: 0, max: 0, current: 0 }
    }
}

impl Default for BarBehavior {
    fn default() -> (behavior: Self)
        ensures
            behavior == (BarBehavior { trigger_on_full: false, trigger_on_empty: false }),
    {
        BarBehavior { trigger_on_full: false, trigger_on_empty: false }
    }
}

impl Bar {
    /// The bounds are in order.
    pub open spec fn wf(self) -> bool {
        self.min <= self.max
    }

    /// The value lies within the bounds.
    pub open spec fn is_clamped(self) -> bool {
        self.min <= self.current <= self.max
    }

    /// The bar after `value` has been written to it.
    pub open spec fn after_set(self, value: int) -> Bar {
        Bar { current: clamp(value, self.min as int, self.max as int) as i64, ..self }
    }

    /// What writing `value` reports.
    ///
    /// A write reports only when it changes the stored value, and only the
    /// bound the new value sits on. On a bar whose bounds coincide the upper
    /// bound is looked at first, so a write that lands on both reports
    /// `Full` when both bounds are enabled.
    pub open spec fn event_of_set(self, value: int, behavior: BarBehavior, sender: GameMechanic) -> Option<
        BarEvent,
    > {
        let next = self.after_set(value).current;
        if next == self.current {
            None
        } else if behavior.trigger_on_full && next == self.max {
            Some(BarEvent::Full(OnBarFull { sender }))
        } else if behavior.trigger_on_empty && next == self.min {
            Some(BarEvent::Empty(OnBarEmpty { sender }))
        } else {
            None
        }
    }

    /// Stores `target` clamped into the bounds.
    fn write(&mut self, target: i128, behavior: &BarBehavior, sender: GameMechanic) -> (event: Option<
        BarEvent,
    >)
        requires
            old(self).wf(),
        ensures
            *final(self) == old(self).after_set(target as int),
            event == old(self).event_of_set(target as int, *behavior, sender),
    {
        let before = self.current;
        let next: i64 = if target < self.min as i128 {
            self.min
        } else if target > self.max as i128 {
            self.max
        } else {
            target as i64
        };
        self.current = next;
        if next == before {
            None
        } else if behavior.trigger_on_full && next == self.max {
            Some(BarEvent::Full(OnBarFull { sender }))
        } else if behavior.trigger_on_empty && next == self.min {
            Some(BarEvent::Empty(OnBarEmpty { sender }))
        } else {
            None
        }
    }

    /// Writes `value`, clamped into the bounds, and reports a bound that the
    /// write has just reached.
    pub fn set(&mut self, value: i64, behavior: &BarBehavior, sender: GameMechanic) -> (event: Option<
        BarEvent,
    >)
        requires
            old(self).wf(),
        ensures
            *final(self) == old(self).after_set(value as int),
            event == old(self).event_of_set(value as int, *behavior, sender),
            final(self).wf(),
            final(self).is_clamped(),
    {
        self.write(value as i128, behavior, sender)
    }

    /// Writes the current value plus `delta`: the same as `set` of the exact
    /// sum, which need not fit the value's type.
    pub fn adjust(&mut self, delta: i64, behavior: &BarBehavior, sender: GameMechanic) -> (event: Option<
        BarEvent,
    >)
        requires
            old(self).wf(),
        ensures
            *final(self) == old(self).after_set(old(self).current + delta),
            event == old(self).event_of_set(old(self).current + delta, *behavior, sender),
            final(self).wf(),
            final(self).is_clamped(),
    {
        self.write(self.current as i128 + delta as i128, behavior, sender)
    }

    /// Writes the current value less `amount`, an elapsed time or another
    /// unsigned quantity.
    pub fn drain(&mut self, amount: u64, behavior: &BarBehavior, sender: GameMechanic) -> (event: Option<
        BarEvent,
    >)
        requires
            old(self).wf(),
        ensures
            *final(self) == old(self).after_set(old(self).current - amount),
            event == old(self).event_of_set(old(self).current - amount, *behavior, sender),
            final(self).wf(),
            final(self).is_clamped(),
    {
        self.write(self.current as i128 - amount as i128, behavior, sender)
    }

    /// Writes the upper bound.
    pub fn fill(&mut self, behavior: &BarBehavior, sender: GameMechanic) -> (event: Option<BarEvent>)
        requires
            old(self).wf(),
        ensures
            *final(self) == old(self).after_set(old(self).max as int),
            final(self).current == old(self).max,
            event == old(self).event_of_set(old(self).max as int, *behavior, sender),
            final(self).wf(),
            final(self).is_clamped(),
    {
        self.write(self.max as i128, behavior, sender)
    }
}

/// One write to a bar, as a value: what `set` and `adjust` are called with.
#[derive(Clone, Copy, Debug, PartialEq, Eq, Structural)]
pub enum BarWrite {
    /// Ask for this value.
    To(i64),
    /// Ask for the current value plus this.
    By(i64),
}

impl Bar {
    /// The value that `write` asks for, before clamping.
    pub open spec fn target_of(self, write: BarWrite) -> int {
        match write {
            BarWrite::To(value) => value as int,
            BarWrite::By(delta) => self.current + delta,
        }
    }

    /// The bar after one write.
    pub open spec fn after_write(self, write: BarWrite) -> Bar {
        self.after_set(self.target_of(write))
    }

    /// The bar after a run of writes, first to last.
    pub open spec fn after_writes(self, writes: Seq<BarWrite>) -> Bar
        decreases writes.len(),
    {
        if writes.len() == 0 {
            self
        } else {
            self.after_write(writes[0]).after_writes(writes.drop_first())
        }
    }

    /// Everything a run of writes reports, in order.
    pub open spec fn events_of_writes(
        self,
        writes: Seq<BarWrite>,
        behavior: BarBehavior,
        sender: GameMechanic,
    ) -> Seq<BarEvent>
        decreases writes.len(),
    {
        if writes.len() == 0 {
            Seq::empty()
        } else {
            let rest = self.after_write(writes[0]).events_of_writes(
                writes.drop_first(),
                behavior,
                sender,
            );
            match self.event_of_set(self.target_of(writes[0]), behavior, sender) {
                Some(event) => seq![event] + rest,
                None => rest,
            }
        }
    }

    /// Every write of the run asks for a value at or below the lower bound.
    pub open spec fn stays_at_or_below_min(self, writes: Seq<BarWrite>) -> bool
        decreases writes.len(),
    {
        writes.len() == 0 || (self.target_of(writes[0]) <= self.min && self.after_write(
            writes[0],
        ).stays_at_or_below_min(writes.drop_first()))
    }

    /// Applies one write.
    pub fn apply(&mut self, write: BarWrite, behavior: &BarBehavior, sender: GameMechanic) -> (event:
        Option<BarEvent>)
        requires
            old(self).wf(),
        ensures
            *final(self) == old(self).after_write(write),
            event == old(self).event_of_set(old(self).target_of(write), *behavior, sender),
            final(self).wf(),
            final(self).is_clamped(),
    {
        match write {
            BarWrite::To(value) => self.set(value, behavior, sender),
            BarWrite::By(delta) => self.adjust(delta, behavior, sender),
        }
    }
}

/// After each write of any run of `set` and `adjust` calls the value lies
/// within the bounds, and the bounds are the ones the bar started with.
pub proof fn lemma_writes_keep_clamped(bar: Bar, writes: Seq<BarWrite>, k: int)
    requires
        bar.wf(),
        0 < k <= writes.len(),
    ensures
        bar.after_writes(writes.take(k)).is_clamped(),
        bar.after_writes(writes.take(k)).min == bar.min,
        bar.after_writes(writes.take(k)).max == bar.max,
    decreases k,
{
    let prefix = writes.take(k);
    let next = bar.after_write(writes[0]);
    assert(prefix[0] == writes[0]);
    if k == 1 {
        assert(prefix.drop_first() =~= Seq::<BarWrite>::empty());
        assert(next.after_writes(prefix.drop_first()) == next);
    } else {
        assert(prefix.drop_first() =~= writes.drop_first().take(k - 1));
        lemma_writes_keep_clamped(next, writes.drop_first(), k - 1);
    }
}

/// A bar that already sits on its lower bound reports nothing while the
/// writes keep asking for values at or below it.
pub proof fn lemma_resting_at_min_is_silent(
    bar: Bar,
    writes: Seq<BarWrite>,
    behavior: BarBehavior,
    sender: GameMechanic,
)
    requires
        bar.wf(),
        bar.current == bar.min,
        bar.stays_at_or_below_min(writes),
    ensures
        bar.events_of_writes(writes, behavior, sender) == Seq::<BarEvent>::empty(),
        bar.after_writes(writes) == bar,
    decreases writes.len(),
{
    if writes.len() > 0 {
        assert(bar.after_write(writes[0]) == bar);
        lemma_resting_at_min_is_silent(bar, writes.drop_first(), behavior, sender);
    }
}

/// Driving a bar onto its lower bound reports `Empty` once: the first write
/// that asks for a value at or below the bound reports it, and no later one
/// does, however many follow.
///
/// The bar reports its lower bound, starts off it, and either has distinct
/// bounds or does not report the upper one.
pub proof fn lemma_empty_fires_once(
    bar: Bar,
    writes: Seq<BarWrite>,
    behavior: BarBehavior,
    sender: GameMechanic,
)
    requires
        bar.wf(),
        behavior.trigger_on_empty,
        bar.min < bar.max || !behavior.trigger_on_full,
        bar.current != bar.min,
        writes.len() > 0,
        bar.stays_at_or_below_min(writes),
    ensures
        bar.events_of_writes(writes, behavior, sender) == seq![
            BarEvent::Empty(OnBarEmpty { sender }),
        ],
        bar.after_writes(writes).current == bar.min,
{
    let next = bar.after_write(writes[0]);
    assert(next.current == bar.min);
    lemma_resting_at_min_is_silent(next, writes.drop_first(), behavior, sender);
    assert(seq![BarEvent::Empty(OnBarEmpty { sender })] + Seq::<BarEvent>::empty()
        =~= seq![BarEvent::Empty(OnBarEmpty { sender })]);
}

/// The same write, `count` times over.
pub open spec fn repeated(write: BarWrite, count: nat) -> Seq<BarWrite> {
    Seq::new(count, |i: int| write)
}

/// A bar that is counted down in equal steps reports `Empty` once, with the
/// step that takes the last of what it held: a run of steps too short to
/// reach the lower bound reports nothing, and a run that reaches it reports
/// `Empty` and nothing more, however far it goes on.
///
/// The bar reports its lower bound, holds a value within its bounds, and
/// either has distinct bounds or does not report the upper one.
pub proof fn lemma_countdown_fires_at_the_end(
    bar: Bar,
    step: i64,
    count: nat,
    behavior: BarBehavior,
    sender: GameMechanic,
)
    requires
        bar.wf(),
        bar.is_clamped(),
        behavior.trigger_on_empty,
        bar.min < bar.max || !behavior.trigger_on_full,
        step > 0,
    ensures
        bar.events_of_writes(repeated(BarWrite::By((-step) as i64), count), behavior, sender) == if bar.current
            > bar.min && count * step >= bar.current - bar.min {
            seq![BarEvent::Empty(OnBarEmpty { sender })]
        } else {
            Seq::<BarEvent>::empty()
        },
        bar.after_writes(repeated(BarWrite::By((-step) as i64), count)).current == if count * step
            >= bar.current - bar.min {
            bar.min as int
        } else {
            bar.current - count * step
        },
    decreases count,
{
    let write = BarWrite::By((-step) as i64);
    let writes = repeated(write, count);
    if count == 0 {
        assert(count * step == 0) by (nonlinear_arith)
            requires
                count == 0,
        ;
    } else {
        let next = bar.after_write(write);
        assert(writes[0] == write);
        assert(writes.drop_first() =~= repeated(write, (count - 1) as nat));
        lemma_countdown_fires_at_the_end(next, step, (count - 1) as nat, behavior, sender);
        assert(count * step == (count - 1) * step + step) by (nonlinear_arith);
        assert((count - 1) * step >= 0) by (nonlinear_arith)
            requires
                count >= 1,
                step > 0,
        ;
        assert(seq![BarEvent::Empty(OnBarEmpty { sender })] + Seq::<BarEvent>::empty()
            =~= seq![BarEvent::Empty(OnBarEmpty { sender })]);
    }
}

} // verus!
