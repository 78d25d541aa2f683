//! The script of a round, and the sequencer that plays it.
//!
//! A script is a text of one action per line:
//!
//! ```text
//! # seconds since the action before | T or M | what to show or start
//! 0|T|Survive!
//! 2|M|Button
//! 8|M|Timer
//! ```
//!
//! `T` changes the guide text, `M` starts a mechanic. Empty lines and lines
//! that start with `#` are skipped. One bad line fails the whole script.

use vstd::prelude::*;
use vstd::string::StringExecFns;
use crate::decimal::{parse_seconds, seconds_as_micros};
use crate::mechanic::{mechanic_named, normalized, GameMechanic};
use crate::text::{chars_of, collect_triple, fields, split_fields, trim, trimmed, Span};

verus! {

/// What an action does.
pub enum ActionType {
    /// Show this guide text.
    ChangeText(String),
    /// Ask for this mechanic.
    SpawnMechanic(GameMechanic),
}

/// One step of a script.
pub struct Action {
    /// Microseconds to wait after the action before this one has fired.
    pub time: u64,
    pub action_type: ActionType,
}

/// A script: its actions in the order they fire.
pub struct ActionSequence(pub Vec<Action>);

/// Why a text is no script. The first bad line decides.
#[derive(Clone, Copy, Debug, PartialEq, Eq, Structural)]
pub enum ActionSequenceLoaderError {
    /// A line does not have three fields.
    FieldCount,
    /// The first field of a line is no time.
    Time,
    /// The second field of a line is neither `T` nor `M`.
    ActionKind,
    /// The third field of an `M` line names no mechanic.
    Mechanic,
}

/// Where the sequencer stands in its script.
#[derive(Clone, Copy, Debug, PartialEq, Eq, Structural)]
pub struct SequencerState {
    /// Microseconds waited for the next action.
    pub elapsed_time: u64,
    /// The next action to fire.
    pub action_index: usize,
}

/// What an action does, as a value.
pub enum ActionTypeView {
    ChangeText(Seq<char>),
    SpawnMechanic(GameMechanic),
}

/// One step of a script, as a value.
pub struct ActionView {
    pub time: u64,
    pub action_type: ActionTypeView,
}

impl View for ActionType {
    type V = ActionTypeView;

    open spec fn view(&self) -> ActionTypeView {
        match self {
            ActionType::ChangeText(text) => ActionTypeView::ChangeText(text@),
            ActionType::SpawnMechanic(mechanic) => ActionTypeView::SpawnMechanic(*mechanic),
        }
    }
}

impl View for Action {
    type V = ActionView;

    open spec fn view(&self) -> ActionView {
        ActionView { time: self.time, action_type: self.action_type@ }
    }
}

impl View for ActionSequence {
    type V = Seq<ActionView>;

    open spec fn view(&self) -> Seq<ActionView> {
        Seq::new(self.0@.len(), |i: int| self.0@[i]@)
    }
}

/// The piece is the single character `letter`.
pub open spec fn is_letter(s: Seq<char>, span: Span, letter: char) -> bool {
    span.end - span.start == 1 && s[span.start as int] == letter
}

/// What a line of a script says: an action, nothing for an empty line or a
/// comment, or the reason why it says neither.
///
/// The fields are checked in this order: their number, the time, the kind,
/// and for a mechanic its name. White space around the line and around each
/// field does not count.
pub open spec fn line_action(s: Seq<char>, line: Span) -> Result<
    Option<ActionView>,
    ActionSequenceLoaderError,
> {
    let inner = trimmed(s, line);
    if inner.is_empty() || s[inner.start as int] == '#' {
        Ok(None)
    } else if fields(s, inner).len() != 3 {
        Err(ActionSequenceLoaderError::FieldCount)
    } else {
        let time = trimmed(s, fields(s, inner)[0]);
        let kind = trimmed(s, fields(s, inner)[1]);
        let content = trimmed(s, fields(s, inner)[2]);
        match seconds_as_micros(s, time) {
            None => Err(ActionSequenceLoaderError::Time),
            Some(time) => if is_letter(s, kind, 'T') {
                Ok(
                    Some(
                        ActionView { time, action_type: ActionTypeView::ChangeText(content.of(s)) },
                    ),
                )
            } else if is_letter(s, kind, 'M') {
                match mechanic_named(normalized(s, content.start as int, content.end as int)) {
                    Some(mechanic) => Ok(
                        Some(ActionView { time, action_type: ActionTypeView::SpawnMechanic(mechanic) }),
                    ),
                    None => Err(ActionSequenceLoaderError::Mechanic),
                }
            } else {
                Err(ActionSequenceLoaderError::ActionKind)
            },
        }
    }
}

/// `found` ahead of what follows it, unless what follows failed.
pub open spec fn and_then_all(
    found: Seq<ActionView>,
    rest: Result<Seq<ActionView>, ActionSequenceLoaderError>,
) -> Result<Seq<ActionView>, ActionSequenceLoaderError> {
    match rest {
        Ok(rest) => Ok(found + rest),
        Err(error) => Err(error),
    }
}

/// The line and what follows it.
pub open spec fn line_and_rest(
    line: Result<Option<ActionView>, ActionSequenceLoaderError>,
    rest: Result<Seq<ActionView>, ActionSequenceLoaderError>,
) -> Result<Seq<ActionView>, ActionSequenceLoaderError> {
    match line {
        Err(error) => Err(error),
        Ok(Some(action)) => and_then_all(seq![action], rest),
        Ok(None) => rest,
    }
}

/// The actions of the text from `line_start` on, where `line_start..at` has
/// been seen to hold no line break. Lines end at `\n`; the last line need
/// not.
pub open spec fn actions_from(s: Seq<char>, line_start: int, at: int) -> Result<
    Seq<ActionView>,
    ActionSequenceLoaderError,
>
    decreases s.len() - at,
{
    if at >= s.len() {
        line_and_rest(
            line_action(s, Span { start: line_start as usize, end: s.len() as usize }),
            Ok(Seq::empty()),
        )
    } else if s[at] == '\n' {
        line_and_rest(
            line_action(s, Span { start: line_start as usize, end: at as usize }),
            actions_from(s, at + 1, at + 1),
        )
    } else {
        actions_from(s, line_start, at + 1)
    }
}

/// The script that a text is, or the reason why it is none.
pub open spec fn script_of(s: Seq<char>) -> Result<Seq<ActionView>, ActionSequenceLoaderError> {
    actions_from(s, 0, 0)
}

/// `read` is what `said` says.
pub open spec fn reads_as(
    read: Result<Option<Action>, ActionSequenceLoaderError>,
    said: Result<Option<ActionView>, ActionSequenceLoaderError>,
) -> bool {
    match said {
        Ok(Some(action)) => read matches Ok(Some(found)) && found@ == action,
        Ok(None) => read matches Ok(None),
        Err(error) => read matches Err(found) && found == error,
    }
}

/// Reads one line of a script.
fn parse_line(text: &str, s: &Vec<char>, line: Span) -> (read: Result<
    Option<Action>,
    ActionSequenceLoaderError,
>)
    requires
        s@ == text@,
        line.fits(s@.len()),
    ensures
        reads_as(read, line_action(s@, line)),
{
    let inner = trim(s, line);
    if inner.start == inner.end || s[inner.start] == '#' {
        return Ok(None);
    }
    let (time, kind, content) = match collect_triple(split_fields(s, inner)) {
        Some((time, kind, content)) => (trim(s, time), trim(s, kind), trim(s, content)),
        None => {
            return Err(ActionSequenceLoaderError::FieldCount);
        },
    };
    let time = match parse_seconds(s, time) {
        Some(time) => time,
        None => {
            return Err(ActionSequenceLoaderError::Time);
        },
    };
    if kind.end - kind.start == 1 && s[kind.start] == 'T' {
        let shown = String::from_str(text.substring_char(content.start, content.end));
        Ok(Some(Action { time, action_type: ActionType::ChangeText(shown) }))
    } else if kind.end - kind.start == 1 && s[kind.start] == 'M' {
        match GameMechanic::from_name(s, content) {
            Some(mechanic) => Ok(Some(Action { time, action_type: ActionType::SpawnMechanic(mechanic) })),
            None => Err(ActionSequenceLoaderError::Mechanic),
        }
    } else {
        Err(ActionSequenceLoaderError::ActionKind)
    }
}

impl ActionSequence {
    /// Reads a script. The text is a script exactly if every line of it is
    /// an action, empty or a comment; the script then holds the actions in
    /// the order of their lines. Otherwise the first line that is none of
    /// these says why the text is refused, and no action is kept.
    pub fn load(text: &str) -> (loaded: Result<ActionSequence, ActionSequenceLoaderError>)
        ensures
            match script_of(text@) {
                Ok(actions) => loaded matches Ok(script) && script@ == actions,
                Err(error) => loaded matches Err(found) && found == error,
            },
    {
        let s = chars_of(text);
        let mut script = ActionSequence(Vec::new());
        let mut line_start: usize = 0;
        let mut at: usize = 0;
        assert(script@ =~= Seq::<ActionView>::empty());
        while at < s.len()
            invariant
                s@ == text@,
                0 <= line_start <= at <= s@.len(),
                script_of(s@) == and_then_all(script@, actions_from(s@, line_start as int, at as int)),
            decreases s@.len() - at,
        {
            if s[at] == '\n' {
                let ghost before = script@;
                let ghost rest = actions_from(s@, at + 1, at + 1);
                match parse_line(text, &s, Span { start: line_start, end: at }) {
                    Err(error) => {
                        return Err(error);
                    },
                    Ok(Some(action)) => {
                        script.0.push(action);
                        assert(script@ =~= before.push(action@));
                        assert(rest matches Ok(tail) ==> before + (seq![action@] + tail)
                            =~= before.push(action@) + tail);
                    },
                    Ok(None) => {},
                }
                line_start = at + 1;
            }
            at += 1;
        }
        let ghost before = script@;
        match parse_line(text, &s, Span { start: line_start, end: at }) {
            Err(error) => Err(error),
            Ok(Some(action)) => {
                script.0.push(action);
                assert(script@ =~= before.push(action@));
                assert(before + (seq![action@] + Seq::<ActionView>::empty()) =~= before.push(
                    action@,
                ));
                Ok(script)
            },
            Ok(None) => {
                assert(before + Seq::<ActionView>::empty() =~= before);
                Ok(script)
            },
        }
    }

    /// The number of actions.
    pub fn len(&self) -> (len: usize)
        ensures
            len == self@.len(),
    {
        self.0.len()
    }
}

impl Default for SequencerState {
    fn default() -> (state: Self)
        ensures
            state == (SequencerState { elapsed_time: 0, action_index: 0 }),
    {
        SequencerState { elapsed_time: 0, action_index: 0 }
    }
}

impl SequencerState {
    /// The time waited once `dt` more microseconds have passed; the count
    /// stops at the largest time it can hold.
    pub open spec fn waited(self, dt: u64) -> u64 {
        if self.elapsed_time + dt > u64::MAX {
            u64::MAX
        } else {
            (self.elapsed_time + dt) as u64
        }
    }

    /// The action that a tick of `dt` microseconds fires: the next one, if
    /// the script is there, has a next one, and its time has been waited.
    pub open spec fn fires(self, script: Option<Seq<ActionView>>, dt: u64) -> Option<usize> {
        match script {
            Some(actions) if self.action_index < actions.len() && self.waited(dt)
                >= actions[self.action_index as int].time => Some(self.action_index),
            _ => None,
        }
    }

    /// The sequencer after a tick of `dt` microseconds.
    ///
    /// Without a script, or past its end, nothing changes. Otherwise the
    /// tick's time is added to the time waited. If that covers the time of
    /// the next action, the action fires: its time is taken off the time
    /// waited, so that what was waited in excess counts toward the action
    /// after it, and the sequencer moves on by one action and no further.
    pub open spec fn after_tick(self, script: Option<Seq<ActionView>>, dt: u64) -> SequencerState {
        match script {
            Some(actions) if self.action_index < actions.len() => {
                let due = actions[self.action_index as int].time;
                if self.waited(dt) >= due {
                    SequencerState {
                        elapsed_time: (self.waited(dt) - due) as u64,
                        action_index: (self.action_index + 1) as usize,
                    }
                } else {
                    SequencerState { elapsed_time: self.waited(dt), ..self }
                }
            },
            _ => self,
        }
    }

    /// The sequencer after a run of ticks, first to last.
    pub open spec fn after_ticks(self, script: Option<Seq<ActionView>>, ticks: Seq<u64>) -> SequencerState
        decreases ticks.len(),
    {
        if ticks.len() == 0 {
            self
        } else {
            self.after_tick(script, ticks[0]).after_ticks(script, ticks.drop_first())
        }
    }

    /// Plays one tick of `dt` microseconds and returns the index of the
    /// action that fired, if one did. `script` is `None` while the script is
    /// still being loaded.
    pub fn update_game_sequence(&mut self, script: Option<&ActionSequence>, dt: u64) -> (fired:
        Option<usize>)
        ensures
            *final(self) == old(self).after_tick(
                match script {
                    Some(script) => Some(script@),
                    None => None,
                },
                dt,
            ),
            fired == old(self).fires(
                match script {
                    Some(script) => Some(script@),
                    None => None,
                },
                dt,
            ),
            old(self).action_index <= final(self).action_index <= old(self).action_index + 1,
            fired is Some <==> final(self).action_index == old(self).action_index + 1,
    {
        let script = match script {
            Some(script) => script,
            None => {
                return None;
            },
        };
        if self.action_index >= script.0.len() {
            return None;
        }
        let due = script.0[self.action_index].time;
        let waited = self.elapsed_time.saturating_add(dt);
        if waited < due {
            self.elapsed_time = waited;
            return None;
        }
        let fired = self.action_index;
        self.elapsed_time = waited - due;
        self.action_index = fired + 1;
        Some(fired)
    }
}

/// However long its ticks are, a run of ticks fires no more actions than it
/// has ticks: the sequencer never goes back in its script, moves on by one
/// action a tick at most, and stops at the end of the script. The script is
/// one that fits in memory.
pub proof fn lemma_one_action_per_tick(
    state: SequencerState,
    script: Option<Seq<ActionView>>,
    ticks: Seq<u64>,
)
    requires
        script is Some ==> script->0.len() <= usize::MAX,
    ensures
        state.action_index <= state.after_ticks(script, ticks).action_index <= state.action_index
            + ticks.len(),
        script is Some && state.action_index <= script->0.len() ==> state.after_ticks(
            script,
            ticks,
        ).action_index <= script->0.len(),
        script is None ==> state.after_ticks(script, ticks) == state,
    decreases ticks.len(),
{
    if ticks.len() > 0 {
        lemma_one_action_per_tick(state.after_tick(script, ticks[0]), script, ticks.drop_first());
    }
}

/// Time waited in excess is not lost: once the time waited covers the next
/// action, every further tick fires an action for as long as what is left
/// covers the one after it, even a tick of no time at all.
pub proof fn lemma_excess_carries_over(state: SequencerState, actions: Seq<ActionView>, dt: u64)
    requires
        state.action_index + 1 < actions.len() <= usize::MAX,
        state.elapsed_time + dt <= u64::MAX,
        state.elapsed_time + dt >= actions[state.action_index as int].time + actions[state.action_index
            + 1].time,
    ensures
        state.fires(Some(actions), dt) == Some(state.action_index),
        state.after_tick(Some(actions), dt).fires(Some(actions), 0) == Some(
            (state.action_index + 1) as usize,
        ),
        state.after_tick(Some(actions), dt).after_tick(Some(actions), 0) == (SequencerState {
            elapsed_time: (state.elapsed_time + dt - actions[state.action_index as int].time
                - actions[state.action_index + 1].time) as u64,
            action_index: (state.action_index + 2) as usize,
        }),
{
}

} // verus!
