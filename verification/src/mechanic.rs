//! The closed set of hazards a round can be in.

use vstd::prelude::*;
use crate::text::Span;

verus! {

/// The hazard that is being introduced, or that ended the round.
///
/// Exactly one value is current at a time. `Victory` is the terminal mode of
/// a survived round.
#[derive(Clone, Copy, Debug, PartialEq, Eq, Hash, Structural)]
pub enum GameMechanic {
    /// Nothing is active yet.
    Idle,
    /// The button that the player clicks.
    ClickTarget,
    /// The time bar that the button has to be clicked against.
    TimedClickTarget,
    /// The round clock.
    Timer,
    /// The durability bar that every click wears down.
    Durability,
    /// The button that refills the durability bar.
    Fix,
    /// Waves of projectiles that fly at the button.
    ProjectileWave,
    /// The shape that hunts the player.
    HomingShape,
    /// The obstacle that covers the button until it is dragged away.
    DraggableObstacle,
    /// The round was survived.
    Victory,
}

impl Default for GameMechanic {
    fn default() -> (mechanic: Self)
        ensures
            mechanic == GameMechanic::Idle,
    {
        GameMechanic::Idle
    }
}

/// The mode of a round: the current one, and the one asked for since the
/// last change. A request waits until it is applied, so that a tick never
/// sees the mode change under it; of several requests the last one counts.
#[derive(Clone, Copy, Debug, PartialEq, Eq)]
pub struct MechanicState {
    pub current: GameMechanic,
    pub next: Option<GameMechanic>,
}

/// A character that only separates the words of a name.
pub open spec fn is_separator(c: char) -> bool {
    c == ' ' || c == '_'
}

/// `c` in lower case, if it is a capital letter of the basic alphabet.
pub open spec fn folded(c: char) -> char {
    if 'A' <= c <= 'Z' {
        ((c as u8) + 32) as char
    } else {
        c
    }
}

/// The name in `from..to` without its separators and in lower case.
pub open spec fn normalized(s: Seq<char>, from: int, to: int) -> Seq<char>
    decreases to - from,
{
    if from >= to {
        Seq::empty()
    } else if is_separator(s[from]) {
        normalized(s, from + 1, to)
    } else {
        seq![folded(s[from])] + normalized(s, from + 1, to)
    }
}

/// The mechanic that a normalized name stands for. Each hazard answers to
/// what it is and to what it looks like.
pub open spec fn mechanic_named(name: Seq<char>) -> Option<GameMechanic> {
    if name == "none"@ || name == "idle"@ {
        Some(GameMechanic::Idle)
    } else if name == "button"@ || name == "clicktarget"@ {
        Some(GameMechanic::ClickTarget)
    } else if name == "buttontime"@ || name == "timedclicktarget"@ {
        Some(GameMechanic::TimedClickTarget)
    } else if name == "timer"@ {
        Some(GameMechanic::Timer)
    } else if name == "durability"@ {
        Some(GameMechanic::Durability)
    } else if name == "fix"@ {
        Some(GameMechanic::Fix)
    } else if name == "triangles"@ || name == "projectilewave"@ {
        Some(GameMechanic::ProjectileWave)
    } else if name == "pentagon"@ || name == "homingshape"@ {
        Some(GameMechanic::HomingShape)
    } else if name == "square"@ || name == "draggableobstacle"@ {
        Some(GameMechanic::DraggableObstacle)
    } else if name == "victory"@ {
        Some(GameMechanic::Victory)
    } else {
        None
    }
}

/// `c` in lower case, if it is a capital letter of the basic alphabet.
fn fold(c: char) -> (lower: char)
    ensures
        lower == folded(c),
{
    if c >= 'A' && c <= 'Z' {
        ((c as u8) + 32) as char
    } else {
        c
    }
}

/// The name in `span` without its separators and in lower case.
fn normalize(s: &Vec<char>, span: Span) -> (name: Vec<char>)
    requires
        span.fits(s@.len()),
    ensures
        name@ == normalized(s@, span.start as int, span.end as int),
{
    let mut name: Vec<char> = Vec::new();
    let mut at = span.start;
    while at < span.end
        invariant
            span.start <= at <= span.end <= s@.len(),
            normalized(s@, span.start as int, span.end as int) == name@ + normalized(
                s@,
                at as int,
                span.end as int,
            ),
        decreases span.end - at,
    {
        let c = s[at];
        if !(c == ' ' || c == '_') {
            let ghost rest = normalized(s@, at + 1, span.end as int);
            assert(name@ + (seq![folded(c)] + rest) =~= name@.push(folded(c)) + rest);
            name.push(fold(c));
        }
        at += 1;
    }
    assert(name@ + Seq::<char>::empty() =~= name@);
    name
}

/// Whether `name` is `word`, character for character.
fn spells(name: &Vec<char>, word: &str) -> (same: bool)
    ensures
        same == (name@ == word@),
{
    let mut at: usize = 0;
    for c in it: word.chars()
        invariant
            at == it.index(),
            it.seq() == word@,
            at <= name@.len(),
            forall|k: int| 0 <= k < at ==> name@[k] == word@[k],
    {
        if at >= name.len() || name[at] != c {
            return false;
        }
        at += 1;
    }
    assert(at == name@.len() ==> name@ =~= word@);
    at == name.len()
}

impl GameMechanic {
    /// The mechanic named in `span`: names are matched without regard to
    /// case, spaces and underscores.
    pub fn from_name(s: &Vec<char>, span: Span) -> (mechanic: Option<GameMechanic>)
        requires
            span.fits(s@.len()),
        ensures
            mechanic == mechanic_named(normalized(s@, span.start as int, span.end as int)),
    {
        let name = normalize(s, span);
        if spells(&name, "none") || spells(&name, "idle") {
            Some(GameMechanic::Idle)
        } else if spells(&name, "button") || spells(&name, "clicktarget") {
            Some(GameMechanic::ClickTarget)
        } else if spells(&name, "buttontime") || spells(&name, "timedclicktarget") {
            Some(GameMechanic::TimedClickTarget)
        } else if spells(&name, "timer") {
            Some(GameMechanic::Timer)
        } else if spells(&name, "durability") {
            Some(GameMechanic::Durability)
        } else if spells(&name, "fix") {
            Some(GameMechanic::Fix)
        } else if spells(&name, "triangles") || spells(&name, "projectilewave") {
            Some(GameMechanic::ProjectileWave)
        } else if spells(&name, "pentagon") || spells(&name, "homingshape") {
            Some(GameMechanic::HomingShape)
        } else if spells(&name, "square") || spells(&name, "draggableobstacle") {
            Some(GameMechanic::DraggableObstacle)
        } else if spells(&name, "victory") {
            Some(GameMechanic::Victory)
        } else {
            None
        }
    }

    /// The mechanic that `name` names, if it names one.
    pub fn parse(name: &str) -> (mechanic: Option<GameMechanic>)
        ensures
            mechanic == mechanic_named(normalized(name@, 0, name@.len() as int)),
    {
        let chars = crate::text::chars_of(name);
        GameMechanic::from_name(&chars, Span { start: 0, end: chars.len() })
    }
}

impl Default for MechanicState {
    fn default() -> (state: Self)
        ensures
            state == (MechanicState { current: GameMechanic::Idle, next: None }),
    {
        MechanicState { current: GameMechanic::Idle, next: None }
    }
}

impl MechanicState {
    /// The mode that applying the request enters: the one asked for, unless
    /// none is asked for or the round is in it already.
    pub open spec fn entered(self) -> Option<GameMechanic> {
        match self.next {
            Some(mechanic) if mechanic != self.current => Some(mechanic),
            _ => None,
        }
    }

    /// The state once the request has been applied.
    pub open spec fn applied(self) -> MechanicState {
        match self.next {
            Some(mechanic) => MechanicState { current: mechanic, next: None },
            None => self,
        }
    }

    /// Asks for a mode. The request replaces one that has not been applied.
    pub fn set(&mut self, mechanic: GameMechanic)
        ensures
            *final(self) == (MechanicState { next: Some(mechanic), ..*old(self) }),
    {
        self.next = Some(mechanic);
    }

    /// Applies the request and returns the mode that has been entered, for
    /// which a hazard is now to appear. Asking for the current mode enters
    /// nothing.
    pub fn apply(&mut self) -> (entered: Option<GameMechanic>)
        ensures
            *final(self) == old(self).applied(),
            entered == old(self).entered(),
    {
        match self.next {
            Some(mechanic) => {
                let changed = mechanic != self.current;
                self.current = mechanic;
                self.next = None;
                if changed {
                    Some(mechanic)
                } else {
                    None
                }
            },
            None => None,
        }
    }
}

} // verus!
