//! A round: everything that is in play, advanced one tick at a time.
//!
//! Within a tick things happen in a fixed order. The pointer and the clicks
//! and drags of the frame are taken in first. Then the hazards move and are
//! checked for collisions, and their spawn timers run. Then the gauges lose
//! the tick's time. Then the sequencer may fire one action, which may ask
//! for a mode. Then a mode that was asked for is entered and its hazard
//! appears. Last, the first verdict of the tick that is not `Continue` ends
//! the round. A hazard stays in play when the mode moves on; only the end of
//! the round removes it.

use vstd::prelude::*;
use crate::game_sequencer::{ActionSequence, ActionType, ActionTypeView, ActionView, SequencerState};
use crate::geometry::{ring_point, Point, Window};
use crate::mechanic::{GameMechanic, MechanicState};
use crate::mechanics::click_target::{ButtonTimeBar, OnButtonClicked, TheButton};
use crate::mechanics::draggable_obstacle::{
    spawn_ring_radius,
    Square,
    SquareSpawner,
    SQUARE_SPAWN_INTERVAL,
};
use crate::mechanics::durability::DurabilityBar;
use crate::mechanics::homing_shape::{Pentagon, SPAWN_DISTANCE};
use crate::mechanics::projectile_wave::{
    spawn_band,
    spawn_point,
    verdict_of_move,
    wave_after_move,
    Triangle,
    TriangleSpawner,
    TriangleSpawnerView,
    TRIANGLE_SPAWN_INTERVAL,
};
use crate::outcome::{GameOver, GameOverData, Outcome};
use crate::player::Player;
use crate::random::roll_between;
use crate::timer::{ElapsedTime, IntervalTimer, TimerMode};

verus! {

/// Something the player did to what a hazard owns.
#[derive(Clone, Copy, Debug, PartialEq, Eq, Structural)]
pub enum Interaction {
    /// A click on the button.
    ClickButton,
    /// A click on the fix button.
    ClickFixButton,
    /// A click on the triangle at this place in the wave, oldest first.
    ClickTriangle(usize),
    /// A drag of the square by this much on the screen, where down is
    /// positive.
    DragSquare(i32, i32),
}

/// The numbers a tick may need from chance: where a triangle, a pentagon
/// and a square would appear.
#[derive(Clone, Copy, Debug, PartialEq, Eq, Structural)]
pub struct Rolls {
    pub triangle_height: i32,
    pub pentagon_across: i64,
    pub pentagon_upper: bool,
    pub square_across: i64,
    pub square_upper: bool,
}

/// What a tick did that the host has to show.
#[derive(Clone, Copy, Debug, PartialEq, Eq)]
pub struct TickReport {
    /// The action that fired, by its place in the script.
    pub fired: Option<usize>,
    /// The mode that was entered.
    pub entered: Option<GameMechanic>,
    /// The end of the round, on the tick that ended it.
    pub ended: Option<GameOver>,
}

/// A round in play.
pub struct Round {
    pub sequencer: SequencerState,
    pub mechanic: MechanicState,
    pub player: Player,
    pub button: Option<TheButton>,
    pub time_bar: Option<ButtonTimeBar>,
    pub clock: Option<ElapsedTime>,
    pub durability: Option<DurabilityBar>,
    pub fix_button: bool,
    pub triangles: Option<TriangleSpawner>,
    pub pentagon: Option<Pentagon>,
    pub squares: Option<SquareSpawner>,
    pub game_over: GameOverData,
}

/// A round as a value.
pub struct RoundView {
    pub sequencer: SequencerState,
    pub mechanic: MechanicState,
    pub player: Player,
    pub button: Option<TheButton>,
    pub time_bar: Option<ButtonTimeBar>,
    pub clock: Option<ElapsedTime>,
    pub durability: Option<DurabilityBar>,
    pub fix_button: bool,
    pub triangles: Option<TriangleSpawnerView>,
    pub pentagon: Option<Pentagon>,
    pub squares: Option<SquareSpawner>,
    pub game_over: GameOverData,
}

impl View for Round {
    type V = RoundView;

    open spec fn view(&self) -> RoundView {
        RoundView {
            sequencer: self.sequencer,
            mechanic: self.mechanic,
            player: self.player,
            button: self.button,
            time_bar: self.time_bar,
            clock: self.clock,
            durability: self.durability,
            fix_button: self.fix_button,
            triangles: match self.triangles {
                Some(wave) => Some(wave@),
                None => None,
            },
            pentagon: self.pentagon,
            squares: self.squares,
            game_over: self.game_over,
        }
    }
}

impl Rolls {
    /// Each number lies in the range it is drawn from: the height in the
    /// spawn band of the window, if it has one, and the two places across
    /// within their rings.
    pub open spec fn fit(self, window: Window) -> bool {
        &&& window.height > 0 ==> -spawn_band(window) <= self.triangle_height < spawn_band(window)
        &&& -SPAWN_DISTANCE <= self.pentagon_across <= SPAWN_DISTANCE
        &&& -spawn_ring_radius(window) <= self.square_across <= spawn_ring_radius(window)
    }

    /// Draws the numbers for one tick.
    pub fn draw(window: Window) -> (rolls: Rolls)
        ensures
            rolls.fit(window),
    {
        let band: i64 = window.height as i64 * 400;
        let radius: i64 = window.width as i64 * 600;
        Rolls {
            triangle_height: if band > 0 {
                roll_between(-band, band) as i32
            } else {
                0
            },
            pentagon_across: roll_between(-(SPAWN_DISTANCE as i64), SPAWN_DISTANCE as i64 + 1),
            pentagon_upper: roll_between(0, 2) == 1,
            square_across: roll_between(-radius, radius + 1),
            square_upper: roll_between(0, 2) == 1,
        }
    }
}

/// The mechanic that the fired action asks for, if one fired and asks.
pub open spec fn requested(script: Option<Seq<ActionView>>, fired: Option<usize>) -> Option<
    GameMechanic,
> {
    match (script, fired) {
        (Some(actions), Some(index)) => match actions[index as int].action_type {
            ActionTypeView::SpawnMechanic(mechanic) => Some(mechanic),
            ActionTypeView::ChangeText(_) => None,
        },
        _ => None,
    }
}

/// The wave after a tick: its timer has run, the triangles have flown if
/// there is a button to fly at, and a triangle has been released behind them
/// if the timer's interval has passed and the window has a height to release
/// it into.
pub open spec fn wave_after_tick(
    wave: TriangleSpawnerView,
    button: Option<TheButton>,
    window: Window,
    dt: u64,
    height: int,
) -> TriangleSpawnerView {
    let flown = match button {
        Some(button) => wave_after_move(wave.triangles, button.position, dt),
        None => wave.triangles,
    };
    let timer = wave.spawn_timer.after_tick(dt);
    TriangleSpawnerView {
        spawn_timer: timer,
        triangles: if timer.finished && window.height > 0 {
            flown.push(Triangle::fresh(spawn_point(window, height)))
        } else {
            flown
        },
    }
}

/// Where squares appear around: the button, or the middle of the field
/// while there is no button.
pub open spec fn ring_center(button: Option<TheButton>) -> Point {
    match button {
        Some(button) => button.position,
        None => Point { x: 0, y: 0 },
    }
}

/// The square and its timer after a tick: the timer has run, the square has
/// moved if there is a button to move to, and a square has appeared if the
/// timer's interval has passed.
pub open spec fn squares_after_tick(
    squares: SquareSpawner,
    button: Option<TheButton>,
    window: Window,
    dt: u64,
    across: int,
    upper: bool,
) -> SquareSpawner {
    let ticked = SquareSpawner { spawn_timer: squares.spawn_timer.after_tick(dt), ..squares };
    let moved = match button {
        Some(button) => ticked.after_move(button.position, window, dt),
        None => ticked,
    };
    if ticked.spawn_timer.just_finished {
        SquareSpawner {
            square: Some(
                Square::fresh(ring_point(ring_center(button), spawn_ring_radius(window), across, upper)),
            ),
            ..moved
        }
    } else {
        moved
    }
}

impl RoundView {
    /// Every part that has an invariant keeps it.
    pub open spec fn wf(self) -> bool {
        &&& self.time_bar matches Some(time_bar) ==> time_bar.wf()
        &&& self.durability matches Some(durability) ==> durability.wf()
        &&& self.squares matches Some(squares) ==> squares.wf()
    }

    /// The round once the pointer has been seen: the player is where the
    /// pointer is, and has hit nothing yet this tick.
    pub open spec fn after_pointer(self, cursor: Option<Point>) -> RoundView {
        RoundView {
            player: Player { clicked_on_target: false, ..self.player.after_move(cursor) },
            ..self
        }
    }

    /// The round after one click or drag. What is aimed at something that is
    /// not in play changes nothing.
    pub open spec fn after_interaction(self, event: Interaction) -> RoundView {
        match event {
            Interaction::ClickButton => if self.button is Some {
                RoundView {
                    player: Player { clicked_on_target: true, ..self.player },
                    time_bar: match self.time_bar {
                        Some(time_bar) => Some(time_bar.refilled()),
                        None => None,
                    },
                    durability: match self.durability {
                        Some(durability) => Some(durability.after_click()),
                        None => None,
                    },
                    ..self
                }
            } else {
                self
            },
            Interaction::ClickFixButton => match self.durability {
                Some(durability) if self.fix_button => RoundView {
                    durability: Some(durability.fixed()),
                    ..self
                },
                _ => self,
            },
            Interaction::ClickTriangle(index) => match self.triangles {
                Some(wave) if index < wave.triangles.len() => RoundView {
                    player: Player { clicked_on_target: true, ..self.player },
                    triangles: Some(
                        TriangleSpawnerView { triangles: wave.triangles.remove(index as int), ..wave },
                    ),
                    ..self
                },
                _ => self,
            },
            Interaction::DragSquare(dx, dy) => match self.squares {
                Some(squares) => match squares.square {
                    Some(square) => RoundView {
                        squares: Some(SquareSpawner { square: Some(square.dragged(dx, dy)), ..squares }),
                        ..self
                    },
                    None => self,
                },
                None => self,
            },
        }
    }

    /// The verdict of one click or drag: only a click on the button can end
    /// the round, by breaking it.
    pub open spec fn outcome_of_interaction(self, event: Interaction) -> Outcome {
        match (event, self.durability) {
            (Interaction::ClickButton, Some(durability)) if self.button is Some => durability.verdict_of_click(),
            _ => Outcome::Continue,
        }
    }

    /// The round after the clicks and drags of a tick, in order.
    pub open spec fn after_interactions(self, events: Seq<Interaction>) -> RoundView
        decreases events.len(),
    {
        if events.len() == 0 {
            self
        } else {
            self.after_interaction(events[0]).after_interactions(events.drop_first())
        }
    }

    /// The first verdict among the clicks and drags of a tick that is not
    /// `Continue`.
    pub open spec fn outcome_of_interactions(self, events: Seq<Interaction>) -> Outcome
        decreases events.len(),
    {
        if events.len() == 0 {
            Outcome::Continue
        } else {
            self.outcome_of_interaction(events[0]).or(
                self.after_interaction(events[0]).outcome_of_interactions(events.drop_first()),
            )
        }
    }

    /// The round after the hazards have moved and their spawn timers have
    /// run.
    pub open spec fn after_movement(self, window: Window, dt: u64, rolls: Rolls) -> RoundView {
        RoundView {
            triangles: match self.triangles {
                Some(wave) => Some(
                    wave_after_tick(wave, self.button, window, dt, rolls.triangle_height as int),
                ),
                None => None,
            },
            pentagon: match self.pentagon {
                Some(pentagon) => Some(pentagon.moved(self.player.position, dt)),
                None => None,
            },
            squares: match self.squares {
                Some(squares) => Some(
                    squares_after_tick(
                        squares,
                        self.button,
                        window,
                        dt,
                        rolls.square_across as int,
                        rolls.square_upper,
                    ),
                ),
                None => None,
            },
            ..self
        }
    }

    /// The verdict of the moving hazards: the triangles come before the
    /// pentagon.
    pub open spec fn outcome_of_movement(self, dt: u64) -> Outcome {
        let wave = match (self.button, self.triangles) {
            (Some(button), Some(wave)) => verdict_of_move(wave.triangles, button.position, dt),
            _ => Outcome::Continue,
        };
        let pentagon = match self.pentagon {
            Some(pentagon) => pentagon.verdict(self.player.position),
            None => Outcome::Continue,
        };
        wave.or(pentagon)
    }

    /// The round after the gauges and the clock have taken the tick's time.
    pub open spec fn after_gauges(self, dt: u64) -> RoundView {
        RoundView {
            time_bar: match self.time_bar {
                Some(time_bar) => Some(time_bar.after_tick(dt)),
                None => None,
            },
            clock: match self.clock {
                Some(clock) => Some(clock.after_tick(dt)),
                None => None,
            },
            ..self
        }
    }

    /// The verdict of the gauges.
    pub open spec fn outcome_of_gauges(self, dt: u64) -> Outcome {
        match self.time_bar {
            Some(time_bar) => time_bar.verdict_of_tick(dt),
            None => Outcome::Continue,
        }
    }

    /// The round after the sequencer has played the tick: an action that
    /// starts a mechanic leaves its request with the mode.
    pub open spec fn after_sequencer(self, script: Option<Seq<ActionView>>, dt: u64) -> RoundView {
        RoundView {
            sequencer: self.sequencer.after_tick(script, dt),
            mechanic: match requested(script, self.sequencer.fires(script, dt)) {
                Some(mechanic) => MechanicState { next: Some(mechanic), ..self.mechanic },
                None => self.mechanic,
            },
            ..self
        }
    }

    /// The round with the hazard of `mechanic` put into play.
    ///
    /// A bar appears full. The clock starts unless it is running. A wave or
    /// a square timer starts over, and what it released before stays.
    pub open spec fn with_hazard(self, mechanic: GameMechanic, rolls: Rolls) -> RoundView {
        match mechanic {
            GameMechanic::Idle | GameMechanic::Victory => self,
            GameMechanic::ClickTarget => RoundView {
                button: Some(TheButton { position: Point { x: 0, y: 0 } }),
                ..self
            },
            GameMechanic::TimedClickTarget => RoundView {
                time_bar: Some(ButtonTimeBar::full()),
                ..self
            },
            GameMechanic::Timer => RoundView {
                clock: match self.clock {
                    Some(clock) => Some(clock),
                    None => Some(ElapsedTime(0)),
                },
                ..self
            },
            GameMechanic::Durability => RoundView { durability: Some(DurabilityBar::full()), ..self },
            GameMechanic::Fix => RoundView { fix_button: true, ..self },
            GameMechanic::ProjectileWave => RoundView {
                triangles: Some(
                    TriangleSpawnerView {
                        spawn_timer: IntervalTimer::fresh(TRIANGLE_SPAWN_INTERVAL, TimerMode::Repeating),
                        triangles: match self.triangles {
                            Some(wave) => wave.triangles,
                            None => Seq::empty(),
                        },
                    },
                ),
                ..self
            },
            GameMechanic::HomingShape => RoundView {
                pentagon: Some(
                    Pentagon::fresh(
                        ring_point(
                            self.player.position,
                            SPAWN_DISTANCE,
                            rolls.pentagon_across as int,
                            rolls.pentagon_upper,
                        ),
                    ),
                ),
                ..self
            },
            GameMechanic::DraggableObstacle => RoundView {
                squares: Some(
                    SquareSpawner {
                        spawn_timer: IntervalTimer::fresh(SQUARE_SPAWN_INTERVAL, TimerMode::Once),
                        square: match self.squares {
                            Some(squares) => squares.square,
                            None => None,
                        },
                    },
                ),
                ..self
            },
        }
    }

    /// The round after the mode that was asked for has been entered.
    pub open spec fn after_entry(self, rolls: Rolls) -> RoundView {
        let applied = RoundView { mechanic: self.mechanic.applied(), ..self };
        match self.mechanic.entered() {
            Some(mechanic) => applied.with_hazard(mechanic, rolls),
            None => applied,
        }
    }

    /// The verdict of entering a mode: entering `Victory` wins the round.
    pub open spec fn outcome_of_entry(self) -> Outcome {
        if self.mechanic.entered() == Some(GameMechanic::Victory) {
            Outcome::Succeed
        } else {
            Outcome::Continue
        }
    }

    /// The round after the pointer, the clicks and the drags of a tick.
    pub open spec fn played(self, cursor: Option<Point>, events: Seq<Interaction>) -> RoundView {
        self.after_pointer(cursor).after_interactions(events)
    }

    /// The round after everything in a tick but the verdict.
    pub open spec fn advanced(
        self,
        script: Option<Seq<ActionView>>,
        window: Window,
        dt: u64,
        cursor: Option<Point>,
        events: Seq<Interaction>,
        rolls: Rolls,
    ) -> RoundView {
        self.played(cursor, events).after_movement(window, dt, rolls).after_gauges(dt).after_sequencer(
            script,
            dt,
        ).after_entry(rolls)
    }

    /// The verdict of a tick: the first that is not `Continue`, where the
    /// clicks come first, then the moving hazards, then the gauges, then the
    /// mode.
    pub open spec fn verdict_of_tick(
        self,
        script: Option<Seq<ActionView>>,
        window: Window,
        dt: u64,
        cursor: Option<Point>,
        events: Seq<Interaction>,
        rolls: Rolls,
    ) -> Outcome {
        let played = self.played(cursor, events);
        let moved = played.after_movement(window, dt, rolls);
        let sequenced = moved.after_gauges(dt).after_sequencer(script, dt);
        self.after_pointer(cursor).outcome_of_interactions(events).or(
            played.outcome_of_movement(dt),
        ).or(moved.outcome_of_gauges(dt)).or(sequenced.outcome_of_entry())
    }

    /// The round after a tick. A round that is over does not change.
    pub open spec fn after_tick(
        self,
        script: Option<Seq<ActionView>>,
        window: Window,
        dt: u64,
        cursor: Option<Point>,
        events: Seq<Interaction>,
        rolls: Rolls,
    ) -> RoundView {
        if self.game_over.is_over() {
            self
        } else {
            let advanced = self.advanced(script, window, dt, cursor, events, rolls);
            RoundView {
                game_over: advanced.game_over.after_outcome(
                    self.verdict_of_tick(script, window, dt, cursor, events, rolls),
                ),
                ..advanced
            }
        }
    }

    /// What a tick reports.
    pub open spec fn report_of_tick(
        self,
        script: Option<Seq<ActionView>>,
        window: Window,
        dt: u64,
        cursor: Option<Point>,
        events: Seq<Interaction>,
        rolls: Rolls,
    ) -> TickReport {
        if self.game_over.is_over() {
            TickReport { fired: None, entered: None, ended: None }
        } else {
            let moved = self.played(cursor, events).after_movement(window, dt, rolls).after_gauges(dt);
            TickReport {
                fired: moved.sequencer.fires(script, dt),
                entered: moved.after_sequencer(script, dt).mechanic.entered(),
                ended: self.verdict_of_tick(script, window, dt, cursor, events, rolls).game_over(),
            }
        }
    }
}

/// What a tick is given.
pub struct Frame {
    pub script: Option<Seq<ActionView>>,
    pub window: Window,
    pub dt: u64,
    pub cursor: Option<Point>,
    pub events: Seq<Interaction>,
    pub rolls: Rolls,
}

impl RoundView {
    /// The round after the tick that `frame` describes.
    #[verifier::opaque]
    pub open spec fn after_frame(self, frame: Frame) -> RoundView {
        self.after_tick(
            frame.script,
            frame.window,
            frame.dt,
            frame.cursor,
            frame.events,
            frame.rolls,
        )
    }

    /// What the tick that `frame` describes reports.
    #[verifier::opaque]
    pub open spec fn report_of_frame(self, frame: Frame) -> TickReport {
        self.report_of_tick(
            frame.script,
            frame.window,
            frame.dt,
            frame.cursor,
            frame.events,
            frame.rolls,
        )
    }

    /// The round after a run of ticks, first to last.
    pub open spec fn after_frames(self, frames: Seq<Frame>) -> RoundView
        decreases frames.len(),
    {
        if frames.len() == 0 {
            self
        } else {
            self.after_frames(frames.drop_last()).after_frame(frames.last())
        }
    }
}

/// A tick of a round that is over changes nothing and reports nothing.
pub proof fn lemma_over_tick_is_idle(round: RoundView, frame: Frame)
    requires
        round.game_over.is_over(),
    ensures
        round.after_frame(frame) == round,
        round.report_of_frame(frame) == (TickReport { fired: None, entered: None, ended: None }),
{
    reveal(RoundView::after_frame);
    reveal(RoundView::report_of_frame);
}

/// The tick that reports the end of a round leaves the round over, and
/// starts with the round running.
pub proof fn lemma_reported_end_is_over(round: RoundView, frame: Frame)
    requires
        round.report_of_frame(frame).ended is Some,
    ensures
        !round.game_over.is_over(),
        round.after_frame(frame).game_over.is_over(),
{
    reveal(RoundView::after_frame);
    reveal(RoundView::report_of_frame);
}

/// A round that is over stays as it is, whatever ticks follow.
pub proof fn lemma_over_stays_over(round: RoundView, frames: Seq<Frame>)
    requires
        round.game_over.is_over(),
    ensures
        round.after_frames(frames) == round,
    decreases frames.len(),
{
    if frames.len() > 0 {
        lemma_over_stays_over(round, frames.drop_last());
        lemma_over_tick_is_idle(round, frames.last());
    }
}

/// Playing one run of ticks and then another is playing the two as one.
pub proof fn lemma_frames_in_two_runs(round: RoundView, head: Seq<Frame>, tail: Seq<Frame>)
    ensures
        round.after_frames(head + tail) == round.after_frames(head).after_frames(tail),
    decreases tail.len(),
{
    if tail.len() == 0 {
        assert(head + tail =~= head);
    } else {
        lemma_frames_in_two_runs(round, head, tail.drop_last());
        assert((head + tail).drop_last() =~= head + tail.drop_last());
        assert((head + tail).last() == tail.last());
    }
}

/// A round ends once. The tick that reports the end leaves the round over;
/// no tick after it reports an end, or anything else, and none changes the
/// round or the reason it ended for.
pub proof fn lemma_round_ends_once(round: RoundView, frames: Seq<Frame>, first: int, later: int)
    requires
        0 <= first < later < frames.len(),
        round.after_frames(frames.take(first)).report_of_frame(frames[first]).ended is Some,
    ensures
        round.after_frames(frames.take(first + 1)).game_over.is_over(),
        round.after_frames(frames.take(later)) == round.after_frames(frames.take(first + 1)),
        round.after_frames(frames.take(later + 1)) == round.after_frames(frames.take(first + 1)),
        round.after_frames(frames.take(later)).report_of_frame(frames[later]) == (TickReport {
            fired: None,
            entered: None,
            ended: None,
        }),
{
    let ended = round.after_frames(frames.take(first + 1));
    assert(frames.take(first + 1).drop_last() =~= frames.take(first));
    assert(frames.take(first + 1).last() == frames[first]);
    lemma_reported_end_is_over(round.after_frames(frames.take(first)), frames[first]);
    let between = frames.subrange(first + 1, later);
    assert(frames.take(first + 1) + between =~= frames.take(later));
    lemma_frames_in_two_runs(round, frames.take(first + 1), between);
    lemma_over_stays_over(ended, between);
    lemma_over_tick_is_idle(ended, frames[later]);
    assert(frames.take(later + 1).drop_last() =~= frames.take(later));
    assert(frames.take(later + 1).last() == frames[later]);
}

/// Clicks and drags leave the sequencer, the mode and the record of how the
/// round ended alone, and bring nothing into play that was not there.
pub proof fn lemma_interactions_touch_hazards_only(round: RoundView, events: Seq<Interaction>)
    ensures
        round.after_interactions(events).game_over == round.game_over,
        round.after_interactions(events).sequencer == round.sequencer,
        round.after_interactions(events).mechanic == round.mechanic,
        round.after_interactions(events).button == round.button,
        round.after_interactions(events).fix_button == round.fix_button,
        round.after_interactions(events).time_bar is Some <==> round.time_bar is Some,
        round.after_interactions(events).durability is Some <==> round.durability is Some,
        round.after_interactions(events).triangles is Some <==> round.triangles is Some,
        round.after_interactions(events).squares is Some <==> round.squares is Some,
        round.after_interactions(events).pentagon == round.pentagon,
        round.after_interactions(events).clock == round.clock,
    decreases events.len(),
{
    if events.len() > 0 {
        lemma_interactions_touch_hazards_only(round.after_interaction(events[0]), events.drop_first());
    }
}

impl RoundView {
    /// Everything that is in play in `self` is in play in `later`.
    pub open spec fn keeps_in_play(self, later: RoundView) -> bool {
        &&& self.button is Some ==> later.button is Some
        &&& self.time_bar is Some ==> later.time_bar is Some
        &&& self.clock is Some ==> later.clock is Some
        &&& self.durability is Some ==> later.durability is Some
        &&& self.fix_button ==> later.fix_button
        &&& self.triangles is Some ==> later.triangles is Some
        &&& self.pentagon is Some ==> later.pentagon is Some
        &&& self.squares is Some ==> later.squares is Some
    }
}

/// No tick takes a hazard out of play: whatever mode is entered, the
/// hazards of the modes before it stay, so that hazards pile up over a
/// round.
pub proof fn lemma_tick_removes_no_hazard(
    round: RoundView,
    script: Option<Seq<ActionView>>,
    window: Window,
    dt: u64,
    cursor: Option<Point>,
    events: Seq<Interaction>,
    rolls: Rolls,
)
    ensures
        round.keeps_in_play(round.after_tick(script, window, dt, cursor, events, rolls)),
{
    lemma_interactions_touch_hazards_only(round.after_pointer(cursor), events);
}

/// The script as a value, while there is one.
pub open spec fn script_view(script: Option<&ActionSequence>) -> Option<Seq<ActionView>> {
    match script {
        Some(script) => Some(script@),
        None => None,
    }
}

impl Round {
    /// A round at its start: nothing is in play, no mode has been asked
    /// for, and the sequencer stands before the first action.
    pub open spec fn start() -> RoundView {
        RoundView {
            sequencer: SequencerState { elapsed_time: 0, action_index: 0 },
            mechanic: MechanicState { current: GameMechanic::Idle, next: None },
            player: Player { position: Point { x: 0, y: 0 }, clicked_on_target: false },
            button: None,
            time_bar: None,
            clock: None,
            durability: None,
            fix_button: false,
            triangles: None,
            pentagon: None,
            squares: None,
            game_over: GameOverData { reason: None },
        }
    }

    /// A round at its start.
    pub fn new() -> (round: Round)
        ensures
            round@ == Self::start(),
            round@.wf(),
    {
        Round {
            sequencer: SequencerState { elapsed_time: 0, action_index: 0 },
            mechanic: MechanicState { current: GameMechanic::Idle, next: None },
            player: Player { position: Point { x: 0, y: 0 }, clicked_on_target: false },
            button: None,
            time_bar: None,
            clock: None,
            durability: None,
            fix_button: false,
            triangles: None,
            pentagon: None,
            squares: None,
            game_over: GameOverData { reason: None },
        }
    }

    /// Ends the round's scope: everything in play is discarded, and the
    /// round stands at its start again.
    pub fn reset(&mut self)
        ensures
            final(self)@ == Self::start(),
            final(self)@.wf(),
    {
        *self = Round::new();
    }

    /// Takes in one click or drag.
    pub fn interact(&mut self, event: Interaction) -> (outcome: Outcome)
        requires
            old(self)@.wf(),
        ensures
            final(self)@ == old(self)@.after_interaction(event),
            outcome == old(self)@.outcome_of_interaction(event),
            final(self)@.wf(),
    {
        let mut outcome = Outcome::Continue;
        match event {
            Interaction::ClickButton => {
                if let Some(button) = self.button {
                    let clicked = button.handle_button_click(&mut self.player);
                    if let Some(mut time_bar) = self.time_bar {
                        time_bar.fill_time_bar_on_button_click(clicked);
                        self.time_bar = Some(time_bar);
                    }
                    if let Some(mut durability) = self.durability {
                        outcome = durability.update_durability(clicked);
                        self.durability = Some(durability);
                    }
                }
            },
            Interaction::ClickFixButton => {
                if self.fix_button {
                    if let Some(mut durability) = self.durability {
                        durability.on_fix_button_click();
                        self.durability = Some(durability);
                    }
                }
            },
            Interaction::ClickTriangle(index) => {
                match &mut self.triangles {
                    Some(wave) => {
                        wave.destroy_clicked_triangle(index, &mut self.player);
                    },
                    None => {},
                }
            },
            Interaction::DragSquare(dx, dy) => {
                if let Some(mut squares) = self.squares {
                    squares.on_drag(dx, dy);
                    self.squares = Some(squares);
                }
            },
        }
        outcome
    }
}

impl Round {
    /// Takes in the clicks and drags of a tick, in order.
    pub fn interact_all(&mut self, events: &Vec<Interaction>) -> (outcome: Outcome)
        requires
            old(self)@.wf(),
        ensures
            final(self)@ == old(self)@.after_interactions(events@),
            outcome == old(self)@.outcome_of_interactions(events@),
            final(self)@.wf(),
    {
        let mut outcome = Outcome::Continue;
        let mut at: usize = 0;
        assert(events@.skip(0) =~= events@);
        while at < events.len()
            invariant
                at <= events@.len(),
                self@.wf(),
                old(self)@.after_interactions(events@) == self@.after_interactions(
                    events@.skip(at as int),
                ),
                old(self)@.outcome_of_interactions(events@) == outcome.or(
                    self@.outcome_of_interactions(events@.skip(at as int)),
                ),
            decreases events@.len() - at,
        {
            assert(events@.skip(at as int).drop_first() =~= events@.skip(at + 1));
            let next = self.interact(events[at]);
            outcome = outcome.or(next);
            at += 1;
        }
        outcome
    }

    /// Moves the hazards, checks them for collisions and runs their spawn
    /// timers.
    pub fn move_hazards(&mut self, window: Window, dt: u64, rolls: Rolls) -> (outcome: Outcome)
        requires
            old(self)@.wf(),
        ensures
            final(self)@ == old(self)@.after_movement(window, dt, rolls),
            outcome == old(self)@.outcome_of_movement(dt),
            final(self)@.wf(),
    {
        let mut hit = Outcome::Continue;
        match &mut self.triangles {
            Some(wave) => {
                if let Some(button) = self.button {
                    hit = wave.move_triangles(button.position, dt);
                }
                wave.spawn_timer.tick(dt);
                if wave.spawn_timer.finished && window.height > 0 {
                    wave.spawn_triangle_at(window, rolls.triangle_height);
                }
            },
            None => {},
        }
        let mut caught = Outcome::Continue;
        if let Some(mut pentagon) = self.pentagon {
            caught = pentagon.move_to_player(self.player.position, dt);
            self.pentagon = Some(pentagon);
        }
        if let Some(mut squares) = self.squares {
            squares.spawn_timer.tick(dt);
            let due = squares.spawn_timer.just_finished;
            let center = match self.button {
                Some(button) => {
                    squares.move_square(button.position, window, dt);
                    button.position
                },
                None => Point { x: 0, y: 0 },
            };
            if due {
                squares.spawn_square_at(center, window, rolls.square_across, rolls.square_upper);
            }
            self.squares = Some(squares);
        }
        hit.or(caught)
    }

    /// Takes the tick's time off the gauges and adds it to the clock.
    pub fn run_gauges(&mut self, dt: u64) -> (outcome: Outcome)
        requires
            old(self)@.wf(),
        ensures
            final(self)@ == old(self)@.after_gauges(dt),
            outcome == old(self)@.outcome_of_gauges(dt),
            final(self)@.wf(),
    {
        let mut outcome = Outcome::Continue;
        if let Some(mut time_bar) = self.time_bar {
            outcome = time_bar.update_button_time(dt);
            self.time_bar = Some(time_bar);
        }
        if let Some(mut clock) = self.clock {
            clock.increment_time(dt);
            self.clock = Some(clock);
        }
        outcome
    }

    /// Lets the sequencer play the tick, and hands a mechanic that the fired
    /// action asks for to the mode. Returns the action that fired.
    pub fn run_sequencer(&mut self, script: Option<&ActionSequence>, dt: u64) -> (fired: Option<usize>)
        requires
            old(self)@.wf(),
        ensures
            final(self)@ == old(self)@.after_sequencer(script_view(script), dt),
            fired == old(self)@.sequencer.fires(script_view(script), dt),
            final(self)@.wf(),
    {
        let fired = self.sequencer.update_game_sequence(script, dt);
        match (script, fired) {
            (Some(script), Some(index)) => {
                match &script.0[index].action_type {
                    ActionType::SpawnMechanic(mechanic) => {
                        self.mechanic.set(*mechanic);
                    },
                    ActionType::ChangeText(_) => {},
                }
            },
            _ => {},
        }
        fired
    }

    /// Puts the hazard of `mechanic` into play.
    pub fn spawn_hazard(&mut self, mechanic: GameMechanic, rolls: Rolls)
        requires
            old(self)@.wf(),
        ensures
            final(self)@ == old(self)@.with_hazard(mechanic, rolls),
            final(self)@.wf(),
    {
        match mechanic {
            GameMechanic::Idle | GameMechanic::Victory => {},
            GameMechanic::ClickTarget => {
                self.button = Some(TheButton::spawn_button());
            },
            GameMechanic::TimedClickTarget => {
                self.time_bar = Some(ButtonTimeBar::spawn_button_time_bar());
            },
            GameMechanic::Timer => {
                if self.clock.is_none() {
                    self.clock = Some(ElapsedTime(0));
                }
            },
            GameMechanic::Durability => {
                self.durability = Some(DurabilityBar::spawn_durability_bar());
            },
            GameMechanic::Fix => {
                self.fix_button = true;
            },
            GameMechanic::ProjectileWave => {
                match &mut self.triangles {
                    Some(wave) => {
                        wave.spawn_timer = IntervalTimer::new(
                            TRIANGLE_SPAWN_INTERVAL,
                            TimerMode::Repeating,
                        );
                    },
                    None => {
                        self.triangles = Some(TriangleSpawner::spawn_triangle_spawner());
                    },
                }
            },
            GameMechanic::HomingShape => {
                self.pentagon = Some(
                    Pentagon::spawn_pentagon_at(
                        self.player.position,
                        rolls.pentagon_across,
                        rolls.pentagon_upper,
                    ),
                );
            },
            GameMechanic::DraggableObstacle => {
                let square = match self.squares {
                    Some(squares) => squares.square,
                    None => None,
                };
                self.squares = Some(
                    SquareSpawner {
                        spawn_timer: IntervalTimer::new(SQUARE_SPAWN_INTERVAL, TimerMode::Once),
                        square,
                    },
                );
            },
        }
    }

    /// Enters the mode that was asked for, if one was and the round is not
    /// in it already, and puts its hazard into play. Returns the mode
    /// entered.
    pub fn enter_mode(&mut self, rolls: Rolls) -> (entered: Option<GameMechanic>)
        requires
            old(self)@.wf(),
        ensures
            final(self)@ == old(self)@.after_entry(rolls),
            entered == old(self)@.mechanic.entered(),
            final(self)@.wf(),
    {
        let entered = self.mechanic.apply();
        if let Some(mechanic) = entered {
            self.spawn_hazard(mechanic, rolls);
        }
        entered
    }

    /// Plays one tick of `dt` microseconds with the numbers that chance has
    /// given.
    ///
    /// `script` is `None` while the script is still being loaded; `cursor`
    /// is `None` while the pointer is outside the window.
    pub fn tick_with(
        &mut self,
        script: Option<&ActionSequence>,
        window: Window,
        dt: u64,
        cursor: Option<Point>,
        events: &Vec<Interaction>,
        rolls: Rolls,
    ) -> (report: TickReport)
        requires
            old(self)@.wf(),
        ensures
            final(self)@ == old(self)@.after_tick(
                script_view(script),
                window,
                dt,
                cursor,
                events@,
                rolls,
            ),
            report == old(self)@.report_of_tick(
                script_view(script),
                window,
                dt,
                cursor,
                events@,
                rolls,
            ),
            final(self)@.wf(),
            old(self)@.game_over.is_over() ==> final(self)@ == old(self)@,
            report.ended is Some <==> {
                &&& !old(self)@.game_over.is_over()
                &&& final(self)@.game_over.is_over()
            },
    {
        if self.game_over.is_over() {
            return TickReport { fired: None, entered: None, ended: None };
        }
        self.player.move_player(cursor);
        self.player.clicked_on_target = false;
        proof {
            lemma_interactions_touch_hazards_only(old(self)@.after_pointer(cursor), events@);
        }
        let clicks = self.interact_all(events);
        let moves = self.move_hazards(window, dt, rolls);
        let gauges = self.run_gauges(dt);
        let fired = self.run_sequencer(script, dt);
        let ghost sequenced = self@;
        let entered = self.enter_mode(rolls);
        let mode = match entered {
            Some(GameMechanic::Victory) => Outcome::Succeed,
            _ => Outcome::Continue,
        };
        assert(mode == sequenced.outcome_of_entry());
        let verdict = clicks.or(moves).or(gauges).or(mode);
        let ended_now = self.game_over.offer(verdict);
        TickReport {
            fired,
            entered,
            ended: if ended_now {
                verdict.game_over()
            } else {
                None
            },
        }
    }

    /// Plays one tick of `dt` microseconds. Where a hazard appears on this
    /// tick is left to chance; everything else is as `tick_with` does it.
    pub fn tick(
        &mut self,
        script: Option<&ActionSequence>,
        window: Window,
        dt: u64,
        cursor: Option<Point>,
        events: &Vec<Interaction>,
    ) -> (report: TickReport)
        requires
            old(self)@.wf(),
        ensures
            exists|rolls: Rolls|
                {
                    &&& rolls.fit(window)
                    &&& final(self)@ == #[trigger] old(self)@.after_tick(
                        script_view(script),
                        window,
                        dt,
                        cursor,
                        events@,
                        rolls,
                    )
                    &&& report == old(self)@.report_of_tick(
                        script_view(script),
                        window,
                        dt,
                        cursor,
                        events@,
                        rolls,
                    )
                },
            final(self)@.wf(),
            old(self)@.game_over.is_over() ==> final(self)@ == old(self)@,
    {
        let rolls = Rolls::draw(window);
        self.tick_with(script, window, dt, cursor, events, rolls)
    }
}

} // verus!
