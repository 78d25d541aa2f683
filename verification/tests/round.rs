use button_chaos::game_sequencer::{ActionSequence, SequencerState};
use button_chaos::geometry::{Offset, Point, Window};
use button_chaos::mechanic::{GameMechanic, MechanicState};
use button_chaos::mechanics::click_target::{ButtonTimeBar, TheButton};
use button_chaos::mechanics::draggable_obstacle::Square;
use button_chaos::mechanics::durability::DurabilityBar;
use button_chaos::mechanics::homing_shape::Pentagon;
use button_chaos::mechanics::projectile_wave::Triangle;
use button_chaos::outcome::{GameOver, Outcome};
use button_chaos::round::{Interaction, Rolls, Round, TickReport};
use button_chaos::timer::{ElapsedTime, IntervalTimer, TimerMode};

const ORIGIN: Point = Point { x: 0, y: 0 };
const WINDOW: Window = Window { width: 1000, height: 800 };
const STILL: Offset = Offset { dx: 0, dy: 0 };
const QUIET: TickReport = TickReport { fired: None, entered: None, ended: None };
const ROLLS: Rolls = Rolls {
    triangle_height: 100,
    pentagon_across: 0,
    pentagon_upper: true,
    square_across: 600_000,
    square_upper: false,
};

fn script(text: &str) -> ActionSequence {
    ActionSequence::load(text).unwrap()
}

fn step(round: &mut Round, script: &ActionSequence, dt: u64, events: &[Interaction]) -> TickReport {
    round.tick_with(Some(script), WINDOW, dt, None, &events.to_vec(), ROLLS)
}

fn entered(round: &mut Round, name: &str) {
    let script = script(&format!("0|M|{}", name));
    round.sequencer = SequencerState::default();
    let report = step(round, &script, 0, &[]);
    assert_eq!(report.fired, Some(0));
    assert!(report.entered.is_some());
}

#[test]
fn a_round_starts_with_nothing_in_play() {
    let round = Round::new();
    assert_eq!(round.sequencer, SequencerState::default());
    assert_eq!(round.mechanic, MechanicState::default());
    assert!(round.button.is_none() && round.time_bar.is_none() && round.clock.is_none());
    assert!(round.durability.is_none() && !round.fix_button && round.triangles.is_none());
    assert!(round.pentagon.is_none() && round.squares.is_none());
    assert_eq!(round.game_over.reason, None);
}

#[test]
fn a_round_waits_while_its_script_is_loading() {
    let mut round = Round::new();
    let report = round.tick_with(None, WINDOW, 5_000_000, Some(Point { x: 4, y: 5 }), &vec![], ROLLS);
    assert_eq!(report, QUIET);
    assert_eq!(round.sequencer, SequencerState::default());
    assert_eq!(round.player.position, Point { x: 4, y: 5 });
}

#[test]
fn a_script_plays_through_to_victory() {
    let script = script("0|T|Go\n1|M|Button\n0|M|ButtonTime\n1|M|Victory");
    let mut round = Round::new();
    assert_eq!(step(&mut round, &script, 0, &[]), TickReport { fired: Some(0), ..QUIET });
    assert_eq!(step(&mut round, &script, 400_000, &[]), QUIET);
    assert_eq!(
        step(&mut round, &script, 600_000, &[]),
        TickReport { fired: Some(1), entered: Some(GameMechanic::ClickTarget), ended: None }
    );
    assert_eq!(round.button, Some(TheButton { position: ORIGIN }));
    assert_eq!(round.time_bar, None);
    assert_eq!(
        step(&mut round, &script, 0, &[]),
        TickReport { fired: Some(2), entered: Some(GameMechanic::TimedClickTarget), ended: None }
    );
    assert_eq!(round.time_bar, Some(ButtonTimeBar::spawn_button_time_bar()));
    assert_eq!(step(&mut round, &script, 700_000, &[]), QUIET);
    assert_eq!(round.time_bar.unwrap().bar.current, 7_300_000);
    assert_eq!(
        step(&mut round, &script, 300_000, &[]),
        TickReport {
            fired: Some(3),
            entered: Some(GameMechanic::Victory),
            ended: Some(GameOver(GameMechanic::Victory))
        }
    );
    assert_eq!(round.game_over.reason, Some(GameMechanic::Victory));
    assert_eq!(round.mechanic.current, GameMechanic::Victory);
}

#[test]
fn a_round_that_is_over_does_not_change() {
    let script = script("0|M|ButtonTime\n0|M|Button\n100|M|Victory");
    let mut round = Round::new();
    step(&mut round, &script, 0, &[]);
    step(&mut round, &script, 0, &[]);
    let report = step(&mut round, &script, 8_000_000, &[]);
    assert_eq!(report.ended, Some(GameOver(GameMechanic::TimedClickTarget)));
    let sequencer = round.sequencer;
    let time_bar = round.time_bar;
    for _ in 0..3 {
        let report = round.tick_with(
            Some(&script),
            WINDOW,
            200_000_000,
            Some(Point { x: 1, y: 1 }),
            &vec![Interaction::ClickButton],
            ROLLS,
        );
        assert_eq!(report, QUIET);
    }
    assert_eq!(round.game_over.reason, Some(GameMechanic::TimedClickTarget));
    assert_eq!((round.sequencer, round.time_bar), (sequencer, time_bar));
    assert_eq!(round.player.position, ORIGIN);
    assert_eq!(round.mechanic.current, GameMechanic::ClickTarget);
}

#[test]
fn hazards_stay_in_play_when_the_mode_moves_on() {
    let script = script("0|M|ButtonTime\n0|M|Durability\n0|M|Button\n0|M|Timer");
    let mut round = Round::new();
    for _ in 0..4 {
        step(&mut round, &script, 1_000, &[]);
    }
    assert_eq!(round.mechanic, MechanicState { current: GameMechanic::Timer, next: None });
    assert_eq!(round.time_bar.unwrap().bar.current, 8_000_000 - 3_000);
    assert_eq!(round.durability, Some(DurabilityBar::spawn_durability_bar()));
    assert_eq!(round.clock, Some(ElapsedTime(0)));
    let report = step(&mut round, &script, 1_000, &[Interaction::ClickButton]);
    assert_eq!(report, QUIET);
    assert_eq!(round.time_bar.unwrap().bar.current, 8_000_000 - 1_000);
    assert_eq!(round.durability.unwrap().bar.current, 5);
    assert_eq!(round.clock, Some(ElapsedTime(1_000)));
    assert!(round.player.clicked_on_target);
    let report = step(&mut round, &script, 8_000_000, &[]);
    assert_eq!(report.ended, Some(GameOver(GameMechanic::TimedClickTarget)));
    assert!(!round.player.clicked_on_target);
}

#[test]
fn asking_for_the_current_mode_enters_nothing() {
    let script = script("0|M|Durability\n0|M|durability\n0|M|Fix");
    let mut round = Round::new();
    step(&mut round, &script, 0, &[]);
    round.durability = Some(DurabilityBar { bar: button_chaos::gauge::Bar { min: 0, max: 6, current: 2 } });
    assert_eq!(step(&mut round, &script, 0, &[]), TickReport { fired: Some(1), ..QUIET });
    assert_eq!(round.durability.unwrap().bar.current, 2);
    assert_eq!(step(&mut round, &script, 0, &[]).entered, Some(GameMechanic::Fix));
    assert!(round.fix_button);
}

#[test]
fn clicks_are_taken_in_order_and_the_first_verdict_of_a_tick_counts() {
    let mut round = Round::new();
    entered(&mut round, "Button");
    entered(&mut round, "Durability");
    entered(&mut round, "ButtonTime");
    let clicks = [Interaction::ClickButton; 7];
    let script = script("");
    let report = step(&mut round, &script, 9_000_000, &clicks);
    assert_eq!(report.ended, Some(GameOver(GameMechanic::Durability)));
    assert_eq!(round.durability.unwrap().bar.current, 0);
    assert_eq!(round.time_bar.unwrap().bar.current, 0);
    assert_eq!(round.game_over.reason, Some(GameMechanic::Durability));
}

#[test]
fn what_is_aimed_at_nothing_changes_nothing() {
    let mut round = Round::new();
    entered(&mut round, "Durability");
    let script = script("");
    let events = [
        Interaction::ClickButton,
        Interaction::ClickFixButton,
        Interaction::ClickTriangle(0),
        Interaction::DragSquare(5, 5),
    ];
    assert_eq!(step(&mut round, &script, 0, &events), QUIET);
    assert_eq!(round.durability, Some(DurabilityBar::spawn_durability_bar()));
    assert!(!round.player.clicked_on_target);
    assert_eq!(round.interact(Interaction::ClickButton), Outcome::Continue);
}

#[test]
fn the_fix_button_works_once_it_is_there() {
    let mut round = Round::new();
    entered(&mut round, "Button");
    entered(&mut round, "Durability");
    let script = script("");
    step(&mut round, &script, 0, &[Interaction::ClickButton, Interaction::ClickButton, Interaction::ClickFixButton]);
    assert_eq!(round.durability.unwrap().bar.current, 4);
    entered(&mut round, "Fix");
    step(&mut round, &script, 0, &[Interaction::ClickFixButton]);
    assert_eq!(round.durability.unwrap().bar.current, 6);
    assert!(!round.player.clicked_on_target);
}

#[test]
fn the_wave_flies_and_releases_within_a_tick() {
    let mut round = Round::new();
    entered(&mut round, "Triangles");
    let script = script("");
    assert_eq!(round.triangles.as_ref().unwrap().spawn_timer, IntervalTimer::new(2_500_000, TimerMode::Repeating));
    step(&mut round, &script, 2_500_000, &[]);
    let fresh = Triangle { position: Point { x: 700_000, y: 100 }, heading: STILL };
    assert_eq!(round.triangles.as_ref().unwrap().triangles, vec![fresh]);
    // without a button the triangles wait
    step(&mut round, &script, 1_000_000, &[]);
    assert_eq!(round.triangles.as_ref().unwrap().triangles, vec![fresh]);
    entered(&mut round, "Button");
    step(&mut round, &script, 1_000_000, &[]);
    let flown = Triangle { position: Point { x: 604_000, y: 87 }, heading: Offset { dx: -700_000, dy: -100 } };
    assert_eq!(round.triangles.as_ref().unwrap().triangles, vec![flown]);
    step(&mut round, &script, 500_000, &[]);
    assert_eq!(round.triangles.as_ref().unwrap().triangles.len(), 2);
    assert_eq!(round.triangles.as_ref().unwrap().triangles[1], fresh);
    let report = step(&mut round, &script, 0, &[Interaction::ClickTriangle(0), Interaction::ClickTriangle(5)]);
    assert_eq!(report, QUIET);
    let turned = Triangle { heading: Offset { dx: -700_000, dy: -100 }, ..fresh };
    assert_eq!(round.triangles.as_ref().unwrap().triangles, vec![turned]);
    assert!(round.player.clicked_on_target);
    // entering the mode again starts the timer over and keeps the triangles
    entered(&mut round, "Idle");
    step(&mut round, &script, 2_000_000, &[]);
    entered(&mut round, "ProjectileWave");
    assert_eq!(round.triangles.as_ref().unwrap().spawn_timer, IntervalTimer::new(2_500_000, TimerMode::Repeating));
    assert_eq!(round.triangles.as_ref().unwrap().triangles.len(), 1);
    let report = step(&mut round, &script, 6_000_000, &[]);
    assert_eq!(report.ended, Some(GameOver(GameMechanic::ProjectileWave)));
}

#[test]
fn a_window_without_height_releases_no_triangle() {
    let mut round = Round::new();
    entered(&mut round, "Triangles");
    let flat = Window { width: 1000, height: 0 };
    let report = round.tick(Some(&script("")), flat, 2_500_000, None, &vec![]);
    assert_eq!(report, QUIET);
    let wave = round.triangles.as_ref().unwrap();
    assert!(wave.spawn_timer.finished && wave.triangles.is_empty());
}

#[test]
fn the_pentagon_hunts_the_player() {
    let mut round = Round::new();
    let script = script("0|M|Pentagon");
    let cursor = Some(Point { x: 1_000, y: 2_000 });
    let report = round.tick_with(Some(&script), WINDOW, 0, cursor, &vec![], ROLLS);
    assert_eq!(report.entered, Some(GameMechanic::HomingShape));
    assert_eq!(round.pentagon, Some(Pentagon { position: Point { x: 1_000, y: 1_026_000 }, heading: STILL }));
    let report = round.tick_with(Some(&script), WINDOW, 1_000_000, cursor, &vec![], ROLLS);
    assert_eq!(report, QUIET);
    assert_eq!(round.pentagon.unwrap().position, Point { x: 1_000, y: 898_000 });
    let report = round.tick_with(Some(&script), WINDOW, 0, Some(Point { x: 1_000, y: 834_000 }), &vec![], ROLLS);
    assert_eq!(report.ended, Some(GameOver(GameMechanic::HomingShape)));
}

#[test]
fn the_square_comes_and_is_dragged_away() {
    let mut round = Round::new();
    entered(&mut round, "Button");
    entered(&mut round, "Square");
    let script = script("");
    step(&mut round, &script, 3_000_000, &[]);
    let fresh = Square { position: Point { x: 600_000, y: 0 }, heading: STILL, drag_direction: None };
    assert_eq!(round.squares.unwrap().square, Some(fresh));
    step(&mut round, &script, 100_000, &[]);
    assert_eq!(round.squares.unwrap().square.unwrap().position, Point { x: 497_600, y: 0 });
    step(&mut round, &script, 1_000_000, &[Interaction::DragSquare(3, 0)]);
    assert_eq!(round.squares.unwrap().square.unwrap().position, Point { x: 1_521_600, y: 0 });
    step(&mut round, &script, 0, &[]);
    assert_eq!(round.squares.unwrap().square, None);
    assert_eq!(round.squares.unwrap().spawn_timer, IntervalTimer::new(3_000_000, TimerMode::Once));
    step(&mut round, &script, 3_000_000, &[]);
    assert_eq!(round.squares.unwrap().square, Some(fresh));
}

#[test]
fn the_clock_starts_once() {
    let mut round = Round::new();
    entered(&mut round, "Timer");
    let script = script("");
    step(&mut round, &script, 1_500_000, &[]);
    assert_eq!(round.clock, Some(ElapsedTime(1_500_000)));
    entered(&mut round, "Idle");
    entered(&mut round, "Timer");
    assert_eq!(round.clock, Some(ElapsedTime(1_500_000)));
}

#[test]
fn chance_puts_hazards_where_they_may_appear() {
    let script = script("0|M|Triangles\n0|M|Pentagon\n0|M|Square");
    for _ in 0..20 {
        let mut round = Round::new();
        let cursor = Some(Point { x: -7_000, y: 9_000 });
        for _ in 0..3 {
            round.tick(Some(&script), WINDOW, 0, cursor, &vec![]);
        }
        let pentagon = round.pentagon.unwrap().position;
        let dx = (pentagon.x + 7_000) as i128;
        let dy = (pentagon.y - 9_000) as i128;
        assert!(dx * dx + dy * dy <= 1_024_000 * 1_024_000);
        assert!(1_024_000 * 1_024_000 < dx * dx + (dy.abs() + 1) * (dy.abs() + 1));

        round.tick(Some(&script), WINDOW, 3_000_000, None, &vec![]);
        let wave = round.triangles.as_ref().unwrap();
        assert_eq!(wave.triangles.len(), 1);
        assert_eq!(wave.triangles[0].position.x, 700_000);
        assert!(-320_000 <= wave.triangles[0].position.y && wave.triangles[0].position.y < 320_000);
        let square = round.squares.unwrap().square.unwrap().position;
        let (dx, dy) = (square.x as i128, square.y as i128);
        assert!(dx * dx + dy * dy <= 600_000 * 600_000);
        assert!(600_000 * 600_000 < dx * dx + (dy.abs() + 1) * (dy.abs() + 1));

        let rolls = Rolls::draw(WINDOW);
        assert!(-320_000 <= rolls.triangle_height && rolls.triangle_height < 320_000);
        assert!(-1_024_000 <= rolls.pentagon_across && rolls.pentagon_across <= 1_024_000);
        assert!(-600_000 <= rolls.square_across && rolls.square_across <= 600_000);
    }
}
