use button_chaos::decimal::parse_seconds;
use button_chaos::game_sequencer::{
    Action, ActionSequence, ActionSequenceLoaderError, ActionType, SequencerState,
};
use button_chaos::mechanic::GameMechanic;
use button_chaos::text::{chars_of, is_whitespace, split_fields, trim, Span};

fn times(script: &ActionSequence) -> Vec<u64> {
    script.0.iter().map(|action| action.time).collect()
}

fn text_of(action: &Action) -> Option<&str> {
    match &action.action_type {
        ActionType::ChangeText(text) => Some(text.as_str()),
        ActionType::SpawnMechanic(_) => None,
    }
}

fn mechanic_of(action: &Action) -> Option<GameMechanic> {
    match &action.action_type {
        ActionType::ChangeText(_) => None,
        ActionType::SpawnMechanic(mechanic) => Some(*mechanic),
    }
}

fn error_of(text: &str) -> Option<ActionSequenceLoaderError> {
    ActionSequence::load(text).err()
}

fn seconds(text: &str) -> Option<u64> {
    let chars = chars_of(text);
    parse_seconds(&chars, Span { start: 0, end: chars.len() })
}

#[test]
fn three_lines_parse_to_three_actions() {
    let script = ActionSequence::load("0|T|Hello\n2|M|ClickTarget\n5|M|Timer").unwrap();
    assert_eq!(script.len(), 3);
    assert_eq!(times(&script), vec![0, 2_000_000, 5_000_000]);
    assert_eq!(text_of(&script.0[0]), Some("Hello"));
    assert_eq!(mechanic_of(&script.0[1]), Some(GameMechanic::ClickTarget));
    assert_eq!(mechanic_of(&script.0[2]), Some(GameMechanic::Timer));
}

#[test]
fn the_example_script_parses() {
    let script = ActionSequence::load("0|T|Survive!\n2|M|ClickTarget\n8|M|Timer\n").unwrap();
    assert_eq!(times(&script), vec![0, 2_000_000, 8_000_000]);
    assert_eq!(text_of(&script.0[0]), Some("Survive!"));
}

#[test]
fn an_unknown_kind_fails_the_whole_load() {
    assert_eq!(error_of("2|X|Foo"), Some(ActionSequenceLoaderError::ActionKind));
    assert_eq!(
        error_of("0|T|Hello\n2|X|Foo\n5|M|Timer"),
        Some(ActionSequenceLoaderError::ActionKind)
    );
    assert_eq!(error_of("2|t|Foo"), Some(ActionSequenceLoaderError::ActionKind));
    assert_eq!(error_of("2|TT|Foo"), Some(ActionSequenceLoaderError::ActionKind));
    assert_eq!(error_of("2||Foo"), Some(ActionSequenceLoaderError::ActionKind));
}

#[test]
fn a_bad_time_fails_the_whole_load() {
    assert_eq!(error_of("abc|M|Timer"), Some(ActionSequenceLoaderError::Time));
    assert_eq!(error_of("0|T|Hello\nabc|M|Timer"), Some(ActionSequenceLoaderError::Time));
    assert_eq!(error_of("|M|Timer"), Some(ActionSequenceLoaderError::Time));
    assert_eq!(error_of("-1|M|Timer"), Some(ActionSequenceLoaderError::Time));
}

#[test]
fn a_wrong_number_of_fields_fails_the_whole_load() {
    assert_eq!(error_of("2|M"), Some(ActionSequenceLoaderError::FieldCount));
    assert_eq!(error_of("2"), Some(ActionSequenceLoaderError::FieldCount));
    assert_eq!(error_of("2|T|a|b"), Some(ActionSequenceLoaderError::FieldCount));
    assert_eq!(error_of("1|T|ok\n2|T|a|b|c|d\n"), Some(ActionSequenceLoaderError::FieldCount));
}

#[test]
fn an_unknown_mechanic_fails_the_whole_load() {
    assert_eq!(error_of("2|M|Hexagons"), Some(ActionSequenceLoaderError::Mechanic));
    assert_eq!(error_of("2|M|"), Some(ActionSequenceLoaderError::Mechanic));
    assert_eq!(error_of("2|M|Time r s"), Some(ActionSequenceLoaderError::Mechanic));
}

#[test]
fn the_first_bad_line_decides_and_within_a_line_the_first_bad_field() {
    assert_eq!(error_of("x|M|Nope\n2|X|Foo"), Some(ActionSequenceLoaderError::Time));
    assert_eq!(error_of("1|X|Nope\nx|M|Timer"), Some(ActionSequenceLoaderError::ActionKind));
    assert_eq!(error_of("x|X"), Some(ActionSequenceLoaderError::FieldCount));
    assert_eq!(error_of("x|X|Nope"), Some(ActionSequenceLoaderError::Time));
    assert_eq!(error_of("1|M|Nope\n1|X"), Some(ActionSequenceLoaderError::Mechanic));
}

#[test]
fn empty_lines_and_comments_are_skipped() {
    let script = ActionSequence::load("\n# a comment | with | bars\n\n  \t\n1|T|a\r\n   # another\n2|T|b\n\n").unwrap();
    assert_eq!(times(&script), vec![1_000_000, 2_000_000]);
    assert_eq!(text_of(&script.0[0]), Some("a"));
    assert_eq!(text_of(&script.0[1]), Some("b"));
    assert_eq!(ActionSequence::load("").unwrap().len(), 0);
    assert_eq!(ActionSequence::load("\n\n").unwrap().len(), 0);
    assert_eq!(ActionSequence::load("#").unwrap().len(), 0);
}

#[test]
fn white_space_around_lines_and_fields_does_not_count() {
    let script = ActionSequence::load("  1.5 |  T  |  two words \u{a0}\n\u{3000}2|M| Timer").unwrap();
    assert_eq!(times(&script), vec![1_500_000, 2_000_000]);
    assert_eq!(text_of(&script.0[0]), Some("two words"));
    assert_eq!(mechanic_of(&script.0[1]), Some(GameMechanic::Timer));
}

#[test]
fn guide_text_is_kept_as_written() {
    let script = ActionSequence::load("0|T|Klick — schnell! # no comment\n0|T|").unwrap();
    assert_eq!(text_of(&script.0[0]), Some("Klick — schnell! # no comment"));
    assert_eq!(text_of(&script.0[1]), Some(""));
}

#[test]
fn mechanic_names_ignore_case_spaces_and_underscores() {
    for name in ["ButtonTime", "button time", "Button Time", "BUTTON_TIME", "b u t t o n t i m e", "TimedClickTarget", "timed click target"] {
        assert_eq!(GameMechanic::parse(name), Some(GameMechanic::TimedClickTarget));
        let line = format!("1|M|{}", name);
        assert_eq!(mechanic_of(&ActionSequence::load(&line).unwrap().0[0]), Some(GameMechanic::TimedClickTarget));
    }
}

#[test]
fn every_mechanic_has_its_names() {
    let names = [
        ("None", GameMechanic::Idle),
        ("Idle", GameMechanic::Idle),
        ("Button", GameMechanic::ClickTarget),
        ("ClickTarget", GameMechanic::ClickTarget),
        ("ButtonTime", GameMechanic::TimedClickTarget),
        ("TimedClickTarget", GameMechanic::TimedClickTarget),
        ("Timer", GameMechanic::Timer),
        ("Durability", GameMechanic::Durability),
        ("Fix", GameMechanic::Fix),
        ("Triangles", GameMechanic::ProjectileWave),
        ("ProjectileWave", GameMechanic::ProjectileWave),
        ("Pentagon", GameMechanic::HomingShape),
        ("HomingShape", GameMechanic::HomingShape),
        ("Square", GameMechanic::DraggableObstacle),
        ("DraggableObstacle", GameMechanic::DraggableObstacle),
        ("Victory", GameMechanic::Victory),
    ];
    for (name, mechanic) in names {
        assert_eq!(GameMechanic::parse(name), Some(mechanic));
        assert_eq!(GameMechanic::parse(&name.to_uppercase()), Some(mechanic));
    }
    for name in ["", "Butto", "Buttons", "Tımer", "Time\tr", "Victory!", "Fıx", "ﬁx"] {
        assert_eq!(GameMechanic::parse(name), None);
    }
    assert_eq!(GameMechanic::default(), GameMechanic::Idle);
}

#[test]
fn times_are_read_as_microseconds() {
    assert_eq!(seconds("0"), Some(0));
    assert_eq!(seconds("2"), Some(2_000_000));
    assert_eq!(seconds("+2"), Some(2_000_000));
    assert_eq!(seconds("007"), Some(7_000_000));
    assert_eq!(seconds("1.5"), Some(1_500_000));
    assert_eq!(seconds("1."), Some(1_000_000));
    assert_eq!(seconds(".5"), Some(500_000));
    assert_eq!(seconds("0.000001"), Some(1));
    assert_eq!(seconds("0.0000019"), Some(1));
    assert_eq!(seconds("0.123456789"), Some(123_456));
    assert_eq!(seconds("12.034"), Some(12_034_000));
    assert_eq!(seconds("18446744073709.551615"), Some(u64::MAX));
    assert_eq!(seconds("18446744073709"), Some(18_446_744_073_709_000_000));
}

#[test]
fn what_is_no_time_is_refused() {
    for text in ["", "+", ".", "+.", "abc", "-1", "-0", "1e3", "1 5", " 1", "1,5", "1.5.0", "٣", "inf", "NaN", "0x10", "1.5s"] {
        assert_eq!(seconds(text), None);
    }
    assert_eq!(seconds("18446744073709.551616"), None);
    assert_eq!(seconds("18446744073710"), None);
    assert_eq!(seconds("99999999999999999999999999999999999999999"), None);
}

#[test]
fn pieces_of_text_are_found_by_position() {
    let chars = chars_of("ab|c||");
    assert_eq!(chars, vec!['a', 'b', '|', 'c', '|', '|']);
    assert_eq!(
        split_fields(&chars, Span { start: 0, end: 6 }),
        vec![
            Span { start: 0, end: 2 },
            Span { start: 3, end: 4 },
            Span { start: 5, end: 5 },
            Span { start: 6, end: 6 }
        ]
    );
    assert_eq!(split_fields(&chars, Span { start: 0, end: 2 }), vec![Span { start: 0, end: 2 }]);
    let chars = chars_of(" \t x y\r\n");
    assert_eq!(trim(&chars, Span { start: 0, end: 8 }), Span { start: 3, end: 6 });
    assert_eq!(trim(&chars, Span { start: 0, end: 3 }), Span { start: 3, end: 3 });
    assert_eq!(trim(&chars, Span { start: 4, end: 5 }), Span { start: 5, end: 5 });
}

#[test]
fn white_space_is_what_unicode_says_it_is() {
    for code in 0u32..0x11_0000 {
        if let Some(c) = char::from_u32(code) {
            assert_eq!(is_whitespace(c), c.is_whitespace());
        }
    }
}

fn script() -> ActionSequence {
    ActionSequence::load("0|T|a\n1|M|Button\n1|M|Timer").unwrap()
}

#[test]
fn one_tick_fires_one_action_at_most() {
    let script = script();
    let mut state = SequencerState::default();
    assert_eq!(state.update_game_sequence(Some(&script), 5_000_000), Some(0));
    assert_eq!(state, SequencerState { elapsed_time: 5_000_000, action_index: 1 });
    assert_eq!(state.update_game_sequence(Some(&script), 0), Some(1));
    assert_eq!(state, SequencerState { elapsed_time: 4_000_000, action_index: 2 });
    assert_eq!(state.update_game_sequence(Some(&script), 0), Some(2));
    assert_eq!(state, SequencerState { elapsed_time: 3_000_000, action_index: 3 });
    assert_eq!(state.update_game_sequence(Some(&script), 9_000_000), None);
    assert_eq!(state, SequencerState { elapsed_time: 3_000_000, action_index: 3 });
}

#[test]
fn the_sequencer_waits_for_the_time_of_the_next_action() {
    let script = script();
    let mut state = SequencerState { elapsed_time: 0, action_index: 1 };
    assert_eq!(state.update_game_sequence(Some(&script), 400_000), None);
    assert_eq!(state.update_game_sequence(Some(&script), 599_999), None);
    assert_eq!(state, SequencerState { elapsed_time: 999_999, action_index: 1 });
    assert_eq!(state.update_game_sequence(Some(&script), 1), Some(1));
    assert_eq!(state, SequencerState { elapsed_time: 0, action_index: 2 });
    assert_eq!(state.update_game_sequence(Some(&script), 1_300_000), Some(2));
    assert_eq!(state, SequencerState { elapsed_time: 300_000, action_index: 3 });
}

#[test]
fn without_a_script_the_sequencer_waits() {
    let mut state = SequencerState::default();
    assert_eq!(state.update_game_sequence(None, 5_000_000), None);
    assert_eq!(state, SequencerState::default());
    let empty = ActionSequence::load("").unwrap();
    assert_eq!(state.update_game_sequence(Some(&empty), 5_000_000), None);
    assert_eq!(state, SequencerState::default());
}

#[test]
fn the_time_waited_stops_at_its_limit() {
    let script = ActionSequence::load("18446744073709|T|late\n1|T|later").unwrap();
    let mut state = SequencerState { elapsed_time: u64::MAX - 5, action_index: 0 };
    assert_eq!(state.update_game_sequence(Some(&script), 10), Some(0));
    assert_eq!(state.elapsed_time, u64::MAX - 18_446_744_073_709_000_000);
}
