//! Tests of the matrix table, the conversion rules and the polling
//! interpreter.
use cardputer::keyboard::{
    matrix_key, matrix_position, decode_scan, ConversionRule, HardwareError,
    KeyboardScanner, KeyboardState, KeyImprint, KeyType, Modified,
};

/// A scanner that replays a fixed sequence of scan results.
struct ScriptedScanner {
    frames: Vec<Result<Vec<KeyImprint>, HardwareError>>,
    at: usize,
}

impl ScriptedScanner {
    fn new(frames: Vec<Result<Vec<KeyImprint>, HardwareError>>) -> Self {
        ScriptedScanner { frames, at: 0 }
    }
}

impl KeyboardScanner for ScriptedScanner {
    fn scan_pressed_keys(&mut self) -> Result<Vec<KeyImprint>, HardwareError> {
        let frame = self.frames[self.at].clone();
        self.at += 1;
        frame
    }
}

fn all_imprints() -> Vec<KeyImprint> {
    let mut all = Vec::new();
    for row in 0..4 {
        for col in 0..14 {
            all.push(matrix_key(row, col));
        }
    }
    all
}

fn rule_for(k: KeyImprint) -> ConversionRule {
    match KeyType::from(k) {
        KeyType::Normal(rule) => rule,
        KeyType::Modifier(_) => panic!("no rule for a modifier"),
    }
}

#[test]
fn matrix_table_round_trip() {
    for row in 0..4 {
        for col in 0..14 {
            let k = matrix_key(row, col);
            assert_eq!(matrix_position(k), (row, col));
        }
    }
}

#[test]
fn key_type_total_over_non_modifiers() {
    let modifiers = [
        KeyImprint::LeftFn,
        KeyImprint::LeftCtrl,
        KeyImprint::LeftShift,
        KeyImprint::LeftAlt,
        KeyImprint::LeftOpt,
    ];
    let mut normal_count = 0;
    for k in all_imprints() {
        match KeyType::from(k) {
            KeyType::Modifier(m) => {
                assert_eq!(m, k);
                assert!(modifiers.contains(&k));
            }
            KeyType::Normal(rule) => {
                assert_eq!(rule.imprint(), k);
                assert!(!modifiers.contains(&k));
                normal_count += 1;
            }
        }
    }
    assert_eq!(normal_count, 51);
}

#[test]
fn fn_overrides_ignore_shift() {
    let overrides = [
        (KeyImprint::SemiColon, Modified::UpCursor),
        (KeyImprint::Period, Modified::DownCursor),
        (KeyImprint::Slash, Modified::RightCursor),
        (KeyImprint::Comma, Modified::LeftCursor),
        (KeyImprint::Backquote, Modified::Escape),
        (KeyImprint::Backspace, Modified::Delete),
    ];
    for (k, expected) in overrides {
        let rule = rule_for(k);
        assert_eq!(rule.modified(true, false), expected);
        assert_eq!(rule.modified(true, true), expected);
    }
}

#[test]
fn modified_resolves_base_and_shift() {
    let a = rule_for(KeyImprint::A);
    assert_eq!(a.modified(false, false), Modified::Graph('a'));
    assert_eq!(a.modified(false, true), Modified::Graph('A'));
    assert_eq!(a.modified(true, false), Modified::Graph('a'));
    assert_eq!(a.modified(true, true), Modified::Graph('A'));

    let one = rule_for(KeyImprint::One);
    assert_eq!(one.modified(false, false), Modified::Graph('1'));
    assert_eq!(one.modified(false, true), Modified::Graph('!'));

    let backspace = rule_for(KeyImprint::Backspace);
    assert_eq!(backspace.modified(false, false), Modified::Backspace);
    assert_eq!(backspace.modified(false, true), Modified::Backspace);

    let space = rule_for(KeyImprint::Space);
    assert_eq!(space.modified(false, false), Modified::Space);
    let enter = rule_for(KeyImprint::Enter);
    assert_eq!(enter.modified(false, true), Modified::Enter);
    let tab = rule_for(KeyImprint::Tab);
    assert_eq!(tab.modified(false, false), Modified::Tab);
}

#[test]
fn polling_shift_resolves_at_report_time() {
    let mut scanner = ScriptedScanner::new(vec![
        Ok(vec![KeyImprint::LeftShift, KeyImprint::A]),
        Ok(vec![KeyImprint::A]),
        Ok(vec![]),
    ]);
    let mut state = KeyboardState::default();

    state.update(&mut scanner).unwrap();
    assert!(state.is_shift_pressed());
    assert_eq!(state.pressed_keys(), vec![Modified::Graph('A')]);
    assert_eq!(state.released_keys(), vec![]);
    assert_eq!(state.hold_keys(), vec![Modified::Graph('A')]);

    state.update(&mut scanner).unwrap();
    assert!(!state.is_shift_pressed());
    assert_eq!(state.pressed_keys(), vec![]);
    assert_eq!(state.released_keys(), vec![]);
    assert_eq!(state.hold_keys(), vec![Modified::Graph('a')]);

    state.update(&mut scanner).unwrap();
    assert_eq!(state.pressed_keys(), vec![]);
    assert_eq!(state.released_keys(), vec![Modified::Graph('a')]);
    assert_eq!(state.hold_keys(), vec![]);
}

#[test]
fn polling_steady_state_is_idempotent() {
    let frame = vec![KeyImprint::A, KeyImprint::S, KeyImprint::LeftFn];
    let mut scanner = ScriptedScanner::new(vec![Ok(frame.clone()), Ok(frame)]);
    let mut state = KeyboardState::default();

    state.update(&mut scanner).unwrap();
    assert_eq!(state.pressed_keys().len(), 2);

    state.update(&mut scanner).unwrap();
    assert_eq!(state.pressed_keys(), vec![]);
    assert_eq!(state.released_keys(), vec![]);
    assert_eq!(
        state.hold_keys(),
        vec![Modified::Graph('a'), Modified::Graph('s')]
    );
    assert!(state.is_fn_pressed());
}

#[test]
fn polling_flags_are_not_latched() {
    let mut scanner = ScriptedScanner::new(vec![
        Ok(vec![
            KeyImprint::LeftFn,
            KeyImprint::LeftCtrl,
            KeyImprint::LeftShift,
            KeyImprint::LeftAlt,
        ]),
        Ok(vec![]),
    ]);
    let mut state = KeyboardState::default();

    state.update(&mut scanner).unwrap();
    assert!(state.is_fn_pressed());
    assert!(state.is_ctrl_pressed());
    assert!(state.is_shift_pressed());
    assert!(state.is_alt_pressed());

    state.update(&mut scanner).unwrap();
    assert!(!state.is_fn_pressed());
    assert!(!state.is_ctrl_pressed());
    assert!(!state.is_shift_pressed());
    assert!(!state.is_alt_pressed());
}

#[test]
fn polling_opt_sets_no_flag_and_is_not_held() {
    let mut scanner = ScriptedScanner::new(vec![Ok(vec![KeyImprint::LeftOpt])]);
    let mut state = KeyboardState::default();

    state.update(&mut scanner).unwrap();
    assert_eq!(state.pressed_keys(), vec![]);
    assert_eq!(state.hold_keys(), vec![]);
    assert!(!state.is_fn_pressed());
    assert!(!state.is_ctrl_pressed());
    assert!(!state.is_shift_pressed());
    assert!(!state.is_alt_pressed());
}

#[test]
fn polling_scan_failure_clears_cycle_but_keeps_held() {
    let mut scanner = ScriptedScanner::new(vec![
        Ok(vec![KeyImprint::LeftShift, KeyImprint::A]),
        Err(HardwareError),
    ]);
    let mut state = KeyboardState::default();

    state.update(&mut scanner).unwrap();
    assert_eq!(state.hold_keys(), vec![Modified::Graph('A')]);

    let r = state.update(&mut scanner);
    assert_eq!(r, Err(HardwareError));
    assert_eq!(state.pressed_keys(), vec![]);
    assert_eq!(state.released_keys(), vec![]);
    assert!(!state.is_shift_pressed());
    assert_eq!(state.hold_keys(), vec![Modified::Graph('a')]);
}

#[test]
fn polling_duplicate_scan_entries_are_kept() {
    let mut scanner =
        ScriptedScanner::new(vec![Ok(vec![KeyImprint::A, KeyImprint::A])]);
    let mut state = KeyboardState::default();

    state.update(&mut scanner).unwrap();
    assert_eq!(
        state.pressed_keys(),
        vec![Modified::Graph('a'), Modified::Graph('a')]
    );
}

#[test]
fn decode_scan_maps_samples_to_identities() {
    // Input line 0 at address 0 reads column 1 of row 0; at address 4 it
    // reads column 0 of row 0.
    let mut samples = vec![false; 56];
    samples[0] = true;
    assert_eq!(decode_scan(&samples), vec![KeyImprint::LeftOpt]);

    let mut samples = vec![false; 56];
    samples[4 * 7] = true;
    assert_eq!(decode_scan(&samples), vec![KeyImprint::LeftCtrl]);

    // Address 3, line 0 reads row 3 column 1: the `1` key.
    let mut samples = vec![false; 56];
    samples[3 * 7] = true;
    assert_eq!(decode_scan(&samples), vec![KeyImprint::One]);

    // An all-idle pass finds nothing.
    assert_eq!(decode_scan(&vec![false; 56]), vec![]);

    // Two active samples come out in sample order.
    let mut samples = vec![false; 56];
    samples[1] = true;
    samples[55] = true;
    let keys = decode_scan(&samples);
    assert_eq!(keys.len(), 2);
    assert_eq!(keys[0], matrix_key(0, 3));
    assert_eq!(keys[1], matrix_key(3, 12));
}

#[test]
fn decode_scan_full_frame_names_every_key_once() {
    let samples = vec![true; 56];
    let keys = decode_scan(&samples);
    assert_eq!(keys.len(), 56);
    for row in 0..4 {
        for col in 0..14 {
            assert!(keys.contains(&matrix_key(row, col)));
        }
    }
}
