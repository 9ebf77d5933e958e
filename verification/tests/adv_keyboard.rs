//! Tests of the device key table, the FIFO event decoding and the
//! event-driven interpreter.
use cardputer::adv::keyboard::{
    decode_key_event, decode_key_events, device_index, device_key, event_count, init_sequence,
    KeyboardState, KeyChord, KeyEvent, KeyImprintEvent,
};
use cardputer::keyboard::KeyImprint;

fn chord_of(event: &KeyEvent<KeyChord>) -> &KeyChord {
    match event {
        KeyEvent::Pressed(c) => c,
        KeyEvent::Released(c) => c,
    }
}

#[test]
fn device_table_round_trip() {
    for i in 0..56 {
        let k = device_key(i);
        assert_eq!(device_index(k), i);
    }
}

#[test]
fn decode_formula_examples() {
    // key number 11 gives index 11 - (11 / 10) * 2 - 1 = 8: the ninth
    // table entry.
    assert_eq!(device_key(8), KeyImprint::Two);
    assert_eq!(
        decode_key_event(0x80 | 11),
        Some(KeyEvent::Pressed(KeyImprint::Two))
    );

    // key number 50 gives index 50 - (50 / 10) * 2 - 1 = 39.
    assert_eq!(device_key(39), KeyImprint::M);
    assert_eq!(decode_key_event(50), Some(KeyEvent::Released(KeyImprint::M)));
}

#[test]
fn decode_sentinel_and_out_of_range_give_no_event() {
    // 0xFF is the empty sentinel.
    assert_eq!(decode_key_event(0xff), None);
    // A key number of zero never indexes the table.
    assert_eq!(decode_key_event(0x00), None);
    assert_eq!(decode_key_event(0x80), None);
    // Key number 127 maps past the 56-entry table.
    assert_eq!(decode_key_event(0x7f), None);
    // Key number 71 maps to index 56, one past the table.
    assert_eq!(decode_key_event(71), None);
    // Key number 68 maps to index 55, the last table entry.
    assert_eq!(
        decode_key_event(68),
        Some(KeyEvent::Released(KeyImprint::Space))
    );
}

#[test]
fn decode_batch_preserves_fifo_order_and_skips_sentinels() {
    let bytes = vec![0x8b, 0xff, 0x32, 0x00];
    assert_eq!(
        decode_key_events(&bytes),
        vec![
            KeyEvent::Pressed(KeyImprint::Two),
            KeyEvent::Released(KeyImprint::M),
        ]
    );
    assert_eq!(decode_key_events(&vec![]), vec![]);
}

#[test]
fn event_count_reads_low_four_bits() {
    assert_eq!(event_count(0x00), 0);
    assert_eq!(event_count(0x05), 5);
    assert_eq!(event_count(0xab), 0x0b);
    assert_eq!(event_count(0xf0), 0);
}

#[test]
fn init_sequence_writes_the_documented_registers() {
    assert_eq!(
        init_sequence(true),
        vec![
            (0x1d, 0x7f),
            (0x1e, 0xff),
            (0x1f, 0x00),
            (0x01, 0x01),
            (0x02, 0x00),
        ]
    );
    assert_eq!(
        init_sequence(false),
        vec![
            (0x1d, 0x7f),
            (0x1e, 0xff),
            (0x1f, 0x00),
            (0x01, 0x00),
            (0x02, 0x00),
        ]
    );
}

#[test]
fn release_chord_keeps_press_time_shift() {
    let mut state = KeyboardState::new();
    let events: Vec<KeyImprintEvent> = vec![
        KeyEvent::Pressed(KeyImprint::LeftShift),
        KeyEvent::Pressed(KeyImprint::A),
        KeyEvent::Released(KeyImprint::LeftShift),
        KeyEvent::Released(KeyImprint::A),
    ];
    let out = state.get_key_events(&events);
    assert_eq!(out.len(), 2);

    match &out[0] {
        KeyEvent::Pressed(chord) => {
            assert_eq!(chord.imprint(), KeyImprint::A);
            assert!(chord.is_shift_pressed());
        }
        KeyEvent::Released(_) => panic!("expected a press first"),
    }
    match &out[1] {
        KeyEvent::Released(chord) => {
            assert_eq!(chord.imprint(), KeyImprint::A);
            // Shift was already released, yet the chord keeps the flags
            // captured at press time.
            assert!(chord.is_shift_pressed());
        }
        KeyEvent::Pressed(_) => panic!("expected a release second"),
    }
}

#[test]
fn orphan_release_emits_nothing_and_keeps_state() {
    let mut state = KeyboardState::new();
    let out = state.get_key_events(&vec![KeyEvent::Released(KeyImprint::A)]);
    assert_eq!(out, vec![]);

    // The held set was not touched: a following press still reports a
    // fresh press, and its release finds the stored chord.
    let out = state.get_key_events(&vec![
        KeyEvent::Pressed(KeyImprint::A),
        KeyEvent::Released(KeyImprint::A),
    ]);
    assert_eq!(out.len(), 2);
}

#[test]
fn modifier_flags_latch_across_polls() {
    let mut state = KeyboardState::new();
    let out = state.get_key_events(&vec![KeyEvent::Pressed(KeyImprint::LeftCtrl)]);
    assert_eq!(out, vec![]);

    // A later batch still sees Ctrl latched.
    let out = state.get_key_events(&vec![KeyEvent::Pressed(KeyImprint::A)]);
    assert_eq!(out.len(), 1);
    assert!(chord_of(&out[0]).is_ctrl_pressed());

    let out = state.get_key_events(&vec![
        KeyEvent::Released(KeyImprint::LeftCtrl),
        KeyEvent::Pressed(KeyImprint::S),
    ]);
    assert_eq!(out.len(), 1);
    assert!(!chord_of(&out[0]).is_ctrl_pressed());
}

#[test]
fn chord_captures_all_five_modifiers() {
    let mut state = KeyboardState::new();
    let out = state.get_key_events(&vec![
        KeyEvent::Pressed(KeyImprint::LeftFn),
        KeyEvent::Pressed(KeyImprint::LeftCtrl),
        KeyEvent::Pressed(KeyImprint::LeftShift),
        KeyEvent::Pressed(KeyImprint::LeftAlt),
        KeyEvent::Pressed(KeyImprint::LeftOpt),
        KeyEvent::Pressed(KeyImprint::Z),
    ]);
    assert_eq!(out.len(), 1);
    let chord = chord_of(&out[0]);
    assert_eq!(chord.imprint(), KeyImprint::Z);
    assert!(chord.is_fn_pressed());
    assert!(chord.is_ctrl_pressed());
    assert!(chord.is_shift_pressed());
    assert!(chord.is_alt_pressed());
    assert!(chord.is_opt_pressed());
}

#[test]
fn repeated_press_replaces_the_stored_chord() {
    let mut state = KeyboardState::new();
    let out = state.get_key_events(&vec![
        KeyEvent::Pressed(KeyImprint::A),
        KeyEvent::Pressed(KeyImprint::LeftShift),
        KeyEvent::Pressed(KeyImprint::A),
        KeyEvent::Released(KeyImprint::A),
    ]);
    // Two presses of A and one release.
    assert_eq!(out.len(), 3);
    match &out[2] {
        KeyEvent::Released(chord) => {
            // The release carries the flags of the latest press.
            assert!(chord.is_shift_pressed());
        }
        KeyEvent::Pressed(_) => panic!("expected a release last"),
    }
}
