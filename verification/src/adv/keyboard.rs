//! Event-FIFO keyboard scanning: decoding of the keypad controller's
//! key-event bytes, the 56-entry device key table, and the event-driven
//! interpreter that latches modifier flags across polls.
use vstd::prelude::*;

use crate::keyboard::KeyImprint;

verus! {

/// A specific key combined with modifier keys such as Ctrl, Alt, or Shift
#[derive(Debug, Clone, Copy, PartialEq, Eq, Structural)]
pub struct KeyChord {
    pub key_imprint: KeyImprint,

    pub is_fn_pressed: bool,
    pub is_ctrl_pressed: bool,
    pub is_shift_pressed: bool,
    pub is_alt_pressed: bool,
    pub is_opt: bool,
}

impl KeyChord {
    pub fn imprint(&self) -> (r: KeyImprint)
        ensures
            r == self.key_imprint,
    {
        self.key_imprint
    }

    pub fn is_fn_pressed(&self) -> (r: bool)
        ensures
            r == self.is_fn_pressed,
    {
        self.is_fn_pressed
    }

    pub fn is_ctrl_pressed(&self) -> (r: bool)
        ensures
            r == self.is_ctrl_pressed,
    {
        self.is_ctrl_pressed
    }

    pub fn is_shift_pressed(&self) -> (r: bool)
        ensures
            r == self.is_shift_pressed,
    {
        self.is_shift_pressed
    }

    pub fn is_alt_pressed(&self) -> (r: bool)
        ensures
            r == self.is_alt_pressed,
    {
        self.is_alt_pressed
    }

    pub fn is_opt_pressed(&self) -> (r: bool)
        ensures
            r == self.is_opt,
    {
        self.is_opt
    }
}

/// A press or release edge carrying what was pressed or released.
#[derive(Debug, Clone, Copy, PartialEq, Eq, Structural)]
pub enum KeyEvent<T> {
    Pressed(T),
    Released(T),
}

pub type KeyImprintEvent = KeyEvent<KeyImprint>;

pub type KeyChordEvent = KeyEvent<KeyChord>;

/// The identity at each 0-based row-major index of the controller's
/// 56-entry key table.
pub open spec fn spec_device_key(i: int) -> KeyImprint {
    if i == 0 { KeyImprint::Backquote }
    else if i == 1 { KeyImprint::Tab }
    else if i == 2 { KeyImprint::LeftFn }
    else if i == 3 { KeyImprint::LeftCtrl }
    else if i == 4 { KeyImprint::One }
    else if i == 5 { KeyImprint::Q }
    else if i == 6 { KeyImprint::LeftShift }
    else if i == 7 { KeyImprint::LeftOpt }
    else if i == 8 { KeyImprint::Two }
    else if i == 9 { KeyImprint::W }
    else if i == 10 { KeyImprint::A }
    else if i == 11 { KeyImprint::LeftAlt }
    else if i == 12 { KeyImprint::Three }
    else if i == 13 { KeyImprint::E }
    else if i == 14 { KeyImprint::S }
    else if i == 15 { KeyImprint::Z }
    else if i == 16 { KeyImprint::Four }
    else if i == 17 { KeyImprint::R }
    else if i == 18 { KeyImprint::D }
    else if i == 19 { KeyImprint::X }
    else if i == 20 { KeyImprint::Five }
    else if i == 21 { KeyImprint::T }
    else if i == 22 { KeyImprint::F }
    else if i == 23 { KeyImprint::C }
    else if i == 24 { KeyImprint::Six }
    else if i == 25 { KeyImprint::Y }
    else if i == 26 { KeyImprint::G }
    else if i == 27 { KeyImprint::V }
    else if i == 28 { KeyImprint::Seven }
    else if i == 29 { KeyImprint::U }
    else if i == 30 { KeyImprint::H }
    else if i == 31 { KeyImprint::B }
    else if i == 32 { KeyImprint::Eight }
    else if i == 33 { KeyImprint::I }
    else if i == 34 { KeyImprint::J }
    else if i == 35 { KeyImprint::N }
    else if i == 36 { KeyImprint::Nine }
    else if i == 37 { KeyImprint::O }
    else if i == 38 { KeyImprint::K }
    else if i == 39 { KeyImprint::M }
    else if i == 40 { KeyImprint::Zero }
    else if i == 41 { KeyImprint::P }
    else if i == 42 { KeyImprint::L }
    else if i == 43 { KeyImprint::Comma }
    else if i == 44 { KeyImprint::Minus }
    else if i == 45 { KeyImprint::OpenSquareBracket }
    else if i == 46 { KeyImprint::SemiColon }
    else if i == 47 { KeyImprint::Period }
    else if i == 48 { KeyImprint::Equal }
    else if i == 49 { KeyImprint::CloseSquareBracket }
    else if i == 50 { KeyImprint::Quote }
    else if i == 51 { KeyImprint::Slash }
    else if i == 52 { KeyImprint::Backspace }
    else if i == 53 { KeyImprint::Backslash }
    else if i == 54 { KeyImprint::Enter }
    else { KeyImprint::Space }
}

/// The 0-based row-major index of each identity in the controller's
/// key table.
pub open spec fn spec_device_index(k: KeyImprint) -> int {
    match k {
        KeyImprint::Backquote => 0,
        KeyImprint::Tab => 1,
        KeyImprint::LeftFn => 2,
        KeyImprint::LeftCtrl => 3,
        KeyImprint::One => 4,
        KeyImprint::Q => 5,
        KeyImprint::LeftShift => 6,
        KeyImprint::LeftOpt => 7,
        KeyImprint::Two => 8,
        KeyImprint::W => 9,
        KeyImprint::A => 10,
        KeyImprint::LeftAlt => 11,
        KeyImprint::Three => 12,
        KeyImprint::E => 13,
        KeyImprint::S => 14,
        KeyImprint::Z => 15,
        KeyImprint::Four => 16,
        KeyImprint::R => 17,
        KeyImprint::D => 18,
        KeyImprint::X => 19,
        KeyImprint::Five => 20,
        KeyImprint::T => 21,
        KeyImprint::F => 22,
        KeyImprint::C => 23,
        KeyImprint::Six => 24,
        KeyImprint::Y => 25,
        KeyImprint::G => 26,
        KeyImprint::V => 27,
        KeyImprint::Seven => 28,
        KeyImprint::U => 29,
        KeyImprint::H => 30,
        KeyImprint::B => 31,
        KeyImprint::Eight => 32,
        KeyImprint::I => 33,
        KeyImprint::J => 34,
        KeyImprint::N => 35,
        KeyImprint::Nine => 36,
        KeyImprint::O => 37,
        KeyImprint::K => 38,
        KeyImprint::M => 39,
        KeyImprint::Zero => 40,
        KeyImprint::P => 41,
        KeyImprint::L => 42,
        KeyImprint::Comma => 43,
        KeyImprint::Minus => 44,
        KeyImprint::OpenSquareBracket => 45,
        KeyImprint::SemiColon => 46,
        KeyImprint::Period => 47,
        KeyImprint::Equal => 48,
        KeyImprint::CloseSquareBracket => 49,
        KeyImprint::Quote => 50,
        KeyImprint::Slash => 51,
        KeyImprint::Backspace => 52,
        KeyImprint::Backslash => 53,
        KeyImprint::Enter => 54,
        KeyImprint::Space => 55,
    }
}

/// Look up the identity at a 0-based index of the controller's key
/// table.
pub fn device_key(i: usize) -> (r: KeyImprint)
    requires
        i < 56,
    ensures
        r == spec_device_key(i as int),
{
    if i == 0 { KeyImprint::Backquote }
        else if i == 1 { KeyImprint::Tab }
        else if i == 2 { KeyImprint::LeftFn }
        else if i == 3 { KeyImprint::LeftCtrl }
        else if i == 4 { KeyImprint::One }
        else if i == 5 { KeyImprint::Q }
        else if i == 6 { KeyImprint::LeftShift }
        else if i == 7 { KeyImprint::LeftOpt }
        else if i == 8 { KeyImprint::Two }
        else if i == 9 { KeyImprint::W }
        else if i == 10 { KeyImprint::A }
        else if i == 11 { KeyImprint::LeftAlt }
        else if i == 12 { KeyImprint::Three }
        else if i == 13 { KeyImprint::E }
        else if i == 14 { KeyImprint::S }
        else if i == 15 { KeyImprint::Z }
        else if i == 16 { KeyImprint::Four }
        else if i == 17 { KeyImprint::R }
        else if i == 18 { KeyImprint::D }
        else if i == 19 { KeyImprint::X }
        else if i == 20 { KeyImprint::Five }
        else if i == 21 { KeyImprint::T }
        else if i == 22 { KeyImprint::F }
        else if i == 23 { KeyImprint::C }
        else if i == 24 { KeyImprint::Six }
        else if i == 25 { KeyImprint::Y }
        else if i == 26 { KeyImprint::G }
        else if i == 27 { KeyImprint::V }
        else if i == 28 { KeyImprint::Seven }
        else if i == 29 { KeyImprint::U }
        else if i == 30 { KeyImprint::H }
        else if i == 31 { KeyImprint::B }
        else if i == 32 { KeyImprint::Eight }
        else if i == 33 { KeyImprint::I }
        else if i == 34 { KeyImprint::J }
        else if i == 35 { KeyImprint::N }
        else if i == 36 { KeyImprint::Nine }
        else if i == 37 { KeyImprint::O }
        else if i == 38 { KeyImprint::K }
        else if i == 39 { KeyImprint::M }
        else if i == 40 { KeyImprint::Zero }
        else if i == 41 { KeyImprint::P }
        else if i == 42 { KeyImprint::L }
        else if i == 43 { KeyImprint::Comma }
        else if i == 44 { KeyImprint::Minus }
        else if i == 45 { KeyImprint::OpenSquareBracket }
        else if i == 46 { KeyImprint::SemiColon }
        else if i == 47 { KeyImprint::Period }
        else if i == 48 { KeyImprint::Equal }
        else if i == 49 { KeyImprint::CloseSquareBracket }
        else if i == 50 { KeyImprint::Quote }
        else if i == 51 { KeyImprint::Slash }
        else if i == 52 { KeyImprint::Backspace }
        else if i == 53 { KeyImprint::Backslash }
        else if i == 54 { KeyImprint::Enter }
        else { KeyImprint::Space }
}

/// The 0-based index a given identity occupies in the controller's key
/// table.
pub fn device_index(k: KeyImprint) -> (r: usize)
    ensures
        r < 56,
        r as int == spec_device_index(k),
{
    match k {
            KeyImprint::Backquote => 0,
            KeyImprint::Tab => 1,
            KeyImprint::LeftFn => 2,
            KeyImprint::LeftCtrl => 3,
            KeyImprint::One => 4,
            KeyImprint::Q => 5,
            KeyImprint::LeftShift => 6,
            KeyImprint::LeftOpt => 7,
            KeyImprint::Two => 8,
            KeyImprint::W => 9,
            KeyImprint::A => 10,
            KeyImprint::LeftAlt => 11,
            KeyImprint::Three => 12,
            KeyImprint::E => 13,
            KeyImprint::S => 14,
            KeyImprint::Z => 15,
            KeyImprint::Four => 16,
            KeyImprint::R => 17,
            KeyImprint::D => 18,
            KeyImprint::X => 19,
            KeyImprint::Five => 20,
            KeyImprint::T => 21,
            KeyImprint::F => 22,
            KeyImprint::C => 23,
            KeyImprint::Six => 24,
            KeyImprint::Y => 25,
            KeyImprint::G => 26,
            KeyImprint::V => 27,
            KeyImprint::Seven => 28,
            KeyImprint::U => 29,
            KeyImprint::H => 30,
            KeyImprint::B => 31,
            KeyImprint::Eight => 32,
            KeyImprint::I => 33,
            KeyImprint::J => 34,
            KeyImprint::N => 35,
            KeyImprint::Nine => 36,
            KeyImprint::O => 37,
            KeyImprint::K => 38,
            KeyImprint::M => 39,
            KeyImprint::Zero => 40,
            KeyImprint::P => 41,
            KeyImprint::L => 42,
            KeyImprint::Comma => 43,
            KeyImprint::Minus => 44,
            KeyImprint::OpenSquareBracket => 45,
            KeyImprint::SemiColon => 46,
            KeyImprint::Period => 47,
            KeyImprint::Equal => 48,
            KeyImprint::CloseSquareBracket => 49,
            KeyImprint::Quote => 50,
            KeyImprint::Slash => 51,
            KeyImprint::Backspace => 52,
            KeyImprint::Backslash => 53,
            KeyImprint::Enter => 54,
            KeyImprint::Space => 55,
    }
}

/// Law: the device key table is a bijection between the 56 table
/// indices and the 56 identities. Encoding an identity as its index and
/// decoding that index returns the same identity, and the other way
/// round, so each index maps to exactly one identity.
pub proof fn lemma_device_table_round_trip()
    ensures
        forall|k: KeyImprint| #[trigger] spec_device_key(spec_device_index(k)) == k,
        forall|i: int| 0 <= i < 56 ==> #[trigger] spec_device_index(spec_device_key(i)) == i,
{
}

/// I2C timeout in milliseconds
pub const I2C_TIMEOUT_MS: u64 = 500;

/// 7bit I2C address of the keypad controller
pub const I2C_ADDRESS: u8 = 0x34;

/// Configuration register: bit 0 enables the key-event FIFO interrupt.
pub const ADDR_CFG: u8 = 0x01;

/// Interrupt status register: bit 0 reads as key-event detected and is
/// cleared by writing 0.
pub const INT_STATUS: u8 = 0x02;

/// Key lock / event counter register: bits 0-3 count the queued events.
pub const REG_KEY_LCK_EC: u8 = 0x03;

/// Key event register: bit 7 is pressed/released, bits 0-6 the 1-based
/// key number, 0xFF the empty sentinel.
pub const REG_KEY_EVENT_A: u8 = 0x04;

/// Keypad or GPIO selection register for the eight row lines.
pub const ADDR_KP_GPIO1: u8 = 0x1D;

/// Keypad or GPIO selection register for the first eight column lines.
pub const ADDR_KP_GPIO2: u8 = 0x1E;

/// Keypad or GPIO selection register for the two upper column lines.
pub const ADDR_KP_GPIO3: u8 = 0x1F;

/// The (register, value) writes that set the controller up: select
/// eight keypad rows and the lower columns, then enable or disable the
/// event FIFO and clear any stale interrupt status.
pub open spec fn spec_init_sequence(fifo_enabled: bool) -> Seq<(u8, u8)> {
    seq![
        (ADDR_KP_GPIO1, 0x7fu8),
        (ADDR_KP_GPIO2, 0xffu8),
        (ADDR_KP_GPIO3, 0x00u8),
        (ADDR_CFG, if fifo_enabled { 0x01u8 } else { 0x00u8 }),
        (INT_STATUS, 0x00u8),
    ]
}

/// The single-register writes, in order, that initialize the keypad
/// controller over the bus.
pub fn init_sequence(fifo_enabled: bool) -> (w: (Vec<(u8, u8)>))
    ensures
        w@ == spec_init_sequence(fifo_enabled),
{
    let mut w: Vec<(u8, u8)> = Vec::new();
    w.push((ADDR_KP_GPIO1, 0x7f));
    w.push((ADDR_KP_GPIO2, 0xff));
    w.push((ADDR_KP_GPIO3, 0x00));
    w.push((ADDR_CFG, if fifo_enabled { 0x01 } else { 0x00 }));
    w.push((INT_STATUS, 0x00));
    proof {
        assert(w@ =~= spec_init_sequence(fifo_enabled));
    }
    w
}

/// How many queued events the event-counter register reports: its low
/// four bits.
pub fn event_count(reg: u8) -> (n: u8)
    ensures
        n == reg & 0x0f,
        n <= 15,
{
    assert(reg & 0x0f <= 15) by (bit_vector);
    reg & 0x0f
}

/// What one key-event register byte decodes to. 0xFF is the empty
/// sentinel: no event. Otherwise bit 7 tells a press from a release and
/// bits 0-6 hold the 1-based key number in the decimal-grouped scheme;
/// the 0-based table index is `n - (n / 10) * 2 - 1`. A number of 0 or
/// an index past the 56-entry table is no event either: the table is
/// never indexed out of range.
pub open spec fn spec_decode_key_event(byte: u8) -> Option<KeyImprintEvent> {
    if byte == 0xff {
        None
    } else {
        let num = (byte & 0x7f) as int;
        let idx = num - (num / 10) * 2 - 1;
        if 1 <= num && idx < 56 {
            if byte & 0x80 == 0x80 {
                Some(KeyEvent::Pressed(spec_device_key(idx)))
            } else {
                Some(KeyEvent::Released(spec_device_key(idx)))
            }
        } else {
            None
        }
    }
}

/// Decode one key-event register byte into a press or release edge, or
/// nothing for the empty sentinel and for key numbers outside the
/// 56-entry table.
pub fn decode_key_event(key_data: u8) -> (r: Option<KeyImprintEvent>)
    ensures
        r == spec_decode_key_event(key_data),
{
    if key_data == 0xff {
        return None;
    }
    let pressed = (key_data & 0x80) == 0x80;
    let key = key_data & 0x7f;
    if key == 0 {
        return None;
    }
    let num = key as usize;
    assert((num / 10) * 2 + 1 <= num) by {
        assert(10 * (num / 10) <= num);
    };
    let idx = num - (num / 10) * 2 - 1;
    if idx >= 56 {
        return None;
    }
    let imprint = device_key(idx);
    Some(
        if pressed {
            KeyEvent::Pressed(imprint)
        } else {
            KeyEvent::Released(imprint)
        },
    )
}

/// The events a sequence of key-event register bytes decodes to, in
/// read order, sentinel and out-of-range bytes skipped.
pub open spec fn spec_decode_key_events(bytes: Seq<u8>) -> Seq<KeyImprintEvent>
    decreases bytes.len(),
{
    if bytes.len() == 0 {
        Seq::empty()
    } else {
        let prev = spec_decode_key_events(bytes.drop_last());
        match spec_decode_key_event(bytes.last()) {
            Some(ev) => prev.push(ev),
            None => prev,
        }
    }
}

/// Decode a drained batch of key-event register bytes into press and
/// release edges, preserving the controller's FIFO order.
pub fn decode_key_events(bytes: &Vec<u8>) -> (r: (Vec<KeyImprintEvent>))
    ensures
        r@ == spec_decode_key_events(bytes@),
{
    let mut r: Vec<KeyImprintEvent> = Vec::new();
    let n = bytes.len();
    let mut i: usize = 0;
    while i < n
        invariant
            i <= n,
            n == bytes@.len(),
            r@ == spec_decode_key_events(bytes@.take(i as int)),
        decreases n - i,
    {
        proof {
            assert(bytes@.take(i + 1).drop_last() =~= bytes@.take(i as int));
            assert(bytes@.take(i + 1).last() == bytes@[i as int]);
        }
        if let Some(event) = decode_key_event(bytes[i]) {
            r.push(event);
        }
        i = i + 1;
    }
    proof {
        assert(bytes@.take(n as int) =~= bytes@);
    }
    r
}

/// Snapshot of the event-driven interpreter: the chords currently held
/// and the five latched modifier flags.
#[verifier::ext_equal]
pub ghost struct ChordStateView {
    pub held: Seq<KeyChord>,
    pub is_fn: bool,
    pub is_ctrl: bool,
    pub is_shift: bool,
    pub is_alt: bool,
    pub is_opt: bool,
}

/// The freshly created interpreter state: no flags latched, nothing
/// held.
pub open spec fn empty_chord_state() -> ChordStateView {
    ChordStateView {
        held: Seq::empty(),
        is_fn: false,
        is_ctrl: false,
        is_shift: false,
        is_alt: false,
        is_opt: false,
    }
}

/// The held chords with every entry for the given identity removed.
pub open spec fn remove_imprint(held: Seq<KeyChord>, k: KeyImprint) -> Seq<KeyChord>
    decreases held.len(),
{
    if held.len() == 0 {
        Seq::empty()
    } else {
        let prev = remove_imprint(held.drop_last(), k);
        if held.last().key_imprint == k {
            prev
        } else {
            prev.push(held.last())
        }
    }
}

/// The first held chord stored under the given identity, if any.
pub open spec fn find_chord(held: Seq<KeyChord>, k: KeyImprint) -> Option<KeyChord>
    decreases held.len(),
{
    if held.len() == 0 {
        None
    } else {
        let prev = find_chord(held.drop_last(), k);
        if prev is Some {
            prev
        } else if held.last().key_imprint == k {
            Some(held.last())
        } else {
            None
        }
    }
}

/// A press event: a modifier latches its flag; any other identity is
/// stored as a chord capturing the flags latched now, replacing any
/// chord already stored under it, and that chord is emitted.
pub open spec fn spec_press(v: ChordStateView, k: KeyImprint) -> (ChordStateView, Option<
    KeyChord,
>) {
    match k {
        KeyImprint::LeftFn => (ChordStateView { is_fn: true, ..v }, None),
        KeyImprint::LeftCtrl => (ChordStateView { is_ctrl: true, ..v }, None),
        KeyImprint::LeftShift => (ChordStateView { is_shift: true, ..v }, None),
        KeyImprint::LeftAlt => (ChordStateView { is_alt: true, ..v }, None),
        KeyImprint::LeftOpt => (ChordStateView { is_opt: true, ..v }, None),
        _ => {
            let chord = KeyChord {
                key_imprint: k,
                is_fn_pressed: v.is_fn,
                is_ctrl_pressed: v.is_ctrl,
                is_shift_pressed: v.is_shift,
                is_alt_pressed: v.is_alt,
                is_opt: v.is_opt,
            };
            (
                ChordStateView { held: remove_imprint(v.held, k).push(chord), ..v },
                Some(chord),
            )
        },
    }
}

/// A release event: a modifier unlatches its flag; for any other
/// identity the chord stored at press time leaves the held set and is
/// emitted with its press-time flags, and a release with nothing stored
/// emits nothing and changes nothing.
pub open spec fn spec_release(v: ChordStateView, k: KeyImprint) -> (ChordStateView, Option<
    KeyChord,
>) {
    match k {
        KeyImprint::LeftFn => (ChordStateView { is_fn: false, ..v }, None),
        KeyImprint::LeftCtrl => (ChordStateView { is_ctrl: false, ..v }, None),
        KeyImprint::LeftShift => (ChordStateView { is_shift: false, ..v }, None),
        KeyImprint::LeftAlt => (ChordStateView { is_alt: false, ..v }, None),
        KeyImprint::LeftOpt => (ChordStateView { is_opt: false, ..v }, None),
        _ => match find_chord(v.held, k) {
            Some(chord) => (
                ChordStateView { held: remove_imprint(v.held, k), ..v },
                Some(chord),
            ),
            None => (v, None),
        },
    }
}

/// One raw edge applied to the state, with the chord event it emits, if
/// any.
pub open spec fn spec_step(v: ChordStateView, e: KeyImprintEvent) -> (ChordStateView, Option<
    KeyChordEvent,
>) {
    match e {
        KeyEvent::Pressed(k) => {
            let (v2, chord) = spec_press(v, k);
            (
                v2,
                match chord {
                    Some(c) => Some(KeyEvent::Pressed(c)),
                    None => None,
                },
            )
        },
        KeyEvent::Released(k) => {
            let (v2, chord) = spec_release(v, k);
            (
                v2,
                match chord {
                    Some(c) => Some(KeyEvent::Released(c)),
                    None => None,
                },
            )
        },
    }
}

/// A batch of raw edges applied in order, with the chord events they
/// emit, in order.
pub open spec fn spec_run(v: ChordStateView, events: Seq<KeyImprintEvent>) -> (ChordStateView, Seq<
    KeyChordEvent,
>)
    decreases events.len(),
{
    if events.len() == 0 {
        (v, Seq::empty())
    } else {
        let (v1, outs) = spec_run(v, events.drop_last());
        let (v2, out) = spec_step(v1, events.last());
        (
            v2,
            match out {
                Some(ev) => outs.push(ev),
                None => outs,
            },
        )
    }
}

/// A structure for capturing key events and tracking state changes
#[derive(Debug)]
pub struct KeyboardState {
    key_state: Vec<KeyChord>,
    is_fn_pressed: bool,
    is_ctrl_pressed: bool,
    is_shift_pressed: bool,
    is_alt_pressed: bool,
    is_opt_pressed: bool,
}

impl View for KeyboardState {
    type V = ChordStateView;

    closed spec fn view(&self) -> ChordStateView {
        ChordStateView {
            held: self.key_state@,
            is_fn: self.is_fn_pressed,
            is_ctrl: self.is_ctrl_pressed,
            is_shift: self.is_shift_pressed,
            is_alt: self.is_alt_pressed,
            is_opt: self.is_opt_pressed,
        }
    }
}

impl KeyboardState {
    pub fn new() -> (r: Self)
        ensures
            r@ == empty_chord_state(),
    {
        let r = KeyboardState {
            key_state: Vec::new(),
            is_fn_pressed: false,
            is_ctrl_pressed: false,
            is_shift_pressed: false,
            is_alt_pressed: false,
            is_opt_pressed: false,
        };
        proof {
            assert(r@ =~= empty_chord_state());
        }
        r
    }

    fn handle_pressed_key(&mut self, imprint: KeyImprint) -> (r: Option<KeyChord>)
        ensures
            final(self)@ == spec_press(old(self)@, imprint).0,
            r == spec_press(old(self)@, imprint).1,
    {
        match imprint {
            KeyImprint::LeftFn => self.is_fn_pressed = true,
            KeyImprint::LeftCtrl => self.is_ctrl_pressed = true,
            KeyImprint::LeftShift => self.is_shift_pressed = true,
            KeyImprint::LeftAlt => self.is_alt_pressed = true,
            KeyImprint::LeftOpt => self.is_opt_pressed = true,
            _ => {
                let chord = KeyChord {
                    key_imprint: imprint,
                    is_fn_pressed: self.is_fn_pressed,
                    is_ctrl_pressed: self.is_ctrl_pressed,
                    is_shift_pressed: self.is_shift_pressed,
                    is_alt_pressed: self.is_alt_pressed,
                    is_opt: self.is_opt_pressed,
                };
                let mut kept = self.remove_held(imprint);
                kept.push(chord);
                self.key_state = kept;
                proof {
                    assert(self@ =~= spec_press(old(self)@, imprint).0);
                }
                return Some(chord);
            },
        }
        proof {
            assert(self@ =~= spec_press(old(self)@, imprint).0);
        }
        None
    }

    fn handle_released_key(&mut self, imprint: KeyImprint) -> (r: Option<KeyChord>)
        ensures
            final(self)@ == spec_release(old(self)@, imprint).0,
            r == spec_release(old(self)@, imprint).1,
    {
        match imprint {
            KeyImprint::LeftFn => self.is_fn_pressed = false,
            KeyImprint::LeftCtrl => self.is_ctrl_pressed = false,
            KeyImprint::LeftShift => self.is_shift_pressed = false,
            KeyImprint::LeftAlt => self.is_alt_pressed = false,
            KeyImprint::LeftOpt => self.is_opt_pressed = false,
            _ => {
                let found = self.find_held(imprint);
                if let Some(chord) = found {
                    let kept = self.remove_held(imprint);
                    self.key_state = kept;
                    proof {
                        assert(self@ =~= spec_release(old(self)@, imprint).0);
                    }
                    return Some(chord);
                }
                proof {
                    assert(self@ =~= spec_release(old(self)@, imprint).0);
                }
                return None;
            },
        }
        proof {
            assert(self@ =~= spec_release(old(self)@, imprint).0);
        }
        None
    }

    /// The held chords with every entry for the identity removed, in
    /// their stored order.
    fn remove_held(&self, imprint: KeyImprint) -> (kept: (Vec<KeyChord>))
        ensures
            kept@ == remove_imprint(self@.held, imprint),
    {
        let mut kept: Vec<KeyChord> = Vec::new();
        let n = self.key_state.len();
        let mut i: usize = 0;
        while i < n
            invariant
                i <= n,
                n == self.key_state@.len(),
                kept@ == remove_imprint(self.key_state@.take(i as int), imprint),
            decreases n - i,
        {
            proof {
                assert(self.key_state@.take(i + 1).drop_last() =~= self.key_state@.take(i as int));
                assert(self.key_state@.take(i + 1).last() == self.key_state@[i as int]);
            }
            let chord = self.key_state[i];
            if chord.key_imprint != imprint {
                kept.push(chord);
            }
            i = i + 1;
        }
        proof {
            assert(self.key_state@.take(n as int) =~= self.key_state@);
        }
        kept
    }

    /// The first held chord stored under the identity, if any.
    fn find_held(&self, imprint: KeyImprint) -> (r: Option<KeyChord>)
        ensures
            r == find_chord(self@.held, imprint),
    {
        let n = self.key_state.len();
        let mut i: usize = 0;
        while i < n
            invariant
                i <= n,
                n == self.key_state@.len(),
                find_chord(self.key_state@.take(i as int), imprint) is None,
            decreases n - i,
        {
            proof {
                assert(self.key_state@.take(i + 1).drop_last() =~= self.key_state@.take(i as int));
                assert(self.key_state@.take(i + 1).last() == self.key_state@[i as int]);
            }
            let chord = self.key_state[i];
            if chord.key_imprint == imprint {
                proof {
                    lemma_find_chord_extend(self.key_state@, imprint, i as int);
                }
                return Some(chord);
            }
            i = i + 1;
        }
        proof {
            assert(self.key_state@.take(n as int) =~= self.key_state@);
        }
        None
    }

    /// Apply a drained batch of raw edges to the state and return the
    /// chord events they emit, in order.
    pub fn get_key_events(&mut self, events: &Vec<KeyImprintEvent>) -> (out: (Vec<KeyChordEvent>))
        ensures
            final(self)@ == spec_run(old(self)@, events@).0,
            out@ == spec_run(old(self)@, events@).1,
    {
        let mut out: Vec<KeyChordEvent> = Vec::new();
        let n = events.len();
        let mut i: usize = 0;
        while i < n
            invariant
                i <= n,
                n == events@.len(),
                self@ == spec_run(old(self)@, events@.take(i as int)).0,
                out@ == spec_run(old(self)@, events@.take(i as int)).1,
            decreases n - i,
        {
            proof {
                assert(events@.take(i + 1).drop_last() =~= events@.take(i as int));
                assert(events@.take(i + 1).last() == events@[i as int]);
            }
            match events[i] {
                KeyEvent::Pressed(imprint) => {
                    if let Some(chord) = self.handle_pressed_key(imprint) {
                        out.push(KeyEvent::Pressed(chord));
                    }
                },
                KeyEvent::Released(imprint) => {
                    if let Some(chord) = self.handle_released_key(imprint) {
                        out.push(KeyEvent::Released(chord));
                    }
                },
            }
            i = i + 1;
        }
        proof {
            assert(events@.take(n as int) =~= events@);
        }
        out
    }
}

/// Once a prefix holds no chord for the identity and the next entry
/// does, that entry is the first chord found for it in any extension.
proof fn lemma_find_chord_extend(held: Seq<KeyChord>, k: KeyImprint, i: int)
    requires
        0 <= i < held.len(),
        find_chord(held.take(i), k) is None,
        held[i].key_imprint == k,
    ensures
        find_chord(held, k) == Some(held[i]),
    decreases held.len(),
{
    if held.len() == i + 1 {
        assert(held.drop_last() =~= held.take(i));
    } else {
        assert(held.drop_last().take(i) =~= held.take(i));
        assert(held.drop_last()[i] == held[i]);
        lemma_find_chord_extend(held.drop_last(), k, i);
    }
}

proof fn lemma_find_chord_none(held: Seq<KeyChord>, k: KeyImprint)
    requires
        forall|i: int| 0 <= i < held.len() ==> (#[trigger] held[i]).key_imprint != k,
    ensures
        find_chord(held, k) is None,
    decreases held.len(),
{
    if held.len() > 0 {
        lemma_find_chord_none(held.drop_last(), k);
    }
}

/// Law: an orphan release is silently dropped. A release event for a
/// non-modifier identity that no held chord was stored under emits
/// nothing and leaves the state unchanged.
pub proof fn lemma_orphan_release(v: ChordStateView, k: KeyImprint)
    requires
        !crate::keyboard::is_modifier(k),
        forall|i: int| 0 <= i < v.held.len() ==> (#[trigger] v.held[i]).key_imprint != k,
    ensures
        spec_release(v, k) == (v, None::<KeyChord>),
{
    lemma_find_chord_none(v.held, k);
}

proof fn lemma_remove_imprint_keeps_non_modifier(held: Seq<KeyChord>, k: KeyImprint)
    requires
        forall|i: int|
            0 <= i < held.len() ==> !crate::keyboard::is_modifier(
                (#[trigger] held[i]).key_imprint,
            ),
    ensures
        forall|j: int|
            0 <= j < remove_imprint(held, k).len() ==> !crate::keyboard::is_modifier(
                (#[trigger] remove_imprint(held, k)[j]).key_imprint,
            ),
    decreases held.len(),
{
    if held.len() > 0 {
        lemma_remove_imprint_keeps_non_modifier(held.drop_last(), k);
    }
}

/// Law: modifier identities never enter the held set. A step of the
/// event-driven interpreter on a state whose held chords all belong to
/// non-modifier identities leaves only such chords held: a modifier
/// edge only moves its flag, and a non-modifier press stores a chord of
/// that non-modifier identity.
pub proof fn lemma_step_keeps_held_non_modifier(v: ChordStateView, e: KeyImprintEvent)
    requires
        forall|i: int|
            0 <= i < v.held.len() ==> !crate::keyboard::is_modifier(
                (#[trigger] v.held[i]).key_imprint,
            ),
    ensures
        forall|j: int|
            0 <= j < spec_step(v, e).0.held.len() ==> !crate::keyboard::is_modifier(
                (#[trigger] spec_step(v, e).0.held[j]).key_imprint,
            ),
{
    match e {
        KeyEvent::Pressed(k) => {
            if !crate::keyboard::is_modifier(k) {
                lemma_remove_imprint_keeps_non_modifier(v.held, k);
            }
        },
        KeyEvent::Released(k) => {
            if !crate::keyboard::is_modifier(k) {
                lemma_remove_imprint_keeps_non_modifier(v.held, k);
            }
        },
    }
}

} // verus!
