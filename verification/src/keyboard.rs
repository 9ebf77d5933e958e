//! Matrix keyboard scanning: the key catalog, the 4x14 position table,
//! the conversion rules, and the polling interpreter that tracks which
//! keys are held between scan cycles.
//!
//! ### 4x14 keymap
//!
//! ```text
//!  A2 A1 A0 |    Y0  |  Y1   |  Y2   |  Y3   |  Y4   |  Y5   |  Y6
//!  H  -  -  |  L     | L     | L     | L     | L     | L     | L
//!  L  -  -  |      L |     L |     L |     L |     L |     L |     L
//! ----------+--------+-------+-------+-------+-------+-------+-------
//!  -  H  H  |  `   1   2   3   4   5   6   7   8   9   0   -   =  DEL
//!  -  H  L  | TAB  q   w   e   r   t   y   u   i   o   p   [   ]   \
//!  -  L  H  | FN  SHT  a   s   d   f   g   h   j   k   l   ;   '  ENT
//!  -  L  L  | CTL OPT ALT  z   x   c   v   b   n   m   ,   .   /  SPC
//! ```
use vstd::prelude::*;

verus! {

/// One of the 56 physical key positions.
#[derive(Debug, Clone, Copy, PartialEq, Eq, Hash, Structural)]
pub enum KeyImprint {
    Backquote,
    One,
    Two,
    Three,
    Four,
    Five,
    Six,
    Seven,
    Eight,
    Nine,
    Zero,
    Minus,
    Equal,
    Backspace,
    Tab,
    Q,
    W,
    E,
    R,
    T,
    Y,
    U,
    I,
    O,
    P,
    OpenSquareBracket,
    CloseSquareBracket,
    Backslash,
    LeftFn,
    LeftShift,
    A,
    S,
    D,
    F,
    G,
    H,
    J,
    K,
    L,
    SemiColon,
    Quote,
    Enter,
    LeftCtrl,
    LeftOpt,
    LeftAlt,
    Z,
    X,
    C,
    V,
    B,
    N,
    M,
    Comma,
    Period,
    Slash,
    Space,
}

/// What a key press stands for once the modifier state is applied:
/// a visible glyph or a named action.
#[derive(Debug, Clone, Copy, PartialEq, Eq, Structural)]
pub enum Modified {
    Graph(char),
    Escape,
    Enter,
    Space,
    Tab,
    LeftCursor,
    DownCursor,
    UpCursor,
    RightCursor,
    Backspace,
    Delete,
}

/// Conversion rule: a key identity with its base output and its
/// shifted output.
#[derive(Debug, PartialEq, Eq, Clone, Copy, Structural)]
pub struct ConversionRule(pub KeyImprint, pub Modified, pub Modified);

/// The output `modified` returns for a rule under the given Fn and
/// Shift state: five Fn overrides take precedence and ignore Shift,
/// then Shift selects the shifted output, else the base output.
pub open spec fn spec_modified(rule: ConversionRule, is_fn: bool, is_shift: bool) -> Modified {
    if rule.0 == KeyImprint::SemiColon && is_fn {
        Modified::UpCursor
    } else if rule.0 == KeyImprint::Period && is_fn {
        Modified::DownCursor
    } else if rule.0 == KeyImprint::Slash && is_fn {
        Modified::RightCursor
    } else if rule.0 == KeyImprint::Comma && is_fn {
        Modified::LeftCursor
    } else if rule.0 == KeyImprint::Backquote && is_fn {
        Modified::Escape
    } else if rule.0 == KeyImprint::Backspace && is_fn {
        Modified::Delete
    } else if is_shift {
        rule.2
    } else {
        rule.1
    }
}

impl ConversionRule {
    /// Convert according to the state of Fn and Shift key
    pub fn modified(&self, is_fn_pressed: bool, is_shift_pressed: bool) -> (r: Modified)
        ensures
            r == spec_modified(*self, is_fn_pressed, is_shift_pressed),
    {
        match (self.0, is_fn_pressed, is_shift_pressed) {
            (KeyImprint::SemiColon, true, _) => Modified::UpCursor,
            (KeyImprint::Period, true, _) => Modified::DownCursor,
            (KeyImprint::Slash, true, _) => Modified::RightCursor,
            (KeyImprint::Comma, true, _) => Modified::LeftCursor,
            (KeyImprint::Backquote, true, _) => Modified::Escape,
            (KeyImprint::Backspace, true, _) => Modified::Delete,
            (_, _, true) => self.2,
            (_, _, _) => self.1,
        }
    }

    /// Returns the imprint of the key assigned to the rule
    pub fn imprint(&self) -> (r: KeyImprint)
        ensures
            r == self.0,
    {
        self.0
    }
}

/// Define the type of key as modifier key and normal key
#[derive(Debug, Copy, Clone, PartialEq, Eq, Structural)]
pub enum KeyType {
    Modifier(KeyImprint),
    Normal(ConversionRule),
}

impl KeyType {
    pub fn imprint(&self) -> (r: KeyImprint)
        ensures
            r == self.spec_imprint(),
    {
        match self {
            KeyType::Modifier(x) => *x,
            KeyType::Normal(x) => x.imprint(),
        }
    }

    pub open spec fn spec_imprint(&self) -> KeyImprint {
        match self {
            KeyType::Modifier(x) => *x,
            KeyType::Normal(x) => x.0,
        }
    }
}

/// Whether the identity is one of the five modifier positions, which
/// have no conversion rule.
pub open spec fn is_modifier(k: KeyImprint) -> bool {
    k == KeyImprint::LeftFn || k == KeyImprint::LeftCtrl || k == KeyImprint::LeftShift
        || k == KeyImprint::LeftAlt || k == KeyImprint::LeftOpt
}

/// The fixed classification of each identity: the five modifier
/// positions stand alone; each of the 51 other identities carries its
/// conversion rule.
pub open spec fn spec_key_type(imprint: KeyImprint) -> KeyType {
    match imprint {
        KeyImprint::Backquote => KeyType::Normal(ConversionRule(KeyImprint::Backquote, Modified::Graph('`'), Modified::Graph('~'))),
        KeyImprint::One => KeyType::Normal(ConversionRule(KeyImprint::One, Modified::Graph('1'), Modified::Graph('!'))),
        KeyImprint::Two => KeyType::Normal(ConversionRule(KeyImprint::Two, Modified::Graph('2'), Modified::Graph('@'))),
        KeyImprint::Three => KeyType::Normal(ConversionRule(KeyImprint::Three, Modified::Graph('3'), Modified::Graph('#'))),
        KeyImprint::Four => KeyType::Normal(ConversionRule(KeyImprint::Four, Modified::Graph('4'), Modified::Graph('$'))),
        KeyImprint::Five => KeyType::Normal(ConversionRule(KeyImprint::Five, Modified::Graph('5'), Modified::Graph('%'))),
        KeyImprint::Six => KeyType::Normal(ConversionRule(KeyImprint::Six, Modified::Graph('6'), Modified::Graph('^'))),
        KeyImprint::Seven => KeyType::Normal(ConversionRule(KeyImprint::Seven, Modified::Graph('7'), Modified::Graph('&'))),
        KeyImprint::Eight => KeyType::Normal(ConversionRule(KeyImprint::Eight, Modified::Graph('8'), Modified::Graph('*'))),
        KeyImprint::Nine => KeyType::Normal(ConversionRule(KeyImprint::Nine, Modified::Graph('9'), Modified::Graph('('))),
        KeyImprint::Zero => KeyType::Normal(ConversionRule(KeyImprint::Zero, Modified::Graph('0'), Modified::Graph(')'))),
        KeyImprint::Minus => KeyType::Normal(ConversionRule(KeyImprint::Minus, Modified::Graph('-'), Modified::Graph('_'))),
        KeyImprint::Equal => KeyType::Normal(ConversionRule(KeyImprint::Equal, Modified::Graph('='), Modified::Graph('+'))),
        KeyImprint::Backspace => KeyType::Normal(ConversionRule(KeyImprint::Backspace, Modified::Backspace, Modified::Backspace)),
        KeyImprint::Tab => KeyType::Normal(ConversionRule(KeyImprint::Tab, Modified::Tab, Modified::Tab)),
        KeyImprint::Q => KeyType::Normal(ConversionRule(KeyImprint::Q, Modified::Graph('q'), Modified::Graph('Q'))),
        KeyImprint::W => KeyType::Normal(ConversionRule(KeyImprint::W, Modified::Graph('w'), Modified::Graph('W'))),
        KeyImprint::E => KeyType::Normal(ConversionRule(KeyImprint::E, Modified::Graph('e'), Modified::Graph('E'))),
        KeyImprint::R => KeyType::Normal(ConversionRule(KeyImprint::R, Modified::Graph('r'), Modified::Graph('R'))),
        KeyImprint::T => KeyType::Normal(ConversionRule(KeyImprint::T, Modified::Graph('t'), Modified::Graph('T'))),
        KeyImprint::Y => KeyType::Normal(ConversionRule(KeyImprint::Y, Modified::Graph('y'), Modified::Graph('Y'))),
        KeyImprint::U => KeyType::Normal(ConversionRule(KeyImprint::U, Modified::Graph('u'), Modified::Graph('U'))),
        KeyImprint::I => KeyType::Normal(ConversionRule(KeyImprint::I, Modified::Graph('i'), Modified::Graph('I'))),
        KeyImprint::O => KeyType::Normal(ConversionRule(KeyImprint::O, Modified::Graph('o'), Modified::Graph('O'))),
        KeyImprint::P => KeyType::Normal(ConversionRule(KeyImprint::P, Modified::Graph('p'), Modified::Graph('P'))),
        KeyImprint::OpenSquareBracket => KeyType::Normal(ConversionRule(KeyImprint::OpenSquareBracket, Modified::Graph('['), Modified::Graph('{'))),
        KeyImprint::CloseSquareBracket => KeyType::Normal(ConversionRule(KeyImprint::CloseSquareBracket, Modified::Graph(']'), Modified::Graph('}'))),
        KeyImprint::Backslash => KeyType::Normal(ConversionRule(KeyImprint::Backslash, Modified::Graph('\\'), Modified::Graph('|'))),
        KeyImprint::LeftFn => KeyType::Modifier(KeyImprint::LeftFn),
        KeyImprint::LeftShift => KeyType::Modifier(KeyImprint::LeftShift),
        KeyImprint::A => KeyType::Normal(ConversionRule(KeyImprint::A, Modified::Graph('a'), Modified::Graph('A'))),
        KeyImprint::S => KeyType::Normal(ConversionRule(KeyImprint::S, Modified::Graph('s'), Modified::Graph('S'))),
        KeyImprint::D => KeyType::Normal(ConversionRule(KeyImprint::D, Modified::Graph('d'), Modified::Graph('D'))),
        KeyImprint::F => KeyType::Normal(ConversionRule(KeyImprint::F, Modified::Graph('f'), Modified::Graph('F'))),
        KeyImprint::G => KeyType::Normal(ConversionRule(KeyImprint::G, Modified::Graph('g'), Modified::Graph('G'))),
        KeyImprint::H => KeyType::Normal(ConversionRule(KeyImprint::H, Modified::Graph('h'), Modified::Graph('H'))),
        KeyImprint::J => KeyType::Normal(ConversionRule(KeyImprint::J, Modified::Graph('j'), Modified::Graph('J'))),
        KeyImprint::K => KeyType::Normal(ConversionRule(KeyImprint::K, Modified::Graph('k'), Modified::Graph('K'))),
        KeyImprint::L => KeyType::Normal(ConversionRule(KeyImprint::L, Modified::Graph('l'), Modified::Graph('L'))),
        KeyImprint::SemiColon => KeyType::Normal(ConversionRule(KeyImprint::SemiColon, Modified::Graph(';'), Modified::Graph(':'))),
        KeyImprint::Quote => KeyType::Normal(ConversionRule(KeyImprint::Quote, Modified::Graph('\''), Modified::Graph('"'))),
        KeyImprint::Enter => KeyType::Normal(ConversionRule(KeyImprint::Enter, Modified::Enter, Modified::Enter)),
        KeyImprint::LeftCtrl => KeyType::Modifier(KeyImprint::LeftCtrl),
        KeyImprint::LeftOpt => KeyType::Modifier(KeyImprint::LeftOpt),
        KeyImprint::LeftAlt => KeyType::Modifier(KeyImprint::LeftAlt),
        KeyImprint::Z => KeyType::Normal(ConversionRule(KeyImprint::Z, Modified::Graph('z'), Modified::Graph('Z'))),
        KeyImprint::X => KeyType::Normal(ConversionRule(KeyImprint::X, Modified::Graph('x'), Modified::Graph('X'))),
        KeyImprint::C => KeyType::Normal(ConversionRule(KeyImprint::C, Modified::Graph('c'), Modified::Graph('C'))),
        KeyImprint::V => KeyType::Normal(ConversionRule(KeyImprint::V, Modified::Graph('v'), Modified::Graph('V'))),
        KeyImprint::B => KeyType::Normal(ConversionRule(KeyImprint::B, Modified::Graph('b'), Modified::Graph('B'))),
        KeyImprint::N => KeyType::Normal(ConversionRule(KeyImprint::N, Modified::Graph('n'), Modified::Graph('N'))),
        KeyImprint::M => KeyType::Normal(ConversionRule(KeyImprint::M, Modified::Graph('m'), Modified::Graph('M'))),
        KeyImprint::Comma => KeyType::Normal(ConversionRule(KeyImprint::Comma, Modified::Graph(','), Modified::Graph('<'))),
        KeyImprint::Period => KeyType::Normal(ConversionRule(KeyImprint::Period, Modified::Graph('.'), Modified::Graph('>'))),
        KeyImprint::Slash => KeyType::Normal(ConversionRule(KeyImprint::Slash, Modified::Graph('/'), Modified::Graph('?'))),
        KeyImprint::Space => KeyType::Normal(ConversionRule(KeyImprint::Space, Modified::Space, Modified::Space)),
    }
}

impl From<KeyImprint> for KeyType {
    fn from(imprint: KeyImprint) -> (r: Self) {
        match imprint {
            KeyImprint::Backquote => KeyType::Normal(ConversionRule(KeyImprint::Backquote, Modified::Graph('`'), Modified::Graph('~'))),
            KeyImprint::One => KeyType::Normal(ConversionRule(KeyImprint::One, Modified::Graph('1'), Modified::Graph('!'))),
            KeyImprint::Two => KeyType::Normal(ConversionRule(KeyImprint::Two, Modified::Graph('2'), Modified::Graph('@'))),
            KeyImprint::Three => KeyType::Normal(ConversionRule(KeyImprint::Three, Modified::Graph('3'), Modified::Graph('#'))),
            KeyImprint::Four => KeyType::Normal(ConversionRule(KeyImprint::Four, Modified::Graph('4'), Modified::Graph('$'))),
            KeyImprint::Five => KeyType::Normal(ConversionRule(KeyImprint::Five, Modified::Graph('5'), Modified::Graph('%'))),
            KeyImprint::Six => KeyType::Normal(ConversionRule(KeyImprint::Six, Modified::Graph('6'), Modified::Graph('^'))),
            KeyImprint::Seven => KeyType::Normal(ConversionRule(KeyImprint::Seven, Modified::Graph('7'), Modified::Graph('&'))),
            KeyImprint::Eight => KeyType::Normal(ConversionRule(KeyImprint::Eight, Modified::Graph('8'), Modified::Graph('*'))),
            KeyImprint::Nine => KeyType::Normal(ConversionRule(KeyImprint::Nine, Modified::Graph('9'), Modified::Graph('('))),
            KeyImprint::Zero => KeyType::Normal(ConversionRule(KeyImprint::Zero, Modified::Graph('0'), Modified::Graph(')'))),
            KeyImprint::Minus => KeyType::Normal(ConversionRule(KeyImprint::Minus, Modified::Graph('-'), Modified::Graph('_'))),
            KeyImprint::Equal => KeyType::Normal(ConversionRule(KeyImprint::Equal, Modified::Graph('='), Modified::Graph('+'))),
            KeyImprint::Backspace => KeyType::Normal(ConversionRule(KeyImprint::Backspace, Modified::Backspace, Modified::Backspace)),
            KeyImprint::Tab => KeyType::Normal(ConversionRule(KeyImprint::Tab, Modified::Tab, Modified::Tab)),
            KeyImprint::Q => KeyType::Normal(ConversionRule(KeyImprint::Q, Modified::Graph('q'), Modified::Graph('Q'))),
            KeyImprint::W => KeyType::Normal(ConversionRule(KeyImprint::W, Modified::Graph('w'), Modified::Graph('W'))),
            KeyImprint::E => KeyType::Normal(ConversionRule(KeyImprint::E, Modified::Graph('e'), Modified::Graph('E'))),
            KeyImprint::R => KeyType::Normal(ConversionRule(KeyImprint::R, Modified::Graph('r'), Modified::Graph('R'))),
            KeyImprint::T => KeyType::Normal(ConversionRule(KeyImprint::T, Modified::Graph('t'), Modified::Graph('T'))),
            KeyImprint::Y => KeyType::Normal(ConversionRule(KeyImprint::Y, Modified::Graph('y'), Modified::Graph('Y'))),
            KeyImprint::U => KeyType::Normal(ConversionRule(KeyImprint::U, Modified::Graph('u'), Modified::Graph('U'))),
            KeyImprint::I => KeyType::Normal(ConversionRule(KeyImprint::I, Modified::Graph('i'), Modified::Graph('I'))),
            KeyImprint::O => KeyType::Normal(ConversionRule(KeyImprint::O, Modified::Graph('o'), Modified::Graph('O'))),
            KeyImprint::P => KeyType::Normal(ConversionRule(KeyImprint::P, Modified::Graph('p'), Modified::Graph('P'))),
            KeyImprint::OpenSquareBracket => KeyType::Normal(ConversionRule(KeyImprint::OpenSquareBracket, Modified::Graph('['), Modified::Graph('{'))),
            KeyImprint::CloseSquareBracket => KeyType::Normal(ConversionRule(KeyImprint::CloseSquareBracket, Modified::Graph(']'), Modified::Graph('}'))),
            KeyImprint::Backslash => KeyType::Normal(ConversionRule(KeyImprint::Backslash, Modified::Graph('\\'), Modified::Graph('|'))),
            KeyImprint::LeftFn => KeyType::Modifier(KeyImprint::LeftFn),
            KeyImprint::LeftShift => KeyType::Modifier(KeyImprint::LeftShift),
            KeyImprint::A => KeyType::Normal(ConversionRule(KeyImprint::A, Modified::Graph('a'), Modified::Graph('A'))),
            KeyImprint::S => KeyType::Normal(ConversionRule(KeyImprint::S, Modified::Graph('s'), Modified::Graph('S'))),
            KeyImprint::D => KeyType::Normal(ConversionRule(KeyImprint::D, Modified::Graph('d'), Modified::Graph('D'))),
            KeyImprint::F => KeyType::Normal(ConversionRule(KeyImprint::F, Modified::Graph('f'), Modified::Graph('F'))),
            KeyImprint::G => KeyType::Normal(ConversionRule(KeyImprint::G, Modified::Graph('g'), Modified::Graph('G'))),
            KeyImprint::H => KeyType::Normal(ConversionRule(KeyImprint::H, Modified::Graph('h'), Modified::Graph('H'))),
            KeyImprint::J => KeyType::Normal(ConversionRule(KeyImprint::J, Modified::Graph('j'), Modified::Graph('J'))),
            KeyImprint::K => KeyType::Normal(ConversionRule(KeyImprint::K, Modified::Graph('k'), Modified::Graph('K'))),
            KeyImprint::L => KeyType::Normal(ConversionRule(KeyImprint::L, Modified::Graph('l'), Modified::Graph('L'))),
            KeyImprint::SemiColon => KeyType::Normal(ConversionRule(KeyImprint::SemiColon, Modified::Graph(';'), Modified::Graph(':'))),
            KeyImprint::Quote => KeyType::Normal(ConversionRule(KeyImprint::Quote, Modified::Graph('\''), Modified::Graph('"'))),
            KeyImprint::Enter => KeyType::Normal(ConversionRule(KeyImprint::Enter, Modified::Enter, Modified::Enter)),
            KeyImprint::LeftCtrl => KeyType::Modifier(KeyImprint::LeftCtrl),
            KeyImprint::LeftOpt => KeyType::Modifier(KeyImprint::LeftOpt),
            KeyImprint::LeftAlt => KeyType::Modifier(KeyImprint::LeftAlt),
            KeyImprint::Z => KeyType::Normal(ConversionRule(KeyImprint::Z, Modified::Graph('z'), Modified::Graph('Z'))),
            KeyImprint::X => KeyType::Normal(ConversionRule(KeyImprint::X, Modified::Graph('x'), Modified::Graph('X'))),
            KeyImprint::C => KeyType::Normal(ConversionRule(KeyImprint::C, Modified::Graph('c'), Modified::Graph('C'))),
            KeyImprint::V => KeyType::Normal(ConversionRule(KeyImprint::V, Modified::Graph('v'), Modified::Graph('V'))),
            KeyImprint::B => KeyType::Normal(ConversionRule(KeyImprint::B, Modified::Graph('b'), Modified::Graph('B'))),
            KeyImprint::N => KeyType::Normal(ConversionRule(KeyImprint::N, Modified::Graph('n'), Modified::Graph('N'))),
            KeyImprint::M => KeyType::Normal(ConversionRule(KeyImprint::M, Modified::Graph('m'), Modified::Graph('M'))),
            KeyImprint::Comma => KeyType::Normal(ConversionRule(KeyImprint::Comma, Modified::Graph(','), Modified::Graph('<'))),
            KeyImprint::Period => KeyType::Normal(ConversionRule(KeyImprint::Period, Modified::Graph('.'), Modified::Graph('>'))),
            KeyImprint::Slash => KeyType::Normal(ConversionRule(KeyImprint::Slash, Modified::Graph('/'), Modified::Graph('?'))),
            KeyImprint::Space => KeyType::Normal(ConversionRule(KeyImprint::Space, Modified::Space, Modified::Space)),
        }
    }
}

impl vstd::std_specs::convert::FromSpecImpl<KeyImprint> for KeyType {
    open spec fn obeys_from_spec() -> bool {
        true
    }

    open spec fn from_spec(v: KeyImprint) -> Self {
        spec_key_type(v)
    }
}

/// The identity at each (row, column) position of the 4x14 matrix.
pub open spec fn spec_matrix_key(row: int, col: int) -> KeyImprint {
    if row == 0 {
        if col == 0 { KeyImprint::LeftCtrl }
        else if col == 1 { KeyImprint::LeftOpt }
        else if col == 2 { KeyImprint::LeftAlt }
        else if col == 3 { KeyImprint::Z }
        else if col == 4 { KeyImprint::X }
        else if col == 5 { KeyImprint::C }
        else if col == 6 { KeyImprint::V }
        else if col == 7 { KeyImprint::B }
        else if col == 8 { KeyImprint::N }
        else if col == 9 { KeyImprint::M }
        else if col == 10 { KeyImprint::Comma }
        else if col == 11 { KeyImprint::Period }
        else if col == 12 { KeyImprint::Slash }
        else { KeyImprint::Space }
    } else if row == 1 {
        if col == 0 { KeyImprint::LeftFn }
        else if col == 1 { KeyImprint::LeftShift }
        else if col == 2 { KeyImprint::A }
        else if col == 3 { KeyImprint::S }
        else if col == 4 { KeyImprint::D }
        else if col == 5 { KeyImprint::F }
        else if col == 6 { KeyImprint::G }
        else if col == 7 { KeyImprint::H }
        else if col == 8 { KeyImprint::J }
        else if col == 9 { KeyImprint::K }
        else if col == 10 { KeyImprint::L }
        else if col == 11 { KeyImprint::SemiColon }
        else if col == 12 { KeyImprint::Quote }
        else { KeyImprint::Enter }
    } else if row == 2 {
        if col == 0 { KeyImprint::Tab }
        else if col == 1 { KeyImprint::Q }
        else if col == 2 { KeyImprint::W }
        else if col == 3 { KeyImprint::E }
        else if col == 4 { KeyImprint::R }
        else if col == 5 { KeyImprint::T }
        else if col == 6 { KeyImprint::Y }
        else if col == 7 { KeyImprint::U }
        else if col == 8 { KeyImprint::I }
        else if col == 9 { KeyImprint::O }
        else if col == 10 { KeyImprint::P }
        else if col == 11 { KeyImprint::OpenSquareBracket }
        else if col == 12 { KeyImprint::CloseSquareBracket }
        else { KeyImprint::Backslash }
    } else {
        if col == 0 { KeyImprint::Backquote }
        else if col == 1 { KeyImprint::One }
        else if col == 2 { KeyImprint::Two }
        else if col == 3 { KeyImprint::Three }
        else if col == 4 { KeyImprint::Four }
        else if col == 5 { KeyImprint::Five }
        else if col == 6 { KeyImprint::Six }
        else if col == 7 { KeyImprint::Seven }
        else if col == 8 { KeyImprint::Eight }
        else if col == 9 { KeyImprint::Nine }
        else if col == 10 { KeyImprint::Zero }
        else if col == 11 { KeyImprint::Minus }
        else if col == 12 { KeyImprint::Equal }
        else { KeyImprint::Backspace }
    }
}

/// The (row, column) position of each identity in the 4x14 matrix.
pub open spec fn spec_matrix_position(k: KeyImprint) -> (int, int) {
    match k {
        KeyImprint::LeftCtrl => (0, 0),
        KeyImprint::LeftOpt => (0, 1),
        KeyImprint::LeftAlt => (0, 2),
        KeyImprint::Z => (0, 3),
        KeyImprint::X => (0, 4),
        KeyImprint::C => (0, 5),
        KeyImprint::V => (0, 6),
        KeyImprint::B => (0, 7),
        KeyImprint::N => (0, 8),
        KeyImprint::M => (0, 9),
        KeyImprint::Comma => (0, 10),
        KeyImprint::Period => (0, 11),
        KeyImprint::Slash => (0, 12),
        KeyImprint::Space => (0, 13),
        KeyImprint::LeftFn => (1, 0),
        KeyImprint::LeftShift => (1, 1),
        KeyImprint::A => (1, 2),
        KeyImprint::S => (1, 3),
        KeyImprint::D => (1, 4),
        KeyImprint::F => (1, 5),
        KeyImprint::G => (1, 6),
        KeyImprint::H => (1, 7),
        KeyImprint::J => (1, 8),
        KeyImprint::K => (1, 9),
        KeyImprint::L => (1, 10),
        KeyImprint::SemiColon => (1, 11),
        KeyImprint::Quote => (1, 12),
        KeyImprint::Enter => (1, 13),
        KeyImprint::Tab => (2, 0),
        KeyImprint::Q => (2, 1),
        KeyImprint::W => (2, 2),
        KeyImprint::E => (2, 3),
        KeyImprint::R => (2, 4),
        KeyImprint::T => (2, 5),
        KeyImprint::Y => (2, 6),
        KeyImprint::U => (2, 7),
        KeyImprint::I => (2, 8),
        KeyImprint::O => (2, 9),
        KeyImprint::P => (2, 10),
        KeyImprint::OpenSquareBracket => (2, 11),
        KeyImprint::CloseSquareBracket => (2, 12),
        KeyImprint::Backslash => (2, 13),
        KeyImprint::Backquote => (3, 0),
        KeyImprint::One => (3, 1),
        KeyImprint::Two => (3, 2),
        KeyImprint::Three => (3, 3),
        KeyImprint::Four => (3, 4),
        KeyImprint::Five => (3, 5),
        KeyImprint::Six => (3, 6),
        KeyImprint::Seven => (3, 7),
        KeyImprint::Eight => (3, 8),
        KeyImprint::Nine => (3, 9),
        KeyImprint::Zero => (3, 10),
        KeyImprint::Minus => (3, 11),
        KeyImprint::Equal => (3, 12),
        KeyImprint::Backspace => (3, 13),
    }
}

/// Look up the identity at a (row, column) position of the matrix.
pub fn matrix_key(row: usize, col: usize) -> (r: KeyImprint)
    requires
        row < 4,
        col < 14,
    ensures
        r == spec_matrix_key(row as int, col as int),
{
    if row == 0 {
        if col == 0 { KeyImprint::LeftCtrl }
        else if col == 1 { KeyImprint::LeftOpt }
        else if col == 2 { KeyImprint::LeftAlt }
        else if col == 3 { KeyImprint::Z }
        else if col == 4 { KeyImprint::X }
        else if col == 5 { KeyImprint::C }
        else if col == 6 { KeyImprint::V }
        else if col == 7 { KeyImprint::B }
        else if col == 8 { KeyImprint::N }
        else if col == 9 { KeyImprint::M }
        else if col == 10 { KeyImprint::Comma }
        else if col == 11 { KeyImprint::Period }
        else if col == 12 { KeyImprint::Slash }
        else { KeyImprint::Space }
    } else if row == 1 {
        if col == 0 { KeyImprint::LeftFn }
        else if col == 1 { KeyImprint::LeftShift }
        else if col == 2 { KeyImprint::A }
        else if col == 3 { KeyImprint::S }
        else if col == 4 { KeyImprint::D }
        else if col == 5 { KeyImprint::F }
        else if col == 6 { KeyImprint::G }
        else if col == 7 { KeyImprint::H }
        else if col == 8 { KeyImprint::J }
        else if col == 9 { KeyImprint::K }
        else if col == 10 { KeyImprint::L }
        else if col == 11 { KeyImprint::SemiColon }
        else if col == 12 { KeyImprint::Quote }
        else { KeyImprint::Enter }
    } else if row == 2 {
        if col == 0 { KeyImprint::Tab }
        else if col == 1 { KeyImprint::Q }
        else if col == 2 { KeyImprint::W }
        else if col == 3 { KeyImprint::E }
        else if col == 4 { KeyImprint::R }
        else if col == 5 { KeyImprint::T }
        else if col == 6 { KeyImprint::Y }
        else if col == 7 { KeyImprint::U }
        else if col == 8 { KeyImprint::I }
        else if col == 9 { KeyImprint::O }
        else if col == 10 { KeyImprint::P }
        else if col == 11 { KeyImprint::OpenSquareBracket }
        else if col == 12 { KeyImprint::CloseSquareBracket }
        else { KeyImprint::Backslash }
    } else {
        if col == 0 { KeyImprint::Backquote }
        else if col == 1 { KeyImprint::One }
        else if col == 2 { KeyImprint::Two }
        else if col == 3 { KeyImprint::Three }
        else if col == 4 { KeyImprint::Four }
        else if col == 5 { KeyImprint::Five }
        else if col == 6 { KeyImprint::Six }
        else if col == 7 { KeyImprint::Seven }
        else if col == 8 { KeyImprint::Eight }
        else if col == 9 { KeyImprint::Nine }
        else if col == 10 { KeyImprint::Zero }
        else if col == 11 { KeyImprint::Minus }
        else if col == 12 { KeyImprint::Equal }
        else { KeyImprint::Backspace }
    }
}

/// The (row, column) position a given identity occupies in the matrix.
pub fn matrix_position(k: KeyImprint) -> (r: (usize, usize))
    ensures
        r.0 < 4,
        r.1 < 14,
        (r.0 as int, r.1 as int) == spec_matrix_position(k),
{
    match k {
            KeyImprint::LeftCtrl => (0, 0),
            KeyImprint::LeftOpt => (0, 1),
            KeyImprint::LeftAlt => (0, 2),
            KeyImprint::Z => (0, 3),
            KeyImprint::X => (0, 4),
            KeyImprint::C => (0, 5),
            KeyImprint::V => (0, 6),
            KeyImprint::B => (0, 7),
            KeyImprint::N => (0, 8),
            KeyImprint::M => (0, 9),
            KeyImprint::Comma => (0, 10),
            KeyImprint::Period => (0, 11),
            KeyImprint::Slash => (0, 12),
            KeyImprint::Space => (0, 13),
            KeyImprint::LeftFn => (1, 0),
            KeyImprint::LeftShift => (1, 1),
            KeyImprint::A => (1, 2),
            KeyImprint::S => (1, 3),
            KeyImprint::D => (1, 4),
            KeyImprint::F => (1, 5),
            KeyImprint::G => (1, 6),
            KeyImprint::H => (1, 7),
            KeyImprint::J => (1, 8),
            KeyImprint::K => (1, 9),
            KeyImprint::L => (1, 10),
            KeyImprint::SemiColon => (1, 11),
            KeyImprint::Quote => (1, 12),
            KeyImprint::Enter => (1, 13),
            KeyImprint::Tab => (2, 0),
            KeyImprint::Q => (2, 1),
            KeyImprint::W => (2, 2),
            KeyImprint::E => (2, 3),
            KeyImprint::R => (2, 4),
            KeyImprint::T => (2, 5),
            KeyImprint::Y => (2, 6),
            KeyImprint::U => (2, 7),
            KeyImprint::I => (2, 8),
            KeyImprint::O => (2, 9),
            KeyImprint::P => (2, 10),
            KeyImprint::OpenSquareBracket => (2, 11),
            KeyImprint::CloseSquareBracket => (2, 12),
            KeyImprint::Backslash => (2, 13),
            KeyImprint::Backquote => (3, 0),
            KeyImprint::One => (3, 1),
            KeyImprint::Two => (3, 2),
            KeyImprint::Three => (3, 3),
            KeyImprint::Four => (3, 4),
            KeyImprint::Five => (3, 5),
            KeyImprint::Six => (3, 6),
            KeyImprint::Seven => (3, 7),
            KeyImprint::Eight => (3, 8),
            KeyImprint::Nine => (3, 9),
            KeyImprint::Zero => (3, 10),
            KeyImprint::Minus => (3, 11),
            KeyImprint::Equal => (3, 12),
            KeyImprint::Backspace => (3, 13),
    }
}

/// The six identities whose Fn overrides take precedence over Shift.
pub open spec fn is_fn_override(k: KeyImprint) -> bool {
    k == KeyImprint::SemiColon || k == KeyImprint::Period || k == KeyImprint::Slash
        || k == KeyImprint::Comma || k == KeyImprint::Backquote || k == KeyImprint::Backspace
}

/// Law: the 4x14 position table is a bijection between the 56 matrix
/// positions and the 56 identities. Encoding an identity as its
/// (row, column) position and decoding that position returns the same
/// identity, and decoding a position then encoding the identity returns
/// the same position, so each position maps to exactly one identity.
pub proof fn lemma_matrix_table_round_trip()
    ensures
        forall|k: KeyImprint|
            #[trigger] spec_matrix_key(spec_matrix_position(k).0, spec_matrix_position(k).1) == k,
        forall|row: int, col: int|
            0 <= row < 4 && 0 <= col < 14 ==> #[trigger] spec_matrix_position(
                spec_matrix_key(row, col),
            ) == (row, col),
{
}

/// Law: the rule lookup is total over the 51 non-modifier identities,
/// each rule bears the identity it was looked up by, and the five
/// modifier identities have no rule.
pub proof fn lemma_key_type_total()
    ensures
        forall|k: KeyImprint| !is_modifier(k) ==> (#[trigger] spec_key_type(k)) is Normal,
        forall|k: KeyImprint| (#[trigger] spec_key_type(k)) matches KeyType::Normal(rule) ==> rule.0 == k,
        forall|k: KeyImprint| is_modifier(k) ==> #[trigger] spec_key_type(k) == KeyType::Modifier(k),
{
}

/// Law: with Fn active, a rule for an Fn-override identity resolves the
/// same way whatever the Shift state is.
pub proof fn lemma_fn_override_ignores_shift(rule: ConversionRule, s1: bool, s2: bool)
    requires
        is_fn_override(rule.0),
    ensures
        spec_modified(rule, true, s1) == spec_modified(rule, true, s2),
{
}

/// The matrix column selected by input line `line`: the first half of
/// the address range reads the odd columns, the second half the even
/// ones.
pub open spec fn spec_column_index(high_half: bool, line: int) -> int {
    if high_half {
        2 * line
    } else {
        2 * line + 1
    }
}

/// The matrix column sampled on input line `line` while the decoder
/// drives address `i` of 0..8: addresses 0..4 select the odd columns,
/// addresses 4..8 the even ones.
pub fn column_index(i: usize, line: usize) -> (r: usize)
    requires
        i < 8,
        line < 7,
    ensures
        r == spec_column_index(i >= 4, line as int),
        r < 14,
{
    if i < 4 {
        2 * line + 1
    } else {
        2 * line
    }
}

/// The identity sampled at flat sample index `n` of 0..56, where
/// `n = i * 7 + j` for address `i` and input line `j`.
pub open spec fn spec_sample_key(n: int) -> KeyImprint {
    spec_matrix_key((n / 7) % 4, spec_column_index(n / 7 >= 4, n % 7))
}

/// The identities active in the first `n` samples of a scan pass, in
/// sample order.
pub open spec fn spec_scan_prefix(samples: Seq<bool>, n: int) -> Seq<KeyImprint>
    decreases n,
{
    if n <= 0 {
        Seq::empty()
    } else if samples[n - 1] {
        spec_scan_prefix(samples, n - 1).push(spec_sample_key(n - 1))
    } else {
        spec_scan_prefix(samples, n - 1)
    }
}

/// The identities a full scan pass found active: one sample per
/// (address, input line) pair, an active sample at index `i * 7 + j`
/// naming the key at row `i mod 4` and the column input line `j` selects.
pub open spec fn spec_scan_keys(samples: Seq<bool>) -> Seq<KeyImprint> {
    spec_scan_prefix(samples, samples.len() as int)
}

/// Decode one scan pass. `samples[i * 7 + j]` says whether input line
/// `j` read active (logic low) while address `i` was driven; the result
/// lists the identity of every active sample, in sample order.
pub fn decode_scan(samples: &Vec<bool>) -> (keys: (Vec<KeyImprint>))
    requires
        samples@.len() == 56,
    ensures
        keys@ == spec_scan_keys(samples@),
{
    let mut keys: Vec<KeyImprint> = Vec::new();
    let mut n: usize = 0;
    while n < 56
        invariant
            n <= 56,
            samples@.len() == 56,
            keys@ == spec_scan_prefix(samples@, n as int),
        decreases 56 - n,
    {
        if samples[n] {
            let i = n / 7;
            let j = n % 7;
            let row = if i < 4 {
                i
            } else {
                i - 4
            };
            let col = column_index(i, j);
            assert(row == (n as int / 7) % 4);
            keys.push(matrix_key(row, col));
        }
        n = n + 1;
    }
    keys
}

/// Failure of a read or write on a GPIO line or the bus, including a
/// timeout: fatal to the whole scan or poll call, never retried here.
#[derive(Debug, Clone, Copy, PartialEq, Eq, Structural)]
pub struct HardwareError;

/// Keyboard scanner trait
pub trait KeyboardScanner {
    /// Scan the keyboard and return the Vector of KeyImprint.
    fn scan_pressed_keys(&mut self) -> Result<Vec<KeyImprint>, HardwareError>;
}

/// Snapshot of the polling interpreter: the modifier flags and the
/// held/pressed/released rule lists of the most recent update.
#[verifier::ext_equal]
pub ghost struct KeyStateView {
    pub is_fn: bool,
    pub is_ctrl: bool,
    pub is_shift: bool,
    pub is_alt: bool,
    pub hold: Seq<ConversionRule>,
    pub pressed: Seq<ConversionRule>,
    pub released: Seq<ConversionRule>,
}

/// The freshly created interpreter state: no flags, nothing held.
pub open spec fn empty_state() -> KeyStateView {
    KeyStateView {
        is_fn: false,
        is_ctrl: false,
        is_shift: false,
        is_alt: false,
        hold: Seq::empty(),
        pressed: Seq::empty(),
        released: Seq::empty(),
    }
}

/// The state after an update whose scan failed: the per-cycle flags and
/// lists are cleared, the held set keeps its previous value.
pub open spec fn cleared(v: KeyStateView) -> KeyStateView {
    KeyStateView {
        is_fn: false,
        is_ctrl: false,
        is_shift: false,
        is_alt: false,
        hold: v.hold,
        pressed: Seq::empty(),
        released: Seq::empty(),
    }
}

/// The rules of the non-modifier identities in a scan, in scan order,
/// one entry per occurrence: the held set an update computes.
pub open spec fn held_rules(keys: Seq<KeyImprint>) -> Seq<ConversionRule>
    decreases keys.len(),
{
    if keys.len() == 0 {
        Seq::empty()
    } else {
        let prev = held_rules(keys.drop_last());
        match spec_key_type(keys.last()) {
            KeyType::Normal(rule) => prev.push(rule),
            KeyType::Modifier(_) => prev,
        }
    }
}

/// The rules of the non-modifier identities in a scan that were not in
/// the previous held set: the pressed list an update computes.
pub open spec fn fresh_rules(keys: Seq<KeyImprint>, hold: Seq<ConversionRule>) -> Seq<
    ConversionRule,
>
    decreases keys.len(),
{
    if keys.len() == 0 {
        Seq::empty()
    } else {
        let prev = fresh_rules(keys.drop_last(), hold);
        match spec_key_type(keys.last()) {
            KeyType::Normal(rule) => if !hold.contains(rule) {
                prev.push(rule)
            } else {
                prev
            },
            KeyType::Modifier(_) => prev,
        }
    }
}

/// The previously held rules that the new held set no longer contains:
/// the released list an update computes.
pub open spec fn gone_rules(hold: Seq<ConversionRule>, new_hold: Seq<ConversionRule>) -> Seq<
    ConversionRule,
>
    decreases hold.len(),
{
    if hold.len() == 0 {
        Seq::empty()
    } else {
        let prev = gone_rules(hold.drop_last(), new_hold);
        if !new_hold.contains(hold.last()) {
            prev.push(hold.last())
        } else {
            prev
        }
    }
}

/// One full update cycle on a scan result: the four per-cycle modifier
/// flags hold exactly when the scan saw the modifier; the held set is
/// replaced by the scanned rules; pressed and released are the
/// differences against the previous held set. The Opt modifier carries
/// no flag in this interpreter.
pub open spec fn spec_update(v: KeyStateView, keys: Seq<KeyImprint>) -> KeyStateView {
    KeyStateView {
        is_fn: keys.contains(KeyImprint::LeftFn),
        is_ctrl: keys.contains(KeyImprint::LeftCtrl),
        is_shift: keys.contains(KeyImprint::LeftShift),
        is_alt: keys.contains(KeyImprint::LeftAlt),
        hold: held_rules(keys),
        pressed: fresh_rules(keys, v.hold),
        released: gone_rules(v.hold, held_rules(keys)),
    }
}

/// Each rule of the list resolved under the given Fn and Shift state,
/// in list order.
pub open spec fn resolved(rules: Seq<ConversionRule>, is_fn: bool, is_shift: bool) -> Seq<Modified>
    decreases rules.len(),
{
    if rules.len() == 0 {
        Seq::empty()
    } else {
        resolved(rules.drop_last(), is_fn, is_shift).push(
            spec_modified(rules.last(), is_fn, is_shift),
        )
    }
}

proof fn lemma_contains_take_succ<A>(s: Seq<A>, i: int, x: A)
    requires
        0 <= i < s.len(),
    ensures
        s.take(i + 1).contains(x) <==> (s.take(i).contains(x) || s[i] == x),
{
    if s.take(i).contains(x) {
        let j = choose|j: int| 0 <= j < s.take(i).len() && #[trigger] s.take(i)[j] == x;
        assert(s.take(i + 1)[j] == x);
    }
    if s[i] == x {
        assert(s.take(i + 1)[i] == x);
    }
    if s.take(i + 1).contains(x) {
        let j = choose|j: int| 0 <= j < s.take(i + 1).len() && #[trigger] s.take(i + 1)[j] == x;
        if j < i {
            assert(s.take(i)[j] == x);
        }
    }
}

/// Whether the list holds this exact rule.
fn contains_rule(rules: &Vec<ConversionRule>, rule: ConversionRule) -> (b: bool)
    ensures
        b == rules@.contains(rule),
{
    let n = rules.len();
    let mut i: usize = 0;
    while i < n
        invariant
            i <= n,
            n == rules@.len(),
            forall|t: int| 0 <= t < i ==> rules@[t] != rule,
        decreases n - i,
    {
        if rules[i] == rule {
            assert(rules@[i as int] == rule);
            return true;
        }
        i = i + 1;
    }
    false
}

/// Each rule of the list resolved under the given Fn and Shift state.
fn resolve_all(rules: &Vec<ConversionRule>, is_fn: bool, is_shift: bool) -> (out: (Vec<Modified>))
    ensures
        out@ == resolved(rules@, is_fn, is_shift),
{
    let mut out: Vec<Modified> = Vec::new();
    let n = rules.len();
    let mut i: usize = 0;
    while i < n
        invariant
            i <= n,
            n == rules@.len(),
            out@ == resolved(rules@.take(i as int), is_fn, is_shift),
        decreases n - i,
    {
        out.push(rules[i].modified(is_fn, is_shift));
        proof {
            assert(rules@.take(i + 1).drop_last() =~= rules@.take(i as int));
            assert(rules@.take(i + 1).last() == rules@[i as int]);
        }
        i = i + 1;
    }
    proof {
        assert(rules@.take(n as int) =~= rules@);
    }
    out
}

/// Structure that scans the keyboard and keeps track of state changes
#[derive(Debug)]
pub struct KeyboardState {
    is_fn_pressed: bool,
    is_ctrl_pressed: bool,
    is_shift_pressed: bool,
    is_alt_pressed: bool,
    hold_keys: Vec<ConversionRule>,
    pressed_keys: Vec<ConversionRule>,
    released_keys: Vec<ConversionRule>,
}

impl View for KeyboardState {
    type V = KeyStateView;

    closed spec fn view(&self) -> KeyStateView {
        KeyStateView {
            is_fn: self.is_fn_pressed,
            is_ctrl: self.is_ctrl_pressed,
            is_shift: self.is_shift_pressed,
            is_alt: self.is_alt_pressed,
            hold: self.hold_keys@,
            pressed: self.pressed_keys@,
            released: self.released_keys@,
        }
    }
}

impl Default for KeyboardState {
    fn default() -> (r: Self)
        ensures
            r@ == empty_state(),
    {
        let r = KeyboardState {
            is_fn_pressed: false,
            is_ctrl_pressed: false,
            is_shift_pressed: false,
            is_alt_pressed: false,
            hold_keys: Vec::new(),
            pressed_keys: Vec::new(),
            released_keys: Vec::new(),
        };
        proof {
            assert(r@ =~= empty_state());
        }
        r
    }
}

impl KeyboardState {
    /// Get the latest key state and update the Pressed/Released state
    pub fn update(&mut self, keyboard: &mut impl KeyboardScanner) -> (r: Result<
        (),
        HardwareError,
    >)
        ensures
            (match r {
                Ok(()) => exists|keys: Seq<KeyImprint>|
                    final(self)@ == spec_update(old(self)@, keys),
                Err(_) => final(self)@ == cleared(old(self)@),
            }),
    {
        match keyboard.scan_pressed_keys() {
            Ok(scanned) => {
                self.apply_scan(&scanned);
                proof {
                    let ks = scanned@;
                    assert(self@ == spec_update(old(self)@, ks));
                }
                Ok(())
            },
            Err(e) => {
                self.pressed_keys = Vec::new();
                self.released_keys = Vec::new();
                self.is_fn_pressed = false;
                self.is_ctrl_pressed = false;
                self.is_shift_pressed = false;
                self.is_alt_pressed = false;
                proof {
                    assert(self@ =~= cleared(old(self)@));
                }
                Err(e)
            },
        }
    }

    /// Apply one scan result to the state: the update cycle on keys
    /// already read, verified for every possible scan outcome.
    pub fn apply_scan(&mut self, keys: &Vec<KeyImprint>)
        ensures
            final(self)@ == spec_update(old(self)@, keys@),
    {
        self.pressed_keys = Vec::new();
        self.released_keys = Vec::new();
        self.is_fn_pressed = false;
        self.is_ctrl_pressed = false;
        self.is_shift_pressed = false;
        self.is_alt_pressed = false;

        let mut new_hold_keys: Vec<ConversionRule> = Vec::new();
        let n = keys.len();
        let mut i: usize = 0;
        while i < n
            invariant
                i <= n,
                n == keys@.len(),
                self.hold_keys@ == old(self)@.hold,
                self.released_keys@ == Seq::<ConversionRule>::empty(),
                new_hold_keys@ == held_rules(keys@.take(i as int)),
                self.pressed_keys@ == fresh_rules(keys@.take(i as int), old(self)@.hold),
                self.is_fn_pressed == keys@.take(i as int).contains(KeyImprint::LeftFn),
                self.is_ctrl_pressed == keys@.take(i as int).contains(KeyImprint::LeftCtrl),
                self.is_shift_pressed == keys@.take(i as int).contains(KeyImprint::LeftShift),
                self.is_alt_pressed == keys@.take(i as int).contains(KeyImprint::LeftAlt),
            decreases n - i,
        {
            let pressed = keys[i];
            proof {
                assert(keys@.take(i + 1).drop_last() =~= keys@.take(i as int));
                assert(keys@.take(i + 1).last() == keys@[i as int]);
                lemma_contains_take_succ(keys@, i as int, KeyImprint::LeftFn);
                lemma_contains_take_succ(keys@, i as int, KeyImprint::LeftCtrl);
                lemma_contains_take_succ(keys@, i as int, KeyImprint::LeftShift);
                lemma_contains_take_succ(keys@, i as int, KeyImprint::LeftAlt);
            }
            let key_type: KeyType = pressed.into();
            match key_type {
                KeyType::Modifier(KeyImprint::LeftFn) => self.is_fn_pressed = true,
                KeyType::Modifier(KeyImprint::LeftCtrl) => self.is_ctrl_pressed = true,
                KeyType::Modifier(KeyImprint::LeftShift) => self.is_shift_pressed = true,
                KeyType::Modifier(KeyImprint::LeftAlt) => self.is_alt_pressed = true,
                KeyType::Normal(h) => {
                    new_hold_keys.push(h);
                    if !contains_rule(&self.hold_keys, h) {
                        self.pressed_keys.push(h);
                    }
                },
                _ => {},
            }
            i = i + 1;
        }
        proof {
            assert(keys@.take(n as int) =~= keys@);
        }

        let m = self.hold_keys.len();
        let mut j: usize = 0;
        while j < m
            invariant
                j <= m,
                m == self.hold_keys@.len(),
                self.hold_keys@ == old(self)@.hold,
                new_hold_keys@ == held_rules(keys@),
                self.pressed_keys@ == fresh_rules(keys@, old(self)@.hold),
                self.is_fn_pressed == keys@.contains(KeyImprint::LeftFn),
                self.is_ctrl_pressed == keys@.contains(KeyImprint::LeftCtrl),
                self.is_shift_pressed == keys@.contains(KeyImprint::LeftShift),
                self.is_alt_pressed == keys@.contains(KeyImprint::LeftAlt),
                self.released_keys@ == gone_rules(old(self)@.hold.take(j as int), held_rules(keys@)),
            decreases m - j,
        {
            let key = self.hold_keys[j];
            if !contains_rule(&new_hold_keys, key) {
                self.released_keys.push(key);
            }
            proof {
                assert(old(self)@.hold.take(j + 1).drop_last() =~= old(self)@.hold.take(j as int));
                assert(old(self)@.hold.take(j + 1).last() == old(self)@.hold[j as int]);
            }
            j = j + 1;
        }
        self.hold_keys = new_hold_keys;
        proof {
            assert(old(self)@.hold.take(m as int) =~= old(self)@.hold);
            assert(self@ =~= spec_update(old(self)@, keys@));
        }
    }

    /// The pressed list resolved with this cycle's Fn and Shift flags.
    pub fn pressed_keys(&self) -> (r: (Vec<Modified>))
        ensures
            r@ == resolved(self@.pressed, self@.is_fn, self@.is_shift),
    {
        resolve_all(&self.pressed_keys, self.is_fn_pressed, self.is_shift_pressed)
    }

    /// The released list resolved with this cycle's Fn and Shift flags.
    pub fn released_keys(&self) -> (r: (Vec<Modified>))
        ensures
            r@ == resolved(self@.released, self@.is_fn, self@.is_shift),
    {
        resolve_all(&self.released_keys, self.is_fn_pressed, self.is_shift_pressed)
    }

    /// The held set resolved with this cycle's Fn and Shift flags.
    pub fn hold_keys(&self) -> (r: (Vec<Modified>))
        ensures
            r@ == resolved(self@.hold, self@.is_fn, self@.is_shift),
    {
        resolve_all(&self.hold_keys, self.is_fn_pressed, self.is_shift_pressed)
    }

    pub fn is_fn_pressed(&self) -> (r: bool)
        ensures
            r == self@.is_fn,
    {
        self.is_fn_pressed
    }

    pub fn is_ctrl_pressed(&self) -> (r: bool)
        ensures
            r == self@.is_ctrl,
    {
        self.is_ctrl_pressed
    }

    pub fn is_shift_pressed(&self) -> (r: bool)
        ensures
            r == self@.is_shift,
    {
        self.is_shift_pressed
    }

    pub fn is_alt_pressed(&self) -> (r: bool)
        ensures
            r == self@.is_alt,
    {
        self.is_alt_pressed
    }
}

proof fn lemma_fresh_rules_empty(keys: Seq<KeyImprint>, hold: Seq<ConversionRule>)
    requires
        forall|r: ConversionRule| held_rules(keys).contains(r) ==> hold.contains(r),
    ensures
        fresh_rules(keys, hold) == Seq::<ConversionRule>::empty(),
    decreases keys.len(),
{
    if keys.len() > 0 {
        let prev = keys.drop_last();
        assert forall|r: ConversionRule| held_rules(prev).contains(r) implies hold.contains(
            r,
        ) by {
            let t = held_rules(prev);
            let j = choose|j: int| 0 <= j < t.len() && #[trigger] t[j] == r;
            match spec_key_type(keys.last()) {
                KeyType::Normal(rule) => {
                    assert(held_rules(keys)[j] == r);
                },
                KeyType::Modifier(_) => {
                    assert(held_rules(keys)[j] == r);
                },
            }
        }
        lemma_fresh_rules_empty(prev, hold);
        match spec_key_type(keys.last()) {
            KeyType::Normal(rule) => {
                assert(held_rules(keys).last() == rule);
                assert(held_rules(keys).contains(rule));
            },
            KeyType::Modifier(_) => {},
        }
    }
}

proof fn lemma_gone_rules_empty(hold: Seq<ConversionRule>, new_hold: Seq<ConversionRule>)
    requires
        forall|j: int| 0 <= j < hold.len() ==> new_hold.contains(#[trigger] hold[j]),
    ensures
        gone_rules(hold, new_hold) == Seq::<ConversionRule>::empty(),
    decreases hold.len(),
{
    if hold.len() > 0 {
        lemma_gone_rules_empty(hold.drop_last(), new_hold);
    }
}

/// Law: steady-state idempotence of the polling interpreter. Two
/// consecutive updates on the identical scanned set leave the pressed
/// and released lists of the second cycle empty.
pub proof fn lemma_steady_state(v: KeyStateView, keys: Seq<KeyImprint>)
    ensures
        spec_update(spec_update(v, keys), keys).pressed == Seq::<ConversionRule>::empty(),
        spec_update(spec_update(v, keys), keys).released == Seq::<ConversionRule>::empty(),
{
    let hold = held_rules(keys);
    lemma_fresh_rules_empty(keys, hold);
    assert forall|j: int| 0 <= j < hold.len() implies hold.contains(#[trigger] hold[j]) by {}
    lemma_gone_rules_empty(hold, hold);
}

/// Law: modifier identities never enter the held set. Every rule the
/// polling interpreter holds after an update belongs to a non-modifier
/// identity.
pub proof fn lemma_held_set_has_no_modifiers(keys: Seq<KeyImprint>)
    ensures
        forall|j: int|
            0 <= j < held_rules(keys).len() ==> !is_modifier(
                (#[trigger] held_rules(keys)[j]).0,
            ),
    decreases keys.len(),
{
    if keys.len() > 0 {
        lemma_held_set_has_no_modifiers(keys.drop_last());
        lemma_key_type_total();
    }
}

} // verus!
