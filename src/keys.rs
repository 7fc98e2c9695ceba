use vstd::prelude::*;

verus! {

/// Bit of `KeyEvent::modifiers` for the shift key.
pub const MOD_SHIFT: u8 = 1;
/// Bit of `KeyEvent::modifiers` for the control key.
pub const MOD_CONTROL: u8 = 2;

/// The keys the multiplexer tells apart; every other key is `Other`.
#[derive(Clone, Copy, Debug, PartialEq, Eq, Structural)]
pub enum KeyCode {
    Char(char),
    Enter,
    Tab,
    Backspace,
    Esc,
    Left,
    Right,
    Up,
    Down,
    Other,
}

/// A key press from the host terminal: the key and a mask of modifiers.
#[derive(Clone, Copy, Debug, PartialEq, Eq, Structural)]
pub struct KeyEvent {
    pub code: KeyCode,
    pub modifiers: u8,
}

pub open spec fn has_control(k: KeyEvent) -> bool {
    k.modifiers & MOD_CONTROL != 0
}

/// The UTF-8 encoding of a character.
pub open spec fn utf8_of(c: char) -> Seq<u8> {
    let v = c as u32;
    if v < 0x80 {
        seq![v as u8]
    } else if v < 0x800 {
        seq![(0xC0 | (v >> 6)) as u8, (0x80 | (v & 0x3F)) as u8]
    } else if v < 0x10000 {
        seq![(0xE0 | (v >> 12)) as u8, (0x80 | ((v >> 6) & 0x3F)) as u8, (0x80 | (v & 0x3F)) as u8]
    } else {
        seq![
            (0xF0 | (v >> 18)) as u8,
            (0x80 | ((v >> 12) & 0x3F)) as u8,
            (0x80 | ((v >> 6) & 0x3F)) as u8,
            (0x80 | (v & 0x3F)) as u8,
        ]
    }
}

/// The bytes a key sends to the active pane; `None` for a key that is dropped.
pub open spec fn key_bytes(k: KeyEvent) -> Option<Seq<u8>> {
    match k.code {
        KeyCode::Char(c) => if has_control(k) { None } else { Some(utf8_of(c)) },
        KeyCode::Enter => Some(seq![0x0Du8]),
        KeyCode::Tab => Some(seq![0x09u8]),
        KeyCode::Backspace => Some(seq![0x08u8]),
        KeyCode::Esc => Some(seq![0x1Bu8]),
        KeyCode::Left => Some(seq![0x1Bu8, 0x5Bu8, 0x44u8]),
        KeyCode::Right => Some(seq![0x1Bu8, 0x5Bu8, 0x43u8]),
        KeyCode::Up => Some(seq![0x1Bu8, 0x5Bu8, 0x41u8]),
        KeyCode::Down => Some(seq![0x1Bu8, 0x5Bu8, 0x42u8]),
        KeyCode::Other => None,
    }
}

/// Encodes a character as UTF-8.
pub fn encode_utf8(c: char) -> (r: Vec<u8>)
    ensures
        r@ == utf8_of(c),
{
    let v: u32 = c as u32;
    let mut r: Vec<u8> = Vec::new();
    if v < 0x80 {
        r.push(v as u8);
    } else if v < 0x800 {
        r.push((0xC0 | (v >> 6)) as u8);
        r.push((0x80 | (v & 0x3F)) as u8);
    } else if v < 0x10000 {
        r.push((0xE0 | (v >> 12)) as u8);
        r.push((0x80 | ((v >> 6) & 0x3F)) as u8);
        r.push((0x80 | (v & 0x3F)) as u8);
    } else {
        r.push((0xF0 | (v >> 18)) as u8);
        r.push((0x80 | ((v >> 12) & 0x3F)) as u8);
        r.push((0x80 | ((v >> 6) & 0x3F)) as u8);
        r.push((0x80 | (v & 0x3F)) as u8);
    }
    assert(r@ =~= utf8_of(c));
    r
}

/// The bytes written to the active pane for a key pressed in passthrough mode.
pub fn forward_bytes(k: KeyEvent) -> (r: Option<Vec<u8>>)
    ensures
        r matches Some(b) ==> key_bytes(k) == Some(b@),
        r is None <==> key_bytes(k) is None,
{
    let ctrl = k.modifiers & MOD_CONTROL != 0;
    let bytes: Vec<u8> = match k.code {
        KeyCode::Char(c) => {
            if ctrl {
                return None;
            }
            encode_utf8(c)
        },
        KeyCode::Enter => vec![0x0Du8],
        KeyCode::Tab => vec![0x09u8],
        KeyCode::Backspace => vec![0x08u8],
        KeyCode::Esc => vec![0x1Bu8],
        KeyCode::Left => vec![0x1Bu8, 0x5Bu8, 0x44u8],
        KeyCode::Right => vec![0x1Bu8, 0x5Bu8, 0x43u8],
        KeyCode::Up => vec![0x1Bu8, 0x5Bu8, 0x41u8],
        KeyCode::Down => vec![0x1Bu8, 0x5Bu8, 0x42u8],
        KeyCode::Other => {
            return None;
        },
    };
    proof {
        assert(bytes@ =~= key_bytes(k)->Some_0);
    }
    Some(bytes)
}

} // verus!
