//! The bytes sent to the shell for keys that carry no text of their own.
use vstd::prelude::*;
use crate::model::ESCAPE;

verus! {

/// A key that produces no text.
#[derive(Clone, Copy, PartialEq, Eq, Structural)]
pub enum Key {
    ArrowUp,
    ArrowDown,
    ArrowRight,
    ArrowLeft,
    Other,
}

/// Arrow keys are sent as `ESC [ A`, `B`, `C`, `D`; other keys are not sent.
pub open spec fn key_sequence(k: Key) -> Option<Seq<u8>> {
    match k {
        Key::ArrowUp => Some(seq![ESCAPE, 0x5bu8, 0x41u8]),
        Key::ArrowDown => Some(seq![ESCAPE, 0x5bu8, 0x42u8]),
        Key::ArrowRight => Some(seq![ESCAPE, 0x5bu8, 0x43u8]),
        Key::ArrowLeft => Some(seq![ESCAPE, 0x5bu8, 0x44u8]),
        Key::Other => None,
    }
}

pub fn key_bytes(k: Key) -> (r: Option<Vec<u8>>)
    ensures
        match r {
            Some(v) => key_sequence(k) == Some(v@),
            None => key_sequence(k) is None,
        },
{
    let last: u8 = match k {
        Key::ArrowUp => 0x41,
        Key::ArrowDown => 0x42,
        Key::ArrowRight => 0x43,
        Key::ArrowLeft => 0x44,
        Key::Other => {
            return None;
        },
    };
    let mut v: Vec<u8> = Vec::new();
    v.push(ESCAPE);
    v.push(0x5b);
    v.push(last);
    assert(key_sequence(k) == Some(v@));
    Some(v)
}

} // verus!
