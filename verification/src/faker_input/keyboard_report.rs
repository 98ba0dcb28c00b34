use std::collections::HashSet;
use vstd::prelude::*;
use crate::faker_input::flags::{
    bit_set, is_union_of_bits, lemma_bit_or, lemma_bit_zero, lemma_single_bit_mask,
};

verus! {

/// A key of a boot-protocol keyboard, named by its HID usage.
#[derive(Debug, Clone, Copy, PartialEq, Eq, Hash)]
pub enum KeyboardKey {
    A,
    B,
    C,
    D,
    E,
    F,
    G,
    H,
    I,
    J,
    K,
    L,
    M,
    N,
    O,
    P,
    Q,
    R,
    S,
    T,
    U,
    V,
    W,
    X,
    Y,
    Z,
    Number1,
    Number2,
    Number3,
    Number4,
    Number5,
    Number6,
    Number7,
    Number8,
    Number9,
    Number0,
    Enter,
    Escape,
    Backspace,
    Tab,
    Space,
    Minus,
    Equals,
    LeftBracket,
    RightBracket,
    Backslash,
    NonUSHash,
    Semicolon,
    Apostrophe,
    Grave,
    Comma,
    Period,
    Slash,
    CapsLock,
    F1,
    F2,
    F3,
    F4,
    F5,
    F6,
    F7,
    F8,
    F9,
    F10,
    F11,
    F12,
    F13,
    F14,
    F15,
    F16,
    F17,
    F18,
    F19,
    F20,
    F21,
    F22,
    F23,
    F24,
    PrintScreen,
    ScrollLock,
    Pause,
    Insert,
    Home,
    PageUp,
    Delete,
    End,
    PageDown,
    RightArrow,
    LeftArrow,
    DownArrow,
    UpArrow,
    NumLock,
    KeypadDivide,
    KeypadMultiply,
    KeypadSubtract,
    KeypadAdd,
    KeypadEnter,
    Keypad1,
    Keypad2,
    Keypad3,
    Keypad4,
    Keypad5,
    Keypad6,
    Keypad7,
    Keypad8,
    Keypad9,
    Keypad0,
    KeypadDecimal,
    KeypadSeparator,
    KeypadApplication,
}

impl KeyboardKey {
    /// The HID usage code of this key.
    pub open spec fn spec_code(self) -> u8 {
        match self {
            KeyboardKey::A => 0x04,
            KeyboardKey::B => 0x05,
            KeyboardKey::C => 0x06,
            KeyboardKey::D => 0x07,
            KeyboardKey::E => 0x08,
            KeyboardKey::F => 0x09,
            KeyboardKey::G => 0x0A,
            KeyboardKey::H => 0x0B,
            KeyboardKey::I => 0x0C,
            KeyboardKey::J => 0x0D,
            KeyboardKey::K => 0x0E,
            KeyboardKey::L => 0x0F,
            KeyboardKey::M => 0x10,
            KeyboardKey::N => 0x11,
            KeyboardKey::O => 0x12,
            KeyboardKey::P => 0x13,
            KeyboardKey::Q => 0x14,
            KeyboardKey::R => 0x15,
            KeyboardKey::S => 0x16,
            KeyboardKey::T => 0x17,
            KeyboardKey::U => 0x18,
            KeyboardKey::V => 0x19,
            KeyboardKey::W => 0x1A,
            KeyboardKey::X => 0x1B,
            KeyboardKey::Y => 0x1C,
            KeyboardKey::Z => 0x1D,
            KeyboardKey::Number1 => 0x1E,
            KeyboardKey::Number2 => 0x1F,
            KeyboardKey::Number3 => 0x20,
            KeyboardKey::Number4 => 0x21,
            KeyboardKey::Number5 => 0x22,
            KeyboardKey::Number6 => 0x23,
            KeyboardKey::Number7 => 0x24,
            KeyboardKey::Number8 => 0x25,
            KeyboardKey::Number9 => 0x26,
            KeyboardKey::Number0 => 0x27,
            KeyboardKey::Enter => 0x28,
            KeyboardKey::Escape => 0x29,
            KeyboardKey::Backspace => 0x2A,
            KeyboardKey::Tab => 0x2B,
            KeyboardKey::Space => 0x2C,
            KeyboardKey::Minus => 0x2D,
            KeyboardKey::Equals => 0x2E,
            KeyboardKey::LeftBracket => 0x2F,
            KeyboardKey::RightBracket => 0x30,
            KeyboardKey::Backslash => 0x31,
            KeyboardKey::NonUSHash => 0x32,
            KeyboardKey::Semicolon => 0x33,
            KeyboardKey::Apostrophe => 0x34,
            KeyboardKey::Grave => 0x35,
            KeyboardKey::Comma => 0x36,
            KeyboardKey::Period => 0x37,
            KeyboardKey::Slash => 0x38,
            KeyboardKey::CapsLock => 0x39,
            KeyboardKey::F1 => 0x3A,
            KeyboardKey::F2 => 0x3B,
            KeyboardKey::F3 => 0x3C,
            KeyboardKey::F4 => 0x3D,
            KeyboardKey::F5 => 0x3E,
            KeyboardKey::F6 => 0x3F,
            KeyboardKey::F7 => 0x40,
            KeyboardKey::F8 => 0x41,
            KeyboardKey::F9 => 0x42,
            KeyboardKey::F10 => 0x43,
            KeyboardKey::F11 => 0x44,
            KeyboardKey::F12 => 0x45,
            KeyboardKey::F13 => 0x68,
            KeyboardKey::F14 => 0x69,
            KeyboardKey::F15 => 0x6A,
            KeyboardKey::F16 => 0x6B,
            KeyboardKey::F17 => 0x6C,
            KeyboardKey::F18 => 0x6D,
            KeyboardKey::F19 => 0x6E,
            KeyboardKey::F20 => 0x6F,
            KeyboardKey::F21 => 0x70,
            KeyboardKey::F22 => 0x71,
            KeyboardKey::F23 => 0x72,
            KeyboardKey::F24 => 0x73,
            KeyboardKey::PrintScreen => 0x46,
            KeyboardKey::ScrollLock => 0x47,
            KeyboardKey::Pause => 0x48,
            KeyboardKey::Insert => 0x49,
            KeyboardKey::Home => 0x4A,
            KeyboardKey::PageUp => 0x4B,
            KeyboardKey::Delete => 0x4C,
            KeyboardKey::End => 0x4D,
            KeyboardKey::PageDown => 0x4E,
            KeyboardKey::RightArrow => 0x4F,
            KeyboardKey::LeftArrow => 0x50,
            KeyboardKey::DownArrow => 0x51,
            KeyboardKey::UpArrow => 0x52,
            KeyboardKey::NumLock => 0x53,
            KeyboardKey::KeypadDivide => 0x54,
            KeyboardKey::KeypadMultiply => 0x55,
            KeyboardKey::KeypadSubtract => 0x56,
            KeyboardKey::KeypadAdd => 0x57,
            KeyboardKey::KeypadEnter => 0x58,
            KeyboardKey::Keypad1 => 0x59,
            KeyboardKey::Keypad2 => 0x5A,
            KeyboardKey::Keypad3 => 0x5B,
            KeyboardKey::Keypad4 => 0x5C,
            KeyboardKey::Keypad5 => 0x5D,
            KeyboardKey::Keypad6 => 0x5E,
            KeyboardKey::Keypad7 => 0x5F,
            KeyboardKey::Keypad8 => 0x60,
            KeyboardKey::Keypad9 => 0x61,
            KeyboardKey::Keypad0 => 0x62,
            KeyboardKey::KeypadDecimal => 0x63,
            KeyboardKey::KeypadSeparator => 0x64,
            KeyboardKey::KeypadApplication => 0x65,
        }
    }

    /// The HID usage code of this key.
    #[verifier::when_used_as_spec(spec_code)]
    pub fn code(self) -> (c: u8)
        ensures
            c == self.spec_code(),
    {
        match self {
            KeyboardKey::A => 0x04,
            KeyboardKey::B => 0x05,
            KeyboardKey::C => 0x06,
            KeyboardKey::D => 0x07,
            KeyboardKey::E => 0x08,
            KeyboardKey::F => 0x09,
            KeyboardKey::G => 0x0A,
            KeyboardKey::H => 0x0B,
            KeyboardKey::I => 0x0C,
            KeyboardKey::J => 0x0D,
            KeyboardKey::K => 0x0E,
            KeyboardKey::L => 0x0F,
            KeyboardKey::M => 0x10,
            KeyboardKey::N => 0x11,
            KeyboardKey::O => 0x12,
            KeyboardKey::P => 0x13,
            KeyboardKey::Q => 0x14,
            KeyboardKey::R => 0x15,
            KeyboardKey::S => 0x16,
            KeyboardKey::T => 0x17,
            KeyboardKey::U => 0x18,
            KeyboardKey::V => 0x19,
            KeyboardKey::W => 0x1A,
            KeyboardKey::X => 0x1B,
            KeyboardKey::Y => 0x1C,
            KeyboardKey::Z => 0x1D,
            KeyboardKey::Number1 => 0x1E,
            KeyboardKey::Number2 => 0x1F,
            KeyboardKey::Number3 => 0x20,
            KeyboardKey::Number4 => 0x21,
            KeyboardKey::Number5 => 0x22,
            KeyboardKey::Number6 => 0x23,
            KeyboardKey::Number7 => 0x24,
            KeyboardKey::Number8 => 0x25,
            KeyboardKey::Number9 => 0x26,
            KeyboardKey::Number0 => 0x27,
            KeyboardKey::Enter => 0x28,
            KeyboardKey::Escape => 0x29,
            KeyboardKey::Backspace => 0x2A,
            KeyboardKey::Tab => 0x2B,
            KeyboardKey::Space => 0x2C,
            KeyboardKey::Minus => 0x2D,
            KeyboardKey::Equals => 0x2E,
            KeyboardKey::LeftBracket => 0x2F,
            KeyboardKey::RightBracket => 0x30,
            KeyboardKey::Backslash => 0x31,
            KeyboardKey::NonUSHash => 0x32,
            KeyboardKey::Semicolon => 0x33,
            KeyboardKey::Apostrophe => 0x34,
            KeyboardKey::Grave => 0x35,
            KeyboardKey::Comma => 0x36,
            KeyboardKey::Period => 0x37,
            KeyboardKey::Slash => 0x38,
            KeyboardKey::CapsLock => 0x39,
            KeyboardKey::F1 => 0x3A,
            KeyboardKey::F2 => 0x3B,
            KeyboardKey::F3 => 0x3C,
            KeyboardKey::F4 => 0x3D,
            KeyboardKey::F5 => 0x3E,
            KeyboardKey::F6 => 0x3F,
            KeyboardKey::F7 => 0x40,
            KeyboardKey::F8 => 0x41,
            KeyboardKey::F9 => 0x42,
            KeyboardKey::F10 => 0x43,
            KeyboardKey::F11 => 0x44,
            KeyboardKey::F12 => 0x45,
            KeyboardKey::F13 => 0x68,
            KeyboardKey::F14 => 0x69,
            KeyboardKey::F15 => 0x6A,
            KeyboardKey::F16 => 0x6B,
            KeyboardKey::F17 => 0x6C,
            KeyboardKey::F18 => 0x6D,
            KeyboardKey::F19 => 0x6E,
            KeyboardKey::F20 => 0x6F,
            KeyboardKey::F21 => 0x70,
            KeyboardKey::F22 => 0x71,
            KeyboardKey::F23 => 0x72,
            KeyboardKey::F24 => 0x73,
            KeyboardKey::PrintScreen => 0x46,
            KeyboardKey::ScrollLock => 0x47,
            KeyboardKey::Pause => 0x48,
            KeyboardKey::Insert => 0x49,
            KeyboardKey::Home => 0x4A,
            KeyboardKey::PageUp => 0x4B,
            KeyboardKey::Delete => 0x4C,
            KeyboardKey::End => 0x4D,
            KeyboardKey::PageDown => 0x4E,
            KeyboardKey::RightArrow => 0x4F,
            KeyboardKey::LeftArrow => 0x50,
            KeyboardKey::DownArrow => 0x51,
            KeyboardKey::UpArrow => 0x52,
            KeyboardKey::NumLock => 0x53,
            KeyboardKey::KeypadDivide => 0x54,
            KeyboardKey::KeypadMultiply => 0x55,
            KeyboardKey::KeypadSubtract => 0x56,
            KeyboardKey::KeypadAdd => 0x57,
            KeyboardKey::KeypadEnter => 0x58,
            KeyboardKey::Keypad1 => 0x59,
            KeyboardKey::Keypad2 => 0x5A,
            KeyboardKey::Keypad3 => 0x5B,
            KeyboardKey::Keypad4 => 0x5C,
            KeyboardKey::Keypad5 => 0x5D,
            KeyboardKey::Keypad6 => 0x5E,
            KeyboardKey::Keypad7 => 0x5F,
            KeyboardKey::Keypad8 => 0x60,
            KeyboardKey::Keypad9 => 0x61,
            KeyboardKey::Keypad0 => 0x62,
            KeyboardKey::KeypadDecimal => 0x63,
            KeyboardKey::KeypadSeparator => 0x64,
            KeyboardKey::KeypadApplication => 0x65,
        }
    }
}

/// The key whose HID usage code is `c`, if there is one.
pub open spec fn key_with_code(c: u8) -> Option<KeyboardKey> {
    match c {
        0x04 => Some(KeyboardKey::A),
        0x05 => Some(KeyboardKey::B),
        0x06 => Some(KeyboardKey::C),
        0x07 => Some(KeyboardKey::D),
        0x08 => Some(KeyboardKey::E),
        0x09 => Some(KeyboardKey::F),
        0x0A => Some(KeyboardKey::G),
        0x0B => Some(KeyboardKey::H),
        0x0C => Some(KeyboardKey::I),
        0x0D => Some(KeyboardKey::J),
        0x0E => Some(KeyboardKey::K),
        0x0F => Some(KeyboardKey::L),
        0x10 => Some(KeyboardKey::M),
        0x11 => Some(KeyboardKey::N),
        0x12 => Some(KeyboardKey::O),
        0x13 => Some(KeyboardKey::P),
        0x14 => Some(KeyboardKey::Q),
        0x15 => Some(KeyboardKey::R),
        0x16 => Some(KeyboardKey::S),
        0x17 => Some(KeyboardKey::T),
        0x18 => Some(KeyboardKey::U),
        0x19 => Some(KeyboardKey::V),
        0x1A => Some(KeyboardKey::W),
        0x1B => Some(KeyboardKey::X),
        0x1C => Some(KeyboardKey::Y),
        0x1D => Some(KeyboardKey::Z),
        0x1E => Some(KeyboardKey::Number1),
        0x1F => Some(KeyboardKey::Number2),
        0x20 => Some(KeyboardKey::Number3),
        0x21 => Some(KeyboardKey::Number4),
        0x22 => Some(KeyboardKey::Number5),
        0x23 => Some(KeyboardKey::Number6),
        0x24 => Some(KeyboardKey::Number7),
        0x25 => Some(KeyboardKey::Number8),
        0x26 => Some(KeyboardKey::Number9),
        0x27 => Some(KeyboardKey::Number0),
        0x28 => Some(KeyboardKey::Enter),
        0x29 => Some(KeyboardKey::Escape),
        0x2A => Some(KeyboardKey::Backspace),
        0x2B => Some(KeyboardKey::Tab),
        0x2C => Some(KeyboardKey::Space),
        0x2D => Some(KeyboardKey::Minus),
        0x2E => Some(KeyboardKey::Equals),
        0x2F => Some(KeyboardKey::LeftBracket),
        0x30 => Some(KeyboardKey::RightBracket),
        0x31 => Some(KeyboardKey::Backslash),
        0x32 => Some(KeyboardKey::NonUSHash),
        0x33 => Some(KeyboardKey::Semicolon),
        0x34 => Some(KeyboardKey::Apostrophe),
        0x35 => Some(KeyboardKey::Grave),
        0x36 => Some(KeyboardKey::Comma),
        0x37 => Some(KeyboardKey::Period),
        0x38 => Some(KeyboardKey::Slash),
        0x39 => Some(KeyboardKey::CapsLock),
        0x3A => Some(KeyboardKey::F1),
        0x3B => Some(KeyboardKey::F2),
        0x3C => Some(KeyboardKey::F3),
        0x3D => Some(KeyboardKey::F4),
        0x3E => Some(KeyboardKey::F5),
        0x3F => Some(KeyboardKey::F6),
        0x40 => Some(KeyboardKey::F7),
        0x41 => Some(KeyboardKey::F8),
        0x42 => Some(KeyboardKey::F9),
        0x43 => Some(KeyboardKey::F10),
        0x44 => Some(KeyboardKey::F11),
        0x45 => Some(KeyboardKey::F12),
        0x46 => Some(KeyboardKey::PrintScreen),
        0x47 => Some(KeyboardKey::ScrollLock),
        0x48 => Some(KeyboardKey::Pause),
        0x49 => Some(KeyboardKey::Insert),
        0x4A => Some(KeyboardKey::Home),
        0x4B => Some(KeyboardKey::PageUp),
        0x4C => Some(KeyboardKey::Delete),
        0x4D => Some(KeyboardKey::End),
        0x4E => Some(KeyboardKey::PageDown),
        0x4F => Some(KeyboardKey::RightArrow),
        0x50 => Some(KeyboardKey::LeftArrow),
        0x51 => Some(KeyboardKey::DownArrow),
        0x52 => Some(KeyboardKey::UpArrow),
        0x53 => Some(KeyboardKey::NumLock),
        0x54 => Some(KeyboardKey::KeypadDivide),
        0x55 => Some(KeyboardKey::KeypadMultiply),
        0x56 => Some(KeyboardKey::KeypadSubtract),
        0x57 => Some(KeyboardKey::KeypadAdd),
        0x58 => Some(KeyboardKey::KeypadEnter),
        0x59 => Some(KeyboardKey::Keypad1),
        0x5A => Some(KeyboardKey::Keypad2),
        0x5B => Some(KeyboardKey::Keypad3),
        0x5C => Some(KeyboardKey::Keypad4),
        0x5D => Some(KeyboardKey::Keypad5),
        0x5E => Some(KeyboardKey::Keypad6),
        0x5F => Some(KeyboardKey::Keypad7),
        0x60 => Some(KeyboardKey::Keypad8),
        0x61 => Some(KeyboardKey::Keypad9),
        0x62 => Some(KeyboardKey::Keypad0),
        0x63 => Some(KeyboardKey::KeypadDecimal),
        0x64 => Some(KeyboardKey::KeypadSeparator),
        0x65 => Some(KeyboardKey::KeypadApplication),
        0x68 => Some(KeyboardKey::F13),
        0x69 => Some(KeyboardKey::F14),
        0x6A => Some(KeyboardKey::F15),
        0x6B => Some(KeyboardKey::F16),
        0x6C => Some(KeyboardKey::F17),
        0x6D => Some(KeyboardKey::F18),
        0x6E => Some(KeyboardKey::F19),
        0x6F => Some(KeyboardKey::F20),
        0x70 => Some(KeyboardKey::F21),
        0x71 => Some(KeyboardKey::F22),
        0x72 => Some(KeyboardKey::F23),
        0x73 => Some(KeyboardKey::F24),
        _ => None,
    }
}

/// Each key is the only key with its code, and no key has code 0.
pub proof fn lemma_key_code_identifies(k: KeyboardKey)
    ensures
        key_with_code(k.code()) == Some(k),
        k.code() != 0,
{
}

/// Distinct keys have distinct codes.
pub proof fn lemma_key_codes_distinct(a: KeyboardKey, b: KeyboardKey)
    ensures
        a != b ==> a.code() != b.code(),
{
    lemma_key_code_identifies(a);
    lemma_key_code_identifies(b);
}

/// A modifier key of a boot-protocol keyboard report; each one owns a
/// single bit of the report's modifier byte.
#[derive(Debug, Clone, Copy, PartialEq, Eq, Hash)]
pub enum KBDModifier {
    LControl,
    LShift,
    LAlt,
    LWin,
    RControl,
    RShift,
    RAlt,
    RWin,
}

impl KBDModifier {
    /// The bit of the modifier byte that stands for this modifier.
    pub open spec fn spec_code(self) -> u8 {
        match self {
            KBDModifier::LControl => 1,
            KBDModifier::LShift => 2,
            KBDModifier::LAlt => 4,
            KBDModifier::LWin => 8,
            KBDModifier::RControl => 16,
            KBDModifier::RShift => 32,
            KBDModifier::RAlt => 64,
            KBDModifier::RWin => 128,
        }
    }

    /// The bit of the modifier byte that stands for this modifier.
    #[verifier::when_used_as_spec(spec_code)]
    pub fn code(self) -> (c: u8)
        ensures
            c == self.spec_code(),
    {
        match self {
            KBDModifier::LControl => 1,
            KBDModifier::LShift => 2,
            KBDModifier::LAlt => 4,
            KBDModifier::LWin => 8,
            KBDModifier::RControl => 16,
            KBDModifier::RShift => 32,
            KBDModifier::RAlt => 64,
            KBDModifier::RWin => 128,
        }
    }
}

/// Each modifier owns exactly one bit of the modifier byte, and distinct
/// modifiers own distinct bits.
pub proof fn lemma_modifier_bits(a: KBDModifier, b: KBDModifier, i: u8)
    requires
        i < 8,
    ensures
        bit_set(a.code(), i) <==> a.code() == (1u8 << i),
        a != b ==> a.code() != b.code(),
{
    let c = a.code();
    assert(bit_set(c, i) <==> c == (1u8 << i)) by (bit_vector)
        requires
            i < 8,
            c == 1 || c == 2 || c == 4 || c == 8 || c == 16 || c == 32 || c == 64 || c == 128,
    ;
}

/// The number of key codes that a report carries.
pub const KBD_KEY_CODES: usize = 6;

/// The key-code slots of a report whose held keys are enumerated by `order`:
/// the first six of them, then zeros.
pub open spec fn key_code_slots(order: Seq<u8>) -> Seq<u8> {
    Seq::new(KBD_KEY_CODES as nat, |i: int| if i < order.len() { order[i] } else { 0u8 })
}

/// `order` lists every member of `s` exactly once.
pub open spec fn enumerates(order: Seq<u8>, s: Set<u8>) -> bool {
    order.no_duplicates() && order.to_set() == s
}

/// A keyboard state: the modifiers and the keys that are held down, each
/// by its code in the report.
pub struct KBDReport {
    pub modifiers: HashSet<u8>,
    pub pressed_keys: HashSet<u8>,
}

impl KBDReport {
    /// A report with nothing held down.
    pub fn new() -> (r: KBDReport)
        ensures
            r.modifiers@ == Set::<u8>::empty(),
            r.pressed_keys@ == Set::<u8>::empty(),
    {
        KBDReport { modifiers: HashSet::new(), pressed_keys: HashSet::new() }
    }

    /// The modifier byte of the report: the bitwise or of every held modifier.
    pub fn get_raw_shift_key_flags(&self) -> (flags: u8)
        ensures
            is_union_of_bits(flags, self.modifiers@),
    {
        let mut shift_keys = 0u8;
        let ghost mut seen: Set<u8> = Set::empty();
        proof {
            assert forall|i: u8| i < 8 implies !bit_set(shift_keys, i) by {
                lemma_bit_zero(i);
            }
        }
        for modif in it: self.modifiers.iter()
            invariant
                it.seq().unref().to_set() == self.modifiers@,
                seen == it.seq().unref().take(it.index()).to_set(),
                it.index() == it.seq().len() ==> seen == self.modifiers@,
                is_union_of_bits(shift_keys, seen),
        {
            let ghost before = shift_keys;
            proof {
                let s = it.seq().unref();
                assert(s.take(it.index() + 1) == s.take(it.index()).push(*modif));
                seen = seen.insert(*modif);
            }
            shift_keys = shift_keys | *modif;
            proof {
                assert forall|i: u8| i < 8 implies (bit_set(shift_keys, i) <==> exists|m: u8|
                    seen.contains(m) && bit_set(m, i)) by {
                    lemma_bit_or(before, *modif, i);
                    if bit_set(*modif, i) {
                        assert(seen.contains(*modif));
                    }
                }
                assert(it.seq().unref().take(it.seq().len() as int) == it.seq().unref());
            }
        }
        shift_keys
    }

    /// The key-code bytes of the report: the held keys in the order in which
    /// the set hands them out, the first six of them, padded with zeros.
    pub fn get_raw_key_codes(&self) -> (codes: [u8; KBD_KEY_CODES])
        ensures
            exists|order: Seq<u8>|
                enumerates(order, self.pressed_keys@) && codes@ == key_code_slots(order),
    {
        let mut key_codes = [0u8; KBD_KEY_CODES];
        let mut i: usize = 0;
        let ghost mut order: Seq<u8> = Seq::empty();
        for key in it: self.pressed_keys.iter()
            invariant
                it.seq().unref().to_set() == self.pressed_keys@,
                it.seq().unref().no_duplicates(),
                i == (if it.index() < KBD_KEY_CODES { it.index() } else { KBD_KEY_CODES as int }),
                order == it.seq().unref().take(it.index()),
                it.index() == it.seq().len() ==> order == it.seq().unref(),
                key_codes@ == key_code_slots(order),
        {
            proof {
                assert(it.seq().unref().take(it.index() + 1) == order.push(*key));
                assert(it.seq().unref().take(it.seq().len() as int) == it.seq().unref());
            }
            if i < KBD_KEY_CODES {
                key_codes[i] = *key;
                i = i + 1;
            }
            proof {
                order = order.push(*key);
            }
        }
        key_codes
    }

    /// Holds `key` down.
    pub fn key_down(self, key: KeyboardKey) -> (r: Self)
        ensures
            r.pressed_keys@ == self.pressed_keys@.insert(key.code()),
            r.modifiers@ == self.modifiers@,
    {
        let mut report = self;
        report.pressed_keys.insert(key.code());
        report
    }

    /// Releases `key`.
    pub fn key_up(self, key: KeyboardKey) -> (r: Self)
        ensures
            r.pressed_keys@ == self.pressed_keys@.remove(key.code()),
            r.modifiers@ == self.modifiers@,
    {
        let mut report = self;
        report.pressed_keys.remove(&key.code());
        report
    }

    /// Holds `modifier` down.
    pub fn modifier_down(self, modifier: KBDModifier) -> (r: Self)
        ensures
            r.modifiers@ == self.modifiers@.insert(modifier.code()),
            r.pressed_keys@ == self.pressed_keys@,
    {
        let mut report = self;
        report.modifiers.insert(modifier.code());
        report
    }

    /// Releases `modifier`.
    pub fn modifier_up(self, modifier: KBDModifier) -> (r: Self)
        ensures
            r.modifiers@ == self.modifiers@.remove(modifier.code()),
            r.pressed_keys@ == self.pressed_keys@,
    {
        let mut report = self;
        report.modifiers.remove(&modifier.code());
        report
    }
}

/// Only modifier codes are in `s`.
pub open spec fn modifier_codes_only(s: Set<u8>) -> bool {
    forall|c: u8| #[trigger] s.contains(c) ==> exists|m: KBDModifier| m.code() == c
}

/// Releasing a key that was not held down undoes holding it down.
pub proof fn law_key_up_undoes_key_down(keys: Set<u8>, key: KeyboardKey)
    requires
        !keys.contains(key.code()),
    ensures
        keys.insert(key.code()).remove(key.code()) == keys,
{
    assert(keys.insert(key.code()).remove(key.code()) =~= keys);
}

/// Holding a key down twice is holding it down once.
pub proof fn law_key_down_idempotent(keys: Set<u8>, key: KeyboardKey)
    ensures
        keys.insert(key.code()).insert(key.code()) == keys.insert(key.code()),
{
    assert(keys.insert(key.code()).insert(key.code()) =~= keys.insert(key.code()));
}

/// Releasing one key leaves every other held key held.
pub proof fn law_key_up_keeps_other_keys(keys: Set<u8>, released: KeyboardKey, other: KeyboardKey)
    requires
        keys.contains(other.code()),
        released != other,
    ensures
        keys.remove(released.code()).contains(other.code()),
{
    lemma_key_codes_distinct(released, other);
}

/// The modifier byte is determined by the held modifiers.
pub proof fn law_flags_determined(f: u8, g: u8, mods: Set<u8>)
    requires
        is_union_of_bits(f, mods),
        is_union_of_bits(g, mods),
    ensures
        f == g,
{
    assert(bit_set(f, 0) == bit_set(g, 0));
    assert(bit_set(f, 1) == bit_set(g, 1));
    assert(bit_set(f, 2) == bit_set(g, 2));
    assert(bit_set(f, 3) == bit_set(g, 3));
    assert(bit_set(f, 4) == bit_set(g, 4));
    assert(bit_set(f, 5) == bit_set(g, 5));
    assert(bit_set(f, 6) == bit_set(g, 6));
    assert(bit_set(f, 7) == bit_set(g, 7));
    assert(f == g) by (bit_vector)
        requires
            ((f >> 0u8) & 1u8 == 1u8) == ((g >> 0u8) & 1u8 == 1u8),
            ((f >> 1u8) & 1u8 == 1u8) == ((g >> 1u8) & 1u8 == 1u8),
            ((f >> 2u8) & 1u8 == 1u8) == ((g >> 2u8) & 1u8 == 1u8),
            ((f >> 3u8) & 1u8 == 1u8) == ((g >> 3u8) & 1u8 == 1u8),
            ((f >> 4u8) & 1u8 == 1u8) == ((g >> 4u8) & 1u8 == 1u8),
            ((f >> 5u8) & 1u8 == 1u8) == ((g >> 5u8) & 1u8 == 1u8),
            ((f >> 6u8) & 1u8 == 1u8) == ((g >> 6u8) & 1u8 == 1u8),
            ((f >> 7u8) & 1u8 == 1u8) == ((g >> 7u8) & 1u8 == 1u8),
    ;
}

/// While a modifier is held down, the modifier byte has its bit.
pub proof fn law_held_modifier_is_flagged(mods: Set<u8>, modifier: KBDModifier, flags: u8)
    requires
        mods.contains(modifier.code()),
        is_union_of_bits(flags, mods),
    ensures
        flags & modifier.code() == modifier.code(),
{
    let c = modifier.code();
    lemma_single_bit_mask(flags, c);
    let i = choose|i: u8| i < 8 && #[trigger] bit_set(c, i);
    assert(bit_set(flags, i));
}

/// Once a modifier is released, the modifier byte lacks its bit, when only
/// modifiers were held.
pub proof fn law_released_modifier_is_not_flagged(mods: Set<u8>, modifier: KBDModifier, flags: u8)
    requires
        modifier_codes_only(mods),
        is_union_of_bits(flags, mods.remove(modifier.code())),
    ensures
        flags & modifier.code() == 0,
{
    let c = modifier.code();
    lemma_single_bit_mask(flags, c);
    let i = choose|i: u8| i < 8 && #[trigger] bit_set(c, i);
    if bit_set(flags, i) {
        let m = choose|m: u8| mods.remove(c).contains(m) && bit_set(m, i);
        let other = choose|o: KBDModifier| o.code() == m;
        lemma_modifier_bits(other, modifier, i);
        lemma_modifier_bits(modifier, other, i);
    }
}

/// A report that holds at most six keys reports every one of them, each
/// once, followed by zeros.
pub proof fn law_few_keys_all_reported(order: Seq<u8>, keys: Set<u8>, codes: Seq<u8>)
    requires
        enumerates(order, keys),
        keys.len() <= KBD_KEY_CODES,
        codes == key_code_slots(order),
    ensures
        codes.take(keys.len() as int).to_set() == keys,
        codes.take(keys.len() as int).no_duplicates(),
        forall|i: int| keys.len() <= i < KBD_KEY_CODES ==> codes[i] == 0,
{
    order.unique_seq_to_set();
    assert(codes.take(keys.len() as int) =~= order);
}

/// A report that holds more than six keys reports six distinct held keys.
pub proof fn law_many_keys_six_reported(order: Seq<u8>, keys: Set<u8>, codes: Seq<u8>)
    requires
        enumerates(order, keys),
        keys.len() > KBD_KEY_CODES,
        codes == key_code_slots(order),
    ensures
        codes.no_duplicates(),
        forall|i: int| 0 <= i < KBD_KEY_CODES ==> keys.contains(#[trigger] codes[i]),
{
    order.unique_seq_to_set();
    assert forall|i: int| 0 <= i < KBD_KEY_CODES implies keys.contains(#[trigger] codes[i]) by {
        assert(order.to_set().contains(order[i]));
    }
}

/// A report that holds a single key reports that key's code and five zeros.
pub proof fn law_single_key_report(order: Seq<u8>, key: KeyboardKey, codes: Seq<u8>)
    requires
        enumerates(order, Set::<u8>::empty().insert(key.code())),
        codes == key_code_slots(order),
    ensures
        codes == seq![key.code(), 0u8, 0u8, 0u8, 0u8, 0u8],
{
    order.unique_seq_to_set();
    assert(Set::<u8>::empty().insert(key.code()).len() == 1);
    assert(order.to_set().contains(order[0]));
    assert(codes =~= seq![key.code(), 0u8, 0u8, 0u8, 0u8, 0u8]);
}

} // verus!
