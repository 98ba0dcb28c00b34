use std::collections::HashSet;
use wordbomb_external::faker_input::keyboard_report::{KBDModifier, KBDReport, KeyboardKey};

#[test]
fn new_report_is_empty() {
    let r = KBDReport::new();
    assert!(r.modifiers.is_empty());
    assert!(r.pressed_keys.is_empty());
    assert_eq!(r.get_raw_shift_key_flags(), 0);
    assert_eq!(r.get_raw_key_codes(), [0u8; 6]);
}

#[test]
fn key_codes_follow_hid_usages() {
    assert_eq!(KeyboardKey::A.code(), 0x04);
    assert_eq!(KeyboardKey::Z.code(), 0x1D);
    assert_eq!(KeyboardKey::Number1.code(), 0x1E);
    assert_eq!(KeyboardKey::Number0.code(), 0x27);
    assert_eq!(KeyboardKey::Enter.code(), 0x28);
    assert_eq!(KeyboardKey::Space.code(), 0x2C);
    assert_eq!(KeyboardKey::Minus.code(), 0x2D);
    assert_eq!(KeyboardKey::Equals.code(), 0x2E);
    assert_eq!(KeyboardKey::CapsLock.code(), 0x39);
    assert_eq!(KeyboardKey::F1.code(), 0x3A);
    assert_eq!(KeyboardKey::F12.code(), 0x45);
    assert_eq!(KeyboardKey::F13.code(), 0x68);
    assert_eq!(KeyboardKey::F24.code(), 0x73);
    assert_eq!(KeyboardKey::PrintScreen.code(), 0x46);
    assert_eq!(KeyboardKey::KeypadApplication.code(), 0x65);
}

#[test]
fn modifier_codes_are_single_bits() {
    let all = [
        (KBDModifier::LControl, 1u8),
        (KBDModifier::LShift, 2),
        (KBDModifier::LAlt, 4),
        (KBDModifier::LWin, 8),
        (KBDModifier::RControl, 16),
        (KBDModifier::RShift, 32),
        (KBDModifier::RAlt, 64),
        (KBDModifier::RWin, 128),
    ];
    for (m, c) in all {
        assert_eq!(m.code(), c);
    }
}

#[test]
fn single_key_report() {
    let r = KBDReport::new().key_down(KeyboardKey::H);
    assert_eq!(r.get_raw_key_codes(), [0x0B, 0, 0, 0, 0, 0]);
    assert_eq!(r.get_raw_shift_key_flags(), 0);
}

#[test]
fn key_up_undoes_key_down() {
    let r = KBDReport::new().key_down(KeyboardKey::Q).key_up(KeyboardKey::Q);
    assert!(r.pressed_keys.is_empty());
    assert_eq!(r.get_raw_key_codes(), [0u8; 6]);
}

#[test]
fn key_down_twice_is_once() {
    let r = KBDReport::new().key_down(KeyboardKey::E).key_down(KeyboardKey::E);
    assert_eq!(r.pressed_keys.len(), 1);
    assert_eq!(r.get_raw_key_codes(), [0x08, 0, 0, 0, 0, 0]);
}

#[test]
fn key_up_keeps_other_keys() {
    let r = KBDReport::new()
        .key_down(KeyboardKey::A)
        .key_down(KeyboardKey::B)
        .key_up(KeyboardKey::A);
    let expected: HashSet<u8> = [0x05u8].into_iter().collect();
    assert_eq!(r.pressed_keys, expected);
}

#[test]
fn few_keys_all_reported() {
    let r = KBDReport::new()
        .key_down(KeyboardKey::A)
        .key_down(KeyboardKey::Space)
        .key_down(KeyboardKey::F5);
    let codes = r.get_raw_key_codes();
    let mut head: Vec<u8> = codes[..3].to_vec();
    head.sort();
    assert_eq!(head, vec![0x04, 0x2C, 0x3E]);
    assert_eq!(&codes[3..], &[0, 0, 0]);
}

#[test]
fn many_keys_six_reported() {
    let keys = [
        KeyboardKey::A,
        KeyboardKey::B,
        KeyboardKey::C,
        KeyboardKey::D,
        KeyboardKey::E,
        KeyboardKey::F,
        KeyboardKey::G,
        KeyboardKey::H,
    ];
    let mut r = KBDReport::new();
    for k in keys {
        r = r.key_down(k);
    }
    let codes = r.get_raw_key_codes();
    let distinct: HashSet<u8> = codes.iter().copied().collect();
    assert_eq!(distinct.len(), 6);
    for c in codes {
        assert!((0x04..=0x0B).contains(&c));
    }
}

#[test]
fn shift_flags_union_of_modifiers() {
    let r = KBDReport::new()
        .modifier_down(KBDModifier::LShift)
        .modifier_down(KBDModifier::RAlt);
    assert_eq!(r.get_raw_shift_key_flags(), 0x42);
    let r = r.modifier_down(KBDModifier::LShift);
    assert_eq!(r.get_raw_shift_key_flags(), 0x42);
    let r = r.modifier_up(KBDModifier::LShift);
    assert_eq!(r.get_raw_shift_key_flags(), 0x40);
    assert_eq!(r.get_raw_shift_key_flags() & KBDModifier::LShift.code(), 0);
}

#[test]
fn all_modifiers_fill_the_byte() {
    let mut r = KBDReport::new();
    for m in [
        KBDModifier::LControl,
        KBDModifier::LShift,
        KBDModifier::LAlt,
        KBDModifier::LWin,
        KBDModifier::RControl,
        KBDModifier::RShift,
        KBDModifier::RAlt,
        KBDModifier::RWin,
    ] {
        r = r.modifier_down(m);
    }
    assert_eq!(r.get_raw_shift_key_flags(), 0xFF);
}

#[test]
fn modifiers_and_keys_are_separate() {
    let r = KBDReport::new()
        .modifier_down(KBDModifier::LControl)
        .key_down(KeyboardKey::C);
    assert_eq!(r.get_raw_shift_key_flags(), 1);
    assert_eq!(r.get_raw_key_codes(), [0x06, 0, 0, 0, 0, 0]);
    let r = r.modifier_up(KBDModifier::LControl);
    assert_eq!(r.get_raw_key_codes(), [0x06, 0, 0, 0, 0, 0]);
    assert_eq!(r.get_raw_shift_key_flags(), 0);
}
