use std::collections::HashSet;
use wordbomb_external::faker_input::mouse_report::{MouseButtons, MouseReport};

fn held(r: &MouseReport) -> Vec<u8> {
    let mut v: Vec<u8> = r.held_buttons.iter().copied().collect();
    v.sort();
    v
}

#[test]
fn new_report_is_still() {
    let r = MouseReport::new();
    assert!(r.held_buttons.is_empty());
    assert_eq!((r.buttons, r.x, r.y, r.wheel, r.h_wheel), (0, 0, 0, 0, 0));
}

#[test]
fn button_codes() {
    assert_eq!(MouseButtons::Left.code(), 0x01);
    assert_eq!(MouseButtons::Right.code(), 0x02);
    assert_eq!(MouseButtons::Middle.code(), 0x04);
    assert_eq!(MouseButtons::XButton1.code(), 0x08);
    assert_eq!(MouseButtons::XButton2.code(), 0x10);
}

#[test]
fn buttons_byte_follows_held_buttons() {
    let mut r = MouseReport::new();
    r.button_down(MouseButtons::Left);
    r.button_down(MouseButtons::Middle);
    assert_eq!(r.buttons, 0x05);
    assert_eq!(held(&r), vec![1, 4]);
    r.button_up(MouseButtons::Left);
    assert_eq!(r.buttons, 0x04);
    assert_eq!(held(&r), vec![4]);
    r.button_up(MouseButtons::Right);
    assert_eq!(r.buttons, 0x04);
}

#[test]
fn button_up_undoes_button_down() {
    let mut r = MouseReport::new();
    r.button_down(MouseButtons::XButton2);
    r.button_up(MouseButtons::XButton2);
    assert_eq!(r.buttons, 0);
    assert!(r.held_buttons.is_empty());
}

#[test]
fn reset_position_keeps_buttons() {
    let mut r = MouseReport::new();
    r.x = 12;
    r.y = -7;
    r.wheel = 3;
    r.h_wheel = 9;
    r.button_down(MouseButtons::Right);
    r.reset_position();
    assert_eq!((r.x, r.y, r.wheel, r.h_wheel), (0, 0, 0, 0));
    assert_eq!(r.buttons, 2);
    assert_eq!(held(&r), vec![2]);
}

#[test]
fn reset_forgets_held_but_keeps_byte() {
    let mut r = MouseReport::new();
    r.x = 100;
    r.button_down(MouseButtons::Left);
    r.reset();
    assert!(r.held_buttons.is_empty());
    assert_eq!(r.buttons, 1);
    assert_eq!(r.x, 0);
}

#[test]
fn clone_copies_everything() {
    let mut r = MouseReport::new();
    r.x = -300;
    r.y = 42;
    r.wheel = 1;
    r.h_wheel = 2;
    r.button_down(MouseButtons::Middle);
    let c = r.clone();
    assert_eq!(c, r);
    let expected: HashSet<u8> = [4u8].into_iter().collect();
    assert_eq!(c.held_buttons, expected);
}
