use wordbomb_external::faker_input::keyboard_report::{KBDModifier, KBDReport, KeyboardKey};
use wordbomb_external::faker_input::mouse_report::{MouseButtons, MouseReport};
use wordbomb_external::faker_input::{make_relative, Connection};

#[test]
fn new_connection_is_down() {
    let c = Connection::new();
    assert!(!c.is_connected());
    assert!(c.must_ask_to_connect());
    assert!(!c.must_ask_to_disconnect());
}

#[test]
fn connect_follows_device_answer() {
    let mut c = Connection::new();
    assert!(!c.connect_answered(false));
    assert!(!c.is_connected());
    assert!(c.connect_answered(true));
    assert!(c.is_connected());
    assert!(!c.must_ask_to_connect());
    assert!(c.must_ask_to_disconnect());
}

#[test]
fn disconnect_follows_device_answer() {
    let mut c = Connection::new();
    c.connect_answered(true);
    assert!(!c.disconnect_answered(false));
    assert!(c.is_connected());
    assert!(c.disconnect_answered(true));
    assert!(!c.is_connected());
}

#[test]
fn no_packets_while_disconnected() {
    let c = Connection::new();
    assert!(c.keyboard_packet(&KBDReport::new().key_down(KeyboardKey::A)).is_none());
    assert!(c.mouse_packet(&MouseReport::new()).is_none());
}

#[test]
fn keyboard_packet_carries_report() {
    let mut c = Connection::new();
    c.connect_answered(true);
    let report = KBDReport::new()
        .modifier_down(KBDModifier::RShift)
        .key_down(KeyboardKey::Enter);
    let p = c.keyboard_packet(&report).unwrap();
    assert_eq!(p.shift_key_flags, 0x20);
    assert_eq!(p.key_codes, [0x28, 0, 0, 0, 0, 0]);
}

#[test]
fn mouse_packet_carries_report() {
    let mut c = Connection::new();
    c.connect_answered(true);
    let mut report = MouseReport::new();
    report.x = -5;
    report.y = 17;
    report.wheel = 2;
    report.button_down(MouseButtons::Right);
    let p = c.mouse_packet(&report).unwrap();
    assert_eq!((p.buttons, p.x, p.y, p.wheel, p.h_wheel), (2, -5, 17, 2, 0));
}

#[test]
fn relative_move_is_difference() {
    let mut r = MouseReport::new();
    r.x = 500;
    r.y = 300;
    r.button_down(MouseButtons::Left);
    make_relative(&mut r, 200, 450);
    assert_eq!((r.x, r.y), (300, -150));
    assert_eq!(r.buttons, 1);
}

#[test]
fn relative_move_wraps_like_a_cast() {
    let mut r = MouseReport::new();
    r.x = 30000;
    r.y = -30000;
    make_relative(&mut r, -10000, 10000);
    assert_eq!(r.x, (30000i32 - -10000i32) as i16);
    assert_eq!(r.y, (-30000i32 - 10000i32) as i16);
    assert_eq!(r.x, -25536);
    assert_eq!(r.y, 25536);
}

#[test]
fn relative_move_reaches_point() {
    let mut r = MouseReport::new();
    r.x = -123;
    make_relative(&mut r, 70000, 0);
    assert_eq!((70000i32.wrapping_add(r.x as i32)) as i16, -123);
}
