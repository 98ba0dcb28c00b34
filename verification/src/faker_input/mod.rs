pub mod flags;
pub mod keyboard_report;
pub mod mouse_report;

use vstd::prelude::*;
use crate::faker_input::flags::is_union_of_bits;
use crate::faker_input::keyboard_report::{KBDReport, KBD_KEY_CODES, enumerates, key_code_slots};
use crate::faker_input::mouse_report::{MouseReport, wrap_i16, wrap_to_i16};

verus! {

/// What the virtual keyboard is sent: the modifier byte and six key codes.
pub struct KeyboardPacket {
    pub shift_key_flags: u8,
    pub key_codes: [u8; KBD_KEY_CODES],
}

/// What the virtual mouse is sent for a relative move.
pub struct MousePacket {
    pub buttons: u8,
    pub x: i16,
    pub y: i16,
    pub wheel: u8,
    pub h_wheel: u8,
}

/// Whether the virtual input device is connected, and what each request makes
/// of that: connecting and disconnecting ask the device only when the state
/// would change, and reports go to the device only while it is connected.
pub struct Connection {
    connected: bool,
}

impl View for Connection {
    type V = bool;

    /// Whether the device is connected.
    closed spec fn view(&self) -> bool {
        self.connected
    }
}

impl Connection {
    /// A device that is not connected yet.
    pub fn new() -> (c: Connection)
        ensures
            !c@,
    {
        Connection { connected: false }
    }

    /// Whether the device is connected.
    pub fn is_connected(&self) -> (r: bool)
        ensures
            r == self@,
    {
        self.connected
    }

    /// Whether a connect request must go to the device; when it is already
    /// connected the request is answered `true` without it.
    pub fn must_ask_to_connect(&self) -> (r: bool)
        ensures
            r == !self@,
    {
        !self.connected
    }

    /// Takes the device's answer to a connect request: it is connected exactly
    /// when it said so, and that is the answer to the request.
    pub fn connect_answered(&mut self, device_ok: bool) -> (r: bool)
        requires
            !old(self)@,
        ensures
            final(self)@ == device_ok,
            r == device_ok,
    {
        self.connected = device_ok;
        self.connected
    }

    /// Whether a disconnect request must go to the device; when it is not
    /// connected the request is answered `true` without it.
    pub fn must_ask_to_disconnect(&self) -> (r: bool)
        ensures
            r == self@,
    {
        self.connected
    }

    /// Takes the device's answer to a disconnect request: it stays connected
    /// exactly when it refused, and the answer is whether it let go.
    pub fn disconnect_answered(&mut self, device_ok: bool) -> (r: bool)
        requires
            old(self)@,
        ensures
            final(self)@ == !device_ok,
            r == device_ok,
    {
        self.connected = !device_ok;
        !self.connected
    }

    /// What the device is sent for a keyboard report: nothing while it is not
    /// connected, else the report's modifier byte and key codes.
    pub fn keyboard_packet(&self, report: &KBDReport) -> (p: Option<KeyboardPacket>)
        ensures
            !self@ ==> p is None,
            self@ ==> (p matches Some(packet) && is_union_of_bits(packet.shift_key_flags, report.modifiers@)
                && exists|order: Seq<u8>| enumerates(order, report.pressed_keys@) && packet.key_codes@ == key_code_slots(order)),
    {
        if !self.connected {
            return None;
        }
        let key_codes = report.get_raw_key_codes();
        Some(KeyboardPacket { shift_key_flags: report.get_raw_shift_key_flags(), key_codes })
    }

    /// What the device is sent for a relative mouse report: nothing while it
    /// is not connected, else the report's buttons, movement and wheels.
    pub fn mouse_packet(&self, report: &MouseReport) -> (p: Option<MousePacket>)
        ensures
            !self@ ==> p is None,
            self@ ==> (p matches Some(packet) && packet.buttons == report.buttons && packet.x == report.x
                && packet.y == report.y && packet.wheel == report.wheel && packet.h_wheel == report.h_wheel),
    {
        if !self.connected {
            return None;
        }
        Some(MousePacket {
            buttons: report.buttons,
            x: report.x,
            y: report.y,
            wheel: report.wheel,
            h_wheel: report.h_wheel,
        })
    }
}

/// Turns a report that gives a point on the screen into one that moves there
/// from the cursor at `(cursor_x, cursor_y)`: the movement is the difference,
/// wrapped to 16 bits as a truncating cast does; the rest stays.
pub fn make_relative(report: &mut MouseReport, cursor_x: i32, cursor_y: i32)
    ensures
        final(report).x as int == wrap_i16(old(report).x - cursor_x),
        final(report).y as int == wrap_i16(old(report).y - cursor_y),
        final(report).held_buttons@ == old(report).held_buttons@,
        final(report).buttons == old(report).buttons,
        final(report).wheel == old(report).wheel,
        final(report).h_wheel == old(report).h_wheel,
{
    report.x = wrap_to_i16(report.x as i64 - cursor_x as i64);
    report.y = wrap_to_i16(report.y as i64 - cursor_y as i64);
}

/// Moving by the relative report from the cursor lands on the report's
/// point: the cursor plus the movement wraps around to the point.
pub proof fn law_relative_move_reaches_point(point: i16, cursor: i32)
    ensures
        wrap_i16(cursor + wrap_i16(point - cursor)) == point,
{
    let d = point - cursor;
    let q = (d + 0x8000) / 0x1_0000;
    vstd::arithmetic::div_mod::lemma_fundamental_div_mod(d + 0x8000, 0x1_0000);
    assert(wrap_i16(d) == d - 0x1_0000 * q);
    vstd::arithmetic::div_mod::lemma_mod_multiples_vanish(-q, point + 0x8000, 0x1_0000);
    assert(cursor + wrap_i16(d) + 0x8000 == 0x1_0000 * (-q) + (point + 0x8000)) by (nonlinear_arith)
        requires
            wrap_i16(d) == d - 0x1_0000 * q,
            d == point - cursor,
    ;
    vstd::arithmetic::div_mod::lemma_small_mod((point + 0x8000) as nat, 0x1_0000);
}

} // verus!
