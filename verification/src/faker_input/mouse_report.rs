use std::collections::HashSet;
use vstd::prelude::*;
use crate::faker_input::flags::{
    is_union_of_bits, is_single_bit, single_bit_codes, lemma_union_insert,
    lemma_union_remove, lemma_union_empty,
};

verus! {

/// A button of a HID mouse; each one owns a single bit of the button byte.
#[derive(Debug, Clone, Copy, PartialEq, Eq, Hash)]
pub enum MouseButtons {
    Left,
    Right,
    Middle,
    XButton1,
    XButton2,
}

impl MouseButtons {
    /// The bit of the button byte that stands for this button.
    pub open spec fn spec_code(self) -> u8 {
        match self {
            MouseButtons::Left => 0x01,
            MouseButtons::Right => 0x02,
            MouseButtons::Middle => 0x04,
            MouseButtons::XButton1 => 0x08,
            MouseButtons::XButton2 => 0x10,
        }
    }

    /// The bit of the button byte that stands for this button.
    #[verifier::when_used_as_spec(spec_code)]
    pub fn code(self) -> (c: u8)
        ensures
            c == self.spec_code(),
    {
        match self {
            MouseButtons::Left => 0x01,
            MouseButtons::Right => 0x02,
            MouseButtons::Middle => 0x04,
            MouseButtons::XButton1 => 0x08,
            MouseButtons::XButton2 => 0x10,
        }
    }
}

/// A mouse state: the buttons held down (by code, and as the button byte),
/// the movement and the wheels.
#[derive(Debug, PartialEq, Eq)]
pub struct MouseReport {
    pub held_buttons: HashSet<u8>,
    pub buttons: u8,
    pub x: i16,
    pub y: i16,
    pub wheel: u8,
    pub h_wheel: u8,
}

impl MouseReport {
    /// A report with no button held, no movement and no wheel turn.
    pub fn new() -> (r: Self)
        ensures
            r.held_buttons@ == Set::<u8>::empty(),
            r.buttons == 0,
            r.x == 0,
            r.y == 0,
            r.wheel == 0,
            r.h_wheel == 0,
    {
        Self { held_buttons: HashSet::new(), x: 0, y: 0, wheel: 0, h_wheel: 0, buttons: 0 }
    }

    /// Zeroes the movement and the wheels; the buttons stay as they are.
    pub fn reset_position(&mut self)
        ensures
            final(self).x == 0,
            final(self).y == 0,
            final(self).wheel == 0,
            final(self).h_wheel == 0,
            final(self).buttons == old(self).buttons,
            final(self).held_buttons@ == old(self).held_buttons@,
    {
        self.x = 0;
        self.y = 0;
        self.wheel = 0;
        self.h_wheel = 0;
    }

    /// Holds `button` down: its code joins the held buttons and its bit is
    /// set in the button byte.
    pub fn button_down(&mut self, button: MouseButtons)
        ensures
            final(self).held_buttons@ == old(self).held_buttons@.insert(button.code()),
            final(self).buttons == old(self).buttons | button.code(),
            final(self).x == old(self).x,
            final(self).y == old(self).y,
            final(self).wheel == old(self).wheel,
            final(self).h_wheel == old(self).h_wheel,
    {
        self.held_buttons.insert(button.code());
        self.buttons = self.buttons | button.code();
    }

    /// Releases `button`: its code leaves the held buttons and its bit is
    /// cleared from the button byte.
    pub fn button_up(&mut self, button: MouseButtons)
        ensures
            final(self).held_buttons@ == old(self).held_buttons@.remove(button.code()),
            final(self).buttons == old(self).buttons & !button.code(),
            final(self).x == old(self).x,
            final(self).y == old(self).y,
            final(self).wheel == old(self).wheel,
            final(self).h_wheel == old(self).h_wheel,
    {
        self.held_buttons.remove(&button.code());
        self.buttons = self.buttons & !button.code();
    }

    /// Forgets the held buttons and zeroes the movement and the wheels; the
    /// button byte stays as it is.
    pub fn reset(&mut self)
        ensures
            final(self).held_buttons@ == Set::<u8>::empty(),
            final(self).buttons == old(self).buttons,
            final(self).x == 0,
            final(self).y == 0,
            final(self).wheel == 0,
            final(self).h_wheel == 0,
    {
        self.held_buttons.clear();
        self.reset_position();
    }
}

/// The value of the 16-bit signed integer that `v` wraps around to.
pub open spec fn wrap_i16(v: int) -> int {
    (v + 0x8000) % 0x1_0000 - 0x8000
}

/// Wraps `v` around to a 16-bit signed integer, as a truncating cast does.
pub(crate) fn wrap_to_i16(v: i64) -> (r: i16)
    requires
        -0x1_0000_0000_0000 <= v <= 0x1_0000_0000_0000,
    ensures
        r as int == wrap_i16(v as int),
{
    let shifted: u64 = (v + 0x1_0000_0000_8000i64) as u64;
    let m: u64 = shifted % 0x1_0000;
    proof {
        vstd::arithmetic::div_mod::lemma_mod_multiples_vanish(0x1_0000_0000, v + 0x8000, 0x1_0000);
        assert(0x1_0000 * 0x1_0000_0000int + (v + 0x8000) == v + 0x1_0000_0000_8000i64);
    }
    let r: i64 = m as i64 - 0x8000;
    r as i16
}

/// Only button codes are in `s`.
pub open spec fn button_codes_only(s: Set<u8>) -> bool {
    forall|c: u8| #[trigger] s.contains(c) ==> exists|b: MouseButtons| b.code() == c
}

proof fn lemma_button_codes_single_bits(s: Set<u8>)
    requires
        button_codes_only(s),
    ensures
        single_bit_codes(s),
{
    assert forall|c: u8| #[trigger] s.contains(c) implies is_single_bit(c) by {
        let b = choose|b: MouseButtons| b.code() == c;
    }
}

/// A fresh report's button byte has exactly the bits of its held buttons.
pub proof fn law_new_buttons_agree()
    ensures
        is_union_of_bits(0u8, Set::<u8>::empty()),
        button_codes_only(Set::<u8>::empty()),
{
    lemma_union_empty();
}

/// Holding a button down keeps the button byte equal to the union of the
/// held buttons' bits.
pub proof fn law_button_down_keeps_agreement(held: Set<u8>, buttons: u8, button: MouseButtons)
    requires
        is_union_of_bits(buttons, held),
        button_codes_only(held),
    ensures
        is_union_of_bits(buttons | button.code(), held.insert(button.code())),
        button_codes_only(held.insert(button.code())),
{
    lemma_union_insert(buttons, held, button.code());
}

/// Releasing a button keeps the button byte equal to the union of the held
/// buttons' bits, when only buttons were held.
pub proof fn law_button_up_keeps_agreement(held: Set<u8>, buttons: u8, button: MouseButtons)
    requires
        is_union_of_bits(buttons, held),
        button_codes_only(held),
    ensures
        is_union_of_bits(buttons & !button.code(), held.remove(button.code())),
        button_codes_only(held.remove(button.code())),
{
    lemma_button_codes_single_bits(held);
    lemma_union_remove(buttons, held, button.code());
}

/// After a button goes down its bit is set; after it goes up its bit is clear;
/// the other bits of the button byte stay as they were.
pub proof fn law_button_bits(buttons: u8, button: MouseButtons)
    ensures
        (buttons | button.code()) & button.code() == button.code(),
        (buttons & !button.code()) & button.code() == 0,
        (buttons | button.code()) & !button.code() == buttons & !button.code(),
{
    let c = button.code();
    assert((buttons | c) & c == c && (buttons & !c) & c == 0 && (buttons | c) & !c == buttons & !c)
        by (bit_vector);
}

/// Releasing a button that was up undoes holding it down.
pub proof fn law_button_up_undoes_button_down(held: Set<u8>, buttons: u8, button: MouseButtons)
    requires
        !held.contains(button.code()),
        buttons & button.code() == 0,
    ensures
        held.insert(button.code()).remove(button.code()) == held,
        (buttons | button.code()) & !button.code() == buttons,
{
    let c = button.code();
    assert(held.insert(c).remove(c) =~= held);
    assert((buttons | c) & !c == buttons) by (bit_vector)
        requires
            buttons & c == 0,
    ;
}

/// Copies the held buttons into a fresh set.
fn copy_codes(codes: &HashSet<u8>) -> (r: HashSet<u8>)
    ensures
        r@ == codes@,
{
    let mut copy: HashSet<u8> = HashSet::new();
    for c in it: codes.iter()
        invariant
            it.seq().unref().to_set() == codes@,
            copy@ == it.seq().unref().take(it.index()).to_set(),
            it.index() == it.seq().len() ==> copy@ == codes@,
    {
        proof {
            assert(it.seq().unref().take(it.index() + 1) == it.seq().unref().take(it.index()).push(*c));
            assert(it.seq().unref().take(it.seq().len() as int) == it.seq().unref());
        }
        copy.insert(*c);
    }
    copy
}

impl Clone for MouseReport {
    /// A report with the same held buttons, button byte, movement and wheels.
    fn clone(&self) -> (r: Self)
        ensures
            r.held_buttons@ == self.held_buttons@,
            r.buttons == self.buttons,
            r.x == self.x,
            r.y == self.y,
            r.wheel == self.wheel,
            r.h_wheel == self.h_wheel,
    {
        MouseReport {
            held_buttons: copy_codes(&self.held_buttons),
            buttons: self.buttons,
            x: self.x,
            y: self.y,
            wheel: self.wheel,
            h_wheel: self.h_wheel,
        }
    }
}

} // verus!
