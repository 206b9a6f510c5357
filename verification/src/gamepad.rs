use vstd::prelude::*;

verus! {

/// One frame of controller input: the button word and the two stick axes.
#[derive(Clone, Copy, Debug, PartialEq, Eq, Structural)]
pub struct GamePad {
    pub button: u16,
    pub stick_x: i8,
    pub stick_y: i8,
}

/// Whether any bit of `mask` is set in the button word `button`.
pub open spec fn pressed(button: u16, mask: u16) -> bool {
    (button & mask) != 0
}

impl GamePad {
    pub fn new(button: u16, stick_x: i8, stick_y: i8) -> (pad: GamePad)
        ensures
            pad.button == button,
            pad.stick_x == stick_x,
            pad.stick_y == stick_y,
    {
        GamePad { button, stick_x, stick_y }
    }

    /// Whether both pads hold the same buttons and stick positions.
    pub fn equals(&self, pad: &GamePad) -> (same: bool)
        ensures
            same == (*self == *pad),
    {
        self.button == pad.button && self.stick_x == pad.stick_x && self.stick_y == pad.stick_y
    }

    /// Whether any of the buttons in `button_mask` is held.
    pub fn is_pressed(&self, button_mask: u16) -> (held: bool)
        ensures
            held == pressed(self.button, button_mask),
    {
        (self.button & button_mask) != 0
    }

    /// Holds the buttons in `button_mask` as well.
    pub fn enable_button(&mut self, button_mask: u16)
        ensures
            final(self).button == old(self).button | button_mask,
            final(self).stick_x == old(self).stick_x,
            final(self).stick_y == old(self).stick_y,
    {
        self.button = self.button | button_mask;
    }

    /// Releases the buttons in `button_mask`.
    pub fn disable_button(&mut self, button_mask: u16)
        ensures
            final(self).button == old(self).button & !button_mask,
            final(self).stick_x == old(self).stick_x,
            final(self).stick_y == old(self).stick_y,
    {
        self.button = self.button & !button_mask;
    }
}

/// Once a non-empty mask is enabled, a button of it is pressed.
pub proof fn lemma_enable_presses(button: u16, mask: u16)
    requires
        mask != 0,
    ensures
        pressed(button | mask, mask),
{
    assert(mask != 0 ==> ((button | mask) & mask) != 0) by (bit_vector);
}

/// Once a mask is disabled, none of its buttons is pressed.
pub proof fn lemma_disable_releases(button: u16, mask: u16)
    ensures
        !pressed(button & !mask, mask),
{
    assert(((button & !mask) & mask) == 0) by (bit_vector);
}

/// Enabling or disabling a mask leaves every button outside it as it was.
pub proof fn lemma_other_buttons_kept(button: u16, mask: u16, other: u16)
    requires
        mask & other == 0,
    ensures
        pressed(button | mask, other) == pressed(button, other),
        pressed(button & !mask, other) == pressed(button, other),
{
    assert(mask & other == 0 ==> ((button | mask) & other) == (button & other)) by (bit_vector);
    assert(mask & other == 0 ==> ((button & !mask) & other) == (button & other)) by (bit_vector);
}

/// Disabling a mask undoes enabling it, for the buttons that were not held before.
pub proof fn lemma_disable_undoes_enable(button: u16, mask: u16)
    requires
        button & mask == 0,
    ensures
        (button | mask) & !mask == button,
{
    assert(button & mask == 0 ==> (button | mask) & !mask == button) by (bit_vector);
}

} // verus!
