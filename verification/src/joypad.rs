use vstd::prelude::*;

verus! {

/// A button of the standard controller.
#[derive(Clone, Copy, PartialEq, Eq, Structural, Debug)]
pub enum JoypadButton {
    Right,
    Left,
    Down,
    Up,
    Start,
    Select,
    B,
    A,
}

impl JoypadButton {
    /// The bit of the button in the report: A is bit 0, then B, Select,
    /// Start, Up, Down, Left, Right.
    pub open spec fn mask(self) -> u8 {
        match self {
            JoypadButton::Right => 0b1000_0000,
            JoypadButton::Left => 0b0100_0000,
            JoypadButton::Down => 0b0010_0000,
            JoypadButton::Up => 0b0001_0000,
            JoypadButton::Start => 0b0000_1000,
            JoypadButton::Select => 0b0000_0100,
            JoypadButton::B => 0b0000_0010,
            JoypadButton::A => 0b0000_0001,
        }
    }

    /// The place of the button in the report: A is read first, Right last.
    pub open spec fn index(self) -> u8 {
        match self {
            JoypadButton::Right => 7,
            JoypadButton::Left => 6,
            JoypadButton::Down => 5,
            JoypadButton::Up => 4,
            JoypadButton::Start => 3,
            JoypadButton::Select => 2,
            JoypadButton::B => 1,
            JoypadButton::A => 0,
        }
    }

    pub fn bits(&self) -> (r: u8)
        ensures
            r == self.mask(),
    {
        match self {
            JoypadButton::Right => 0b1000_0000,
            JoypadButton::Left => 0b0100_0000,
            JoypadButton::Down => 0b0010_0000,
            JoypadButton::Up => 0b0001_0000,
            JoypadButton::Start => 0b0000_1000,
            JoypadButton::Select => 0b0000_0100,
            JoypadButton::B => 0b0000_0010,
            JoypadButton::A => 0b0000_0001,
        }
    }
}

/// The controller port: a strobe latch, the index of the next button to
/// report and the pressed buttons.
pub struct Joypad {
    pub strobe: bool,
    pub index: u8,
    pub status: u8,
}

/// What a read of the port returns: the button at the index, or 1 once all
/// eight have been reported.
pub open spec fn report(index: u8, status: u8) -> u8 {
    if index > 7 {
        1
    } else {
        (status >> index) & 1
    }
}

impl Joypad {
    /// The port after a read: without the strobe the index moves on to the
    /// next button, up to one past the last.
    pub open spec fn after_read(self) -> Joypad {
        if !self.strobe && self.index <= 7 {
            Joypad { index: (self.index + 1) as u8, ..self }
        } else {
            self
        }
    }

    pub fn new() -> (j: Self)
        ensures
            !j.strobe,
            j.index == 0,
            j.status == 0,
    {
        Joypad { strobe: false, index: 0, status: 0 }
    }

    /// Bit 0 sets the strobe; while it is set the index stays at the first
    /// button.
    pub fn write(&mut self, data: u8)
        ensures
            final(self).strobe == (data & 1 == 1),
            final(self).index == if data & 1 == 1 { 0 } else { old(self).index },
            final(self).status == old(self).status,
    {
        self.strobe = data & 1 == 1;
        if self.strobe {
            self.index = 0
        }
    }

    /// Reports one button; without the strobe the index moves on.
    pub fn read(&mut self) -> (r: u8)
        ensures
            r == report(old(self).index, old(self).status),
            final(self).index == if !old(self).strobe && old(self).index <= 7 {
                old(self).index + 1
            } else {
                old(self).index as int
            },
            final(self).strobe == old(self).strobe,
            final(self).status == old(self).status,
            *final(self) == old(self).after_read(),
    {
        if self.index > 7 {
            return 1;
        }
        let idx = self.index;
        let s = self.status;
        let response = (s & (1u8 << idx)) >> idx;
        assert(response == (s >> idx) & 1) by (bit_vector)
            requires
                response == (s & (1u8 << idx)) >> idx,
                idx <= 7,
        ;
        if !self.strobe && self.index <= 7 {
            self.index = self.index + 1;
        }
        response
    }

    pub fn set_button_status(&mut self, button: JoypadButton, pressed: bool)
        ensures
            final(self).status == if pressed {
                old(self).status | button.mask()
            } else {
                old(self).status & !button.mask()
            },
            final(self).strobe == old(self).strobe,
            final(self).index == old(self).index,
    {
        if pressed {
            self.status = self.status | button.bits();
        } else {
            self.status = self.status & !button.bits();
        }
    }
}

/// Setting or clearing bit k of a byte changes bit k alone.
proof fn lemma_set_clear_bit(s: u8, k: u8, j: u8)
    by (bit_vector)
    requires
        k < 8,
        j < 8,
    ensures
        1u8 << 0u8 == 0x01 && 1u8 << 1u8 == 0x02 && 1u8 << 2u8 == 0x04 && 1u8 << 3u8 == 0x08,
        1u8 << 4u8 == 0x10 && 1u8 << 5u8 == 0x20 && 1u8 << 6u8 == 0x40 && 1u8 << 7u8 == 0x80,
        ((s | (1u8 << k)) >> k) & 1 == 1,
        ((s & !(1u8 << k)) >> k) & 1 == 0,
        j != k ==> ((s | (1u8 << k)) >> j) & 1 == (s >> j) & 1,
        j != k ==> ((s & !(1u8 << k)) >> j) & 1 == (s >> j) & 1,
{
}

/// Pressing a button makes the read at its place in the report give 1 and
/// releasing it makes it give 0; the other places report as before.
pub proof fn law_button_report(status: u8, button: JoypadButton, pressed: bool, i: u8)
    requires
        i <= 7,
    ensures
        ({
            let new_status = if pressed {
                status | button.mask()
            } else {
                status & !button.mask()
            };
            &&& report(button.index(), new_status) == if pressed { 1u8 } else { 0u8 }
            &&& i != button.index() ==> report(i, new_status) == report(i, status)
        }),
{
    let k = button.index();
    lemma_set_clear_bit(status, k, i);
    assert(button.mask() == 1u8 << k);
}

} // verus!
