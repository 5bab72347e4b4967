use vstd::prelude::*;

verus! {

/// The volume envelope of the pulse and noise channels: either a constant
/// volume, or a level that decays from 15 to 0 (looping when asked) at a
/// rate set by the same four bits.
pub struct Envelope {
    pub start: bool,
    pub looping: bool,
    pub constant_volume: bool,
    pub volume: u8,
    pub divider: u8,
    pub decay: u8,
}

impl Envelope {
    /// A fresh envelope: everything off and 0.
    pub open spec fn initial() -> Envelope {
        Envelope { start: false, looping: false, constant_volume: false, volume: 0, divider: 0, decay: 0 }
    }

    /// Volume and decay level stay four-bit values.
    pub open spec fn wf(&self) -> bool {
        self.volume < 16 && self.decay < 16
    }

    pub open spec fn volume_of(&self) -> u8 {
        if self.constant_volume {
            self.volume
        } else {
            self.decay
        }
    }

    /// The envelope after a write of `data`.
    pub open spec fn after_write(self, data: u8) -> Envelope {
        Envelope {
            looping: data & 0b0010_0000 != 0,
            constant_volume: data & 0b0001_0000 != 0,
            volume: data % 16,
            ..self
        }
    }

    /// The envelope after a quarter-frame clock: a pending start sets the
    /// decay level to 15 and reloads the divider; otherwise the divider
    /// counts down, and when it expires it reloads and the decay level
    /// steps down (wrapping to 15 when looping).
    pub open spec fn after_tick(self) -> Envelope {
        if self.start {
            Envelope { start: false, decay: 15, divider: self.volume, ..self }
        } else if self.divider == 0 {
            Envelope {
                divider: self.volume,
                decay: if self.decay > 0 {
                    (self.decay - 1) as u8
                } else if self.looping {
                    15
                } else {
                    0
                },
                ..self
            }
        } else {
            Envelope { divider: (self.divider - 1) as u8, ..self }
        }
    }

    pub fn new() -> (e: Envelope)
        ensures
            e == Envelope::initial(),
            e.wf(),
    {
        Envelope { start: false, looping: false, constant_volume: false, volume: 0, divider: 0, decay: 0 }
    }

    /// Bit 5 loops the decay, bit 4 selects constant volume, bits 0-3 are
    /// the volume or decay period.
    pub fn write(&mut self, data: u8)
        ensures
            *final(self) == old(self).after_write(data),
            old(self).wf() ==> final(self).wf(),
    {
        self.looping = data & 0b0010_0000 != 0;
        self.constant_volume = data & 0b0001_0000 != 0;
        let v = data & 0b1111;
        assert(v == data % 16) by (bit_vector)
            requires
                v == data & 0b1111,
        ;
        self.volume = v;
    }

    /// Restarts the decay at the next quarter frame.
    pub fn start(&mut self)
        ensures
            *final(self) == (Envelope { start: true, ..*old(self) }),
    {
        self.start = true;
    }

    /// Quarter-frame clock.
    pub fn tick(&mut self)
        requires
            old(self).wf(),
        ensures
            final(self).wf(),
            *final(self) == old(self).after_tick(),
    {
        if self.start {
            self.start = false;
            self.decay = 15;
            self.divider = self.volume;
        } else if self.divider == 0 {
            self.divider = self.volume;
            if self.decay > 0 {
                self.decay = self.decay - 1;
            } else if self.looping {
                self.decay = 15;
            }
        } else {
            self.divider = self.divider - 1;
        }
    }

    pub fn get_volume(&self) -> (r: u8)
        ensures
            r == self.volume_of(),
    {
        if self.constant_volume {
            self.volume
        } else {
            self.decay
        }
    }
}

} // verus!
