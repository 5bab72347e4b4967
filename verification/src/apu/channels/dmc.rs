use vstd::prelude::*;

verus! {

/// The timer periods that the low four bits of $4010 select.
pub open spec fn dmc_period(index: u8) -> u8 {
    match index {
        0 => 214,
        1 => 190,
        2 => 170,
        3 => 160,
        4 => 143,
        5 => 127,
        6 => 113,
        7 => 107,
        8 => 95,
        9 => 80,
        10 => 71,
        11 => 64,
        12 => 53,
        13 => 42,
        14 => 36,
        _ => 27,
    }
}

fn dmc_period_lookup(index: u8) -> (r: u8)
    ensures
        r == dmc_period(index),
{
    match index {
        0 => 214,
        1 => 190,
        2 => 170,
        3 => 160,
        4 => 143,
        5 => 127,
        6 => 113,
        7 => 107,
        8 => 95,
        9 => 80,
        10 => 71,
        11 => 64,
        12 => 53,
        13 => 42,
        14 => 36,
        _ => 27,
    }
}

/// The delta-modulation channel ($4010-$4013): plays a 1-bit delta sample
/// fetched byte by byte from the program ROM.
pub struct DMCChannel {
    pub prg_rom: Vec<u8>,
    pub irq_enabled: bool,
    pub irq_flag: bool,
    pub enabled: bool,
    pub output: u8,
    pub sample_address: u16,
    pub sample_length: u16,
    pub current_address: u16,
    pub current_length: u16,
    pub shift_register: u8,
    pub bit_count: u8,
    pub period: u8,
    pub counter: u8,
    pub looping: bool,
    pub cpu_stall_cycles: u8,
}

impl DMCChannel {
    /// What clocking the channel needs: a period once it is enabled, and
    /// every byte of the sample being played (and, when looping, of the
    /// sample it restarts) inside `prg_rom`, which the channel indexes by
    /// the address itself.
    pub open spec fn can_tick(&self) -> bool {
        &&& self.enabled ==> self.period >= 1
        &&& self.current_length > 0 ==> self.current_address + self.current_length <= self.prg_rom.len()
        &&& self.looping ==> self.sample_address + self.sample_length <= self.prg_rom.len()
        &&& self.output <= 127
    }

    /// What one timer clock needs: while enabled, the byte due to be
    /// fetched inside `prg_rom`, and a period to reload when the timer is
    /// at 0.
    pub open spec fn tick_ok(&self) -> bool {
        self.enabled ==> {
            &&& self.fetch_ok()
            &&& self.reload_ok()
        }
    }

    /// The memory reader fetches only when a byte is due, and then one that
    /// lies inside `prg_rom`.
    pub open spec fn fetch_ok(&self) -> bool {
        self.current_length > 0 && self.bit_count == 0 ==> self.current_address < self.prg_rom.len()
    }

    /// The output unit reloads the timer from a period of at least 1.
    pub open spec fn reload_ok(&self) -> bool {
        self.counter == 0 ==> self.period >= 1
    }

    /// The channel after the memory reader has run: when a byte is due it
    /// is loaded into the shift register, the address moves on (from $FFFF
    /// to $8000), the length counts down and the end of the sample either
    /// restarts it (looping) or raises the interrupt (when enabled).
    pub open spec fn after_read(self) -> DMCChannel {
        if self.current_length == 0 || self.bit_count != 0 {
            self
        } else {
            let next = if self.current_address == 0xFFFF {
                0x8000u16
            } else {
                (self.current_address + 1) as u16
            };
            let len = (self.current_length - 1) as u16;
            let s1 = DMCChannel {
                cpu_stall_cycles: 4,
                shift_register: self.prg_rom@[self.current_address as int],
                bit_count: 8,
                current_address: next,
                current_length: len,
                ..self
            };
            if len == 0 && self.looping {
                DMCChannel { current_address: self.sample_address, current_length: self.sample_length, ..s1 }
            } else if len == 0 && self.irq_enabled {
                DMCChannel { irq_flag: true, ..s1 }
            } else {
                s1
            }
        }
    }

    /// The channel after the output unit has run: the timer counts down;
    /// at 0 it reloads and, with bits left, bit 0 of the shift register
    /// moves the output up or down by 2 within 0-127.
    pub open spec fn after_shift(self) -> DMCChannel {
        if self.counter != 0 {
            DMCChannel { counter: (self.counter - 1) as u8, ..self }
        } else {
            let s1 = DMCChannel { counter: (self.period - 1) as u8, ..self };
            if self.bit_count == 0 {
                s1
            } else {
                let out = if self.shift_register % 2 == 1 {
                    if self.output <= 125 {
                        (self.output + 2) as u8
                    } else {
                        self.output
                    }
                } else {
                    if self.output >= 2 {
                        (self.output - 2) as u8
                    } else {
                        self.output
                    }
                };
                DMCChannel {
                    output: out,
                    shift_register: self.shift_register / 2,
                    bit_count: (self.bit_count - 1) as u8,
                    ..s1
                }
            }
        }
    }

    /// The channel after it is enabled or disabled: enabling restarts the
    /// sample when none is playing, disabling stops it; the interrupt flag
    /// is cleared.
    pub open spec fn after_set_enabled(self, value: bool) -> DMCChannel {
        if !value {
            DMCChannel { irq_flag: false, enabled: false, current_length: 0, ..self }
        } else if self.current_length == 0 {
            DMCChannel {
                irq_flag: false,
                enabled: true,
                current_address: self.sample_address,
                current_length: self.sample_length,
                ..self
            }
        } else {
            DMCChannel { irq_flag: false, enabled: true, ..self }
        }
    }

    /// The channel after a timer clock: the memory reader, then the output
    /// unit, while enabled.
    pub open spec fn after_tick_sequencer(self) -> DMCChannel {
        if self.enabled {
            self.after_read().after_shift()
        } else {
            self
        }
    }

    /// The channel after a write of `data` to register `addr`.
    pub open spec fn after_write(self, addr: u16, data: u8) -> DMCChannel {
        if addr == 0x4010 {
            DMCChannel {
                irq_enabled: data & 0b1000_0000 != 0,
                irq_flag: self.irq_flag && data & 0b1000_0000 != 0,
                looping: data & 0b1000_0000 != 0,
                period: dmc_period(data % 16),
                ..self
            }
        } else if addr == 0x4011 {
            DMCChannel { output: data % 128, ..self }
        } else if addr == 0x4012 {
            DMCChannel { sample_address: (0xC000 + data * 64) as u16, ..self }
        } else if addr == 0x4013 {
            DMCChannel { sample_length: (1 + data * 16) as u16, ..self }
        } else {
            self
        }
    }

    pub fn new(prg_rom: Vec<u8>) -> (d: DMCChannel)
        ensures
            d.prg_rom@ == prg_rom@,
            !d.irq_enabled && !d.irq_flag && !d.enabled && !d.looping,
            d.output == 0 && d.sample_address == 0 && d.sample_length == 0,
            d.current_address == 0 && d.current_length == 0,
            d.shift_register == 0 && d.bit_count == 0 && d.period == 0 && d.counter == 0,
            d.cpu_stall_cycles == 0,
            d.can_tick(),
    {
        DMCChannel {
            prg_rom: prg_rom,
            irq_enabled: false,
            irq_flag: false,
            enabled: false,
            output: 0,
            sample_address: 0,
            sample_length: 0,
            current_address: 0,
            current_length: 0,
            shift_register: 0,
            bit_count: 0,
            period: 0,
            counter: 0,
            looping: false,
            cpu_stall_cycles: 0,
        }
    }

    /// Returns the cycles the CPU is owed for the last sample fetch and
    /// clears them.
    pub fn reset_stall_cycles(&mut self) -> (c: u8)
        ensures
            c == old(self).cpu_stall_cycles,
            *final(self) == (DMCChannel { cpu_stall_cycles: 0, ..*old(self) }),
    {
        let c = self.cpu_stall_cycles;
        self.cpu_stall_cycles = 0;
        c
    }

    pub fn sample(&self) -> (r: u8)
        ensures
            r == self.output,
    {
        self.output
    }

    /// $4010: interrupt enable and loop (both bit 7) and period; $4011:
    /// direct output level; $4012: sample address $C000 + 64 n; $4013:
    /// sample length 16 n + 1. Other addresses are ignored.
    pub fn write(&mut self, addr: u16, data: u8)
        ensures
            *final(self) == old(self).after_write(addr, data),
    {
        if addr == 0x4010 {
            self.irq_enabled = data & 0b1000_0000 != 0;
            self.irq_flag = self.irq_flag && self.irq_enabled;
            self.looping = data & 0b1000_0000 != 0;
            let i = data & 0x0F;
            assert(i == data % 16) by (bit_vector)
                requires
                    i == data & 0x0F,
            ;
            self.period = dmc_period_lookup(i);
        } else if addr == 0x4011 {
            let o = data & 0b0111_1111;
            assert(o == data % 128) by (bit_vector)
                requires
                    o == data & 0b0111_1111,
            ;
            self.output = o;
        } else if addr == 0x4012 {
            self.sample_address = 0xC000 + (data as u16 * 64);
        } else if addr == 0x4013 {
            self.sample_length = 1 + (data as u16 * 16);
        }
    }

    /// Enabling starts the sample when none is playing; disabling stops it.
    /// Either way the interrupt flag is cleared.
    pub fn set_enabled(&mut self, value: bool)
        ensures
            *final(self) == old(self).after_set_enabled(value),
    {
        self.irq_flag = false;
        self.enabled = value;
        if !self.enabled {
            self.current_length = 0;
            return ;
        }
        if self.current_length == 0 {
            self.restart();
        }
    }

    pub fn restart(&mut self)
        ensures
            *final(self) == (DMCChannel {
                current_address: old(self).sample_address,
                current_length: old(self).sample_length,
                ..*old(self)
            }),
    {
        self.current_address = self.sample_address;
        self.current_length = self.sample_length;
    }

    /// Timer clock: the memory reader, then the output unit, while enabled.
    pub fn tick_sequencer(&mut self)
        requires
            old(self).tick_ok(),
        ensures
            old(self).can_tick() ==> final(self).can_tick(),
            *final(self) == old(self).after_tick_sequencer(),
    {
        if self.enabled {
            self.tick_read();
            self.tick_shift();
        }
    }

    fn tick_read(&mut self)
        requires
            old(self).fetch_ok(),
        ensures
            old(self).can_tick() ==> final(self).can_tick(),
            *final(self) == old(self).after_read(),
    {
        if self.current_length <= 0 || self.bit_count != 0 {
            return ;
        }
        self.cpu_stall_cycles = 4;
        let a: u16 = self.current_address;
        self.shift_register = self.prg_rom[a as usize];
        self.bit_count = 8;
        self.current_address = self.current_address.wrapping_add(1);
        if self.current_address == 0 {
            self.current_address = 0x8000;
        }
        self.current_length = self.current_length - 1;
        if self.current_length == 0 && self.looping {
            self.restart();
            return ;
        }
        if self.current_length == 0 && self.irq_enabled {
            self.irq_flag = true;
        }
    }

    fn tick_shift(&mut self)
        requires
            old(self).reload_ok(),
        ensures
            old(self).can_tick() && old(self).enabled ==> final(self).can_tick(),
            *final(self) == old(self).after_shift(),
    {
        if self.counter != 0 {
            self.counter = self.counter - 1;
            return ;
        }
        self.counter = self.period - 1;
        if self.bit_count == 0 {
            return ;
        }
        let sr = self.shift_register;
        assert((sr & 1 == 1) == (sr % 2 == 1) && sr >> 1u8 == sr / 2) by (bit_vector);
        if self.shift_register & 1 == 1 {
            if self.output <= 125 {
                self.output = self.output + 2;
            }
        } else {
            if self.output >= 2 {
                self.output = self.output - 2;
            }
        }
        self.shift_register = self.shift_register >> 1u8;
        self.bit_count = self.bit_count - 1;
    }

    pub fn playing(&self) -> (r: bool)
        ensures
            r == (self.current_length > 0),
    {
        self.current_length > 0
    }
}

} // verus!
