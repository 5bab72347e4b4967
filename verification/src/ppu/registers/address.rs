use vstd::prelude::*;

verus! {

/// PPUADDR ($2006): a 14-bit VRAM address written high byte first.
pub struct AddressRegister {
    hi: u8,
    lo: u8,
    /// The next write goes to the high byte.
    hi_ptr: bool,
}

impl AddressRegister {
    #[verifier::type_invariant]
    spec fn inv(self) -> bool {
        self.hi < 0x40
    }

    /// The address held, below $4000.
    pub closed spec fn addr(self) -> u16 {
        ((self.hi % 64) * 256 + self.lo) as u16
    }

    /// Whether the next write goes to the high byte.
    pub closed spec fn expects_hi(self) -> bool {
        self.hi_ptr
    }

    pub proof fn lemma_bound(self)
        ensures
            self.addr() < 0x4000,
    {
    }

    pub fn new() -> (r: Self)
        ensures
            r.addr() == 0,
            r.expects_hi(),
    {
        AddressRegister { hi: 0, lo: 0, hi_ptr: true }
    }

    /// The high write keeps the low six bits of `data` (addresses mirror
    /// down below $4000); the low write stores `data`. The latch flips.
    pub fn update(&mut self, data: u8)
        ensures
            final(self).addr() == if old(self).expects_hi() {
                (data % 64) * 256 + old(self).addr() % 256
            } else {
                old(self).addr() - old(self).addr() % 256 + data
            },
            final(self).expects_hi() == !old(self).expects_hi(),
            final(self).addr() < 0x4000,
    {
        proof {
            use_type_invariant(&*self);
        }
        let h = data & 0x3f;
        assert(h == data % 64) by (bit_vector)
            requires
                h == data & 0x3f,
        ;
        if self.hi_ptr {
            *self = AddressRegister { hi: h, lo: self.lo, hi_ptr: false };
        } else {
            *self = AddressRegister { hi: self.hi, lo: data, hi_ptr: true };
        }
    }

    /// Moves the address on by `inc`, wrapping within $0000-$3FFF.
    pub fn increment(&mut self, inc: u8)
        ensures
            final(self).addr() == (old(self).addr() + inc) % 0x4000,
            final(self).expects_hi() == old(self).expects_hi(),
    {
        proof {
            use_type_invariant(&*self);
        }
        let lo = self.lo;
        let new_lo = lo.wrapping_add(inc);
        let mut new_hi = self.hi;
        if lo > new_lo {
            new_hi = new_hi + 1;
        }
        let masked = new_hi & 0x3f;
        assert(masked == new_hi % 64) by (bit_vector)
            requires
                masked == new_hi & 0x3f,
        ;
        *self = AddressRegister { hi: masked, lo: new_lo, hi_ptr: self.hi_ptr };
    }

    pub fn reset_latch(&mut self)
        ensures
            final(self).addr() == old(self).addr(),
            final(self).expects_hi(),
    {
        proof {
            use_type_invariant(&*self);
        }
        *self = AddressRegister { hi: self.hi, lo: self.lo, hi_ptr: true };
    }

    pub fn get(&self) -> (r: u16)
        ensures
            r == self.addr(),
            r < 0x4000,
    {
        proof {
            use_type_invariant(self);
        }
        (self.hi as u16) * 256 + self.lo as u16
    }
}

} // verus!
