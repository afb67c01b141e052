use vstd::prelude::*;

verus! {

/// Vertical blank flag (bit 7).
pub const VBLANK: u8 = 0b1000_0000;

/// Sprite 0 hit flag (bit 6).
pub const SPRITE_ZERO: u8 = 0b0100_0000;

/// Sprite overflow flag (bit 5).
pub const SPRITE_OVERFLOW: u8 = 0b0010_0000;

/// The picture unit's status register, as read at 0x2002.
pub struct StatusRegister {
    reg: u8,
}

impl View for StatusRegister {
    type V = u8;

    closed spec fn view(&self) -> u8 {
        self.reg
    }
}

impl Default for StatusRegister {
    fn default() -> (r: StatusRegister)
        ensures
            r@ == 0,
    {
        StatusRegister { reg: 0 }
    }
}

impl StatusRegister {
    pub fn new(reg: u8) -> (r: StatusRegister)
        ensures
            r@ == reg,
    {
        StatusRegister { reg }
    }

    pub fn read(&self) -> (r: u8)
        ensures
            r == self@,
    {
        self.reg
    }

    /// Vertical blank has started: set at dot 1 of line 241, cleared after a read of 0x2002
    /// and at dot 1 of the pre-render line.
    pub fn in_vblank(&self) -> (r: bool)
        ensures
            r == (self@ & VBLANK != 0),
    {
        self.reg & VBLANK != 0
    }

    pub fn set_in_vblank(&mut self)
        ensures
            final(self)@ == old(self)@ | VBLANK,
    {
        self.reg = self.reg | VBLANK;
    }

    pub fn clear_in_vblank(&mut self)
        ensures
            final(self)@ == old(self)@ & !VBLANK,
    {
        self.reg = self.reg & !VBLANK;
    }

    /// Sprite 0 hit: a nonzero pixel of sprite 0 overlapped a nonzero background pixel.
    pub fn sprite_zero_hit(&self) -> (r: bool)
        ensures
            r == (self@ & SPRITE_ZERO != 0),
    {
        self.reg & SPRITE_ZERO != 0
    }

    pub fn set_sprite_zero_hit(&mut self)
        ensures
            final(self)@ == old(self)@ | SPRITE_ZERO,
    {
        self.reg = self.reg | SPRITE_ZERO;
    }

    pub fn clear_sprite_zero_hit(&mut self)
        ensures
            final(self)@ == old(self)@ & !SPRITE_ZERO,
    {
        self.reg = self.reg & !SPRITE_ZERO;
    }

    /// Sprite overflow: set during sprite evaluation, cleared at dot 1 of the pre-render line.
    pub fn sprite_overflow(&self) -> (r: bool)
        ensures
            r == (self@ & SPRITE_OVERFLOW != 0),
    {
        self.reg & SPRITE_OVERFLOW != 0
    }

    pub fn set_sprite_overflow(&mut self)
        ensures
            final(self)@ == old(self)@ | SPRITE_OVERFLOW,
    {
        self.reg = self.reg | SPRITE_OVERFLOW;
    }

    pub fn clear_sprite_overflow(&mut self)
        ensures
            final(self)@ == old(self)@ & !SPRITE_OVERFLOW,
    {
        self.reg = self.reg & !SPRITE_OVERFLOW;
    }
}

} // verus!
