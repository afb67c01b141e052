use vstd::prelude::*;

verus! {

/// The registers of the audio unit's triangle channel.
pub struct TriangleGenerator {
    linear_counter_reg: u8,
    timer_low_reg: u8,
    counter_low_timer_high_reg: u8,
}

/// The model of the channel: its three registers, in the order 0x4008, 0x400A, 0x400B.
pub struct TriangleRegs {
    pub linear_counter: u8,
    pub timer_low: u8,
    pub counter_load_timer_high: u8,
}

impl View for TriangleGenerator {
    type V = TriangleRegs;

    closed spec fn view(&self) -> TriangleRegs {
        TriangleRegs {
            linear_counter: self.linear_counter_reg,
            timer_low: self.timer_low_reg,
            counter_load_timer_high: self.counter_low_timer_high_reg,
        }
    }
}

impl Default for TriangleGenerator {
    fn default() -> (r: TriangleGenerator)
        ensures
            r@ == (TriangleRegs { linear_counter: 0, timer_low: 0, counter_load_timer_high: 0 }),
    {
        TriangleGenerator { linear_counter_reg: 0, timer_low_reg: 0, counter_low_timer_high_reg: 0 }
    }
}

impl TriangleGenerator {
    pub fn write_linear_counter_reg(&mut self, val: u8)
        ensures
            final(self)@ == (TriangleRegs { linear_counter: val, ..old(self)@ }),
    {
        self.linear_counter_reg = val;
    }

    pub fn write_timer_low_reg(&mut self, val: u8)
        ensures
            final(self)@ == (TriangleRegs { timer_low: val, ..old(self)@ }),
    {
        self.timer_low_reg = val;
    }

    pub fn write_counter_load_timer_high_reg(&mut self, val: u8)
        ensures
            final(self)@ == (TriangleRegs { counter_load_timer_high: val, ..old(self)@ }),
    {
        self.counter_low_timer_high_reg = val;
    }

    /// The control flag: bit 7 of the linear counter register.
    pub fn control_flag(&self) -> (r: bool)
        ensures
            r == (self@.linear_counter >= 0x80),
    {
        self.linear_counter_reg >= 0b1000_0000
    }

    /// The linear counter's reload value: the low seven bits of its register.
    pub fn counter_reload_value(&self) -> (r: u8)
        ensures
            r == self@.linear_counter % 128,
    {
        self.linear_counter_reg % 128
    }

    /// The 11-bit timer period: the low register, and bits 0-2 of the high register above it.
    pub fn timer_period(&self) -> (r: u16)
        ensures
            r == self@.timer_low as int + (self@.counter_load_timer_high % 8) as int * 256,
    {
        self.timer_low_reg as u16 + ((self.counter_low_timer_high_reg % 8) as u16) * 256
    }
}

} // verus!
