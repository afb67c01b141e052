use vstd::prelude::*;

verus! {

/// A divider that counts down: a clock at zero reloads the period and emits an output clock,
/// any other clock decrements the counter.
pub struct DownCountDivider {
    period: u8,
    counter: u8,
}

impl DownCountDivider {
    pub closed spec fn period_spec(&self) -> u8 {
        self.period
    }

    pub closed spec fn counter_spec(&self) -> u8 {
        self.counter
    }

    pub fn new() -> (r: DownCountDivider)
        ensures
            r.period_spec() == 0,
            r.counter_spec() == 0,
    {
        DownCountDivider { period: 0, counter: 0 }
    }

    /// Clocks the divider; tells whether it emitted an output clock.
    pub fn clock(&mut self) -> (r: bool)
        ensures
            r == (old(self).counter_spec() == 0),
            final(self).period_spec() == old(self).period_spec(),
            final(self).counter_spec() == if old(self).counter_spec() == 0 {
                old(self).period_spec()
            } else {
                (old(self).counter_spec() - 1) as u8
            },
    {
        if self.counter == 0 {
            self.counter = self.period;
            true
        } else {
            self.counter = self.counter - 1;
            false
        }
    }

    /// Restarts the count from the period.
    pub fn reload_period(&mut self)
        ensures
            final(self).period_spec() == old(self).period_spec(),
            final(self).counter_spec() == old(self).period_spec(),
    {
        self.counter = self.period;
    }
}

/// The model of an envelope: its start flag, its decay level and its divider's period and
/// counter.
pub struct EnvelopeState {
    pub start_flag: bool,
    pub decay_counter: u8,
    pub period: u8,
    pub counter: u8,
}

/// One clock from the frame counter. With the start flag set: the flag is cleared, the decay
/// level is loaded with 15 and the divider restarts. Otherwise the divider is clocked, and
/// when it emits, a nonzero decay level is decremented and a zero one is reloaded with 15 if
/// `loop_flag` is set.
pub open spec fn envelope_clock(e: EnvelopeState, loop_flag: bool) -> EnvelopeState {
    if e.start_flag {
        EnvelopeState { start_flag: false, decay_counter: 15, counter: e.period, ..e }
    } else {
        let emit = e.counter == 0;
        let counter = if emit {
            e.period
        } else {
            (e.counter - 1) as u8
        };
        let decay: u8 = if !emit {
            e.decay_counter
        } else if e.decay_counter > 0 {
            (e.decay_counter - 1) as u8
        } else if loop_flag {
            15
        } else {
            0
        };
        EnvelopeState { decay_counter: decay, counter, ..e }
    }
}

/// The volume envelope of an audio channel.
pub struct Envelope {
    start_flag: bool,
    decay_counter: u8,
    divider: DownCountDivider,
}

impl View for Envelope {
    type V = EnvelopeState;

    closed spec fn view(&self) -> EnvelopeState {
        EnvelopeState {
            start_flag: self.start_flag,
            decay_counter: self.decay_counter,
            period: self.divider.period_spec(),
            counter: self.divider.counter_spec(),
        }
    }
}

impl Default for Envelope {
    fn default() -> (r: Envelope)
        ensures
            r@ == (EnvelopeState { start_flag: false, decay_counter: 0, period: 0, counter: 0 }),
    {
        Envelope { start_flag: false, decay_counter: 0, divider: DownCountDivider::new() }
    }
}

impl Envelope {
    pub fn set_start_flag(&mut self)
        ensures
            final(self)@ == (EnvelopeState { start_flag: true, ..old(self)@ }),
    {
        self.start_flag = true;
    }

    /// Clocks the envelope from the frame counter.
    pub fn clock(&mut self, loop_flag: bool)
        ensures
            final(self)@ == envelope_clock(old(self)@, loop_flag),
    {
        let decay_counter = self.decay_counter;
        let mut reload_decay_counter = false;
        let mut counter_decrement_amount: u8 = 0;
        if !self.start_flag {
            if self.divider.clock() {
                if decay_counter > 0 {
                    counter_decrement_amount = 1;
                } else {
                    reload_decay_counter = loop_flag;
                }
            }
        } else {
            self.start_flag = false;
            reload_decay_counter = true;
            self.divider.reload_period();
        }
        if reload_decay_counter {
            self.reload_decay_counter();
        }
        self.decay_counter = self.decay_counter - counter_decrement_amount;
    }

    fn reload_decay_counter(&mut self)
        ensures
            final(self)@ == (EnvelopeState { decay_counter: 15, ..old(self)@ }),
    {
        self.decay_counter = 15;
    }

    /// The current decay level, 0 to 15.
    pub fn decay_level(&self) -> (r: u8)
        ensures
            r == self@.decay_counter,
    {
        self.decay_counter
    }
}

} // verus!
