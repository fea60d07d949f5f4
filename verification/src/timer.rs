//! DIV/TIMA/TMA/TAC timer: a 16-bit counter drives both the DIV register and,
//! through a falling-edge detector on a TAC-selected bit, the TIMA counter.
//! A TIMA overflow reloads from TMA after a four-T-cycle delay and requests
//! the timer interrupt.

use vstd::prelude::*;

verus! {

#[derive(Clone, Copy, PartialEq, Eq, Structural)]
pub struct Timer {
    /// Free-running counter, incremented every T-cycle; DIV is its upper byte.
    pub internal_div_counter: u16,
    pub tima: u8,
    pub tma: u8,
    pub tac: u8,
    /// Positive: T-cycles left until TIMA reloads from TMA.  Zero or negative:
    /// no reload pending.
    pub tima_reload_countdown: i8,
    pub prev_timer_trigger_bit_state: bool,
    pub interrupt_request: bool,
}

/// Position of the internal-counter bit that TAC selects to clock TIMA.
pub open spec fn spec_selected_bit(tac: u8) -> u16 {
    if tac & 0x03 == 0 {
        9
    } else if tac & 0x03 == 1 {
        3
    } else if tac & 0x03 == 2 {
        5
    } else {
        7
    }
}

/// The AND gate that clocks TIMA: the selected counter bit, gated by the
/// TAC enable bit.
pub open spec fn spec_trigger_state(div_counter: u16, tac: u8) -> bool {
    tac & 0x04 != 0 && (div_counter >> spec_selected_bit(tac)) & 1 != 0
}

/// State after one T-cycle: counter increments, a pending reload counts down
/// (loading TMA and latching the interrupt when it expires), then a falling
/// edge of the trigger bit increments TIMA unless a reload is pending.
pub open spec fn spec_tick_one(t: Timer) -> Timer {
    let div = ((t.internal_div_counter + 1) % 0x10000) as u16;
    let reload_fires = t.tima_reload_countdown == 1;
    let tima1 = if reload_fires {
        t.tma
    } else {
        t.tima
    };
    let irq1 = if reload_fires {
        true
    } else {
        t.interrupt_request
    };
    let cd1: i8 = if t.tima_reload_countdown > 0 {
        if reload_fires {
            -1 as i8
        } else {
            (t.tima_reload_countdown - 1) as i8
        }
    } else {
        t.tima_reload_countdown
    };
    let cur = spec_trigger_state(div, t.tac);
    let falling = t.prev_timer_trigger_bit_state && !cur;
    let tima2 = if falling && cd1 <= 0 {
        ((tima1 + 1) % 256) as u8
    } else {
        tima1
    };
    let cd2: i8 = if falling && cd1 <= 0 && tima2 == 0 {
        4 as i8
    } else {
        cd1
    };
    Timer {
        internal_div_counter: div,
        tima: tima2,
        tma: t.tma,
        tac: t.tac,
        tima_reload_countdown: cd2,
        prev_timer_trigger_bit_state: cur,
        interrupt_request: irq1,
    }
}

/// `n` repetitions of `spec_tick_one`.
pub open spec fn spec_tick_n(t: Timer, n: nat) -> Timer
    decreases n,
{
    if n == 0 {
        t
    } else {
        spec_tick_one(spec_tick_n(t, (n - 1) as nat))
    }
}

impl Timer {
    pub fn new() -> (r: Timer)
        ensures
            r.internal_div_counter == 0,
            r.tima == 0,
            r.tma == 0,
            r.tac == 0,
            r.tima_reload_countdown == -1,
            r.prev_timer_trigger_bit_state == spec_trigger_state(0, 0),
            !r.interrupt_request,
    {
        let tac: u8 = 0;
        Timer {
            internal_div_counter: 0,
            tima: 0,
            tma: 0,
            tac,
            tima_reload_countdown: -1,
            prev_timer_trigger_bit_state: Timer::get_timer_enable_and_bit_state(0, tac),
            interrupt_request: false,
        }
    }

    /// Evaluate the TIMA-clocking AND gate for a given counter and TAC value.
    pub fn get_timer_enable_and_bit_state(div_counter: u16, tac_val: u8) -> (r: bool)
        ensures
            r == spec_trigger_state(div_counter, tac_val),
    {
        if (tac_val & 0x04) == 0 {
            return false;
        }
        proof {
            crate::bits::lemma_u8_and_le(tac_val, 0x03);
        }
        let selected_bit_pos: u16 = match tac_val & 0x03 {
            0 => 9,
            1 => 3,
            2 => 5,
            _ => 7,
        };
        ((div_counter >> selected_bit_pos) & 1) != 0
    }

    /// Advance by a single T-cycle.
    pub fn tick_one(&mut self)
        ensures
            *final(self) == spec_tick_one(*old(self)),
    {
        self.internal_div_counter = self.internal_div_counter.wrapping_add(1);
        if self.tima_reload_countdown > 0 {
            self.tima_reload_countdown = self.tima_reload_countdown - 1;
            if self.tima_reload_countdown == 0 {
                self.tima = self.tma;
                self.interrupt_request = true;
                self.tima_reload_countdown = -1;
            }
        }
        let current = Timer::get_timer_enable_and_bit_state(self.internal_div_counter, self.tac);
        if self.prev_timer_trigger_bit_state && !current {
            if self.tima_reload_countdown <= 0 {
                self.tima = self.tima.wrapping_add(1);
                if self.tima == 0 {
                    self.tima_reload_countdown = 4;
                }
            }
        }
        self.prev_timer_trigger_bit_state = current;
    }

    /// Advance by the T-cycles one CPU step consumed.
    pub fn tick(&mut self, t_cycles_elapsed: u8)
        ensures
            *final(self) == spec_tick_n(*old(self), t_cycles_elapsed as nat),
    {
        let mut i: u8 = 0;
        while i < t_cycles_elapsed
            invariant
                i <= t_cycles_elapsed,
                *self == spec_tick_n(*old(self), i as nat),
            decreases t_cycles_elapsed - i,
        {
            self.tick_one();
            i = i + 1;
        }
    }

    /// DIV is the upper byte of the internal counter.
    pub fn read_div(&self) -> (r: u8)
        ensures
            r == self.internal_div_counter >> 8,
    {
        proof {
            crate::bits::lemma_u16_shr8_bound(self.internal_div_counter);
        }
        (self.internal_div_counter >> 8) as u8
    }

    /// Any write to DIV clears the internal counter; the forced change of the
    /// trigger bit can itself clock TIMA, exactly as a counted falling edge.
    pub fn write_div(&mut self)
        ensures
            final(self).internal_div_counter == 0,
            final(self).prev_timer_trigger_bit_state == spec_trigger_state(0, old(self).tac),
            final(self).tma == old(self).tma && final(self).tac == old(self).tac,
            final(self).interrupt_request == old(self).interrupt_request,
            ({
                let falling = spec_trigger_state(old(self).internal_div_counter, old(self).tac)
                    && !spec_trigger_state(0, old(self).tac);
                let counted = falling && old(self).tima_reload_countdown <= 0;
                &&& final(self).tima == (if counted {
                    ((old(self).tima + 1) % 256) as u8
                } else {
                    old(self).tima
                })
                &&& final(self).tima_reload_countdown == (if counted && final(self).tima == 0 {
                    4
                } else {
                    old(self).tima_reload_countdown
                })
            }),
    {
        let old_trigger_state = Timer::get_timer_enable_and_bit_state(
            self.internal_div_counter,
            self.tac,
        );
        self.internal_div_counter = 0;
        let new_trigger_state = Timer::get_timer_enable_and_bit_state(
            self.internal_div_counter,
            self.tac,
        );
        if old_trigger_state && !new_trigger_state && self.tima_reload_countdown <= 0 {
            self.tima = self.tima.wrapping_add(1);
            if self.tima == 0 {
                self.tima_reload_countdown = 4;
            }
        }
        self.prev_timer_trigger_bit_state = new_trigger_state;
    }

    pub fn read_tima(&self) -> (r: u8)
        ensures
            r == self.tima,
    {
        self.tima
    }

    /// TIMA writes are dropped during the reload-delay window.
    pub fn write_tima(&mut self, value: u8)
        ensures
            final(self).tima == (if old(self).tima_reload_countdown <= 0 {
                value
            } else {
                old(self).tima
            }),
            *final(self) == (Timer { tima: final(self).tima, ..*old(self) }),
    {
        if self.tima_reload_countdown <= 0 {
            self.tima = value;
        }
    }

    pub fn read_tma(&self) -> (r: u8)
        ensures
            r == self.tma,
    {
        self.tma
    }

    pub fn write_tma(&mut self, value: u8)
        ensures
            *final(self) == (Timer { tma: value, ..*old(self) }),
    {
        self.tma = value;
    }

    /// TAC reads with its unused upper five bits set.
    pub fn read_tac(&self) -> (r: u8)
        ensures
            r == self.tac | 0xF8,
    {
        self.tac | 0xF8
    }

    /// A TAC write keeps only the low three bits; if the write drops the
    /// trigger bit it can clock TIMA, exactly as a counted falling edge.
    pub fn write_tac(&mut self, value: u8)
        ensures
            final(self).tac == value & 0x07,
            final(self).internal_div_counter == old(self).internal_div_counter,
            final(self).prev_timer_trigger_bit_state == spec_trigger_state(
                old(self).internal_div_counter,
                value & 0x07,
            ),
            final(self).tma == old(self).tma,
            final(self).interrupt_request == old(self).interrupt_request,
            ({
                let falling = spec_trigger_state(old(self).internal_div_counter, old(self).tac)
                    && !spec_trigger_state(old(self).internal_div_counter, value & 0x07);
                let counted = falling && old(self).tima_reload_countdown <= 0;
                &&& final(self).tima == (if counted {
                    ((old(self).tima + 1) % 256) as u8
                } else {
                    old(self).tima
                })
                &&& final(self).tima_reload_countdown == (if counted && final(self).tima == 0 {
                    4
                } else {
                    old(self).tima_reload_countdown
                })
            }),
    {
        let old_trigger_state = Timer::get_timer_enable_and_bit_state(
            self.internal_div_counter,
            self.tac,
        );
        self.tac = value & 0x07;
        let new_trigger_state = Timer::get_timer_enable_and_bit_state(
            self.internal_div_counter,
            self.tac,
        );
        if old_trigger_state && !new_trigger_state && self.tima_reload_countdown <= 0 {
            self.tima = self.tima.wrapping_add(1);
            if self.tima == 0 {
                self.tima_reload_countdown = 4;
            }
        }
        self.prev_timer_trigger_bit_state = new_trigger_state;
    }

    /// Hand the latched interrupt request to the caller and clear it.
    pub fn take_interrupt_request(&mut self) -> (r: bool)
        ensures
            r == old(self).interrupt_request,
            *final(self) == (Timer { interrupt_request: false, ..*old(self) }),
    {
        let req = self.interrupt_request;
        self.interrupt_request = false;
        req
    }
}

/// On any single T-cycle with no reload pending, TIMA increments exactly when
/// the trigger bit (selected counter bit AND TAC enable) falls from 1 to 0,
/// and it increments exactly once; on every other such cycle it is unchanged.
pub proof fn lemma_tima_steps_only_on_falling_edge(t: Timer)
    requires
        t.tima_reload_countdown <= 0,
    ensures
        ({
            let div2 = ((t.internal_div_counter + 1) % 0x10000) as u16;
            let falling = t.prev_timer_trigger_bit_state && !spec_trigger_state(div2, t.tac);
            &&& falling ==> spec_tick_one(t).tima == (t.tima + 1) % 256
            &&& !falling ==> spec_tick_one(t).tima == t.tima
        }),
{
}

} // verus!
