//! Audio unit: two pulse channels, a wave channel and a noise channel, all
//! clocked at the CPU rate, plus the 512 Hz frame sequencer that drives
//! length counters, the channel-1 sweep and the volume envelopes.
//!
//! Everything here is digital: each channel produces a 4-bit sample and the
//! resampling accumulator counts how many host samples fall due.  Turning
//! those digital values into analog output (DAC curve, mixing, high-pass
//! filter) is the host's task.

use vstd::prelude::*;

verus! {

pub const CPU_FREQ: u32 = 4194304;

/// CPU cycles per frame-sequencer step (4194304 / 512).
pub const FRAME_SEQUENCER_DIVISOR: u32 = 8192;

/// Ceiling on buffered due samples: once reached, further samples are
/// dropped rather than queued without bound.
pub const SAMPLE_BACKLOG_LIMIT: u32 = 4096;

/// Length counter: while enabled, each even frame-sequencer step counts it
/// down; reaching zero silences the channel.
#[derive(Debug, Clone, Copy, PartialEq, Eq, Structural)]
pub struct LengthCounter {
    pub counter: u16,
    pub enabled: bool,
    pub max_len: u16,
}

/// Counter state after one length tick, and whether the channel stays on.
pub open spec fn spec_lc_tick(lc: LengthCounter) -> (LengthCounter, bool) {
    if lc.enabled && lc.counter > 0 {
        let c = (lc.counter - 1) as u16;
        (LengthCounter { counter: c, ..lc }, c > 0)
    } else {
        (lc, lc.counter > 0)
    }
}

impl LengthCounter {
    pub fn new(max_len: u16) -> (r: LengthCounter)
        ensures
            r == (LengthCounter { counter: 0, enabled: false, max_len }),
    {
        LengthCounter { counter: 0, enabled: false, max_len }
    }

    /// A trigger reloads an expired counter to its maximum.
    pub fn trigger(&mut self)
        ensures
            *final(self) == (LengthCounter {
                counter: if old(self).counter == 0 {
                    old(self).max_len
                } else {
                    old(self).counter
                },
                ..*old(self)
            }),
    {
        if self.counter == 0 {
            self.counter = self.max_len;
        }
    }

    /// One frame-sequencer length step.  Returns false exactly when this tick
    /// silences the channel; the counter never goes below zero.
    pub fn tick(&mut self) -> (still_on: bool)
        ensures
            (*final(self), still_on) == spec_lc_tick(*old(self)),
            final(self).counter <= old(self).counter || !old(self).enabled,
    {
        if self.enabled && self.counter > 0 {
            self.counter = self.counter - 1;
            if self.counter == 0 {
                return false;
            }
        }
        self.counter > 0
    }

    /// A write of length data sets the counter to `max - data`.
    pub fn load(&mut self, length_data: u8)
        requires
            (length_data as u16) < old(self).max_len,
        ensures
            *final(self) == (LengthCounter {
                counter: (old(self).max_len - length_data) as u16,
                ..*old(self)
            }),
    {
        self.counter = self.max_len - (length_data as u16);
    }
}

/// Volume envelope: steps the 4-bit volume up or down once per elapsed
/// period, clocked on frame-sequencer step 7; period 0 freezes it.
#[derive(Debug, Clone, Copy, PartialEq, Eq, Structural)]
pub struct VolumeEnvelope {
    pub initial_volume: u8,
    pub direction: bool,
    pub period: u8,
    pub timer: u8,
    pub volume: u8,
    pub dac_enabled: bool,
}

/// Envelope state after one envelope tick.
pub open spec fn spec_env_tick(e: VolumeEnvelope) -> VolumeEnvelope {
    if e.period == 0 {
        e
    } else {
        let t = if e.timer == 0 {
            0u8
        } else {
            (e.timer - 1) as u8
        };
        if t == 0 {
            let reload = e.period;
            let new_vol = if e.direction {
                if e.volume == 255 {
                    255u8
                } else {
                    (e.volume + 1) as u8
                }
            } else {
                if e.volume == 0 {
                    0u8
                } else {
                    (e.volume - 1) as u8
                }
            };
            VolumeEnvelope {
                timer: reload,
                volume: if new_vol <= 15 {
                    new_vol
                } else {
                    e.volume
                },
                ..e
            }
        } else {
            VolumeEnvelope { timer: t, ..e }
        }
    }
}

impl VolumeEnvelope {
    /// A channel trigger reloads the timer and restores the initial volume.
    pub fn trigger(&mut self)
        ensures
            *final(self) == (VolumeEnvelope {
                timer: if old(self).period == 0 {
                    8u8
                } else {
                    old(self).period
                },
                volume: old(self).initial_volume,
                ..*old(self)
            }),
    {
        self.timer = if self.period == 0 {
            8
        } else {
            self.period
        };
        self.volume = self.initial_volume;
    }

    /// One frame-sequencer envelope step.
    pub fn tick(&mut self)
        ensures
            *final(self) == spec_env_tick(*old(self)),
    {
        if self.period == 0 {
            return ;
        }
        self.timer = self.timer.saturating_sub(1);
        if self.timer == 0 {
            self.timer = if self.period == 0 {
                8
            } else {
                self.period
            };
            let new_vol = if self.direction {
                self.volume.saturating_add(1)
            } else {
                self.volume.saturating_sub(1)
            };
            if new_vol <= 15 {
                self.volume = new_vol;
            }
        }
    }
}

/// Channel-1 frequency sweep.
#[derive(Debug, Clone, Copy, PartialEq, Eq, Structural)]
pub struct Sweep {
    pub period: u8,
    pub direction: bool,
    pub shift: u8,
    pub timer: u8,
    pub enabled: bool,
    pub shadow_freq: u16,
}

/// The swept frequency: shadow adjusted by shadow >> shift, subtracting in
/// negate mode (16-bit wraparound).
pub open spec fn spec_sweep_freq(s: Sweep) -> u16 {
    let offset = s.shadow_freq >> s.shift;
    if s.direction {
        (((s.shadow_freq - offset) % 0x10000 + 0x10000) % 0x10000) as u16
    } else {
        (((s.shadow_freq + offset) % 0x10000) % 0x10000) as u16
    }
}

/// Sweep state after a channel trigger with frequency `freq`.
pub open spec fn spec_sweep_trigger(s: Sweep, freq: u16) -> Sweep {
    let s1 = Sweep {
        shadow_freq: freq,
        timer: if s.period > 0 {
            s.period
        } else {
            8u8
        },
        enabled: s.period > 0 || s.shift > 0,
        ..s
    };
    if s1.shift > 0 && spec_sweep_freq(s1) >= 2048 {
        Sweep { enabled: false, ..s1 }
    } else {
        s1
    }
}

/// (sweep, freq_reg, channel_enabled) after one frame-sequencer sweep step.
pub open spec fn spec_sweep_tick(s: Sweep, freq_reg: u16, ch_on: bool) -> (Sweep, u16, bool) {
    if !s.enabled {
        (s, freq_reg, ch_on)
    } else {
        let t = if s.timer == 0 {
            0u8
        } else {
            (s.timer - 1) as u8
        };
        if t != 0 {
            (Sweep { timer: t, ..s }, freq_reg, ch_on)
        } else {
            let s1 = Sweep {
                timer: if s.period > 0 {
                    s.period
                } else {
                    8u8
                },
                ..s
            };
            if s1.period > 0 {
                let new_freq = spec_sweep_freq(s1);
                if new_freq < 2048 && s1.shift > 0 {
                    let s2 = Sweep { shadow_freq: new_freq, ..s1 };
                    if spec_sweep_freq(s2) >= 2048 {
                        (s2, new_freq, false)
                    } else {
                        (s2, new_freq, ch_on)
                    }
                } else if new_freq >= 2048 {
                    (s1, freq_reg, false)
                } else {
                    (s1, freq_reg, ch_on)
                }
            } else {
                (s1, freq_reg, ch_on)
            }
        }
    }
}

impl Sweep {
    /// The adjusted frequency the sweep would produce next.
    pub fn calculate_new_freq(&self) -> (r: u16)
        requires
            self.shift < 16,
        ensures
            r == spec_sweep_freq(*self),
    {
        let offset = self.shadow_freq >> self.shift;
        if self.direction {
            self.shadow_freq.wrapping_sub(offset)
        } else {
            self.shadow_freq.wrapping_add(offset)
        }
    }

    /// Sweep init on channel trigger: latch the frequency, reload the timer,
    /// and disable the channel at once if the first computed frequency
    /// already overflows.
    pub fn trigger(&mut self, freq: u16) -> (overflow: bool)
        requires
            old(self).shift < 16,
        ensures
            *final(self) == spec_sweep_trigger(*old(self), freq),
            overflow == (final(self).shift > 0 && spec_sweep_freq(
                Sweep { enabled: true, ..*final(self) },
            ) >= 2048),
    {
        self.shadow_freq = freq;
        self.timer = if self.period > 0 {
            self.period
        } else {
            8
        };
        self.enabled = self.period > 0 || self.shift > 0;
        if self.shift > 0 {
            if self.calculate_new_freq() >= 2048 {
                self.enabled = false;
                return true;
            }
        }
        false
    }

    /// One frame-sequencer sweep step, possibly writing the frequency
    /// register back and disabling the channel on overflow.
    pub fn tick(&mut self, freq_reg: &mut u16, channel_enabled: &mut bool)
        requires
            old(self).shift < 16,
        ensures
            (*final(self), *final(freq_reg), *final(channel_enabled)) == spec_sweep_tick(
                *old(self),
                *old(freq_reg),
                *old(channel_enabled),
            ),
    {
        if !self.enabled {
            return ;
        }
        self.timer = self.timer.saturating_sub(1);
        if self.timer == 0 {
            self.timer = if self.period > 0 {
                self.period
            } else {
                8
            };
            if self.period > 0 {
                let new_freq = self.calculate_new_freq();
                if new_freq < 2048 && self.shift > 0 {
                    *freq_reg = new_freq;
                    self.shadow_freq = new_freq;
                    if self.calculate_new_freq() >= 2048 {
                        *channel_enabled = false;
                    }
                } else if new_freq >= 2048 {
                    *channel_enabled = false;
                }
            }
        }
    }
}

/// One of the four 8-step duty patterns, bit `step`.
pub open spec fn spec_duty_bit(pattern: u8, step: u8) -> u8 {
    let row: u8 = if pattern == 0 {
        0x80
    } else if pattern == 1 {
        0x81
    } else if pattern == 2 {
        0xE1
    } else {
        0x7E
    };
    (row >> step) & 1
}

/// Square-wave channel: an 11-bit frequency register reloads the timer with
/// (2048 - freq) * 4 cycles per duty step.
#[derive(Debug, Clone, Copy, PartialEq, Eq, Structural)]
pub struct PulseChannel {
    pub enabled: bool,
    pub length_counter: LengthCounter,
    pub envelope: VolumeEnvelope,
    pub sweep: Sweep,
    pub freq_timer: u32,
    pub freq_reg: u16,
    pub duty_pattern: u8,
    pub duty_step: u8,
}

/// Pulse state after `cycles` CPU cycles.
pub open spec fn spec_pulse_tick(c: PulseChannel, cycles: u32) -> PulseChannel {
    let t = if c.freq_timer <= cycles {
        0u32
    } else {
        (c.freq_timer - cycles) as u32
    };
    if t == 0 {
        let period = ((2048 - c.freq_reg) * 4) as u32;
        PulseChannel {
            freq_timer: if period == 0 {
                32768u32
            } else {
                period
            },
            duty_step: ((c.duty_step + 1) % 8) as u8,
            ..c
        }
    } else {
        PulseChannel { freq_timer: t, ..c }
    }
}

/// Digital pulse output: the envelope volume on the high half of the duty
/// pattern, 0 elsewhere or while the channel or its DAC is off.
pub open spec fn spec_pulse_output(c: PulseChannel) -> u8 {
    if !c.enabled || !c.envelope.dac_enabled {
        0u8
    } else if spec_duty_bit(c.duty_pattern, c.duty_step) == 1 {
        c.envelope.volume
    } else {
        0u8
    }
}

impl PulseChannel {
    /// A silent pulse channel; `with_sweep` names the variant (channel 1
    /// carries the sweep unit), though both start with the sweep inert.
    pub fn new(with_sweep: bool) -> (r: PulseChannel)
        ensures
            r.length_counter == (LengthCounter { counter: 0, enabled: false, max_len: 64 }),
            !r.enabled,
            r.freq_reg == 0,
            r.freq_timer == 0,
            r.duty_pattern == 0,
            r.duty_step == 0,
            r.envelope == (VolumeEnvelope {
                initial_volume: 0,
                direction: false,
                period: 0,
                timer: 0,
                volume: 0,
                dac_enabled: false,
            }),
            r.sweep == (Sweep {
                period: 0,
                direction: false,
                shift: 0,
                timer: 0,
                enabled: false,
                shadow_freq: 0,
            }),
    {
        let _sweep_variant = with_sweep;
        PulseChannel {
            enabled: false,
            length_counter: LengthCounter::new(64),
            envelope: VolumeEnvelope {
                initial_volume: 0,
                direction: false,
                period: 0,
                timer: 0,
                volume: 0,
                dac_enabled: false,
            },
            sweep: Sweep {
                period: 0,
                direction: false,
                shift: 0,
                timer: 0,
                enabled: false,
                shadow_freq: 0,
            },
            freq_timer: 0,
            freq_reg: 0,
            duty_pattern: 0,
            duty_step: 0,
        }
    }

    /// Advance the frequency timer; on expiry reload it and step the duty
    /// position.
    pub fn tick(&mut self, cycles: u32)
        requires
            old(self).freq_reg < 2048,
            old(self).duty_step < 8,
        ensures
            *final(self) == spec_pulse_tick(*old(self), cycles),
            final(self).duty_step < 8,
    {
        self.freq_timer = self.freq_timer.saturating_sub(cycles);
        if self.freq_timer == 0 {
            let period = (2048 - self.freq_reg as u32) * 4;
            self.freq_timer = if period == 0 {
                32768
            } else {
                period
            };
            self.duty_step = (self.duty_step + 1) % 8;
        }
    }

    /// Current digital sample of the channel.
    pub fn output(&self) -> (r: u8)
        requires
            self.duty_step < 8,
        ensures
            r == spec_pulse_output(*self),
    {
        if !self.enabled || !self.envelope.dac_enabled {
            return 0;
        }
        let row: u8 = match self.duty_pattern {
            0 => 0x80,
            1 => 0x81,
            2 => 0xE1,
            _ => 0x7E,
        };
        proof {
            crate::bits::lemma_u8_shr_bound(row, self.duty_step);
        }
        if (row >> self.duty_step) & 1 == 1 {
            self.envelope.volume
        } else {
            0
        }
    }
}

/// Wave channel: plays 32 four-bit samples from wave RAM, two per byte.
/// The 16 wave-RAM bytes live beside the channel in the `Apu`.
#[derive(Debug, Clone, Copy, PartialEq, Eq, Structural)]
pub struct WaveChannel {
    pub enabled: bool,
    pub dac_enabled: bool,
    pub length_counter: LengthCounter,
    pub volume_level: u8,
    pub freq_timer: u32,
    pub freq_reg: u16,
    pub sample_index: u8,
    pub sample_buffer: u8,
}

/// Wave state after `cycles` CPU cycles, reading samples from `wave_ram`.
pub open spec fn spec_wave_tick(c: WaveChannel, wave_ram: Seq<u8>, cycles: u32) -> WaveChannel {
    let t = if c.freq_timer <= cycles {
        0u32
    } else {
        (c.freq_timer - cycles) as u32
    };
    if t == 0 {
        let period = ((2048 - c.freq_reg) * 2) as u32;
        let idx = ((c.sample_index + 1) % 32) as u8;
        let ram_byte = wave_ram[idx as int / 2];
        WaveChannel {
            freq_timer: if period == 0 {
                8192u32
            } else {
                period
            },
            sample_index: idx,
            sample_buffer: if idx % 2 == 0 {
                ram_byte >> 4
            } else {
                ram_byte & 0x0F
            },
            ..c
        }
    } else {
        WaveChannel { freq_timer: t, ..c }
    }
}

/// Digital wave output: the latched nibble shifted by the volume code
/// (mute, full, half, quarter).
pub open spec fn spec_wave_output(c: WaveChannel) -> u8 {
    if !c.enabled || !c.dac_enabled {
        0u8
    } else {
        let shift: u8 = if c.volume_level == 1 {
            0
        } else if c.volume_level == 2 {
            1
        } else if c.volume_level == 3 {
            2
        } else {
            4
        };
        c.sample_buffer >> shift
    }
}

impl WaveChannel {
    pub fn new() -> (r: WaveChannel)
        ensures
            r == (WaveChannel {
                enabled: false,
                dac_enabled: false,
                length_counter: LengthCounter { counter: 0, enabled: false, max_len: 256 },
                volume_level: 0,
                freq_timer: 0,
                freq_reg: 0,
                sample_index: 0,
                sample_buffer: 0,
            }),
    {
        WaveChannel {
            enabled: false,
            dac_enabled: false,
            length_counter: LengthCounter::new(256),
            volume_level: 0,
            freq_timer: 0,
            freq_reg: 0,
            sample_index: 0,
            sample_buffer: 0,
        }
    }

    /// Advance the frequency timer; on expiry step the sample index and latch
    /// the next nibble from wave RAM.
    pub fn tick(&mut self, wave_ram: &Vec<u8>, cycles: u32)
        requires
            old(self).freq_reg < 2048,
            old(self).sample_index < 32,
            wave_ram@.len() == 16,
        ensures
            *final(self) == spec_wave_tick(*old(self), wave_ram@, cycles),
            final(self).sample_index < 32,
    {
        self.freq_timer = self.freq_timer.saturating_sub(cycles);
        if self.freq_timer == 0 {
            let period = (2048 - self.freq_reg as u32) * 2;
            self.freq_timer = if period == 0 {
                8192
            } else {
                period
            };
            self.sample_index = (self.sample_index + 1) % 32;
            let ram_byte = wave_ram[(self.sample_index / 2) as usize];
            self.sample_buffer = if self.sample_index % 2 == 0 {
                ram_byte >> 4
            } else {
                ram_byte & 0x0F
            };
        }
    }

    /// Current digital sample of the channel.
    pub fn output(&self) -> (r: u8)
        ensures
            r == spec_wave_output(*self),
    {
        if !self.enabled || !self.dac_enabled {
            return 0;
        }
        let shift: u8 = match self.volume_level {
            1 => 0,
            2 => 1,
            3 => 2,
            _ => 4,
        };
        proof {
            crate::bits::lemma_u8_shr_bound(self.sample_buffer, shift);
        }
        self.sample_buffer >> shift
    }
}

/// Divisor table of the noise channel.
pub open spec fn spec_noise_divisor(code: u8) -> u32 {
    if code == 0 {
        8
    } else if code == 1 {
        16
    } else if code == 2 {
        32
    } else if code == 3 {
        48
    } else if code == 4 {
        64
    } else if code == 5 {
        80
    } else if code == 6 {
        96
    } else {
        112
    }
}

/// Noise channel: a 15-bit LFSR clocked by divisor << shift.
#[derive(Debug, Clone, Copy, PartialEq, Eq, Structural)]
pub struct NoiseChannel {
    pub enabled: bool,
    pub length_counter: LengthCounter,
    pub envelope: VolumeEnvelope,
    pub freq_timer: u32,
    pub lfsr: u16,
    pub width_mode: bool,
    pub clock_shift: u8,
    pub divisor_code: u8,
}

/// Noise state after `cycles` CPU cycles: on timer expiry, the xor of LFSR
/// bits 0 and 1 shifts in at bit 14 (and bit 6 in width mode).
pub open spec fn spec_noise_tick(c: NoiseChannel, cycles: u32) -> NoiseChannel {
    let t = if c.freq_timer <= cycles {
        0u32
    } else {
        (c.freq_timer - cycles) as u32
    };
    if t == 0 {
        let xor_res = (c.lfsr & 1) ^ ((c.lfsr >> 1) & 1);
        let shifted = (c.lfsr >> 1) | (xor_res << 14);
        let lfsr2 = if c.width_mode {
            (shifted & !(1u16 << 6)) | (xor_res << 6)
        } else {
            shifted
        };
        NoiseChannel {
            freq_timer: (spec_noise_divisor(c.divisor_code) * (1u32 << c.clock_shift)) as u32,
            lfsr: lfsr2,
            ..c
        }
    } else {
        NoiseChannel { freq_timer: t, ..c }
    }
}

/// Digital noise output: the envelope volume while LFSR bit 0 is clear.
pub open spec fn spec_noise_output(c: NoiseChannel) -> u8 {
    if !c.enabled || !c.envelope.dac_enabled {
        0u8
    } else if c.lfsr & 1 == 0 {
        c.envelope.volume
    } else {
        0u8
    }
}

impl NoiseChannel {
    pub fn new() -> (r: NoiseChannel)
        ensures
            r == (NoiseChannel {
                enabled: false,
                length_counter: LengthCounter { counter: 0, enabled: false, max_len: 64 },
                envelope: VolumeEnvelope {
                    initial_volume: 0,
                    direction: false,
                    period: 0,
                    timer: 0,
                    volume: 0,
                    dac_enabled: false,
                },
                freq_timer: 0,
                lfsr: 0x7FFF,
                width_mode: false,
                clock_shift: 0,
                divisor_code: 0,
            }),
    {
        NoiseChannel {
            enabled: false,
            length_counter: LengthCounter::new(64),
            envelope: VolumeEnvelope {
                initial_volume: 0,
                direction: false,
                period: 0,
                timer: 0,
                volume: 0,
                dac_enabled: false,
            },
            freq_timer: 0,
            lfsr: 0x7FFF,
            width_mode: false,
            clock_shift: 0,
            divisor_code: 0,
        }
    }

    /// Advance the frequency timer; on expiry reload it and clock the LFSR.
    pub fn tick(&mut self, cycles: u32)
        requires
            old(self).clock_shift < 16,
        ensures
            *final(self) == spec_noise_tick(*old(self), cycles),
    {
        self.freq_timer = self.freq_timer.saturating_sub(cycles);
        if self.freq_timer == 0 {
            let d: u32 = match self.divisor_code {
                0 => 8,
                1 => 16,
                2 => 32,
                3 => 48,
                4 => 64,
                5 => 80,
                6 => 96,
                _ => 112,
            };
            proof {
                lemma_noise_period_fits(self.clock_shift);
            }
            let period = d * (1u32 << self.clock_shift);
            self.freq_timer = period;
            let xor_res = (self.lfsr & 1) ^ ((self.lfsr >> 1) & 1);
            self.lfsr = self.lfsr >> 1;
            self.lfsr = self.lfsr | (xor_res << 14);
            if self.width_mode {
                self.lfsr = (self.lfsr & !(1u16 << 6)) | (xor_res << 6);
            }
        }
    }

    /// Current digital sample of the channel.
    pub fn output(&self) -> (r: u8)
        ensures
            r == spec_noise_output(*self),
    {
        if !self.enabled || !self.envelope.dac_enabled {
            return 0;
        }
        if (self.lfsr & 1) == 0 {
            self.envelope.volume
        } else {
            0
        }
    }
}

/// The divisor times the shifted clock stays within u32 for shifts below 16.
proof fn lemma_noise_period_fits(shift: u8)
    by (bit_vector)
    requires
        shift < 16,
    ensures
        1u32 << shift <= 0x8000,
        forall|d: u32| d <= 112 ==> #[trigger] (d * (1u32 << shift)) <= 112 * 0x8000,
{
}


/// Scalar register file and channel state of the audio unit.
#[derive(Debug, Clone, Copy, PartialEq, Eq, Structural)]
pub struct ApuCore {
    pub ch1: PulseChannel,
    pub ch2: PulseChannel,
    pub ch3: WaveChannel,
    pub ch4: NoiseChannel,
    pub master_power: bool,
    pub master_vol_left: u8,
    pub master_vol_right: u8,
    pub panning: u8,
    pub cycle_counter: u32,
    pub frame_seq_counter: u32,
    pub frame_seq_step: u8,
    pub cycles_per_output_sample: u32,
    pub due_samples: u32,
}

/// The audio unit: the scalar core plus the 16 bytes of wave RAM.
pub struct Apu {
    pub core: ApuCore,
    pub wave_ram: Vec<u8>,
}

/// Sample snapshot of one channel, for a debug overlay.
#[derive(Debug, Clone, Copy, PartialEq, Eq, Structural)]
pub struct ApuChannelState {
    pub enabled: bool,
    pub volume: u8,
    pub freq_reg: u16,
}

/// Snapshot of all four channels and the wave RAM.
#[derive(Debug, Clone)]
pub struct ApuState {
    pub ch1: ApuChannelState,
    pub ch2: ApuChannelState,
    pub ch3: ApuChannelState,
    pub ch4: ApuChannelState,
    pub wave_ram: Vec<u8>,
}

/// Length phase of a frame-sequencer step: on even steps every length
/// counter ticks and a counter reaching zero silences its channel.
pub open spec fn spec_fs_lengths(c: ApuCore) -> ApuCore {
    if c.frame_seq_step % 2 == 0 {
        let (lc1, on1) = spec_lc_tick(c.ch1.length_counter);
        let (lc2, on2) = spec_lc_tick(c.ch2.length_counter);
        let (lc3, on3) = spec_lc_tick(c.ch3.length_counter);
        let (lc4, on4) = spec_lc_tick(c.ch4.length_counter);
        ApuCore {
            ch1: PulseChannel { length_counter: lc1, enabled: c.ch1.enabled && on1, ..c.ch1 },
            ch2: PulseChannel { length_counter: lc2, enabled: c.ch2.enabled && on2, ..c.ch2 },
            ch3: WaveChannel { length_counter: lc3, enabled: c.ch3.enabled && on3, ..c.ch3 },
            ch4: NoiseChannel { length_counter: lc4, enabled: c.ch4.enabled && on4, ..c.ch4 },
            ..c
        }
    } else {
        c
    }
}

/// Sweep phase of a frame-sequencer step: channel 1's sweep ticks on steps
/// 2 and 6.
pub open spec fn spec_fs_sweep(c: ApuCore) -> ApuCore {
    if c.frame_seq_step == 2 || c.frame_seq_step == 6 {
        let (sw, fr, en) = spec_sweep_tick(c.ch1.sweep, c.ch1.freq_reg, c.ch1.enabled);
        ApuCore { ch1: PulseChannel { sweep: sw, freq_reg: fr, enabled: en, ..c.ch1 }, ..c }
    } else {
        c
    }
}

/// Envelope phase of a frame-sequencer step: envelopes tick on step 7.
pub open spec fn spec_fs_envelopes(c: ApuCore) -> ApuCore {
    if c.frame_seq_step == 7 {
        ApuCore {
            ch1: PulseChannel { envelope: spec_env_tick(c.ch1.envelope), ..c.ch1 },
            ch2: PulseChannel { envelope: spec_env_tick(c.ch2.envelope), ..c.ch2 },
            ch4: NoiseChannel { envelope: spec_env_tick(c.ch4.envelope), ..c.ch4 },
            ..c
        }
    } else {
        c
    }
}

/// Core after one frame-sequencer step: lengths on even steps, sweep on
/// steps 2 and 6, envelopes on step 7; the step counter advances modulo 8.
pub open spec fn spec_frame_seq_step(c: ApuCore) -> ApuCore {
    let c3 = spec_fs_envelopes(spec_fs_sweep(spec_fs_lengths(c)));
    ApuCore { frame_seq_step: ((c3.frame_seq_step + 1) % 8) as u8, ..c3 }
}

/// Drain the resampling accumulator: one due sample per full divisor, with
/// the backlog capped at `SAMPLE_BACKLOG_LIMIT`.
pub open spec fn spec_drain_samples(cc: u32, due: u32, cps: u32) -> (u32, u32)
    decreases cc,
{
    if cps == 0 {
        (cc, due)
    } else if cc >= cps {
        spec_drain_samples(
            (cc - cps) as u32,
            if due < SAMPLE_BACKLOG_LIMIT {
                (due + 1) as u32
            } else {
                due
            },
            cps,
        )
    } else {
        (cc, due)
    }
}

/// Channel-and-sequencer part of a tick: runs only under master power.
pub open spec fn spec_apu_tick_channels(c: ApuCore, wave_ram: Seq<u8>, cycles: u8) -> ApuCore {
    if c.master_power {
        let stepped = ApuCore {
            ch1: spec_pulse_tick(c.ch1, cycles as u32),
            ch2: spec_pulse_tick(c.ch2, cycles as u32),
            ch3: spec_wave_tick(c.ch3, wave_ram, cycles as u32),
            ch4: spec_noise_tick(c.ch4, cycles as u32),
            frame_seq_counter: (c.frame_seq_counter + cycles) as u32,
            ..c
        };
        if stepped.frame_seq_counter >= FRAME_SEQUENCER_DIVISOR {
            spec_frame_seq_step(
                ApuCore {
                    frame_seq_counter: (stepped.frame_seq_counter
                        - FRAME_SEQUENCER_DIVISOR) as u32,
                    ..stepped
                },
            )
        } else {
            stepped
        }
    } else {
        c
    }
}

/// Core after `cycles` CPU cycles: channels and frame sequencer advance only
/// under master power; the resampling accumulator always runs.
pub open spec fn spec_apu_tick(c: ApuCore, wave_ram: Seq<u8>, cycles: u8) -> ApuCore {
    let c1 = spec_apu_tick_channels(c, wave_ram, cycles);
    let (cc, due) = spec_drain_samples(
        (c1.cycle_counter + cycles) as u32,
        c1.due_samples,
        c1.cycles_per_output_sample,
    );
    ApuCore { cycle_counter: cc, due_samples: due, ..c1 }
}

/// A sweep step never writes an out-of-range frequency back.
pub proof fn lemma_sweep_tick_freq_bound(s: Sweep, fr: u16, on: bool)
    requires
        fr < 2048,
    ensures
        spec_sweep_tick(s, fr, on).1 < 2048,
{
}

impl ApuCore {
    /// Structural bounds every reachable core state keeps.
    pub open spec fn wf(self) -> bool {
        &&& self.ch1.freq_reg < 2048
        &&& self.ch2.freq_reg < 2048
        &&& self.ch3.freq_reg < 2048
        &&& self.ch1.duty_step < 8
        &&& self.ch2.duty_step < 8
        &&& self.ch3.sample_index < 32
        &&& self.ch4.clock_shift < 16
        &&& self.ch1.sweep.shift < 16
        &&& self.ch1.length_counter.max_len == 64
        &&& self.ch2.length_counter.max_len == 64
        &&& self.ch3.length_counter.max_len == 256
        &&& self.ch4.length_counter.max_len == 64
        &&& self.frame_seq_step < 8
        &&& self.frame_seq_counter < FRAME_SEQUENCER_DIVISOR
        &&& 1 <= self.cycles_per_output_sample <= CPU_FREQ
        &&& self.cycle_counter < self.cycles_per_output_sample
        &&& self.due_samples <= SAMPLE_BACKLOG_LIMIT
    }

    /// Length phase of a frame-sequencer step.
    fn fs_lengths(&mut self)
        ensures
            *final(self) == spec_fs_lengths(*old(self)),
    {
        if self.frame_seq_step % 2 == 0 {
            if !self.ch1.length_counter.tick() {
                self.ch1.enabled = false;
            }
            if !self.ch2.length_counter.tick() {
                self.ch2.enabled = false;
            }
            if !self.ch3.length_counter.tick() {
                self.ch3.enabled = false;
            }
            if !self.ch4.length_counter.tick() {
                self.ch4.enabled = false;
            }
        }
    }

    /// Sweep phase of a frame-sequencer step.
    fn fs_sweep(&mut self)
        requires
            old(self).ch1.sweep.shift < 16,
        ensures
            *final(self) == spec_fs_sweep(*old(self)),
    {
        if self.frame_seq_step == 2 || self.frame_seq_step == 6 {
            let mut freq_reg = self.ch1.freq_reg;
            let mut ch_enabled = self.ch1.enabled;
            self.ch1.sweep.tick(&mut freq_reg, &mut ch_enabled);
            self.ch1.freq_reg = freq_reg;
            self.ch1.enabled = ch_enabled;
        }
    }

    /// Envelope phase of a frame-sequencer step.
    fn fs_envelopes(&mut self)
        ensures
            *final(self) == spec_fs_envelopes(*old(self)),
    {
        if self.frame_seq_step == 7 {
            self.ch1.envelope.tick();
            self.ch2.envelope.tick();
            self.ch4.envelope.tick();
        }
    }

    /// One frame-sequencer step.
    pub fn step_frame_sequencer(&mut self)
        requires
            old(self).ch1.sweep.shift < 16,
            old(self).frame_seq_step < 8,
        ensures
            *final(self) == spec_frame_seq_step(*old(self)),
    {
        self.fs_lengths();
        self.fs_sweep();
        self.fs_envelopes();
        self.frame_seq_step = (self.frame_seq_step + 1) % 8;
    }
}


/// Length counter after a channel trigger.
pub open spec fn spec_lc_trigger(lc: LengthCounter) -> LengthCounter {
    LengthCounter {
        counter: if lc.counter == 0 {
            lc.max_len
        } else {
            lc.counter
        },
        ..lc
    }
}

/// Envelope after a channel trigger.
pub open spec fn spec_env_trigger(e: VolumeEnvelope) -> VolumeEnvelope {
    VolumeEnvelope {
        timer: if e.period == 0 {
            8u8
        } else {
            e.period
        },
        volume: e.initial_volume,
        ..e
    }
}

/// Register-backed state after master power turns off: every value a write
/// could set returns to zero and all channels fall silent; wave RAM, timers
/// and counters are untouched.
pub open spec fn spec_power_off_clear(c: ApuCore) -> ApuCore {
    ApuCore {
        ch1: PulseChannel {
            enabled: false,
            duty_pattern: 0,
            freq_reg: 0,
            sweep: Sweep { period: 0, direction: false, shift: 0, ..c.ch1.sweep },
            envelope: VolumeEnvelope {
                initial_volume: 0,
                direction: false,
                period: 0,
                dac_enabled: false,
                ..c.ch1.envelope
            },
            length_counter: LengthCounter { enabled: false, ..c.ch1.length_counter },
            ..c.ch1
        },
        ch2: PulseChannel {
            enabled: false,
            duty_pattern: 0,
            freq_reg: 0,
            envelope: VolumeEnvelope {
                initial_volume: 0,
                direction: false,
                period: 0,
                dac_enabled: false,
                ..c.ch2.envelope
            },
            length_counter: LengthCounter { enabled: false, ..c.ch2.length_counter },
            ..c.ch2
        },
        ch3: WaveChannel {
            enabled: false,
            dac_enabled: false,
            volume_level: 0,
            freq_reg: 0,
            length_counter: LengthCounter { enabled: false, ..c.ch3.length_counter },
            ..c.ch3
        },
        ch4: NoiseChannel {
            enabled: false,
            envelope: VolumeEnvelope {
                initial_volume: 0,
                direction: false,
                period: 0,
                dac_enabled: false,
                ..c.ch4.envelope
            },
            length_counter: LengthCounter { enabled: false, ..c.ch4.length_counter },
            width_mode: false,
            clock_shift: 0,
            divisor_code: 0,
            ..c.ch4
        },
        master_vol_left: 0,
        master_vol_right: 0,
        panning: 0,
        ..c
    }
}

/// Core after a register write while master power is on (every address but
/// the master-power register and wave RAM).
pub open spec fn spec_write_reg_core(c: ApuCore, addr: u16, val: u8) -> ApuCore {
    if addr == 0xFF10 {
        ApuCore {
            ch1: PulseChannel {
                sweep: Sweep {
                    period: (val >> 4) & 7,
                    direction: val & 8 != 0,
                    shift: val & 7,
                    ..c.ch1.sweep
                },
                ..c.ch1
            },
            ..c
        }
    } else if addr == 0xFF11 {
        ApuCore {
            ch1: PulseChannel {
                duty_pattern: val >> 6,
                length_counter: LengthCounter {
                    counter: (c.ch1.length_counter.max_len - (val & 0x3F)) as u16,
                    ..c.ch1.length_counter
                },
                ..c.ch1
            },
            ..c
        }
    } else if addr == 0xFF12 {
        let dac = val & 0xF8 != 0;
        ApuCore {
            ch1: PulseChannel {
                envelope: VolumeEnvelope {
                    initial_volume: val >> 4,
                    direction: val & 8 != 0,
                    period: val & 7,
                    dac_enabled: dac,
                    ..c.ch1.envelope
                },
                enabled: if dac {
                    c.ch1.enabled
                } else {
                    false
                },
                ..c.ch1
            },
            ..c
        }
    } else if addr == 0xFF13 {
        ApuCore {
            ch1: PulseChannel {
                freq_reg: ((c.ch1.freq_reg & 0xFF00) | (val as u16)) as u16,
                ..c.ch1
            },
            ..c
        }
    } else if addr == 0xFF14 {
        let fr = ((c.ch1.freq_reg & 0x00FF) | (((val & 7) as u16) << 8)) as u16;
        let ch = PulseChannel {
            freq_reg: fr,
            length_counter: LengthCounter {
                enabled: val & 0x40 != 0,
                ..c.ch1.length_counter
            },
            ..c.ch1
        };
        if val & 0x80 != 0 {
            let en1 = if ch.envelope.dac_enabled {
                true
            } else {
                ch.enabled
            };
            let sw = spec_sweep_trigger(ch.sweep, fr);
            let overflow = sw.shift > 0 && spec_sweep_freq(Sweep { enabled: true, ..sw })
                >= 2048;
            ApuCore {
                ch1: PulseChannel {
                    enabled: if overflow {
                        false
                    } else {
                        en1
                    },
                    length_counter: spec_lc_trigger(ch.length_counter),
                    envelope: spec_env_trigger(ch.envelope),
                    sweep: sw,
                    ..ch
                },
                ..c
            }
        } else {
            ApuCore { ch1: ch, ..c }
        }
    } else if addr == 0xFF16 {
        ApuCore {
            ch2: PulseChannel {
                duty_pattern: val >> 6,
                length_counter: LengthCounter {
                    counter: (c.ch2.length_counter.max_len - (val & 0x3F)) as u16,
                    ..c.ch2.length_counter
                },
                ..c.ch2
            },
            ..c
        }
    } else if addr == 0xFF17 {
        let dac = val & 0xF8 != 0;
        ApuCore {
            ch2: PulseChannel {
                envelope: VolumeEnvelope {
                    initial_volume: val >> 4,
                    direction: val & 8 != 0,
                    period: val & 7,
                    dac_enabled: dac,
                    ..c.ch2.envelope
                },
                enabled: if dac {
                    c.ch2.enabled
                } else {
                    false
                },
                ..c.ch2
            },
            ..c
        }
    } else if addr == 0xFF18 {
        ApuCore {
            ch2: PulseChannel {
                freq_reg: ((c.ch2.freq_reg & 0xFF00) | (val as u16)) as u16,
                ..c.ch2
            },
            ..c
        }
    } else if addr == 0xFF19 {
        let fr = ((c.ch2.freq_reg & 0x00FF) | (((val & 7) as u16) << 8)) as u16;
        let ch = PulseChannel {
            freq_reg: fr,
            length_counter: LengthCounter {
                enabled: val & 0x40 != 0,
                ..c.ch2.length_counter
            },
            ..c.ch2
        };
        if val & 0x80 != 0 {
            ApuCore {
                ch2: PulseChannel {
                    enabled: if ch.envelope.dac_enabled {
                        true
                    } else {
                        ch.enabled
                    },
                    length_counter: spec_lc_trigger(ch.length_counter),
                    envelope: spec_env_trigger(ch.envelope),
                    ..ch
                },
                ..c
            }
        } else {
            ApuCore { ch2: ch, ..c }
        }
    } else if addr == 0xFF1A {
        let dac = val & 0x80 != 0;
        ApuCore {
            ch3: WaveChannel {
                dac_enabled: dac,
                enabled: if dac {
                    c.ch3.enabled
                } else {
                    false
                },
                ..c.ch3
            },
            ..c
        }
    } else if addr == 0xFF1B {
        ApuCore {
            ch3: WaveChannel {
                length_counter: LengthCounter {
                    counter: (c.ch3.length_counter.max_len - val) as u16,
                    ..c.ch3.length_counter
                },
                ..c.ch3
            },
            ..c
        }
    } else if addr == 0xFF1C {
        ApuCore { ch3: WaveChannel { volume_level: (val >> 5) & 3, ..c.ch3 }, ..c }
    } else if addr == 0xFF1D {
        ApuCore {
            ch3: WaveChannel {
                freq_reg: ((c.ch3.freq_reg & 0xFF00) | (val as u16)) as u16,
                ..c.ch3
            },
            ..c
        }
    } else if addr == 0xFF1E {
        let fr = ((c.ch3.freq_reg & 0x00FF) | (((val & 7) as u16) << 8)) as u16;
        let ch = WaveChannel {
            freq_reg: fr,
            length_counter: LengthCounter {
                enabled: val & 0x40 != 0,
                ..c.ch3.length_counter
            },
            ..c.ch3
        };
        if val & 0x80 != 0 {
            ApuCore {
                ch3: WaveChannel {
                    enabled: if ch.dac_enabled {
                        true
                    } else {
                        ch.enabled
                    },
                    length_counter: spec_lc_trigger(ch.length_counter),
                    sample_index: 0,
                    ..ch
                },
                ..c
            }
        } else {
            ApuCore { ch3: ch, ..c }
        }
    } else if addr == 0xFF20 {
        ApuCore {
            ch4: NoiseChannel {
                length_counter: LengthCounter {
                    counter: (c.ch4.length_counter.max_len - (val & 0x3F)) as u16,
                    ..c.ch4.length_counter
                },
                ..c.ch4
            },
            ..c
        }
    } else if addr == 0xFF21 {
        let dac = val & 0xF8 != 0;
        ApuCore {
            ch4: NoiseChannel {
                envelope: VolumeEnvelope {
                    initial_volume: val >> 4,
                    direction: val & 8 != 0,
                    period: val & 7,
                    dac_enabled: dac,
                    ..c.ch4.envelope
                },
                enabled: if dac {
                    c.ch4.enabled
                } else {
                    false
                },
                ..c.ch4
            },
            ..c
        }
    } else if addr == 0xFF22 {
        ApuCore {
            ch4: NoiseChannel {
                clock_shift: val >> 4,
                width_mode: val & 8 != 0,
                divisor_code: val & 7,
                ..c.ch4
            },
            ..c
        }
    } else if addr == 0xFF23 {
        let ch = NoiseChannel {
            length_counter: LengthCounter {
                enabled: val & 0x40 != 0,
                ..c.ch4.length_counter
            },
            ..c.ch4
        };
        if val & 0x80 != 0 {
            ApuCore {
                ch4: NoiseChannel {
                    enabled: if ch.envelope.dac_enabled {
                        true
                    } else {
                        ch.enabled
                    },
                    length_counter: spec_lc_trigger(ch.length_counter),
                    envelope: spec_env_trigger(ch.envelope),
                    lfsr: 0xFFFF,
                    ..ch
                },
                ..c
            }
        } else {
            ApuCore { ch4: ch, ..c }
        }
    } else if addr == 0xFF24 {
        ApuCore { master_vol_right: val & 7, master_vol_left: (val >> 4) & 7, ..c }
    } else if addr == 0xFF25 {
        ApuCore { panning: val, ..c }
    } else {
        c
    }
}

/// Core after any register write: the master-power register always works;
/// with power off every other core write is ignored.
pub open spec fn spec_write_reg(c: ApuCore, addr: u16, val: u8) -> ApuCore {
    if addr == 0xFF26 {
        let on = val & 0x80 != 0;
        if !c.master_power && on {
            ApuCore { master_power: true, frame_seq_step: 0, ..c }
        } else if c.master_power && !on {
            spec_power_off_clear(ApuCore { master_power: false, ..c })
        } else {
            c
        }
    } else if 0xFF30 <= addr && addr <= 0xFF3F {
        c
    } else if !c.master_power {
        c
    } else {
        spec_write_reg_core(c, addr, val)
    }
}

/// The value a register read returns: writable bits of the addressed
/// register, or-ed with that register's always-set mask.
pub open spec fn spec_read_reg(c: ApuCore, wave_ram: Seq<u8>, addr: u16) -> u8 {
    if addr == 0xFF10 {
        ((c.ch1.sweep.period << 4) | ((if c.ch1.sweep.direction {
            1u8
        } else {
            0u8
        }) << 3) | c.ch1.sweep.shift | 0x80) as u8
    } else if addr == 0xFF11 {
        ((c.ch1.duty_pattern << 6) | 0x3F) as u8
    } else if addr == 0xFF12 {
        ((c.ch1.envelope.initial_volume << 4) | ((if c.ch1.envelope.direction {
            1u8
        } else {
            0u8
        }) << 3) | c.ch1.envelope.period) as u8
    } else if addr == 0xFF14 {
        ((if c.ch1.length_counter.enabled {
            0x40u8
        } else {
            0u8
        }) | 0xBF) as u8
    } else if addr == 0xFF16 {
        ((c.ch2.duty_pattern << 6) | 0x3F) as u8
    } else if addr == 0xFF17 {
        ((c.ch2.envelope.initial_volume << 4) | ((if c.ch2.envelope.direction {
            1u8
        } else {
            0u8
        }) << 3) | c.ch2.envelope.period) as u8
    } else if addr == 0xFF19 {
        ((if c.ch2.length_counter.enabled {
            0x40u8
        } else {
            0u8
        }) | 0xBF) as u8
    } else if addr == 0xFF1A {
        ((if c.ch3.dac_enabled {
            0x80u8
        } else {
            0u8
        }) | 0x7F) as u8
    } else if addr == 0xFF1C {
        ((c.ch3.volume_level << 5) | 0x9F) as u8
    } else if addr == 0xFF1E {
        ((if c.ch3.length_counter.enabled {
            0x40u8
        } else {
            0u8
        }) | 0xBF) as u8
    } else if addr == 0xFF21 {
        ((c.ch4.envelope.initial_volume << 4) | ((if c.ch4.envelope.direction {
            1u8
        } else {
            0u8
        }) << 3) | c.ch4.envelope.period) as u8
    } else if addr == 0xFF22 {
        ((c.ch4.clock_shift << 4) | ((if c.ch4.width_mode {
            1u8
        } else {
            0u8
        }) << 3) | c.ch4.divisor_code) as u8
    } else if addr == 0xFF23 {
        ((if c.ch4.length_counter.enabled {
            0x40u8
        } else {
            0u8
        }) | 0xBF) as u8
    } else if addr == 0xFF24 {
        (((c.master_vol_left & 7) << 4) | (c.master_vol_right & 7)) as u8
    } else if addr == 0xFF25 {
        c.panning
    } else if addr == 0xFF26 {
        ((if c.master_power {
            0x80u8
        } else {
            0u8
        }) | (if c.ch4.enabled {
            0x08u8
        } else {
            0u8
        }) | (if c.ch3.enabled {
            0x04u8
        } else {
            0u8
        }) | (if c.ch2.enabled {
            0x02u8
        } else {
            0u8
        }) | (if c.ch1.enabled {
            0x01u8
        } else {
            0u8
        }) | 0x70) as u8
    } else if 0xFF30 <= addr && addr <= 0xFF3F {
        if c.ch3.enabled {
            0xFFu8
        } else {
            wave_ram[addr - 0xFF30]
        }
    } else {
        0xFFu8
    }
}

impl Apu {
    /// Well-formed audio unit: bounded core and 16 bytes of wave RAM.
    pub open spec fn wf(self) -> bool {
        &&& self.core.wf()
        &&& self.wave_ram@.len() == 16
    }

    /// A fresh, powered-down audio unit resampling to `output_sample_rate`
    /// host samples per second.
    pub fn new(output_sample_rate: u32) -> (r: Apu)
        requires
            1 <= output_sample_rate <= CPU_FREQ,
        ensures
            r.wf(),
            !r.core.master_power,
            r.core.frame_seq_step == 0,
            r.core.due_samples == 0,
            r.core.cycles_per_output_sample == CPU_FREQ / output_sample_rate,
            r.core.ch4.lfsr == 0x7FFF,
            forall|i: int| 0 <= i < 16 ==> r.wave_ram@[i] == 0,
    {
        let cps = CPU_FREQ / output_sample_rate;
        assert(1 <= cps <= CPU_FREQ) by (nonlinear_arith)
            requires
                1 <= output_sample_rate <= CPU_FREQ,
                cps == CPU_FREQ / output_sample_rate,
        ;
        Apu {
            core: ApuCore {
                ch1: PulseChannel::new(true),
                ch2: PulseChannel::new(false),
                ch3: WaveChannel::new(),
                ch4: NoiseChannel::new(),
                master_power: false,
                master_vol_left: 0,
                master_vol_right: 0,
                panning: 0,
                cycle_counter: 0,
                frame_seq_counter: 0,
                frame_seq_step: 0,
                cycles_per_output_sample: cps,
                due_samples: 0,
            },
            wave_ram: vec![0u8; 16],
        }
    }

    /// Channel-and-sequencer part of a tick.
    #[verifier::rlimit(100)]
    fn tick_channels(&mut self, cycles: u8)
        requires
            old(self).wf(),
        ensures
            final(self).wf(),
            final(self).core == spec_apu_tick_channels(
                old(self).core,
                old(self).wave_ram@,
                cycles,
            ),
            final(self).wave_ram@ == old(self).wave_ram@,
            final(self).core.cycle_counter == old(self).core.cycle_counter,
            final(self).core.due_samples == old(self).core.due_samples,
            final(self).core.cycles_per_output_sample
                == old(self).core.cycles_per_output_sample,
    {
        if self.core.master_power {
            self.core.ch1.tick(cycles as u32);
            self.core.ch2.tick(cycles as u32);
            self.core.ch3.tick(&self.wave_ram, cycles as u32);
            self.core.ch4.tick(cycles as u32);
            self.core.frame_seq_counter = self.core.frame_seq_counter + cycles as u32;
            if self.core.frame_seq_counter >= FRAME_SEQUENCER_DIVISOR {
                self.core.frame_seq_counter = self.core.frame_seq_counter
                    - FRAME_SEQUENCER_DIVISOR;
                proof {
                    lemma_sweep_tick_freq_bound(
                        spec_fs_lengths(self.core).ch1.sweep,
                        spec_fs_lengths(self.core).ch1.freq_reg,
                        spec_fs_lengths(self.core).ch1.enabled,
                    );
                }
                self.core.step_frame_sequencer();
            }
        }
    }

    /// Advance the audio unit by the T-cycles one CPU step consumed.
    pub fn tick(&mut self, cycles: u8)
        requires
            old(self).wf(),
        ensures
            final(self).wf(),
            final(self).core == spec_apu_tick(old(self).core, old(self).wave_ram@, cycles),
            final(self).wave_ram@ == old(self).wave_ram@,
    {
        self.tick_channels(cycles);
        let ghost c1 = self.core;
        self.core.cycle_counter = self.core.cycle_counter + cycles as u32;
        while self.core.cycle_counter >= self.core.cycles_per_output_sample
            invariant
                self.wave_ram@ == old(self).wave_ram@,
                c1.wf(),
                self.core == (ApuCore {
                    cycle_counter: self.core.cycle_counter,
                    due_samples: self.core.due_samples,
                    ..c1
                }),
                self.core.due_samples <= SAMPLE_BACKLOG_LIMIT,
                spec_drain_samples(
                    self.core.cycle_counter,
                    self.core.due_samples,
                    self.core.cycles_per_output_sample,
                ) == spec_drain_samples(
                    (c1.cycle_counter + cycles) as u32,
                    c1.due_samples,
                    c1.cycles_per_output_sample,
                ),
            decreases self.core.cycle_counter,
        {
            self.core.cycle_counter = self.core.cycle_counter
                - self.core.cycles_per_output_sample;
            if self.core.due_samples < SAMPLE_BACKLOG_LIMIT {
                self.core.due_samples = self.core.due_samples + 1;
            }
        }
    }

    /// Read of an APU register or wave RAM through the register file.
    pub fn read_reg(&self, addr: u16) -> (r: u8)
        requires
            self.wf(),
        ensures
            r == spec_read_reg(self.core, self.wave_ram@, addr),
    {
        match addr {
            0xFF10 => {
                let d: u8 = if self.core.ch1.sweep.direction {
                    1
                } else {
                    0
                };
                (self.core.ch1.sweep.period << 4) | (d << 3) | self.core.ch1.sweep.shift | 0x80
            },
            0xFF11 => (self.core.ch1.duty_pattern << 6) | 0x3F,
            0xFF12 => {
                let d: u8 = if self.core.ch1.envelope.direction {
                    1
                } else {
                    0
                };
                (self.core.ch1.envelope.initial_volume << 4) | (d << 3)
                    | self.core.ch1.envelope.period
            },
            0xFF14 => (if self.core.ch1.length_counter.enabled {
                0x40u8
            } else {
                0x00u8
            }) | 0xBF,
            0xFF16 => (self.core.ch2.duty_pattern << 6) | 0x3F,
            0xFF17 => {
                let d: u8 = if self.core.ch2.envelope.direction {
                    1
                } else {
                    0
                };
                (self.core.ch2.envelope.initial_volume << 4) | (d << 3)
                    | self.core.ch2.envelope.period
            },
            0xFF19 => (if self.core.ch2.length_counter.enabled {
                0x40u8
            } else {
                0x00u8
            }) | 0xBF,
            0xFF1A => (if self.core.ch3.dac_enabled {
                0x80u8
            } else {
                0x00u8
            }) | 0x7F,
            0xFF1C => (self.core.ch3.volume_level << 5) | 0x9F,
            0xFF1E => (if self.core.ch3.length_counter.enabled {
                0x40u8
            } else {
                0x00u8
            }) | 0xBF,
            0xFF21 => {
                let d: u8 = if self.core.ch4.envelope.direction {
                    1
                } else {
                    0
                };
                (self.core.ch4.envelope.initial_volume << 4) | (d << 3)
                    | self.core.ch4.envelope.period
            },
            0xFF22 => {
                let w: u8 = if self.core.ch4.width_mode {
                    1
                } else {
                    0
                };
                (self.core.ch4.clock_shift << 4) | (w << 3) | self.core.ch4.divisor_code
            },
            0xFF23 => (if self.core.ch4.length_counter.enabled {
                0x40u8
            } else {
                0x00u8
            }) | 0xBF,
            0xFF24 => ((self.core.master_vol_left & 7) << 4) | (self.core.master_vol_right & 7),
            0xFF25 => self.core.panning,
            0xFF26 => {
                let p: u8 = if self.core.master_power {
                    0x80
                } else {
                    0
                };
                let b4: u8 = if self.core.ch4.enabled {
                    0x08
                } else {
                    0
                };
                let b3: u8 = if self.core.ch3.enabled {
                    0x04
                } else {
                    0
                };
                let b2: u8 = if self.core.ch2.enabled {
                    0x02
                } else {
                    0
                };
                let b1: u8 = if self.core.ch1.enabled {
                    0x01
                } else {
                    0
                };
                p | b4 | b3 | b2 | b1 | 0x70
            },
            0xFF30..=0xFF3F => {
                if self.core.ch3.enabled {
                    0xFF
                } else {
                    self.wave_ram[(addr - 0xFF30) as usize]
                }
            },
            _ => 0xFF,
        }
    }

    /// Clear the register-backed state when master power turns off.
    fn power_off_clear(&mut self)
        ensures
            final(self).core == spec_power_off_clear(old(self).core),
            final(self).wave_ram@ == old(self).wave_ram@,
    {
        self.core.ch1.enabled = false;
        self.core.ch1.duty_pattern = 0;
        self.core.ch1.freq_reg = 0;
        self.core.ch1.sweep.period = 0;
        self.core.ch1.sweep.direction = false;
        self.core.ch1.sweep.shift = 0;
        self.core.ch1.envelope.initial_volume = 0;
        self.core.ch1.envelope.direction = false;
        self.core.ch1.envelope.period = 0;
        self.core.ch1.envelope.dac_enabled = false;
        self.core.ch1.length_counter.enabled = false;
        self.core.ch2.enabled = false;
        self.core.ch2.duty_pattern = 0;
        self.core.ch2.freq_reg = 0;
        self.core.ch2.envelope.initial_volume = 0;
        self.core.ch2.envelope.direction = false;
        self.core.ch2.envelope.period = 0;
        self.core.ch2.envelope.dac_enabled = false;
        self.core.ch2.length_counter.enabled = false;
        self.core.ch3.enabled = false;
        self.core.ch3.dac_enabled = false;
        self.core.ch3.volume_level = 0;
        self.core.ch3.freq_reg = 0;
        self.core.ch3.length_counter.enabled = false;
        self.core.ch4.enabled = false;
        self.core.ch4.envelope.initial_volume = 0;
        self.core.ch4.envelope.direction = false;
        self.core.ch4.envelope.period = 0;
        self.core.ch4.envelope.dac_enabled = false;
        self.core.ch4.length_counter.enabled = false;
        self.core.ch4.width_mode = false;
        self.core.ch4.clock_shift = 0;
        self.core.ch4.divisor_code = 0;
        self.core.master_vol_left = 0;
        self.core.master_vol_right = 0;
        self.core.panning = 0;
    }

    /// Write to an APU register or wave RAM.  Wave RAM stays writable with
    /// power off, but its writes are dropped while channel 3 is enabled;
    /// all other writes are ignored while power is off.
    pub fn write_reg(&mut self, addr: u16, val: u8)
        requires
            old(self).wf(),
        ensures
            final(self).wf(),
            final(self).core == spec_write_reg(old(self).core, addr, val),
            final(self).wave_ram@ == (if 0xFF30 <= addr && addr <= 0xFF3F
                && !old(self).core.ch3.enabled {
                old(self).wave_ram@.update(addr - 0xFF30, val)
            } else {
                old(self).wave_ram@
            }),
    {
        if addr == 0xFF26 {
            let was_on = self.core.master_power;
            let on = (val & 0x80) != 0;
            if !was_on && on {
                self.core.master_power = true;
                self.core.frame_seq_step = 0;
            } else if was_on && !on {
                self.core.master_power = false;
                self.power_off_clear();
            }
            return ;
        }
        if addr >= 0xFF30 && addr <= 0xFF3F {
            if !self.core.ch3.enabled {
                self.wave_ram.set((addr - 0xFF30) as usize, val);
            }
            return ;
        }
        if !self.core.master_power {
            return ;
        }
        if addr >= 0xFF10 && addr <= 0xFF14 {
            self.core.write_reg_ch1(addr, val);
        } else if addr >= 0xFF16 && addr <= 0xFF19 {
            self.core.write_reg_ch2(addr, val);
        } else if addr >= 0xFF1A && addr <= 0xFF1E {
            self.core.write_reg_ch3(addr, val);
        } else if addr >= 0xFF20 && addr <= 0xFF23 {
            self.core.write_reg_ch4(addr, val);
        } else if addr == 0xFF24 {
            self.core.master_vol_right = val & 7;
            self.core.master_vol_left = (val >> 4) & 7;
        } else if addr == 0xFF25 {
            self.core.panning = val;
        }
    }

    /// Snapshot of the channel states for a debug overlay.
    pub fn get_apu_state(&self) -> (r: ApuState)
        requires
            self.wf(),
        ensures
            r.ch1.enabled == self.core.ch1.enabled,
            r.ch2.enabled == self.core.ch2.enabled,
            r.ch3.enabled == self.core.ch3.enabled,
            r.ch4.enabled == self.core.ch4.enabled,
            r.ch1.volume == self.core.ch1.envelope.volume,
            r.ch2.volume == self.core.ch2.envelope.volume,
            r.ch4.volume == self.core.ch4.envelope.volume,
            r.ch1.freq_reg == self.core.ch1.freq_reg,
            r.ch2.freq_reg == self.core.ch2.freq_reg,
            r.ch3.freq_reg == self.core.ch3.freq_reg,
            r.wave_ram@ == self.wave_ram@,
    {
        let vol3: u8 = match self.core.ch3.volume_level {
            0 => 0,
            1 => 15,
            2 => 7,
            3 => 3,
            _ => 0,
        };
        ApuState {
            ch1: ApuChannelState {
                enabled: self.core.ch1.enabled,
                volume: self.core.ch1.envelope.volume,
                freq_reg: self.core.ch1.freq_reg,
            },
            ch2: ApuChannelState {
                enabled: self.core.ch2.enabled,
                volume: self.core.ch2.envelope.volume,
                freq_reg: self.core.ch2.freq_reg,
            },
            ch3: ApuChannelState {
                enabled: self.core.ch3.enabled,
                volume: vol3,
                freq_reg: self.core.ch3.freq_reg,
            },
            ch4: ApuChannelState {
                enabled: self.core.ch4.enabled,
                volume: self.core.ch4.envelope.volume,
                freq_reg: ((self.core.ch4.clock_shift as u16) << 8) | (self.core.ch4.divisor_code
                    as u16),
            },
            wave_ram: copy_bytes(&self.wave_ram),
        }
    }

    /// Digital 4-bit outputs of the four channels, for the host mixer.
    pub fn channel_outputs(&self) -> (r: (u8, u8, u8, u8))
        requires
            self.wf(),
        ensures
            r.0 == spec_pulse_output(self.core.ch1),
            r.1 == spec_pulse_output(self.core.ch2),
            r.2 == spec_wave_output(self.core.ch3),
            r.3 == spec_noise_output(self.core.ch4),
    {
        (
            self.core.ch1.output(),
            self.core.ch2.output(),
            self.core.ch3.output(),
            self.core.ch4.output(),
        )
    }

    /// Hand the host the number of output samples that fell due and reset
    /// the backlog.
    pub fn take_due_samples(&mut self) -> (r: u32)
        ensures
            r == old(self).core.due_samples,
            final(self).core == (ApuCore { due_samples: 0, ..old(self).core }),
            final(self).wave_ram@ == old(self).wave_ram@,
    {
        let due = self.core.due_samples;
        self.core.due_samples = 0;
        due
    }
}

/// Copy of a byte vector.
fn copy_bytes(v: &Vec<u8>) -> (r: Vec<u8>)
    ensures
        r@ == v@,
{
    let mut r: Vec<u8> = Vec::new();
    let mut i: usize = 0;
    while i < v.len()
        invariant
            i <= v@.len(),
            r@ == v@.subrange(0, i as int),
        decreases v@.len() - i,
    {
        r.push(v[i]);
        i = i + 1;
    }
    proof {
        assert(r@ =~= v@);
    }
    r
}


impl ApuCore {
    /// Register writes of channel 1 ($FF10-$FF14) while power is on.
    fn write_reg_ch1(&mut self, addr: u16, val: u8)
        requires
            old(self).wf(),
            0xFF10 <= addr <= 0xFF14,
        ensures
            final(self).wf(),
            *final(self) == spec_write_reg_core(*old(self), addr, val),
    {
        match addr {
            0xFF10 => {
                proof {
                    crate::bits::lemma_u8_and_le(val, 7);
                }
                self.ch1.sweep.period = (val >> 4) & 7;
                self.ch1.sweep.direction = (val & 8) != 0;
                self.ch1.sweep.shift = val & 7;
            },
            0xFF11 => {
                proof {
                    crate::bits::lemma_u8_and_le(val, 0x3F);
                }
                self.ch1.duty_pattern = val >> 6;
                self.ch1.length_counter.load(val & 0x3F);
            },
            0xFF12 => {
                self.ch1.envelope.initial_volume = val >> 4;
                self.ch1.envelope.direction = (val & 8) != 0;
                self.ch1.envelope.period = val & 7;
                self.ch1.envelope.dac_enabled = (val & 0xF8) != 0;
                if !self.ch1.envelope.dac_enabled {
                    self.ch1.enabled = false;
                }
            },
            0xFF13 => {
                proof {
                    crate::bits::lemma_freq_reg_write(self.ch1.freq_reg, val);
                }
                self.ch1.freq_reg = (self.ch1.freq_reg & 0xFF00) | (val as u16);
            },
            _ => {
                proof {
                    crate::bits::lemma_freq_reg_write(self.ch1.freq_reg, val);
                }
                self.ch1.freq_reg = (self.ch1.freq_reg & 0x00FF) | (((val & 7) as u16) << 8);
                self.ch1.length_counter.enabled = (val & 0x40) != 0;
                if (val & 0x80) != 0 {
                    if self.ch1.envelope.dac_enabled {
                        self.ch1.enabled = true;
                    }
                    self.ch1.length_counter.trigger();
                    self.ch1.envelope.trigger();
                    let overflow = self.ch1.sweep.trigger(self.ch1.freq_reg);
                    if overflow {
                        self.ch1.enabled = false;
                    }
                }
            },
        }
    }

    /// Register writes of channel 2 ($FF16-$FF19) while power is on.
    fn write_reg_ch2(&mut self, addr: u16, val: u8)
        requires
            old(self).wf(),
            0xFF16 <= addr <= 0xFF19,
        ensures
            final(self).wf(),
            *final(self) == spec_write_reg_core(*old(self), addr, val),
    {
        match addr {
            0xFF16 => {
                proof {
                    crate::bits::lemma_u8_and_le(val, 0x3F);
                }
                self.ch2.duty_pattern = val >> 6;
                self.ch2.length_counter.load(val & 0x3F);
            },
            0xFF17 => {
                self.ch2.envelope.initial_volume = val >> 4;
                self.ch2.envelope.direction = (val & 8) != 0;
                self.ch2.envelope.period = val & 7;
                self.ch2.envelope.dac_enabled = (val & 0xF8) != 0;
                if !self.ch2.envelope.dac_enabled {
                    self.ch2.enabled = false;
                }
            },
            0xFF18 => {
                proof {
                    crate::bits::lemma_freq_reg_write(self.ch2.freq_reg, val);
                }
                self.ch2.freq_reg = (self.ch2.freq_reg & 0xFF00) | (val as u16);
            },
            _ => {
                proof {
                    crate::bits::lemma_freq_reg_write(self.ch2.freq_reg, val);
                }
                self.ch2.freq_reg = (self.ch2.freq_reg & 0x00FF) | (((val & 7) as u16) << 8);
                self.ch2.length_counter.enabled = (val & 0x40) != 0;
                if (val & 0x80) != 0 {
                    if self.ch2.envelope.dac_enabled {
                        self.ch2.enabled = true;
                    }
                    self.ch2.length_counter.trigger();
                    self.ch2.envelope.trigger();
                }
            },
        }
    }

    /// Register writes of channel 3 ($FF1A-$FF1E) while power is on.
    fn write_reg_ch3(&mut self, addr: u16, val: u8)
        requires
            old(self).wf(),
            0xFF1A <= addr <= 0xFF1E,
        ensures
            final(self).wf(),
            *final(self) == spec_write_reg_core(*old(self), addr, val),
    {
        match addr {
            0xFF1A => {
                self.ch3.dac_enabled = (val & 0x80) != 0;
                if !self.ch3.dac_enabled {
                    self.ch3.enabled = false;
                }
            },
            0xFF1B => {
                self.ch3.length_counter.load(val);
            },
            0xFF1C => {
                self.ch3.volume_level = (val >> 5) & 3;
            },
            0xFF1D => {
                proof {
                    crate::bits::lemma_freq_reg_write(self.ch3.freq_reg, val);
                }
                self.ch3.freq_reg = (self.ch3.freq_reg & 0xFF00) | (val as u16);
            },
            _ => {
                proof {
                    crate::bits::lemma_freq_reg_write(self.ch3.freq_reg, val);
                }
                self.ch3.freq_reg = (self.ch3.freq_reg & 0x00FF) | (((val & 7) as u16) << 8);
                self.ch3.length_counter.enabled = (val & 0x40) != 0;
                if (val & 0x80) != 0 {
                    if self.ch3.dac_enabled {
                        self.ch3.enabled = true;
                    }
                    self.ch3.length_counter.trigger();
                    self.ch3.sample_index = 0;
                }
            },
        }
    }

    /// Register writes of channel 4 ($FF20-$FF23) while power is on.
    fn write_reg_ch4(&mut self, addr: u16, val: u8)
        requires
            old(self).wf(),
            0xFF20 <= addr <= 0xFF23,
        ensures
            final(self).wf(),
            *final(self) == spec_write_reg_core(*old(self), addr, val),
    {
        match addr {
            0xFF20 => {
                proof {
                    crate::bits::lemma_u8_and_le(val, 0x3F);
                }
                self.ch4.length_counter.load(val & 0x3F);
            },
            0xFF21 => {
                self.ch4.envelope.initial_volume = val >> 4;
                self.ch4.envelope.direction = (val & 8) != 0;
                self.ch4.envelope.period = val & 7;
                self.ch4.envelope.dac_enabled = (val & 0xF8) != 0;
                if !self.ch4.envelope.dac_enabled {
                    self.ch4.enabled = false;
                }
            },
            0xFF22 => {
                proof {
                    crate::bits::lemma_u8_shr_bound(val, 4);
                }
                self.ch4.clock_shift = val >> 4;
                self.ch4.width_mode = (val & 8) != 0;
                self.ch4.divisor_code = val & 7;
            },
            _ => {
                self.ch4.length_counter.enabled = (val & 0x40) != 0;
                if (val & 0x80) != 0 {
                    if self.ch4.envelope.dac_enabled {
                        self.ch4.enabled = true;
                    }
                    self.ch4.length_counter.trigger();
                    self.ch4.envelope.trigger();
                    self.ch4.lfsr = 0xFFFF;
                }
            },
        }
    }
}


/// Bit readings of the channel-status register NR52.
proof fn lemma_nr52_bits(p: u8, b4: u8, b3: u8, b2: u8, b1: u8)
    by (bit_vector)
    requires
        p == 0x80 || p == 0,
        b4 == 0x08 || b4 == 0,
        b3 == 0x04 || b3 == 0,
        b2 == 0x02 || b2 == 0,
        b1 == 0x01 || b1 == 0,
    ensures
        (p | b4 | b3 | b2 | b1 | 0x70) & 0x01 == b1,
        (p | b4 | b3 | b2 | b1 | 0x70) & 0x02 == b2,
        (p | b4 | b3 | b2 | b1 | 0x70) & 0x04 == b3,
        (p | b4 | b3 | b2 | b1 | 0x70) & 0x08 == b4,
{
}

/// A length counter never counts below zero - one length step removes at
/// most one - and a counter that expires silences its channel in a way a
/// read of the channel-status register shows: after the step, NR52's bit for
/// the channel reads zero.
pub proof fn lemma_length_expiry_observable(c: ApuCore, wave: Seq<u8>)
    requires
        c.frame_seq_step % 2 == 0,
    ensures
        spec_lc_tick(c.ch1.length_counter).0.counter >= 0,
        spec_lc_tick(c.ch1.length_counter).0.counter >= c.ch1.length_counter.counter - 1,
        (c.ch1.length_counter.enabled && c.ch1.length_counter.counter == 1)
            ==> !spec_frame_seq_step(c).ch1.enabled && spec_read_reg(
            spec_frame_seq_step(c),
            wave,
            0xFF26,
        ) & 0x01 == 0,
        (c.ch2.length_counter.enabled && c.ch2.length_counter.counter == 1)
            ==> !spec_frame_seq_step(c).ch2.enabled && spec_read_reg(
            spec_frame_seq_step(c),
            wave,
            0xFF26,
        ) & 0x02 == 0,
{
    let c3 = spec_frame_seq_step(c);
    lemma_nr52_bits(
        if c3.master_power {
            0x80u8
        } else {
            0u8
        },
        if c3.ch4.enabled {
            0x08u8
        } else {
            0u8
        },
        if c3.ch3.enabled {
            0x04u8
        } else {
            0u8
        },
        if c3.ch2.enabled {
            0x02u8
        } else {
            0u8
        },
        if c3.ch1.enabled {
            0x01u8
        } else {
            0u8
        },
    );
}

} // verus!
