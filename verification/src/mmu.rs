//! Memory map: routes every bus address to ROM, the memory-bank controller,
//! VRAM/OAM (with PPU locking), work RAM, I/O registers, high RAM or the
//! interrupt registers; owns the peripherals and performs OAM DMA.

use vstd::prelude::*;
use crate::apu::Apu;
use crate::cartridge::Cartridge;
use crate::joypad::GameboyKey;
use crate::joypad::Joypad;
use crate::ppu::Ppu;
use crate::ppu::PpuMode;
use crate::timer::Timer;

verus! {

/// The five supported memory-bank controller variants.
#[derive(Debug, Clone, Copy, PartialEq, Eq, Structural)]
pub enum Mbc {
    RomOnly,
    Mbc1,
    Mbc2,
    Mbc3,
    Mbc5,
}

/// Why a machine could not be built around a cartridge.
#[derive(Debug, Clone, Copy, PartialEq, Eq, Structural)]
pub enum LoadError {
    /// The cartridge-type code names no supported memory-bank controller.
    UnsupportedCartridgeType,
}

impl LoadError {
    pub fn message(&self) -> (r: &'static str)
        ensures
            r@ == "Unsupported cartridge type."@,
    {
        "Unsupported cartridge type."
    }
}

/// The MBC variant a cartridge-type code selects, if any.
pub open spec fn spec_mbc_of(code: u8) -> Option<Mbc> {
    if code == 0x00 || code == 0x08 || code == 0x09 {
        Some(Mbc::RomOnly)
    } else if 0x01 <= code && code <= 0x03 {
        Some(Mbc::Mbc1)
    } else if 0x05 <= code && code <= 0x06 {
        Some(Mbc::Mbc2)
    } else if 0x0F <= code && code <= 0x13 {
        Some(Mbc::Mbc3)
    } else if 0x19 <= code && code <= 0x1E {
        Some(Mbc::Mbc5)
    } else {
        None
    }
}

/// External-RAM byte count of a cartridge: none for MBC2 (whose RAM is
/// built in), else from the header's RAM-size code.
pub open spec fn spec_external_ram_size(type_code: u8, ram_size_code: u8) -> int {
    if 0x05 <= type_code && type_code <= 0x06 {
        0
    } else if ram_size_code == 0x01 {
        2048
    } else if ram_size_code == 0x02 {
        8192
    } else if ram_size_code == 0x03 {
        32768
    } else if ram_size_code == 0x04 {
        131072
    } else if ram_size_code == 0x05 {
        65536
    } else {
        0
    }
}

pub struct Mmu {
    pub cartridge: Cartridge,
    pub ppu: Ppu,
    pub timer: Timer,
    pub joypad: Joypad,
    pub apu: Apu,
    pub wram: Vec<u8>,
    pub hram: Vec<u8>,
    pub io_registers: Vec<u8>,
    pub interrupt_enable_register: u8,
    pub external_ram: Vec<u8>,
    pub mbc: Mbc,
    pub current_rom_bank: usize,
    pub current_ram_bank: usize,
    pub ram_and_rtc_enabled: bool,
    pub mbc1_banking_mode: u8,
    pub mbc2_ram: Vec<u8>,
    pub rtc_registers: Vec<u8>,
    pub latched_rtc_registers: Vec<u8>,
    pub rtc_latch_written_00: bool,
    pub rtc_last_timestamp: i64,
    /// Sink for the serial stub: bytes written through $FF01/$FF02.
    pub serial_buffer: Vec<u8>,
}

/// RTC registers (S, M, H, DL, DH) and wall-clock anchor after advancing by
/// the time elapsed up to `now`.  A halted clock (DH bit 6) only re-anchors;
/// otherwise elapsed seconds are folded into the five registers, with the
/// day-overflow bit (DH bit 7) latched once the day count passes 511.
pub open spec fn spec_rtc_update(regs: Seq<u8>, last_ts: i64, now: i64) -> (Seq<u8>, i64) {
    let elapsed: int = now - last_ts;
    if elapsed <= 0 {
        (regs, last_ts)
    } else if regs[4] & 0x40 != 0 {
        (regs, now)
    } else {
        let days0 = ((regs[4] & 1) as int) * 256 + regs[3];
        let total = regs[0] + regs[1] * 60 + regs[2] * 3600 + days0 * 86400 + elapsed;
        let days = total / 86400;
        let rem_day = total % 86400;
        let hours = rem_day / 3600;
        let rem_hour = rem_day % 3600;
        let minutes = rem_hour / 60;
        let seconds = rem_hour % 60;
        let dh0 = ((regs[4] & 0xFE) | (((days / 256) % 2) as u8)) as u8;
        let dh = if days > 511 {
            (dh0 | 0x80) as u8
        } else {
            dh0
        };
        (
            seq![
                seconds as u8,
                minutes as u8,
                hours as u8,
                (days % 256) as u8,
                dh,
            ],
            now,
        )
    }
}

/// (ROM bank, RAM bank, RAM enable, banking mode) after an MBC1 control
/// write.  A zero in the low five bank bits selects 1; the bank wraps to the
/// cartridge's bank count and 0 promotes back to 1.
pub open spec fn spec_mbc1_write(
    rom_bank: usize,
    ram_bank: usize,
    ram_enabled: bool,
    banking_mode: u8,
    num_banks: int,
    addr: u16,
    value: u8,
) -> (usize, usize, bool, u8) {
    let (b1, ram2, en2, mode2): (usize, usize, bool, u8) = if addr < 0x2000 {
        (rom_bank, ram_bank, value & 0x0F == 0x0A, banking_mode)
    } else if addr < 0x4000 {
        let lower: u8 = if value & 0x1F == 0 {
            1u8
        } else {
            (value & 0x1F) as u8
        };
        ((((rom_bank as int) % 128) / 32 * 32 + lower) as usize, ram_bank, ram_enabled,
        banking_mode)
    } else if addr < 0x6000 {
        if banking_mode == 0 {
            (((rom_bank as int) % 32 + ((value & 0x03) as int) * 32) as usize, ram_bank,
            ram_enabled, banking_mode)
        } else {
            (rom_bank, (value & 0x03) as usize, ram_enabled, banking_mode)
        }
    } else {
        (rom_bank, ram_bank, ram_enabled, (value & 0x01) as u8)
    };
    let wrapped: int = if num_banks > 0 {
        (b1 as int) % num_banks
    } else {
        b1 as int
    };
    let promoted: usize = if wrapped == 0 {
        1usize
    } else {
        wrapped as usize
    };
    (promoted, ram2, en2, mode2)
}

/// (ROM bank, RAM enable) after an MBC2 control write: address bit 8 selects
/// between RAM enable and ROM bank; bank 0 promotes to 1 after wrapping.
pub open spec fn spec_mbc2_write(
    rom_bank: usize,
    ram_enabled: bool,
    num_banks: int,
    addr: u16,
    value: u8,
) -> (usize, bool) {
    if addr < 0x4000 {
        if addr & 0x0100 == 0 {
            (rom_bank, value & 0x0F == 0x0A)
        } else {
            let bank: int = if value & 0x0F == 0 {
                1
            } else {
                (value & 0x0F) as int
            };
            let wrapped: int = if num_banks > 0 {
                bank % num_banks
            } else {
                bank
            };
            (
                if wrapped == 0 {
                    1usize
                } else {
                    wrapped as usize
                },
                ram_enabled,
            )
        }
    } else {
        (rom_bank, ram_enabled)
    }
}

/// ROM bank after an MBC3 bank write: seven bits, zero selects 1, wrapped to
/// the bank count with 0 promoting back to 1.
pub open spec fn spec_mbc3_rom_bank(num_banks: int, value: u8) -> usize {
    let bank: int = if value & 0x7F == 0 {
        1
    } else {
        (value & 0x7F) as int
    };
    let wrapped: int = if num_banks > 0 {
        bank % num_banks
    } else {
        bank
    };
    if wrapped == 0 {
        1usize
    } else {
        wrapped as usize
    }
}

/// (ROM bank, RAM bank, RAM enable) after an MBC5 control write: a nine-bit
/// ROM bank (zero is legal) wrapped to the bank count.
pub open spec fn spec_mbc5_write(
    rom_bank: usize,
    ram_bank: usize,
    ram_enabled: bool,
    num_banks: int,
    addr: u16,
    value: u8,
) -> (usize, usize, bool) {
    let (b1, ram2, en2): (int, usize, bool) = if addr < 0x2000 {
        (rom_bank as int, ram_bank, value & 0x0F == 0x0A)
    } else if addr < 0x3000 {
        ((rom_bank as int) / 256 * 256 + value, ram_bank, ram_enabled)
    } else if addr < 0x4000 {
        ((rom_bank as int) % 256 + ((value & 0x01) as int) * 256, ram_bank, ram_enabled)
    } else if addr < 0x6000 {
        (rom_bank as int, (value & 0x0F) as usize, ram_enabled)
    } else {
        (rom_bank as int, ram_bank, ram_enabled)
    };
    let wrapped: int = if num_banks > 0 {
        b1 % num_banks
    } else {
        b1
    };
    (wrapped as usize, ram2, en2)
}

impl Mmu {
    /// Structural bounds every reachable machine state keeps, among them the
    /// bank-index invariant: the ROM bank of a banked cartridge other than
    /// MBC5 is never zero.
    pub open spec fn wf(self) -> bool {
        &&& self.cartridge.wf()
        &&& self.ppu.wf()
        &&& self.apu.wf()
        &&& self.joypad.wf()
        &&& self.wram@.len() == 8192
        &&& self.hram@.len() == 127
        &&& self.io_registers@.len() == 128
        &&& self.mbc2_ram@.len() == 512
        &&& self.rtc_registers@.len() == 5
        &&& self.latched_rtc_registers@.len() == 5
        &&& self.external_ram@.len() == spec_external_ram_size(
            self.cartridge.cartridge_type_code,
            self.cartridge.ram_size_code,
        )
        &&& spec_mbc_of(self.cartridge.cartridge_type_code) == Some(self.mbc)
        &&& self.current_rom_bank <= 0x1FF
        &&& self.current_ram_bank <= 0xFF
        &&& (self.mbc == Mbc::RomOnly ==> self.current_rom_bank == 1)
        &&& ((self.mbc == Mbc::Mbc1 || self.mbc == Mbc::Mbc2 || self.mbc == Mbc::Mbc3)
            ==> self.current_rom_bank >= 1)
        &&& self.mbc1_banking_mode <= 1
        &&& self.io_registers@[0x0F] & 0xE0 == 0xE0
    }

    /// Build a machine around a cartridge and audio unit, anchoring the
    /// real-time clock at `now` (seconds of wall time).  Construction is
    /// refused when the cartridge-type code names no supported controller.
    pub fn new_at(cartridge: Cartridge, apu: Apu, now: i64) -> (r: Result<Mmu, LoadError>)
        requires
            cartridge.wf(),
            apu.wf(),
        ensures
            spec_mbc_of(cartridge.cartridge_type_code) is None <==> (r matches Err(e) && e
                == LoadError::UnsupportedCartridgeType),
            r matches Ok(m) ==> {
                &&& m.wf()
                &&& m.cartridge == cartridge
                &&& m.apu == apu
                &&& m.current_rom_bank == 1
                &&& m.current_ram_bank == 0
                &&& !m.ram_and_rtc_enabled
                &&& m.mbc1_banking_mode == 0
                &&& m.rtc_last_timestamp == now
                &&& m.io_registers@[0x0F] == 0xE1
                &&& m.interrupt_enable_register == 0
                &&& m.ppu.ly == 0
                &&& m.ppu.current_mode == PpuMode::OamScan
                &&& !m.ppu.frame_ready
            },
    {
        let mbc_type: Mbc = match cartridge.cartridge_type_code {
            0x00 | 0x08 | 0x09 => Mbc::RomOnly,
            0x01..=0x03 => Mbc::Mbc1,
            0x05..=0x06 => Mbc::Mbc2,
            0x0F..=0x13 => Mbc::Mbc3,
            0x19..=0x1E => Mbc::Mbc5,
            _ => {
                return Err(LoadError::UnsupportedCartridgeType);
            },
        };
        let external_ram_size: usize = if cartridge.cartridge_type_code >= 0x05
            && cartridge.cartridge_type_code <= 0x06 {
            0
        } else {
            match cartridge.ram_size_code {
                0x01 => 2048,
                0x02 => 8192,
                0x03 => 32768,
                0x04 => 131072,
                0x05 => 65536,
                _ => 0,
            }
        };
        let mut io_registers: Vec<u8> = vec![0u8; 128];
        proof {
            assert(0xE1u8 & 0xE0 == 0xE0) by (bit_vector);
        }
        io_registers.set(0x0F, 0xE1);
        Ok(
            Mmu {
                cartridge,
                ppu: Ppu::new(),
                timer: Timer::new(),
                joypad: Joypad::new(),
                apu,
                wram: vec![0u8; 8192],
                hram: vec![0u8; 127],
                io_registers,
                interrupt_enable_register: 0x00,
                external_ram: vec![0u8; external_ram_size],
                mbc: mbc_type,
                current_rom_bank: 1,
                current_ram_bank: 0,
                ram_and_rtc_enabled: false,
                mbc1_banking_mode: 0,
                mbc2_ram: vec![0u8; 512],
                rtc_registers: vec![0u8; 5],
                latched_rtc_registers: vec![0u8; 5],
                rtc_latch_written_00: false,
                rtc_last_timestamp: now,
                serial_buffer: Vec::new(),
            },
        )
    }

    /// Build a machine anchored at the wall clock of this moment.
    pub fn new(cartridge: Cartridge, apu: Apu) -> (r: Result<Mmu, LoadError>)
        requires
            cartridge.wf(),
            apu.wf(),
        ensures
            spec_mbc_of(cartridge.cartridge_type_code) is None <==> (r matches Err(e) && e
                == LoadError::UnsupportedCartridgeType),
            r matches Ok(m) ==> {
                &&& m.wf()
                &&& m.cartridge == cartridge
                &&& m.apu == apu
                &&& m.current_rom_bank == 1
                &&& m.current_ram_bank == 0
                &&& !m.ram_and_rtc_enabled
                &&& m.mbc1_banking_mode == 0
                &&& m.io_registers@[0x0F] == 0xE1
                &&& m.interrupt_enable_register == 0
                &&& m.ppu.ly == 0
                &&& m.ppu.current_mode == PpuMode::OamScan
                &&& !m.ppu.frame_ready
            },
    {
        let now = wall_clock_seconds();
        Mmu::new_at(cartridge, apu, now)
    }

    /// Fold the wall-clock time elapsed up to `now` into the RTC registers.
    pub fn update_rtc_at(&mut self, now: i64)
        requires
            old(self).rtc_registers@.len() == 5,
        ensures
            (final(self).rtc_registers@, final(self).rtc_last_timestamp) == spec_rtc_update(
                old(self).rtc_registers@,
                old(self).rtc_last_timestamp,
                now,
            ),
            final(self).rtc_registers@.len() == 5,
            *final(self) == (Mmu {
                rtc_registers: final(self).rtc_registers,
                rtc_last_timestamp: final(self).rtc_last_timestamp,
                ..*old(self)
            }),
    {
        let elapsed_secs: i128 = (now as i128) - (self.rtc_last_timestamp as i128);
        if elapsed_secs <= 0 {
            return ;
        }
        if (self.rtc_registers[4] & 0x40) != 0 {
            self.rtc_last_timestamp = now;
            return ;
        }
        let seconds0 = self.rtc_registers[0] as u128;
        let minutes0 = self.rtc_registers[1] as u128;
        let hours0 = self.rtc_registers[2] as u128;
        let days0 = (((self.rtc_registers[4] & 1) as u128) * 256) + (self.rtc_registers[3]
            as u128);
        let total: u128 = seconds0 + minutes0 * 60 + hours0 * 3600 + days0 * 86400 + (
        elapsed_secs as u128);
        let days = total / 86400;
        let rem_day = total % 86400;
        let hours = rem_day / 3600;
        let rem_hour = rem_day % 3600;
        let minutes = rem_hour / 60;
        let seconds = rem_hour % 60;
        self.rtc_registers.set(0, seconds as u8);
        self.rtc_registers.set(1, minutes as u8);
        self.rtc_registers.set(2, hours as u8);
        self.rtc_registers.set(3, (days % 256) as u8);
        let day_high_bit = ((days / 256) % 2) as u8;
        let dh = (self.rtc_registers[4] & 0xFE) | day_high_bit;
        self.rtc_registers.set(4, dh);
        if days > 511 {
            let dh2 = self.rtc_registers[4] | 0x80;
            self.rtc_registers.set(4, dh2);
        }
        self.rtc_last_timestamp = now;
    }

    /// Number of 16 KiB ROM banks the cartridge image holds.
    pub fn num_rom_banks(&self) -> (r: usize)
        ensures
            r == self.cartridge.raw_data@.len() as int / 0x4000,
    {
        self.cartridge.raw_data.len() / 0x4000
    }

    /// MBC1 control write ($0000-$7FFF).
    pub fn handle_mbc1_write(&mut self, address: u16, value: u8)
        requires
            old(self).wf(),
            old(self).mbc == Mbc::Mbc1,
            address < 0x8000,
        ensures
            final(self).wf(),
            (
                final(self).current_rom_bank,
                final(self).current_ram_bank,
                final(self).ram_and_rtc_enabled,
                final(self).mbc1_banking_mode,
            ) == spec_mbc1_write(
                old(self).current_rom_bank,
                old(self).current_ram_bank,
                old(self).ram_and_rtc_enabled,
                old(self).mbc1_banking_mode,
                old(self).cartridge.raw_data@.len() as int / 0x4000,
                address,
                value,
            ),
            final(self).current_rom_bank >= 1,
            *final(self) == (Mmu {
                current_rom_bank: final(self).current_rom_bank,
                current_ram_bank: final(self).current_ram_bank,
                ram_and_rtc_enabled: final(self).ram_and_rtc_enabled,
                mbc1_banking_mode: final(self).mbc1_banking_mode,
                ..*old(self)
            }),
    {
        proof {
            crate::bits::lemma_u8_and_le(value, 0x1F);
            crate::bits::lemma_u8_and_le(value, 0x03);
            crate::bits::lemma_u8_and_le(value, 0x01);
        }
        if address < 0x2000 {
            self.ram_and_rtc_enabled = (value & 0x0F) == 0x0A;
        } else if address < 0x4000 {
            let lower_bits: u8 = if (value & 0x1F) == 0 {
                1
            } else {
                value & 0x1F
            };
            self.current_rom_bank = (self.current_rom_bank % 128) / 32 * 32 + (lower_bits
                as usize);
        } else if address < 0x6000 {
            if self.mbc1_banking_mode == 0 {
                self.current_rom_bank = (self.current_rom_bank % 32) + ((value & 0x03) as usize)
                    * 32;
            } else {
                self.current_ram_bank = (value & 0x03) as usize;
            }
        } else {
            self.mbc1_banking_mode = value & 0x01;
        }
        let num_rom_banks_actual = self.num_rom_banks();
        if num_rom_banks_actual > 0 {
            proof {
                lemma_mod_le(self.current_rom_bank, num_rom_banks_actual);
            }
            self.current_rom_bank = self.current_rom_bank % num_rom_banks_actual;
        }
        if self.current_rom_bank == 0 {
            self.current_rom_bank = 1;
        }
    }

    /// MBC2 control write ($0000-$7FFF).
    pub fn handle_mbc2_write(&mut self, address: u16, value: u8)
        requires
            old(self).wf(),
            old(self).mbc == Mbc::Mbc2,
            address < 0x8000,
        ensures
            final(self).wf(),
            (final(self).current_rom_bank, final(self).ram_and_rtc_enabled) == spec_mbc2_write(
                old(self).current_rom_bank,
                old(self).ram_and_rtc_enabled,
                old(self).cartridge.raw_data@.len() as int / 0x4000,
                address,
                value,
            ),
            final(self).current_rom_bank >= 1,
            *final(self) == (Mmu {
                current_rom_bank: final(self).current_rom_bank,
                ram_and_rtc_enabled: final(self).ram_and_rtc_enabled,
                ..*old(self)
            }),
    {
        proof {
            crate::bits::lemma_u8_and_le(value, 0x0F);
        }
        if address < 0x4000 {
            if (address & 0x0100) == 0 {
                self.ram_and_rtc_enabled = (value & 0x0F) == 0x0A;
            } else {
                let bank = (value & 0x0F) as usize;
                self.current_rom_bank = if bank == 0 {
                    1
                } else {
                    bank
                };
                let num_rom_banks_actual = self.num_rom_banks();
                if num_rom_banks_actual > 0 {
                    proof {
                        lemma_mod_le(self.current_rom_bank, num_rom_banks_actual);
                    }
                    self.current_rom_bank = self.current_rom_bank % num_rom_banks_actual;
                }
                if self.current_rom_bank == 0 {
                    self.current_rom_bank = 1;
                }
            }
        }
    }

    /// MBC5 control write ($0000-$7FFF).
    pub fn handle_mbc5_write(&mut self, address: u16, value: u8)
        requires
            old(self).wf(),
            old(self).mbc == Mbc::Mbc5,
            address < 0x8000,
        ensures
            final(self).wf(),
            (
                final(self).current_rom_bank,
                final(self).current_ram_bank,
                final(self).ram_and_rtc_enabled,
            ) == spec_mbc5_write(
                old(self).current_rom_bank,
                old(self).current_ram_bank,
                old(self).ram_and_rtc_enabled,
                old(self).cartridge.raw_data@.len() as int / 0x4000,
                address,
                value,
            ),
            *final(self) == (Mmu {
                current_rom_bank: final(self).current_rom_bank,
                current_ram_bank: final(self).current_ram_bank,
                ram_and_rtc_enabled: final(self).ram_and_rtc_enabled,
                ..*old(self)
            }),
    {
        proof {
            crate::bits::lemma_u8_and_le(value, 0x0F);
            crate::bits::lemma_u8_and_le(value, 0x01);
        }
        if address < 0x2000 {
            self.ram_and_rtc_enabled = (value & 0x0F) == 0x0A;
        } else if address < 0x3000 {
            self.current_rom_bank = self.current_rom_bank / 256 * 256 + (value as usize);
        } else if address < 0x4000 {
            self.current_rom_bank = self.current_rom_bank % 256 + ((value & 0x01) as usize)
                * 256;
        } else if address < 0x6000 {
            self.current_ram_bank = (value & 0x0F) as usize;
        }
        let num_rom_banks_actual = self.num_rom_banks();
        if num_rom_banks_actual > 0 {
            proof {
                lemma_mod_le(self.current_rom_bank, num_rom_banks_actual);
            }
            self.current_rom_bank = self.current_rom_bank % num_rom_banks_actual;
        }
    }

    /// MBC3 control write ($0000-$7FFF): RAM/RTC enable, ROM bank, RAM bank
    /// or RTC register select, and the 0-then-1 latch sequence that copies
    /// the working RTC into its latched registers.
    pub fn handle_mbc3_write_at(&mut self, address: u16, value: u8, now: i64)
        requires
            old(self).wf(),
            old(self).mbc == Mbc::Mbc3,
            address < 0x8000,
        ensures
            final(self).wf(),
            final(self).current_rom_bank >= 1,
            spec_mbc3_write_rel(*old(self), *final(self), address, value, now),
    {
        if address < 0x2000 {
            self.ram_and_rtc_enabled = (value & 0x0F) == 0x0A;
        } else if address < 0x4000 {
            proof {
                crate::bits::lemma_u8_and_le(value, 0x7F);
            }
            let bank = (value & 0x7F) as usize;
            self.current_rom_bank = if bank == 0 {
                1
            } else {
                bank
            };
            let num_rom_banks_actual = self.num_rom_banks();
            if num_rom_banks_actual > 0 {
                proof {
                    lemma_mod_le(self.current_rom_bank, num_rom_banks_actual);
                }
                self.current_rom_bank = self.current_rom_bank % num_rom_banks_actual;
            }
            if self.current_rom_bank == 0 {
                self.current_rom_bank = 1;
            }
        } else if address < 0x6000 {
            self.current_ram_bank = value as usize;
        } else {
            if value == 0x00 {
                self.rtc_latch_written_00 = true;
            } else if value == 0x01 && self.rtc_latch_written_00 {
                self.update_rtc_at(now);
                let latched = copy_five_bytes(&self.rtc_registers);
                self.latched_rtc_registers = latched;
                self.rtc_latch_written_00 = false;
            } else {
                self.rtc_latch_written_00 = false;
            }
        }
    }

    /// Raise bit `interrupt_bit` of IF; bits five and up do not exist.
    pub fn request_interrupt(&mut self, interrupt_bit: u8)
        requires
            old(self).io_registers@.len() == 128,
        ensures
            final(self).io_registers@.len() == 128,
            interrupt_bit < 5 ==> final(self).io_registers@ == old(self).io_registers@.update(
                0x0F,
                (old(self).io_registers@[0x0F] | (1u8 << interrupt_bit)) as u8,
            ),
            interrupt_bit >= 5 ==> final(self).io_registers@ == old(self).io_registers@,
            *final(self) == (Mmu { io_registers: final(self).io_registers, ..*old(self) }),
    {
        if interrupt_bit < 5 {
            proof {
                crate::bits::lemma_if_upper_bits(self.io_registers@[0x0F], interrupt_bit);
            }
            let v = self.io_registers[0x0F] | (1u8 << interrupt_bit);
            self.io_registers.set(0x0F, v);
        }
    }
}

/// The remainder of a division never exceeds the dividend.
proof fn lemma_mod_le(x: usize, n: usize)
    by (nonlinear_arith)
    requires
        n > 0,
    ensures
        x % n <= x,
        x % n < n,
{
}

/// Copy of a five-byte register file.
fn copy_five_bytes(v: &Vec<u8>) -> (r: Vec<u8>)
    requires
        v@.len() == 5,
    ensures
        r@ == v@,
{
    let mut r: Vec<u8> = Vec::new();
    r.push(v[0]);
    r.push(v[1]);
    r.push(v[2]);
    r.push(v[3]);
    r.push(v[4]);
    proof {
        assert(r@ =~= v@);
    }
    r
}

/// Relies on `chrono::Utc::now` and `DateTime::timestamp`: the wall clock as
/// whole seconds since the Unix epoch.  Nothing is assumed of the value.
#[verifier::external_body]
pub fn wall_clock_seconds() -> i64 {
    chrono::Utc::now().timestamp()
}


/// Value an I/O-register read returns ($FF00-$FF7F): joypad, timer, IF,
/// audio registers and wave RAM, PPU registers, plain shadow bytes for the
/// serial stub and the unmapped tail, 0xFF elsewhere.
pub open spec fn spec_read_io(m: Mmu, address: u16) -> u8 {
    if address == 0xFF00 {
        m.joypad.spec_read_p1()
    } else if address == 0xFF04 {
        (m.timer.internal_div_counter >> 8) as u8
    } else if address == 0xFF05 {
        m.timer.tima
    } else if address == 0xFF06 {
        m.timer.tma
    } else if address == 0xFF07 {
        (m.timer.tac | 0xF8) as u8
    } else if address == 0xFF0F {
        m.io_registers@[0x0F]
    } else if (0xFF10 <= address && address <= 0xFF26) || (0xFF30 <= address && address
        <= 0xFF3F) {
        crate::apu::spec_read_reg(m.apu.core, m.apu.wave_ram@, address)
    } else if address == 0xFF40 {
        m.ppu.lcdc
    } else if address == 0xFF41 {
        m.ppu.stat
    } else if address == 0xFF42 {
        m.ppu.scy
    } else if address == 0xFF43 {
        m.ppu.scx
    } else if address == 0xFF44 {
        m.ppu.ly
    } else if address == 0xFF45 {
        m.ppu.lyc
    } else if address == 0xFF47 {
        m.ppu.bgp
    } else if address == 0xFF48 {
        m.ppu.obp0
    } else if address == 0xFF49 {
        m.ppu.obp1
    } else if address == 0xFF4A {
        m.ppu.wy
    } else if address == 0xFF4B {
        m.ppu.wx
    } else if (0xFF01 <= address && address <= 0xFF02) || (0xFF4C <= address && address
        <= 0xFF7F) {
        m.io_registers@[address - 0xFF00]
    } else {
        0xFFu8
    }
}

/// Value a bus read returns.  VRAM reads as 0xFF while the PPU is drawing;
/// OAM reads as 0xFF during OAM scan and drawing; external RAM reads as 0xFF
/// unless RAM is enabled; unusable addresses read as 0xFF.
pub open spec fn spec_read_byte(m: Mmu, address: u16) -> u8 {
    let rom_len = m.cartridge.raw_data@.len() as int;
    if address < 0x4000 {
        if (address as int) < rom_len {
            m.cartridge.raw_data@[address as int]
        } else {
            0xFFu8
        }
    } else if address < 0x8000 {
        let rom_addr = (m.current_rom_bank as int) * 0x4000 + (address - 0x4000);
        if rom_addr < rom_len {
            m.cartridge.raw_data@[rom_addr]
        } else {
            0xFFu8
        }
    } else if address < 0xA000 {
        if m.ppu.spec_lcd_enabled() && m.ppu.current_mode == PpuMode::Drawing {
            0xFFu8
        } else {
            m.ppu.vram@[address - 0x8000]
        }
    } else if address < 0xC000 {
        if m.mbc == Mbc::Mbc2 {
            if m.ram_and_rtc_enabled {
                (m.mbc2_ram@[(address & 0x01FF) as int] | 0xF0) as u8
            } else {
                0xFFu8
            }
        } else if !m.ram_and_rtc_enabled {
            0xFFu8
        } else if m.mbc == Mbc::Mbc3 && 0x08 <= m.current_ram_bank && m.current_ram_bank
            <= 0x0C {
            m.latched_rtc_registers@[m.current_ram_bank - 0x08]
        } else if m.external_ram@.len() > 0 {
            let ram_addr = (m.current_ram_bank as int) * 0x2000 + (address - 0xA000);
            if ram_addr < m.external_ram@.len() {
                m.external_ram@[ram_addr]
            } else {
                0xFFu8
            }
        } else {
            0xFFu8
        }
    } else if address < 0xE000 {
        m.wram@[address - 0xC000]
    } else if address < 0xFE00 {
        m.wram@[address - 0xE000]
    } else if address < 0xFEA0 {
        if m.ppu.spec_lcd_enabled() && (m.ppu.current_mode == PpuMode::OamScan
            || m.ppu.current_mode == PpuMode::Drawing) {
            0xFFu8
        } else {
            m.ppu.oam@[address - 0xFE00]
        }
    } else if address < 0xFF00 {
        0xFFu8
    } else if address < 0xFF80 {
        spec_read_io(m, address)
    } else if address < 0xFFFF {
        m.hram@[address - 0xFF80]
    } else {
        m.interrupt_enable_register
    }
}

/// Value the OAM DMA engine reads: a simplified bus view that ignores PPU
/// locking.
pub open spec fn spec_dma_read(m: Mmu, address: int) -> u8 {
    let rom_len = m.cartridge.raw_data@.len() as int;
    if 0 <= address < 0x8000 {
        if address < rom_len {
            m.cartridge.raw_data@[address]
        } else {
            0xFFu8
        }
    } else if address < 0xA000 {
        m.ppu.vram@[address - 0x8000]
    } else if address < 0xC000 {
        if m.ram_and_rtc_enabled && m.external_ram@.len() > 0 {
            let ram_addr = (m.current_ram_bank as int) * 0x2000 + (address - 0xA000);
            if ram_addr < m.external_ram@.len() {
                m.external_ram@[ram_addr]
            } else {
                0xFFu8
            }
        } else {
            0xFFu8
        }
    } else if address < 0xE000 {
        m.wram@[address - 0xC000]
    } else if address < 0xFE00 {
        m.wram@[address - 0xE000]
    } else {
        0xFFu8
    }
}

impl Mmu {
    /// Read of an I/O register ($FF00-$FF7F).
    pub fn read_io_register_byte(&self, address: u16) -> (r: u8)
        requires
            self.wf(),
            0xFF00 <= address <= 0xFF7F,
        ensures
            r == spec_read_io(*self, address),
    {
        match address {
            0xFF00 => self.joypad.read_p1(),
            0xFF04 => self.timer.read_div(),
            0xFF05 => self.timer.read_tima(),
            0xFF06 => self.timer.read_tma(),
            0xFF07 => self.timer.read_tac(),
            0xFF0F => self.io_registers[0x0F],
            0xFF10..=0xFF26 | 0xFF30..=0xFF3F => self.apu.read_reg(address),
            0xFF40 => self.ppu.lcdc,
            0xFF41 => self.ppu.stat,
            0xFF42 => self.ppu.scy,
            0xFF43 => self.ppu.scx,
            0xFF44 => self.ppu.ly,
            0xFF45 => self.ppu.lyc,
            0xFF47 => self.ppu.bgp,
            0xFF48 => self.ppu.obp0,
            0xFF49 => self.ppu.obp1,
            0xFF4A => self.ppu.wy,
            0xFF4B => self.ppu.wx,
            0xFF01..=0xFF02 | 0xFF4C..=0xFF7F => self.io_registers[(address - 0xFF00) as usize],
            _ => 0xFF,
        }
    }

    /// Read of any bus address.
    pub fn read_byte(&self, address: u16) -> (r: u8)
        requires
            self.wf(),
        ensures
            r == spec_read_byte(*self, address),
    {
        match address {
            0x0000..=0x3FFF => {
                if (address as usize) < self.cartridge.raw_data.len() {
                    self.cartridge.raw_data[address as usize]
                } else {
                    0xFF
                }
            },
            0x4000..=0x7FFF => {
                let offset = (address as usize) - 0x4000;
                let rom_addr = self.current_rom_bank * 0x4000 + offset;
                if rom_addr < self.cartridge.raw_data.len() {
                    self.cartridge.raw_data[rom_addr]
                } else {
                    0xFF
                }
            },
            0x8000..=0x9FFF => {
                if self.ppu.is_lcd_enabled() && self.ppu.current_mode == PpuMode::Drawing {
                    0xFF
                } else {
                    self.ppu.vram[(address - 0x8000) as usize]
                }
            },
            0xA000..=0xBFFF => {
                if self.mbc == Mbc::Mbc2 {
                    if self.ram_and_rtc_enabled {
                        proof {
                            crate::bits::lemma_u16_and_le(address, 0x01FF);
                        }
                        self.mbc2_ram[(address & 0x01FF) as usize] | 0xF0
                    } else {
                        0xFF
                    }
                } else if !self.ram_and_rtc_enabled {
                    0xFF
                } else if self.mbc == Mbc::Mbc3 && self.current_ram_bank >= 0x08
                    && self.current_ram_bank <= 0x0C {
                    self.latched_rtc_registers[self.current_ram_bank - 0x08]
                } else if self.external_ram.len() > 0 {
                    let ram_addr = self.current_ram_bank * 0x2000 + (address - 0xA000) as usize;
                    if ram_addr < self.external_ram.len() {
                        self.external_ram[ram_addr]
                    } else {
                        0xFF
                    }
                } else {
                    0xFF
                }
            },
            0xC000..=0xDFFF => self.wram[(address - 0xC000) as usize],
            0xE000..=0xFDFF => self.wram[(address - 0xE000) as usize],
            0xFE00..=0xFE9F => {
                if self.ppu.is_lcd_enabled() && (self.ppu.current_mode == PpuMode::OamScan
                    || self.ppu.current_mode == PpuMode::Drawing) {
                    0xFF
                } else {
                    self.ppu.oam[(address - 0xFE00) as usize]
                }
            },
            0xFEA0..=0xFEFF => 0xFF,
            0xFF00..=0xFF7F => self.read_io_register_byte(address),
            0xFF80..=0xFFFE => self.hram[(address - 0xFF80) as usize],
            _ => self.interrupt_enable_register,
        }
    }

    /// One byte of the DMA engine's simplified bus view.
    pub fn dma_read_byte(&self, address: u16) -> (r: u8)
        requires
            self.wf(),
        ensures
            r == spec_dma_read(*self, address as int),
    {
        match address {
            0x0000..=0x7FFF => {
                if (address as usize) < self.cartridge.raw_data.len() {
                    self.cartridge.raw_data[address as usize]
                } else {
                    0xFF
                }
            },
            0x8000..=0x9FFF => self.ppu.vram[(address - 0x8000) as usize],
            0xA000..=0xBFFF => {
                if self.ram_and_rtc_enabled && self.external_ram.len() > 0 {
                    let ram_addr = self.current_ram_bank * 0x2000 + (address - 0xA000) as usize;
                    if ram_addr < self.external_ram.len() {
                        self.external_ram[ram_addr]
                    } else {
                        0xFF
                    }
                } else {
                    0xFF
                }
            },
            0xC000..=0xDFFF => self.wram[(address - 0xC000) as usize],
            0xE000..=0xFDFF => self.wram[(address - 0xE000) as usize],
            _ => 0xFF,
        }
    }

    /// A write to $FF46: copy 160 bytes from `value * 0x100` into OAM.
    pub fn dma_transfer(&mut self, start_address_high_byte: u8)
        requires
            old(self).wf(),
        ensures
            final(self).wf(),
            final(self).ppu.oam@.len() == 160,
            forall|i: int|
                0 <= i < 160 ==> final(self).ppu.oam@[i] == spec_dma_read(
                    *old(self),
                    (start_address_high_byte as int) * 256 + i,
                ),
            final(self).ppu == (Ppu { oam: final(self).ppu.oam, ..old(self).ppu }),
            *final(self) == (Mmu { ppu: final(self).ppu, ..*old(self) }),
    {
        let start_address = (start_address_high_byte as u16) << 8;
        proof {
            crate::bits::lemma_u16_shl8_is_mul256(start_address_high_byte);
        }
        let mut i: usize = 0;
        while i < 160
            invariant
                i <= 160,
                old(self).wf(),
                start_address == (start_address_high_byte as int) * 256,
                self.ppu.oam@.len() == 160,
                self.ppu == (Ppu { oam: self.ppu.oam, ..old(self).ppu }),
                *self == (Mmu { ppu: self.ppu, ..*old(self) }),
                forall|k: int|
                    0 <= k < i ==> self.ppu.oam@[k] == spec_dma_read(
                        *old(self),
                        (start_address_high_byte as int) * 256 + k,
                    ),
            decreases 160 - i,
        {
            let ghost pre = *self;
            let data = self.dma_read_byte(start_address + i as u16);
            proof {
                assert(spec_dma_read(pre, start_address + i as int) == spec_dma_read(
                    *old(self),
                    (start_address_high_byte as int) * 256 + i,
                ));
            }
            self.ppu.oam.set(i, data);
            i = i + 1;
        }
    }
}


/// How an MBC3 control write relates the machine before and after, for a
/// wall-clock reading `now` taken when the latch sequence completes.
pub open spec fn spec_mbc3_write_rel(pre: Mmu, post: Mmu, address: u16, value: u8, now: i64) -> bool {
    if address < 0x2000 {
        post == (Mmu { ram_and_rtc_enabled: value & 0x0F == 0x0A, ..pre })
    } else if address < 0x4000 {
        post == (Mmu {
            current_rom_bank: spec_mbc3_rom_bank(pre.cartridge.raw_data@.len() as int / 0x4000, value),
            ..pre
        })
    } else if address < 0x6000 {
        post == (Mmu { current_ram_bank: value as usize, ..pre })
    } else {
        if value == 0 {
            post == (Mmu { rtc_latch_written_00: true, ..pre })
        } else if value == 1 && pre.rtc_latch_written_00 {
            let (regs, ts) = spec_rtc_update(pre.rtc_registers@, pre.rtc_last_timestamp, now);
            &&& post.rtc_registers@ == regs
            &&& post.rtc_last_timestamp == ts
            &&& post.latched_rtc_registers@ == regs
            &&& post == (Mmu {
                rtc_registers: post.rtc_registers,
                rtc_last_timestamp: ts,
                latched_rtc_registers: post.latched_rtc_registers,
                rtc_latch_written_00: false,
                ..pre
            })
        } else {
            post == (Mmu { rtc_latch_written_00: false, ..pre })
        }
    }
}

/// How any MBC control write ($0000-$7FFF) relates the machine before and
/// after.  The MBC3 clause holds for the wall-clock reading the write took.
pub open spec fn spec_mbc_write_rel(pre: Mmu, post: Mmu, address: u16, value: u8) -> bool {
    match pre.mbc {
        Mbc::RomOnly => post == pre,
        Mbc::Mbc1 => {
            &&& (post.current_rom_bank, post.current_ram_bank, post.ram_and_rtc_enabled,
            post.mbc1_banking_mode) == spec_mbc1_write(
                pre.current_rom_bank,
                pre.current_ram_bank,
                pre.ram_and_rtc_enabled,
                pre.mbc1_banking_mode,
                pre.cartridge.raw_data@.len() as int / 0x4000,
                address,
                value,
            )
            &&& post == (Mmu {
                current_rom_bank: post.current_rom_bank,
                current_ram_bank: post.current_ram_bank,
                ram_and_rtc_enabled: post.ram_and_rtc_enabled,
                mbc1_banking_mode: post.mbc1_banking_mode,
                ..pre
            })
        },
        Mbc::Mbc2 => {
            &&& (post.current_rom_bank, post.ram_and_rtc_enabled) == spec_mbc2_write(
                pre.current_rom_bank,
                pre.ram_and_rtc_enabled,
                pre.cartridge.raw_data@.len() as int / 0x4000,
                address,
                value,
            )
            &&& post == (Mmu {
                current_rom_bank: post.current_rom_bank,
                ram_and_rtc_enabled: post.ram_and_rtc_enabled,
                ..pre
            })
        },
        Mbc::Mbc3 => exists|now: i64| spec_mbc3_write_rel(pre, post, address, value, now),
        Mbc::Mbc5 => {
            &&& (post.current_rom_bank, post.current_ram_bank, post.ram_and_rtc_enabled)
                == spec_mbc5_write(
                pre.current_rom_bank,
                pre.current_ram_bank,
                pre.ram_and_rtc_enabled,
                pre.cartridge.raw_data@.len() as int / 0x4000,
                address,
                value,
            )
            &&& post == (Mmu {
                current_rom_bank: post.current_rom_bank,
                current_ram_bank: post.current_ram_bank,
                ram_and_rtc_enabled: post.ram_and_rtc_enabled,
                ..pre
            })
        },
    }
}

/// How an external-RAM-area write ($A000-$BFFF) relates the machine before
/// and after: MBC2 nibble RAM, MBC3 RTC registers (a write that restarts the
/// clock folds the elapsed time in at wall-clock reading `now`), or banked
/// external RAM; all of it inert while RAM is disabled.
pub open spec fn spec_ext_ram_write_rel(pre: Mmu, post: Mmu, address: u16, value: u8, now: i64) -> bool {
    if pre.mbc == Mbc::Mbc2 {
        if pre.ram_and_rtc_enabled {
            post == (Mmu { mbc2_ram: post.mbc2_ram, ..pre }) && post.mbc2_ram@
                == pre.mbc2_ram@.update((address & 0x01FF) as int, (value & 0x0F) as u8)
        } else {
            post == pre
        }
    } else if !pre.ram_and_rtc_enabled {
        post == pre
    } else if pre.mbc == Mbc::Mbc3 && 0x08 <= pre.current_ram_bank && pre.current_ram_bank
        <= 0x0C {
        let idx = pre.current_ram_bank - 0x08;
        let mid_regs = pre.rtc_registers@.update(idx as int, value);
        if idx == 4 && value & 0x40 == 0 {
            let (regs, ts) = spec_rtc_update(mid_regs, pre.rtc_last_timestamp, now);
            &&& post.rtc_registers@ == regs
            &&& post.rtc_last_timestamp == ts
            &&& post == (Mmu {
                rtc_registers: post.rtc_registers,
                rtc_last_timestamp: ts,
                ..pre
            })
        } else {
            post == (Mmu { rtc_registers: post.rtc_registers, ..pre }) && post.rtc_registers@
                == mid_regs
        }
    } else if pre.external_ram@.len() > 0 {
        let ram_addr = (pre.current_ram_bank as int) * 0x2000 + (address - 0xA000);
        if ram_addr < pre.external_ram@.len() {
            post == (Mmu { external_ram: post.external_ram, ..pre }) && post.external_ram@
                == pre.external_ram@.update(ram_addr, value)
        } else {
            post == pre
        }
    } else {
        post == pre
    }
}

/// How an I/O-register write ($FF00-$FF7F) relates the machine before and
/// after.
pub open spec fn spec_write_io_rel(pre: Mmu, post: Mmu, address: u16, value: u8) -> bool {
    if address == 0xFF00 {
        post == (Mmu {
            joypad: (Joypad {
                p1_register_select: ((pre.joypad.p1_register_select & 0xCF) | (value
                    & 0x30)) as u8,
                ..pre.joypad
            }),
            ..pre
        })
    } else if address == 0xFF04 {
        &&& post.timer.internal_div_counter == 0
        &&& post.timer.tma == pre.timer.tma
        &&& post.timer.tac == pre.timer.tac
        &&& post == (Mmu { timer: post.timer, ..pre })
    } else if address == 0xFF05 {
        post == (Mmu {
            timer: (Timer {
                tima: if pre.timer.tima_reload_countdown <= 0 {
                    value
                } else {
                    pre.timer.tima
                },
                ..pre.timer
            }),
            ..pre
        })
    } else if address == 0xFF06 {
        post == (Mmu { timer: (Timer { tma: value, ..pre.timer }), ..pre })
    } else if address == 0xFF07 {
        &&& post.timer.tac == value & 0x07
        &&& post.timer.internal_div_counter == pre.timer.internal_div_counter
        &&& post.timer.tma == pre.timer.tma
        &&& post == (Mmu { timer: post.timer, ..pre })
    } else if address == 0xFF0F {
        post == (Mmu { io_registers: post.io_registers, ..pre }) && post.io_registers@
            == pre.io_registers@.update(0x0F, ((value & 0x1F) | 0xE0) as u8)
    } else if (0xFF10 <= address && address <= 0xFF26) || (0xFF30 <= address && address
        <= 0xFF3F) {
        &&& post.apu.core == crate::apu::spec_write_reg(pre.apu.core, address, value)
        &&& post.apu.wave_ram@ == (if 0xFF30 <= address && address <= 0xFF3F
            && !pre.apu.core.ch3.enabled {
            pre.apu.wave_ram@.update(address - 0xFF30, value)
        } else {
            pre.apu.wave_ram@
        })
        &&& post == (Mmu { apu: post.apu, ..pre })
    } else if address == 0xFF40 {
        post == (Mmu { ppu: (Ppu { lcdc: value, ..pre.ppu }), ..pre })
    } else if address == 0xFF41 {
        post == (Mmu {
            ppu: (Ppu { stat: ((value & 0x78) | (pre.ppu.stat & 0x87)) as u8, ..pre.ppu }),
            ..pre
        })
    } else if address == 0xFF42 {
        post == (Mmu { ppu: (Ppu { scy: value, ..pre.ppu }), ..pre })
    } else if address == 0xFF43 {
        post == (Mmu { ppu: (Ppu { scx: value, ..pre.ppu }), ..pre })
    } else if address == 0xFF44 {
        post == pre
    } else if address == 0xFF45 {
        post == (Mmu { ppu: (Ppu { lyc: value, ..pre.ppu }), ..pre })
    } else if address == 0xFF46 {
        &&& post.ppu.oam@.len() == 160
        &&& forall|i: int|
            0 <= i < 160 ==> post.ppu.oam@[i] == spec_dma_read(pre, (value as int) * 256 + i)
        &&& post.ppu == (Ppu { oam: post.ppu.oam, ..pre.ppu })
        &&& post == (Mmu { ppu: post.ppu, ..pre })
    } else if address == 0xFF47 {
        post == (Mmu { ppu: (Ppu { bgp: value, ..pre.ppu }), ..pre })
    } else if address == 0xFF48 {
        post == (Mmu { ppu: (Ppu { obp0: value, ..pre.ppu }), ..pre })
    } else if address == 0xFF49 {
        post == (Mmu { ppu: (Ppu { obp1: value, ..pre.ppu }), ..pre })
    } else if address == 0xFF4A {
        post == (Mmu { ppu: (Ppu { wy: value, ..pre.ppu }), ..pre })
    } else if address == 0xFF4B {
        post == (Mmu { ppu: (Ppu { wx: value, ..pre.ppu }), ..pre })
    } else if address == 0xFF01 {
        post == (Mmu { io_registers: post.io_registers, ..pre }) && post.io_registers@
            == pre.io_registers@.update(0x01, value)
    } else if address == 0xFF02 {
        &&& post.io_registers@ == pre.io_registers@.update(0x02, (value & 0x81) as u8)
        &&& post.serial_buffer@ == (if value == 0x81 {
            pre.serial_buffer@.push(pre.io_registers@[0x01])
        } else {
            pre.serial_buffer@
        })
        &&& post == (Mmu {
            io_registers: post.io_registers,
            serial_buffer: post.serial_buffer,
            ..pre
        })
    } else if 0xFF4C <= address && address <= 0xFF7F {
        post == (Mmu { io_registers: post.io_registers, ..pre }) && post.io_registers@
            == pre.io_registers@.update(address - 0xFF00, value)
    } else {
        post == pre
    }
}

/// How any bus write relates the machine before and after: MBC control
/// below $8000 (ROM itself is immutable), VRAM and OAM behind the PPU's mode
/// locks, external RAM behind its enable, plain RAM and register updates
/// elsewhere, and nothing at the unusable range.
#[verifier::opaque]
pub open spec fn spec_write_byte_rel(pre: Mmu, post: Mmu, address: u16, value: u8) -> bool {
    if address < 0x8000 {
        spec_mbc_write_rel(pre, post, address, value)
    } else if address < 0xA000 {
        if pre.ppu.spec_lcd_enabled() && pre.ppu.current_mode == PpuMode::Drawing {
            post == pre
        } else {
            post.ppu == (Ppu { vram: post.ppu.vram, ..pre.ppu }) && post.ppu.vram@
                == pre.ppu.vram@.update(address - 0x8000, value) && post == (Mmu {
                ppu: post.ppu,
                ..pre
            })
        }
    } else if address < 0xC000 {
        exists|now: i64| spec_ext_ram_write_rel(pre, post, address, value, now)
    } else if address < 0xE000 {
        post == (Mmu { wram: post.wram, ..pre }) && post.wram@ == pre.wram@.update(
            address - 0xC000,
            value,
        )
    } else if address < 0xFE00 {
        post == (Mmu { wram: post.wram, ..pre }) && post.wram@ == pre.wram@.update(
            address - 0xE000,
            value,
        )
    } else if address < 0xFEA0 {
        if pre.ppu.spec_lcd_enabled() && (pre.ppu.current_mode == PpuMode::OamScan
            || pre.ppu.current_mode == PpuMode::Drawing) {
            post == pre
        } else {
            post.ppu == (Ppu { oam: post.ppu.oam, ..pre.ppu }) && post.ppu.oam@
                == pre.ppu.oam@.update(address - 0xFE00, value) && post == (Mmu {
                ppu: post.ppu,
                ..pre
            })
        }
    } else if address < 0xFF00 {
        post == pre
    } else if address < 0xFF80 {
        spec_write_io_rel(pre, post, address, value)
    } else if address < 0xFFFF {
        post == (Mmu { hram: post.hram, ..pre }) && post.hram@ == pre.hram@.update(
            address - 0xFF80,
            value,
        )
    } else {
        post == (Mmu { interrupt_enable_register: value, ..pre })
    }
}

impl Mmu {
    /// MBC control write ($0000-$7FFF), dispatched by controller variant.
    pub fn handle_mbc_write(&mut self, address: u16, value: u8)
        requires
            old(self).wf(),
            address < 0x8000,
        ensures
            final(self).wf(),
            spec_mbc_write_rel(*old(self), *final(self), address, value),
    {
        match self.mbc {
            Mbc::RomOnly => {},
            Mbc::Mbc1 => self.handle_mbc1_write(address, value),
            Mbc::Mbc2 => self.handle_mbc2_write(address, value),
            Mbc::Mbc3 => {
                let now = wall_clock_seconds();
                self.handle_mbc3_write_at(address, value, now);
            },
            Mbc::Mbc5 => self.handle_mbc5_write(address, value),
        }
    }

    /// Write to an I/O register ($FF00-$FF7F).
    pub fn write_io_register_byte(&mut self, address: u16, value: u8)
        requires
            old(self).wf(),
            0xFF00 <= address <= 0xFF7F,
        ensures
            final(self).wf(),
            spec_write_io_rel(*old(self), *final(self), address, value),
    {
        match address {
            0xFF00 => self.joypad.write_p1(value),
            0xFF04 => self.timer.write_div(),
            0xFF05 => self.timer.write_tima(value),
            0xFF06 => self.timer.write_tma(value),
            0xFF07 => self.timer.write_tac(value),
            0xFF0F => {
                proof {
                    crate::bits::lemma_if_upper_bits(value, 0);
                }
                let v = (value & 0x1F) | 0xE0;
                self.io_registers.set(0x0F, v);
            },
            0xFF10..=0xFF26 | 0xFF30..=0xFF3F => self.apu.write_reg(address, value),
            0xFF40 => self.ppu.lcdc = value,
            0xFF41 => self.ppu.stat = (value & 0x78) | (self.ppu.stat & 0x87),
            0xFF42 => self.ppu.scy = value,
            0xFF43 => self.ppu.scx = value,
            0xFF44 => {},
            0xFF45 => self.ppu.lyc = value,
            0xFF46 => self.dma_transfer(value),
            0xFF47 => self.ppu.bgp = value,
            0xFF48 => self.ppu.obp0 = value,
            0xFF49 => self.ppu.obp1 = value,
            0xFF4A => self.ppu.wy = value,
            0xFF4B => self.ppu.wx = value,
            0xFF01 => {
                self.io_registers.set(0x01, value);
            },
            0xFF02 => {
                self.io_registers.set(0x02, value & 0x81);
                if value == 0x81 {
                    let b = self.io_registers[0x01];
                    self.serial_buffer.push(b);
                }
            },
            0xFF4C..=0xFF7F => {
                self.io_registers.set((address - 0xFF00) as usize, value);
            },
            _ => {},
        }
    }

    /// Write to any bus address.
    pub fn write_byte(&mut self, address: u16, value: u8)
        requires
            old(self).wf(),
        ensures
            final(self).wf(),
            spec_write_byte_rel(*old(self), *final(self), address, value),
    {
        proof {
            reveal(crate::mmu::spec_write_byte_rel);
        }
        match address {
            0x0000..=0x7FFF => self.handle_mbc_write(address, value),
            0x8000..=0x9FFF => {
                if self.ppu.is_lcd_enabled() && self.ppu.current_mode == PpuMode::Drawing {
                    return ;
                }
                self.ppu.vram.set((address - 0x8000) as usize, value);
            },
            0xA000..=0xBFFF => {
                if self.mbc == Mbc::Mbc2 {
                    if self.ram_and_rtc_enabled {
                        proof {
                            crate::bits::lemma_u16_and_le(address, 0x01FF);
                            crate::bits::lemma_u8_and_le(value, 0x0F);
                        }
                        self.mbc2_ram.set((address & 0x01FF) as usize, value & 0x0F);
                    }
                    proof {
                        assert(spec_ext_ram_write_rel(
                            *old(self),
                            *self,
                            address,
                            value,
                            old(self).rtc_last_timestamp,
                        ));
                    }
                    return ;
                }
                if !self.ram_and_rtc_enabled {
                    proof {
                        assert(spec_ext_ram_write_rel(
                            *old(self),
                            *self,
                            address,
                            value,
                            old(self).rtc_last_timestamp,
                        ));
                    }
                    return ;
                }
                if self.mbc == Mbc::Mbc3 && self.current_ram_bank >= 0x08
                    && self.current_ram_bank <= 0x0C {
                    let rtc_reg_idx = self.current_ram_bank - 0x08;
                    self.rtc_registers.set(rtc_reg_idx, value);
                    if rtc_reg_idx == 4 && (value & 0x40) == 0 {
                        let now = wall_clock_seconds();
                        self.update_rtc_at(now);
                        proof {
                            assert(spec_ext_ram_write_rel(*old(self), *self, address, value, now));
                        }
                    } else {
                        proof {
                            assert(spec_ext_ram_write_rel(
                                *old(self),
                                *self,
                                address,
                                value,
                                old(self).rtc_last_timestamp,
                            ));
                        }
                    }
                    return ;
                }
                if self.external_ram.len() > 0 {
                    let ram_addr = self.current_ram_bank * 0x2000 + (address - 0xA000) as usize;
                    if ram_addr < self.external_ram.len() {
                        self.external_ram.set(ram_addr, value);
                    }
                }
                proof {
                    assert(spec_ext_ram_write_rel(
                        *old(self),
                        *self,
                        address,
                        value,
                        old(self).rtc_last_timestamp,
                    ));
                }
            },
            0xC000..=0xDFFF => self.wram.set((address - 0xC000) as usize, value),
            0xE000..=0xFDFF => self.wram.set((address - 0xE000) as usize, value),
            0xFE00..=0xFE9F => {
                if self.ppu.is_lcd_enabled() && (self.ppu.current_mode == PpuMode::OamScan
                    || self.ppu.current_mode == PpuMode::Drawing) {
                    return ;
                }
                self.ppu.oam.set((address - 0xFE00) as usize, value);
            },
            0xFEA0..=0xFEFF => {},
            0xFF00..=0xFF7F => self.write_io_register_byte(address, value),
            0xFF80..=0xFFFE => self.hram.set((address - 0xFF80) as usize, value),
            _ => self.interrupt_enable_register = value,
        }
    }

    /// Little-endian 16-bit read: low byte at `address`, high byte above it.
    pub fn read_u16(&self, address: u16) -> (r: u16)
        requires
            self.wf(),
        ensures
            r == spec_read_byte(*self, address) + spec_read_byte(
                *self,
                ((address + 1) % 0x10000) as u16,
            ) * 256,
    {
        let low = self.read_byte(address) as u16;
        let high = self.read_byte(address.wrapping_add(1)) as u16;
        proof {
            crate::bits::lemma_u16_byte_combine(
                spec_read_byte(*self, address),
                spec_read_byte(*self, ((address + 1) % 0x10000) as u16),
            );
        }
        (high << 8) | low
    }

    /// Little-endian 16-bit write: low byte at `address`, high byte above it.
    pub fn write_u16(&mut self, address: u16, value: u16)
        requires
            old(self).wf(),
        ensures
            final(self).wf(),
            exists|mid: Mmu|
                #[trigger] spec_write_byte_rel(*old(self), mid, address, (value & 0xFF) as u8)
                    && spec_write_byte_rel(
                    mid,
                    *final(self),
                    ((address + 1) % 0x10000) as u16,
                    (value >> 8) as u8,
                ),
    {
        proof {
            crate::bits::lemma_u16_split_bytes(value);
        }
        self.write_byte(address, (value & 0xFF) as u8);
        let ghost mid = *self;
        self.write_byte(address.wrapping_add(1), (value >> 8) as u8);
        proof {
            assert(spec_write_byte_rel(*old(self), mid, address, (value & 0xFF) as u8));
        }
    }
}


/// Little-endian bytes of a signed 64-bit timestamp.
pub open spec fn spec_i64_le_bytes(x: i64) -> Seq<u8> {
    let u = x as u64;
    seq![
        ((u / 0x1) % 256) as u8,
        ((u / 0x100) % 256) as u8,
        ((u / 0x10000) % 256) as u8,
        ((u / 0x1000000) % 256) as u8,
        ((u / 0x100000000) % 256) as u8,
        ((u / 0x10000000000) % 256) as u8,
        ((u / 0x1000000000000) % 256) as u8,
        ((u / 0x100000000000000) % 256) as u8,
    ]
}

/// Signed 64-bit timestamp from eight little-endian bytes at `start`.
pub open spec fn spec_i64_from_le(data: Seq<u8>, start: int) -> i64 {
    ((data[start] + data[start + 1] * 0x100 + data[start + 2] * 0x10000 + data[start + 3]
        * 0x1000000 + data[start + 4] * 0x100000000 + data[start + 5] * 0x10000000000 + data[start
        + 6] * 0x1000000000000 + data[start + 7] * 0x100000000000000) as u64) as i64
}

/// The battery snapshot of a machine: external RAM bytes; for MBC2 its
/// built-in nibble RAM; for MBC3 additionally the wall-clock anchor and the
/// five RTC registers after folding in the time elapsed up to `now`.
pub open spec fn spec_snapshot(m: Mmu, now: i64) -> Seq<u8> {
    if m.mbc == Mbc::Mbc2 {
        m.mbc2_ram@
    } else if m.mbc == Mbc::Mbc3 {
        let (regs, ts) = spec_rtc_update(m.rtc_registers@, m.rtc_last_timestamp, now);
        m.external_ram@ + spec_i64_le_bytes(ts) + regs
    } else {
        m.external_ram@
    }
}

/// RAM contents after restoring from a save image: what fits of the image's
/// prefix is copied; bytes past a short image keep their old values.
pub open spec fn spec_restored_ram(old_ram: Seq<u8>, data: Seq<u8>) -> Seq<u8> {
    if data.len() >= old_ram.len() {
        data.subrange(0, old_ram.len() as int)
    } else {
        data + old_ram.subrange(data.len() as int, old_ram.len() as int)
    }
}

/// How one peripheral tick relates the machine before and after: the timer
/// advances by `cycles` exact steps with its latched request consumed, the
/// audio unit by its exact transition; with the LCD on, the PPU's frame
/// position advances by exactly `cycles` (wrapping at 70224) and crossing
/// the vertical-blank start raises `frame_ready` and IF bit 0; a timer
/// overflow that completed its reload raises IF bit 2; no other I/O byte
/// changes, and nothing outside the PPU, timer, audio unit and IF does.
#[verifier::opaque]
pub open spec fn spec_tick_rel(pre: Mmu, post: Mmu, cycles: u8) -> bool {
    &&& post == (Mmu {
        ppu: post.ppu,
        timer: post.timer,
        apu: post.apu,
        io_registers: post.io_registers,
        ..pre
    })
    &&& post.timer == (Timer {
        interrupt_request: false,
        ..crate::timer::spec_tick_n(pre.timer, cycles as nat)
    })
    &&& post.apu.core == crate::apu::spec_apu_tick(pre.apu.core, pre.apu.wave_ram@, cycles)
    &&& post.apu.wave_ram@ == pre.apu.wave_ram@
    &&& (pre.ppu.spec_lcd_enabled() ==> {
        &&& crate::ppu::spec_frame_pos(post.ppu) == (crate::ppu::spec_frame_pos(pre.ppu)
            + cycles) % 70224
        &&& post.ppu.frame_ready == (pre.ppu.frame_ready || (crate::ppu::spec_frame_pos(
            pre.ppu,
        ) < 65664 && crate::ppu::spec_frame_pos(pre.ppu) + cycles >= 65664))
    })
    &&& (!pre.ppu.spec_lcd_enabled() ==> {
        &&& post.ppu.ly == 0
        &&& post.ppu.frame_ready == pre.ppu.frame_ready
    })
    &&& forall|i: int|
        0 <= i < 128 && i != 0x0F ==> post.io_registers@[i] == pre.io_registers@[i]
    &&& ((pre.ppu.spec_lcd_enabled() && crate::ppu::spec_frame_pos(pre.ppu) < 65664
        && crate::ppu::spec_frame_pos(pre.ppu) + cycles >= 65664) ==> post.io_registers@[0x0F]
        & 0x01 != 0)
    &&& (crate::timer::spec_tick_n(pre.timer, cycles as nat).interrupt_request
        ==> post.io_registers@[0x0F] & 0x04 != 0)
}

impl Mmu {
    /// Serialize the battery-backed state (external RAM, and for MBC3 the
    /// wall-clock anchor and RTC registers advanced to `now`).
    pub fn get_ram_and_rtc_data_at(&mut self, now: i64) -> (r: Vec<u8>)
        requires
            old(self).wf(),
        ensures
            final(self).wf(),
            r@ == spec_snapshot(*old(self), now),
            (final(self).rtc_registers@, final(self).rtc_last_timestamp) == (if old(self).mbc
                == Mbc::Mbc3 {
                spec_rtc_update(old(self).rtc_registers@, old(self).rtc_last_timestamp, now)
            } else {
                (old(self).rtc_registers@, old(self).rtc_last_timestamp)
            }),
            *final(self) == (Mmu {
                rtc_registers: final(self).rtc_registers,
                rtc_last_timestamp: final(self).rtc_last_timestamp,
                ..*old(self)
            }),
    {
        if self.mbc == Mbc::Mbc2 {
            let r = copy_all_bytes(&self.mbc2_ram);
            return r;
        }
        let mut data = copy_all_bytes(&self.external_ram);
        if self.mbc == Mbc::Mbc3 {
            self.update_rtc_at(now);
            let u = self.rtc_last_timestamp as u64;
            data.push(((u / 0x1) % 256) as u8);
            data.push(((u / 0x100) % 256) as u8);
            data.push(((u / 0x10000) % 256) as u8);
            data.push(((u / 0x1000000) % 256) as u8);
            data.push(((u / 0x100000000) % 256) as u8);
            data.push(((u / 0x10000000000) % 256) as u8);
            data.push(((u / 0x1000000000000) % 256) as u8);
            data.push(((u / 0x100000000000000) % 256) as u8);
            data.push(self.rtc_registers[0]);
            data.push(self.rtc_registers[1]);
            data.push(self.rtc_registers[2]);
            data.push(self.rtc_registers[3]);
            data.push(self.rtc_registers[4]);
            proof {
                assert(data@ =~= spec_snapshot(*old(self), now));
            }
        }
        data
    }

    /// Serialize the battery-backed state at the wall clock of this moment.
    pub fn get_ram_and_rtc_data(&mut self) -> (r: Vec<u8>)
        requires
            old(self).wf(),
        ensures
            final(self).wf(),
            exists|now: i64| r@ == #[trigger] spec_snapshot(*old(self), now),
    {
        let now = wall_clock_seconds();
        let r = self.get_ram_and_rtc_data_at(now);
        proof {
            assert(r@ == spec_snapshot(*old(self), now));
        }
        r
    }

    /// Restore the battery-backed state from a save image, tolerating a
    /// short buffer: what fits of the image is copied into RAM, and trailing
    /// fields the image does not hold are left as they were.
    pub fn load_ram_and_rtc_at(&mut self, data: &Vec<u8>, now: i64)
        requires
            old(self).wf(),
        ensures
            final(self).wf(),
            old(self).mbc == Mbc::Mbc2 ==> {
                &&& final(self).mbc2_ram@ == spec_restored_ram(old(self).mbc2_ram@, data@)
                &&& *final(self) == (Mmu { mbc2_ram: final(self).mbc2_ram, ..*old(self) })
            },
            old(self).mbc != Mbc::Mbc2 ==> {
                &&& final(self).external_ram@ == spec_restored_ram(
                    old(self).external_ram@,
                    data@,
                )
                &&& (old(self).mbc == Mbc::Mbc3 && data@.len() >= old(self).external_ram@.len()
                    + 13) ==> {
                    let ts_loaded = spec_i64_from_le(data@, old(self).external_ram@.len() as int);
                    let regs_loaded = data@.subrange(
                        old(self).external_ram@.len() + 8int,
                        old(self).external_ram@.len() + 13int,
                    );
                    let (regs, ts) = spec_rtc_update(regs_loaded, ts_loaded, now);
                    &&& final(self).rtc_registers@ == regs
                    &&& final(self).rtc_last_timestamp == ts
                }
                &&& !(old(self).mbc == Mbc::Mbc3 && data@.len()
                    >= old(self).external_ram@.len() + 13) ==> {
                    &&& final(self).rtc_registers@ == old(self).rtc_registers@
                    &&& final(self).rtc_last_timestamp == old(self).rtc_last_timestamp
                }
                &&& *final(self) == (Mmu {
                    external_ram: final(self).external_ram,
                    rtc_registers: final(self).rtc_registers,
                    rtc_last_timestamp: final(self).rtc_last_timestamp,
                    ..*old(self)
                })
            },
    {
        if self.mbc == Mbc::Mbc2 {
            copy_what_fits(&mut self.mbc2_ram, data);
            return ;
        }
        let ram_size = self.external_ram.len();
        copy_what_fits(&mut self.external_ram, data);
        if self.mbc == Mbc::Mbc3 && data.len() >= ram_size + 13 {
            let b0 = data[ram_size] as u64;
            let b1 = data[ram_size + 1] as u64;
            let b2 = data[ram_size + 2] as u64;
            let b3 = data[ram_size + 3] as u64;
            let b4 = data[ram_size + 4] as u64;
            let b5 = data[ram_size + 5] as u64;
            let b6 = data[ram_size + 6] as u64;
            let b7 = data[ram_size + 7] as u64;
            let u: u64 = b0 + b1 * 0x100 + b2 * 0x10000 + b3 * 0x1000000 + b4 * 0x100000000 + b5
                * 0x10000000000 + b6 * 0x1000000000000 + b7 * 0x100000000000000;
            self.rtc_last_timestamp = u as i64;
            let mut regs: Vec<u8> = Vec::new();
            regs.push(data[ram_size + 8]);
            regs.push(data[ram_size + 9]);
            regs.push(data[ram_size + 10]);
            regs.push(data[ram_size + 11]);
            regs.push(data[ram_size + 12]);
            proof {
                assert(regs@ =~= data@.subrange(ram_size + 8, ram_size + 13));
            }
            self.rtc_registers = regs;
            self.update_rtc_at(now);
        }
    }

    /// Restore the battery-backed state at the wall clock of this moment.
    pub fn load_ram_and_rtc(&mut self, data: &Vec<u8>)
        requires
            old(self).wf(),
        ensures
            final(self).wf(),
            old(self).mbc != Mbc::Mbc2 ==> final(self).external_ram@ == spec_restored_ram(
                old(self).external_ram@,
                data@,
            ),
            old(self).mbc == Mbc::Mbc2 ==> final(self).mbc2_ram@ == spec_restored_ram(
                old(self).mbc2_ram@,
                data@,
            ),
    {
        let now = wall_clock_seconds();
        self.load_ram_and_rtc_at(data, now);
    }

    /// Advance PPU, timer and audio by the T-cycles one CPU step consumed,
    /// raising the VBlank, LCD-STAT and timer interrupts the step produced.
    pub fn tick_components(&mut self, cpu_t_cycles: u8)
        requires
            old(self).wf(),
        ensures
            final(self).wf(),
            spec_tick_rel(*old(self), *final(self), cpu_t_cycles),
    {
        proof {
            reveal(crate::mmu::spec_tick_rel);
        }
        let (vblank_irq, stat_irq) = self.ppu.step(cpu_t_cycles);
        if vblank_irq {
            proof {
                crate::bits::lemma_irq_bits(self.io_registers@[0x0F]);
            }
            self.request_interrupt(0);
        }
        if stat_irq {
            proof {
                crate::bits::lemma_irq_bits(self.io_registers@[0x0F]);
            }
            self.request_interrupt(1);
        }
        self.timer.tick(cpu_t_cycles);
        if self.timer.take_interrupt_request() {
            proof {
                crate::bits::lemma_irq_bits(self.io_registers@[0x0F]);
            }
            self.request_interrupt(2);
        }
        self.apu.tick(cpu_t_cycles);
    }

    /// Record a button press; the Joypad interrupt is requested exactly when
    /// the button was newly pressed and its group is selected.
    pub fn press_button(&mut self, key: GameboyKey)
        requires
            old(self).wf(),
        ensures
            final(self).wf(),
            final(self).joypad.spec_pressed(key),
            forall|k: GameboyKey|
                k != key ==> final(self).joypad.spec_pressed(k)
                    == old(self).joypad.spec_pressed(k),
            *final(self) == (Mmu {
                joypad: final(self).joypad,
                io_registers: final(self).io_registers,
                ..*old(self)
            }),
            (!old(self).joypad.spec_pressed(key) && old(self).joypad.spec_group_selected(key))
                ==> final(self).io_registers@ == old(self).io_registers@.update(
                0x0F,
                (old(self).io_registers@[0x0F] | 0x10) as u8,
            ),
            !(!old(self).joypad.spec_pressed(key) && old(self).joypad.spec_group_selected(key))
                ==> final(self).io_registers@ == old(self).io_registers@,
    {
        let interrupt = self.joypad.button_down(key);
        if interrupt {
            proof {
                crate::bits::lemma_irq_bits(self.io_registers@[0x0F]);
                assert((1u8 << 4) == 0x10) by (bit_vector);
            }
            self.request_interrupt(4);
        }
    }

    /// Record a button release.
    pub fn release_button(&mut self, key: GameboyKey)
        requires
            old(self).wf(),
        ensures
            final(self).wf(),
            !final(self).joypad.spec_pressed(key),
            forall|k: GameboyKey|
                k != key ==> final(self).joypad.spec_pressed(k)
                    == old(self).joypad.spec_pressed(k),
            *final(self) == (Mmu { joypad: final(self).joypad, ..*old(self) }),
    {
        self.joypad.button_up(key);
    }

    /// Hand the bytes the serial stub printed to the caller and clear the
    /// sink.
    pub fn take_serial_output(&mut self) -> (r: Vec<u8>)
        ensures
            r@ == old(self).serial_buffer@,
            final(self).serial_buffer@.len() == 0,
            *final(self) == (Mmu { serial_buffer: final(self).serial_buffer, ..*old(self) }),
    {
        let out = copy_all_bytes(&self.serial_buffer);
        self.serial_buffer = Vec::new();
        out
    }
}

/// Copy of a byte vector.
fn copy_all_bytes(v: &Vec<u8>) -> (r: Vec<u8>)
    ensures
        r@ == v@,
{
    copy_prefix(v, v.len())
}

/// Overwrite the front of `ram` with what fits of `data`: the shorter of
/// the two lengths; bytes past a short image keep their old values.
fn copy_what_fits(ram: &mut Vec<u8>, data: &Vec<u8>)
    ensures
        final(ram)@ == spec_restored_ram(old(ram)@, data@),
{
    let n: usize = if data.len() >= ram.len() {
        ram.len()
    } else {
        data.len()
    };
    let mut i: usize = 0;
    while i < n
        invariant
            i <= n,
            n <= ram@.len(),
            n <= data@.len(),
            n == (if data@.len() >= old(ram)@.len() {
                old(ram)@.len() as int
            } else {
                data@.len() as int
            }),
            ram@.len() == old(ram)@.len(),
            forall|j: int| 0 <= j < i ==> ram@[j] == data@[j],
            forall|j: int| i <= j < ram@.len() ==> ram@[j] == old(ram)@[j],
        decreases n - i,
    {
        ram.set(i, data[i]);
        i = i + 1;
    }
    proof {
        assert(ram@ =~= spec_restored_ram(old(ram)@, data@));
    }
}

/// Copy of the first `n` bytes of a vector.
fn copy_prefix(v: &Vec<u8>, n: usize) -> (r: Vec<u8>)
    requires
        n <= v@.len(),
    ensures
        r@ == v@.subrange(0, n as int),
{
    let mut r: Vec<u8> = Vec::new();
    let mut i: usize = 0;
    while i < n
        invariant
            i <= n <= v@.len(),
            r@ == v@.subrange(0, i as int),
        decreases n - i,
    {
        r.push(v[i]);
        proof {
            assert(r@ =~= v@.subrange(0, i + 1));
        }
        i = i + 1;
    }
    r
}

/// Restoring a battery snapshot is the identity: the restored external RAM
/// (or MBC2 nibble RAM) equals the RAM that was saved, and for an MBC3
/// cartridge the restored RTC registers and wall-clock anchor equal the
/// saved ones, given the same wall-clock reading for snapshot and restore.
pub proof fn lemma_battery_round_trip(m: Mmu, now: i64)
    requires
        m.wf(),
    ensures
        ({
            let data = spec_snapshot(m, now);
            &&& (m.mbc == Mbc::Mbc2 ==> spec_restored_ram(m.mbc2_ram@, data) == m.mbc2_ram@)
            &&& (m.mbc != Mbc::Mbc2 ==> spec_restored_ram(m.external_ram@, data)
                == m.external_ram@)
            &&& (m.mbc == Mbc::Mbc3 ==> {
                let (regs, ts) = spec_rtc_update(m.rtc_registers@, m.rtc_last_timestamp, now);
                let ram_len = m.external_ram@.len() as int;
                &&& data.len() == ram_len + 13
                &&& spec_i64_from_le(data, ram_len) == ts
                &&& data.subrange(ram_len + 8, ram_len + 13) == regs
                &&& spec_rtc_update(
                    data.subrange(ram_len + 8, ram_len + 13),
                    spec_i64_from_le(data, ram_len),
                    now,
                ) == (regs, ts)
            })
        }),
{
    let data = spec_snapshot(m, now);
    if m.mbc == Mbc::Mbc2 {
        assert(spec_restored_ram(m.mbc2_ram@, data) =~= m.mbc2_ram@);
    } else if m.mbc == Mbc::Mbc3 {
        let (regs, ts) = spec_rtc_update(m.rtc_registers@, m.rtc_last_timestamp, now);
        let ram_len = m.external_ram@.len() as int;
        assert(regs.len() == 5);
        assert(spec_restored_ram(m.external_ram@, data) =~= m.external_ram@);
        assert(data.subrange(ram_len + 8, ram_len + 13) =~= regs);
        let u = ts as u64;
        crate::bits::lemma_u64_le_round_trip(u);
        crate::bits::lemma_i64_u64_round_trip(ts);
        assert(spec_i64_from_le(data, ram_len) == ts);
        assert(ts == now || ts == m.rtc_last_timestamp);
        assert(ts == m.rtc_last_timestamp ==> now - ts <= 0);
        assert(spec_rtc_update(regs, ts, now) == (regs, ts));
    } else {
        assert(spec_restored_ram(m.external_ram@, data) =~= m.external_ram@);
    }
}


} // verus!
