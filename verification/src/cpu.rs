//! Sharp LR35902 CPU: registers with their flag invariant, the
//! fetch-decode-execute interpreter with cycle accounting, interrupt
//! dispatch, and the 0xCB-prefixed bit-operation page.

use vstd::prelude::*;
use crate::mmu::Mmu;

verus! {

pub const VBLANK_INTERRUPT_ADDR: u16 = 0x0040;

pub const LCD_STAT_INTERRUPT_ADDR: u16 = 0x0048;

pub const TIMER_INTERRUPT_ADDR: u16 = 0x0050;

pub const SERIAL_INTERRUPT_ADDR: u16 = 0x0058;

pub const JOYPAD_INTERRUPT_ADDR: u16 = 0x0060;

/// The eight 8-bit registers (paired as AF, BC, DE, HL), stack pointer and
/// program counter.
#[derive(Debug, Default, Clone, Copy, PartialEq, Eq, Structural)]
pub struct CpuRegisters {
    pub a: u8,
    pub f: u8,
    pub b: u8,
    pub c: u8,
    pub d: u8,
    pub e: u8,
    pub h: u8,
    pub l: u8,
    pub sp: u16,
    pub pc: u16,
}

/// The zero flag (bit 7 of F).
pub open spec fn spec_f_z(r: CpuRegisters) -> bool {
    r.f & 0x80 != 0
}

/// The subtract flag (bit 6 of F).
pub open spec fn spec_f_n(r: CpuRegisters) -> bool {
    r.f & 0x40 != 0
}

/// The half-carry flag (bit 5 of F).
pub open spec fn spec_f_h(r: CpuRegisters) -> bool {
    r.f & 0x20 != 0
}

/// The carry flag (bit 4 of F).
pub open spec fn spec_f_c(r: CpuRegisters) -> bool {
    r.f & 0x10 != 0
}

/// F with `bit` written to `value`; the low nibble is forced to zero.
pub open spec fn spec_set_flag(f: u8, bit: u8, value: bool) -> u8 {
    ((if value {
        f | (1u8 << bit)
    } else {
        f & !(1u8 << bit)
    }) & 0xF0) as u8
}

impl CpuRegisters {
    /// The low nibble of F is always zero.
    pub open spec fn wf(self) -> bool {
        self.f & 0x0F == 0
    }

    /// Post-boot register file.
    pub fn new() -> (r: CpuRegisters)
        ensures
            r.wf(),
            r.a == 0x01 && r.f == 0xB0 && r.b == 0x00 && r.c == 0x13,
            r.d == 0x00 && r.e == 0xD8 && r.h == 0x01 && r.l == 0x4D,
            r.sp == 0xFFFE && r.pc == 0x0100,
    {
        proof {
            assert(0xB0u8 & 0x0F == 0) by (bit_vector);
        }
        CpuRegisters {
            a: 0x01,
            f: 0xB0,
            b: 0x00,
            c: 0x13,
            d: 0x00,
            e: 0xD8,
            h: 0x01,
            l: 0x4D,
            sp: 0xFFFE,
            pc: 0x0100,
        }
    }

    pub fn af(&self) -> (r: u16)
        ensures
            r == self.a * 256 + self.f,
    {
        proof {
            crate::bits::lemma_u16_byte_combine(self.f, self.a);
        }
        ((self.a as u16) << 8) | (self.f as u16)
    }

    pub fn bc(&self) -> (r: u16)
        ensures
            r == self.b * 256 + self.c,
    {
        proof {
            crate::bits::lemma_u16_byte_combine(self.c, self.b);
        }
        ((self.b as u16) << 8) | (self.c as u16)
    }

    pub fn de(&self) -> (r: u16)
        ensures
            r == self.d * 256 + self.e,
    {
        proof {
            crate::bits::lemma_u16_byte_combine(self.e, self.d);
        }
        ((self.d as u16) << 8) | (self.e as u16)
    }

    pub fn hl(&self) -> (r: u16)
        ensures
            r == self.h * 256 + self.l,
    {
        proof {
            crate::bits::lemma_u16_byte_combine(self.l, self.h);
        }
        ((self.h as u16) << 8) | (self.l as u16)
    }

    /// Writing AF keeps only the upper nibble of the flag byte.
    pub fn set_af(&mut self, val: u16)
        ensures
            *final(self) == (CpuRegisters {
                a: (val >> 8) as u8,
                f: (val & 0x00F0) as u8,
                ..*old(self)
            }),
            final(self).wf(),
            final(self).a == val / 256,
    {
        proof {
            crate::bits::lemma_af_low_nibble(val);
            crate::bits::lemma_u16_split_bytes(val);
        }
        self.a = (val >> 8) as u8;
        self.f = (val & 0x00F0) as u8;
    }

    pub fn set_bc(&mut self, val: u16)
        ensures
            *final(self) == (CpuRegisters {
                b: (val >> 8) as u8,
                c: (val & 0xFF) as u8,
                ..*old(self)
            }),
            final(self).b * 256 + final(self).c == val,
    {
        proof {
            crate::bits::lemma_u16_split_bytes(val);
        }
        self.b = (val >> 8) as u8;
        self.c = (val & 0xFF) as u8;
    }

    pub fn set_de(&mut self, val: u16)
        ensures
            *final(self) == (CpuRegisters {
                d: (val >> 8) as u8,
                e: (val & 0xFF) as u8,
                ..*old(self)
            }),
            final(self).d * 256 + final(self).e == val,
    {
        proof {
            crate::bits::lemma_u16_split_bytes(val);
        }
        self.d = (val >> 8) as u8;
        self.e = (val & 0xFF) as u8;
    }

    pub fn set_hl(&mut self, val: u16)
        ensures
            *final(self) == (CpuRegisters {
                h: (val >> 8) as u8,
                l: (val & 0xFF) as u8,
                ..*old(self)
            }),
            final(self).h * 256 + final(self).l == val,
    {
        proof {
            crate::bits::lemma_u16_split_bytes(val);
        }
        self.h = (val >> 8) as u8;
        self.l = (val & 0xFF) as u8;
    }

    pub fn f_z(&self) -> (r: bool)
        ensures
            r == spec_f_z(*self),
    {
        (self.f & 0x80) != 0
    }

    pub fn f_n(&self) -> (r: bool)
        ensures
            r == spec_f_n(*self),
    {
        (self.f & 0x40) != 0
    }

    pub fn f_h(&self) -> (r: bool)
        ensures
            r == spec_f_h(*self),
    {
        (self.f & 0x20) != 0
    }

    pub fn f_c(&self) -> (r: bool)
        ensures
            r == spec_f_c(*self),
    {
        (self.f & 0x10) != 0
    }

    /// Write one flag bit; the low nibble of F stays zero.
    pub fn set_flag_value(&mut self, bit: u8, value: bool)
        requires
            4 <= bit <= 7,
        ensures
            *final(self) == (CpuRegisters {
                f: spec_set_flag(old(self).f, bit, value),
                ..*old(self)
            }),
            final(self).wf(),
            bit == 7 ==> spec_f_z(*final(self)) == value,
            bit == 6 ==> spec_f_n(*final(self)) == value,
            bit == 5 ==> spec_f_h(*final(self)) == value,
            bit == 4 ==> spec_f_c(*final(self)) == value,
            bit != 7 ==> spec_f_z(*final(self)) == spec_f_z(*old(self)),
            bit != 6 ==> spec_f_n(*final(self)) == spec_f_n(*old(self)),
            bit != 5 ==> spec_f_h(*final(self)) == spec_f_h(*old(self)),
            bit != 4 ==> spec_f_c(*final(self)) == spec_f_c(*old(self)),
    {
        proof {
            crate::bits::lemma_set_flag(self.f, bit, value);
        }
        if value {
            self.f = self.f | (1u8 << bit);
        } else {
            self.f = self.f & !(1u8 << bit);
        }
        self.f = self.f & 0xF0;
    }

    pub fn set_f_z(&mut self, val: bool)
        ensures
            spec_f_z(*final(self)) == val,
            spec_f_n(*final(self)) == spec_f_n(*old(self)),
            spec_f_h(*final(self)) == spec_f_h(*old(self)),
            spec_f_c(*final(self)) == spec_f_c(*old(self)),
            final(self).wf(),
            *final(self) == (CpuRegisters { f: final(self).f, ..*old(self) }),
    {
        self.set_flag_value(7, val);
    }

    pub fn set_f_n(&mut self, val: bool)
        ensures
            spec_f_n(*final(self)) == val,
            spec_f_z(*final(self)) == spec_f_z(*old(self)),
            spec_f_h(*final(self)) == spec_f_h(*old(self)),
            spec_f_c(*final(self)) == spec_f_c(*old(self)),
            final(self).wf(),
            *final(self) == (CpuRegisters { f: final(self).f, ..*old(self) }),
    {
        self.set_flag_value(6, val);
    }

    pub fn set_f_h(&mut self, val: bool)
        ensures
            spec_f_h(*final(self)) == val,
            spec_f_z(*final(self)) == spec_f_z(*old(self)),
            spec_f_n(*final(self)) == spec_f_n(*old(self)),
            spec_f_c(*final(self)) == spec_f_c(*old(self)),
            final(self).wf(),
            *final(self) == (CpuRegisters { f: final(self).f, ..*old(self) }),
    {
        self.set_flag_value(5, val);
    }

    pub fn set_f_c(&mut self, val: bool)
        ensures
            spec_f_c(*final(self)) == val,
            spec_f_z(*final(self)) == spec_f_z(*old(self)),
            spec_f_n(*final(self)) == spec_f_n(*old(self)),
            spec_f_h(*final(self)) == spec_f_h(*old(self)),
            final(self).wf(),
            *final(self) == (CpuRegisters { f: final(self).f, ..*old(self) }),
    {
        self.set_flag_value(4, val);
    }

    /// Set all four flags at once.
    pub fn set_flags(&mut self, z: bool, n: bool, h: bool, c: bool)
        ensures
            spec_f_z(*final(self)) == z,
            spec_f_n(*final(self)) == n,
            spec_f_h(*final(self)) == h,
            spec_f_c(*final(self)) == c,
            final(self).wf(),
            *final(self) == (CpuRegisters { f: final(self).f, ..*old(self) }),
    {
        proof {
            crate::bits::lemma_flags_byte(z, n, h, c);
        }
        let zb: u8 = if z {
            0x80
        } else {
            0
        };
        let nb: u8 = if n {
            0x40
        } else {
            0
        };
        let hb: u8 = if h {
            0x20
        } else {
            0
        };
        let cb: u8 = if c {
            0x10
        } else {
            0
        };
        self.f = zb | nb | hb | cb;
    }
}


/// 8-bit register selected by an opcode's three-bit operand field
/// (0 B, 1 C, 2 D, 3 E, 4 H, 5 L, 7 A; 6 addresses memory through HL).
pub open spec fn spec_reg8(r: CpuRegisters, idx: u8) -> u8 {
    if idx == 0 {
        r.b
    } else if idx == 1 {
        r.c
    } else if idx == 2 {
        r.d
    } else if idx == 3 {
        r.e
    } else if idx == 4 {
        r.h
    } else if idx == 5 {
        r.l
    } else {
        r.a
    }
}

/// Register file with the operand-field register set to `v`.
pub open spec fn spec_set_reg8(r: CpuRegisters, idx: u8, v: u8) -> CpuRegisters {
    if idx == 0 {
        CpuRegisters { b: v, ..r }
    } else if idx == 1 {
        CpuRegisters { c: v, ..r }
    } else if idx == 2 {
        CpuRegisters { d: v, ..r }
    } else if idx == 3 {
        CpuRegisters { e: v, ..r }
    } else if idx == 4 {
        CpuRegisters { h: v, ..r }
    } else if idx == 5 {
        CpuRegisters { l: v, ..r }
    } else {
        CpuRegisters { a: v, ..r }
    }
}

/// The CPU: registers, the memory it owns, the interrupt-master-enable and
/// halted flags, and its cycle accounting.
pub struct Cpu {
    pub registers: CpuRegisters,
    pub mmu: Mmu,
    pub ime: bool,
    pub halted: bool,
    pub current_instruction_cycles: u8,
    pub total_clock_cycles: u64,
}

impl Cpu {
    /// Registers keep their flag invariant and the memory map is sound.
    pub open spec fn wf(self) -> bool {
        &&& self.registers.wf()
        &&& self.mmu.wf()
    }

    pub fn new(mmu: Mmu) -> (r: Cpu)
        requires
            mmu.wf(),
        ensures
            r.wf(),
            r.registers.wf(),
            r.registers.a == 0x01 && r.registers.f == 0xB0,
            r.registers.b == 0x00 && r.registers.c == 0x13,
            r.registers.d == 0x00 && r.registers.e == 0xD8,
            r.registers.h == 0x01 && r.registers.l == 0x4D,
            r.registers.sp == 0xFFFE && r.registers.pc == 0x0100,
            r.mmu == mmu,
            !r.ime,
            !r.halted,
            r.current_instruction_cycles == 0,
            r.total_clock_cycles == 0,
    {
        Cpu {
            registers: CpuRegisters::new(),
            mmu,
            ime: false,
            halted: false,
            current_instruction_cycles: 0,
            total_clock_cycles: 0,
        }
    }

    /// Memory read through the bus; each access costs four T-cycles.
    pub fn read_byte(&mut self, addr: u16) -> (r: u8)
        requires
            old(self).wf(),
            old(self).current_instruction_cycles <= 200,
        ensures
            final(self).wf(),
            r == crate::mmu::spec_read_byte(old(self).mmu, addr),
            *final(self) == (Cpu {
                current_instruction_cycles: (old(self).current_instruction_cycles + 4) as u8,
                ..*old(self)
            }),
    {
        let val = self.mmu.read_byte(addr);
        self.current_instruction_cycles = self.current_instruction_cycles + 4;
        val
    }

    /// Memory write through the bus; each access costs four T-cycles.
    pub fn write_byte(&mut self, addr: u16, val: u8)
        requires
            old(self).wf(),
            old(self).current_instruction_cycles <= 200,
        ensures
            final(self).wf(),
            crate::mmu::spec_write_byte_rel(old(self).mmu, final(self).mmu, addr, val),
            *final(self) == (Cpu {
                mmu: final(self).mmu,
                current_instruction_cycles: (old(self).current_instruction_cycles + 4) as u8,
                ..*old(self)
            }),
    {
        self.mmu.write_byte(addr, val);
        self.current_instruction_cycles = self.current_instruction_cycles + 4;
    }

    /// 16-bit write, low byte first.
    pub fn write_word(&mut self, addr: u16, val: u16)
        requires
            old(self).wf(),
            old(self).current_instruction_cycles <= 190,
        ensures
            final(self).wf(),
            exists|mid: Mmu|
                #[trigger] crate::mmu::spec_write_byte_rel(
                    old(self).mmu,
                    mid,
                    addr,
                    (val & 0xFF) as u8,
                ) && crate::mmu::spec_write_byte_rel(
                    mid,
                    final(self).mmu,
                    ((addr + 1) % 0x10000) as u16,
                    (val >> 8) as u8,
                ),
            *final(self) == (Cpu {
                mmu: final(self).mmu,
                current_instruction_cycles: (old(self).current_instruction_cycles + 8) as u8,
                ..*old(self)
            }),
    {
        proof {
            crate::bits::lemma_u16_split_bytes(val);
        }
        self.write_byte(addr, (val & 0xFF) as u8);
        let ghost mid = self.mmu;
        self.write_byte(addr.wrapping_add(1), (val >> 8) as u8);
        proof {
            assert(crate::mmu::spec_write_byte_rel(old(self).mmu, mid, addr, (val & 0xFF) as u8));
        }
    }

    /// Fetch the byte at PC and advance PC.
    pub fn fetch_byte_operand(&mut self) -> (r: u8)
        requires
            old(self).wf(),
            old(self).current_instruction_cycles <= 200,
        ensures
            final(self).wf(),
            r == crate::mmu::spec_read_byte(old(self).mmu, old(self).registers.pc),
            *final(self) == (Cpu {
                registers: (CpuRegisters {
                    pc: ((old(self).registers.pc + 1) % 0x10000) as u16,
                    ..old(self).registers
                }),
                current_instruction_cycles: (old(self).current_instruction_cycles + 4) as u8,
                ..*old(self)
            }),
    {
        let val = self.read_byte(self.registers.pc);
        self.registers.pc = self.registers.pc.wrapping_add(1);
        val
    }

    /// Fetch a little-endian 16-bit operand at PC and advance PC twice.
    pub fn fetch_word_operand(&mut self) -> (r: u16)
        requires
            old(self).wf(),
            old(self).current_instruction_cycles <= 190,
        ensures
            final(self).wf(),
            r == crate::mmu::spec_read_byte(old(self).mmu, old(self).registers.pc)
                + crate::mmu::spec_read_byte(
                old(self).mmu,
                ((old(self).registers.pc + 1) % 0x10000) as u16,
            ) * 256,
            *final(self) == (Cpu {
                registers: (CpuRegisters {
                    pc: ((old(self).registers.pc + 2) % 0x10000) as u16,
                    ..old(self).registers
                }),
                current_instruction_cycles: (old(self).current_instruction_cycles + 8) as u8,
                ..*old(self)
            }),
    {
        let low = self.fetch_byte_operand() as u16;
        let high = self.fetch_byte_operand() as u16;
        proof {
            crate::bits::lemma_u16_byte_combine(
                crate::mmu::spec_read_byte(old(self).mmu, old(self).registers.pc),
                crate::mmu::spec_read_byte(
                    old(self).mmu,
                    ((old(self).registers.pc + 1) % 0x10000) as u16,
                ),
            );
        }
        (high << 8) | low
    }

    /// Push a 16-bit value: SP drops by two, high byte above low byte; the
    /// push costs four internal T-cycles on top of the two accesses.
    pub fn push_u16(&mut self, val: u16)
        requires
            old(self).wf(),
            old(self).current_instruction_cycles <= 180,
        ensures
            final(self).wf(),
            final(self).registers == (CpuRegisters {
                sp: (((old(self).registers.sp - 2) % 0x10000 + 0x10000) % 0x10000) as u16,
                ..old(self).registers
            }),
            exists|mid: Mmu|
                #[trigger] crate::mmu::spec_write_byte_rel(
                    old(self).mmu,
                    mid,
                    (((old(self).registers.sp - 1) % 0x10000 + 0x10000) % 0x10000) as u16,
                    (val >> 8) as u8,
                ) && crate::mmu::spec_write_byte_rel(
                    mid,
                    final(self).mmu,
                    (((old(self).registers.sp - 2) % 0x10000 + 0x10000) % 0x10000) as u16,
                    (val & 0xFF) as u8,
                ),
            *final(self) == (Cpu {
                registers: final(self).registers,
                mmu: final(self).mmu,
                current_instruction_cycles: (old(self).current_instruction_cycles + 12) as u8,
                ..*old(self)
            }),
    {
        proof {
            crate::bits::lemma_u16_split_bytes(val);
        }
        self.registers.sp = self.registers.sp.wrapping_sub(1);
        self.write_byte(self.registers.sp, (val >> 8) as u8);
        let ghost mid = self.mmu;
        self.registers.sp = self.registers.sp.wrapping_sub(1);
        self.write_byte(self.registers.sp, (val & 0xFF) as u8);
        self.current_instruction_cycles = self.current_instruction_cycles + 4;
        proof {
            assert(crate::mmu::spec_write_byte_rel(
                old(self).mmu,
                mid,
                (((old(self).registers.sp - 1) % 0x10000 + 0x10000) % 0x10000) as u16,
                (val >> 8) as u8,
            ));
        }
    }

    /// Pop a 16-bit value: low byte at SP, high byte above; SP rises by two.
    pub fn pop_u16(&mut self) -> (r: u16)
        requires
            old(self).wf(),
            old(self).current_instruction_cycles <= 190,
        ensures
            final(self).wf(),
            r == crate::mmu::spec_read_byte(old(self).mmu, old(self).registers.sp)
                + crate::mmu::spec_read_byte(
                old(self).mmu,
                ((old(self).registers.sp + 1) % 0x10000) as u16,
            ) * 256,
            *final(self) == (Cpu {
                registers: (CpuRegisters {
                    sp: ((old(self).registers.sp + 2) % 0x10000) as u16,
                    ..old(self).registers
                }),
                current_instruction_cycles: (old(self).current_instruction_cycles + 8) as u8,
                ..*old(self)
            }),
    {
        let low = self.read_byte(self.registers.sp) as u16;
        self.registers.sp = self.registers.sp.wrapping_add(1);
        let high = self.read_byte(self.registers.sp) as u16;
        self.registers.sp = self.registers.sp.wrapping_add(1);
        proof {
            crate::bits::lemma_u16_byte_combine(
                crate::mmu::spec_read_byte(old(self).mmu, old(self).registers.sp),
                crate::mmu::spec_read_byte(
                    old(self).mmu,
                    ((old(self).registers.sp + 1) % 0x10000) as u16,
                ),
            );
        }
        (high << 8) | low
    }

    /// A + value (+ carry): result returned, all four flags set.
    pub fn alu_add_u8(&mut self, value: u8, use_carry: bool) -> (r: u8)
        requires
            old(self).registers.wf(),
        ensures
            ({
                let cv: int = if use_carry && spec_f_c(old(self).registers) {
                    1int
                } else {
                    0int
                };
                &&& r == (old(self).registers.a + value + cv) % 256
                &&& spec_f_z(final(self).registers) == (r == 0)
                &&& spec_f_n(final(self).registers) == false
                &&& spec_f_h(final(self).registers) == ((old(self).registers.a & 0x0F) + (value
                    & 0x0F) + cv > 0x0F)
                &&& spec_f_c(final(self).registers) == (old(self).registers.a + value + cv
                    > 0xFF)
            }),
            final(self).registers.wf(),
            final(self).registers == (CpuRegisters {
                f: final(self).registers.f,
                ..old(self).registers
            }),
            *final(self) == (Cpu { registers: final(self).registers, ..*old(self) }),
    {
        let a = self.registers.a;
        let carry_val: u8 = if use_carry && self.registers.f_c() {
            1
        } else {
            0
        };
        let result_u16 = a as u16 + value as u16 + carry_val as u16;
        let result_u8 = (result_u16 % 256) as u8;
        proof {
            crate::bits::lemma_u8_and_le(a, 0x0F);
            crate::bits::lemma_u8_and_le(value, 0x0F);
        }
        self.registers.set_flags(
            result_u8 == 0,
            false,
            (a & 0x0F) + (value & 0x0F) + carry_val > 0x0F,
            result_u16 > 0xFF,
        );
        result_u8
    }

    /// A - value (- carry): result returned, all four flags set; borrow
    /// flags come from the pre-subtraction comparison.
    pub fn alu_sub_u8(&mut self, value: u8, use_carry: bool) -> (r: u8)
        requires
            old(self).registers.wf(),
        ensures
            ({
                let cv: int = if use_carry && spec_f_c(old(self).registers) {
                    1int
                } else {
                    0int
                };
                &&& r == ((old(self).registers.a - value - cv) % 256 + 256) % 256
                &&& spec_f_z(final(self).registers) == (r == 0)
                &&& spec_f_n(final(self).registers) == true
                &&& spec_f_h(final(self).registers) == ((old(self).registers.a & 0x0F) < (value
                    & 0x0F) + cv)
                &&& spec_f_c(final(self).registers) == (old(self).registers.a < value + cv)
            }),
            final(self).registers.wf(),
            final(self).registers == (CpuRegisters {
                f: final(self).registers.f,
                ..old(self).registers
            }),
            *final(self) == (Cpu { registers: final(self).registers, ..*old(self) }),
    {
        let a = self.registers.a;
        let carry_val: u8 = if use_carry && self.registers.f_c() {
            1
        } else {
            0
        };
        let result_u8 = a.wrapping_sub(value).wrapping_sub(carry_val);
        proof {
            crate::bits::lemma_u8_and_le(a, 0x0F);
            crate::bits::lemma_u8_and_le(value, 0x0F);
        }
        self.registers.set_flags(
            result_u8 == 0,
            true,
            (a & 0x0F) < (value & 0x0F) + carry_val,
            (a as u16) < (value as u16) + (carry_val as u16),
        );
        result_u8
    }

    /// A &= value; H set, C cleared.
    pub fn alu_and_u8(&mut self, value: u8)
        requires
            old(self).registers.wf(),
        ensures
            final(self).registers.a == (old(self).registers.a & value),
            spec_f_z(final(self).registers) == (final(self).registers.a == 0),
            !spec_f_n(final(self).registers),
            spec_f_h(final(self).registers),
            !spec_f_c(final(self).registers),
            final(self).registers.wf(),
            final(self).registers == (CpuRegisters {
                a: final(self).registers.a,
                f: final(self).registers.f,
                ..old(self).registers
            }),
            *final(self) == (Cpu { registers: final(self).registers, ..*old(self) }),
    {
        self.registers.a = self.registers.a & value;
        let z = self.registers.a == 0;
        self.registers.set_flags(z, false, true, false);
    }

    /// A |= value; N, H, C cleared.
    pub fn alu_or_u8(&mut self, value: u8)
        requires
            old(self).registers.wf(),
        ensures
            final(self).registers.a == (old(self).registers.a | value),
            spec_f_z(final(self).registers) == (final(self).registers.a == 0),
            !spec_f_n(final(self).registers),
            !spec_f_h(final(self).registers),
            !spec_f_c(final(self).registers),
            final(self).registers.wf(),
            final(self).registers == (CpuRegisters {
                a: final(self).registers.a,
                f: final(self).registers.f,
                ..old(self).registers
            }),
            *final(self) == (Cpu { registers: final(self).registers, ..*old(self) }),
    {
        self.registers.a = self.registers.a | value;
        let z = self.registers.a == 0;
        self.registers.set_flags(z, false, false, false);
    }

    /// A ^= value; N, H, C cleared.
    pub fn alu_xor_u8(&mut self, value: u8)
        requires
            old(self).registers.wf(),
        ensures
            final(self).registers.a == (old(self).registers.a ^ value),
            spec_f_z(final(self).registers) == (final(self).registers.a == 0),
            !spec_f_n(final(self).registers),
            !spec_f_h(final(self).registers),
            !spec_f_c(final(self).registers),
            final(self).registers.wf(),
            final(self).registers == (CpuRegisters {
                a: final(self).registers.a,
                f: final(self).registers.f,
                ..old(self).registers
            }),
            *final(self) == (Cpu { registers: final(self).registers, ..*old(self) }),
    {
        self.registers.a = self.registers.a ^ value;
        let z = self.registers.a == 0;
        self.registers.set_flags(z, false, false, false);
    }

    /// Compare A with value: subtraction flags without storing the result.
    pub fn alu_cp_u8(&mut self, value: u8)
        requires
            old(self).registers.wf(),
        ensures
            spec_f_z(final(self).registers) == (old(self).registers.a == value),
            spec_f_n(final(self).registers),
            spec_f_h(final(self).registers) == ((old(self).registers.a & 0x0F) < (value & 0x0F)),
            spec_f_c(final(self).registers) == (old(self).registers.a < value),
            final(self).registers.wf(),
            final(self).registers == (CpuRegisters {
                f: final(self).registers.f,
                ..old(self).registers
            }),
            *final(self) == (Cpu { registers: final(self).registers, ..*old(self) }),
    {
        let a = self.registers.a;
        let result_u8 = a.wrapping_sub(value);
        self.registers.set_flags(
            result_u8 == 0,
            true,
            (a & 0x0F) < (value & 0x0F),
            a < value,
        );
    }

    /// value + 1 (wrapping): Z, N, H set; C untouched.
    pub fn alu_inc_u8(&mut self, value: u8) -> (r: u8)
        requires
            old(self).registers.wf(),
        ensures
            r == (value + 1) % 256,
            spec_f_z(final(self).registers) == (r == 0),
            !spec_f_n(final(self).registers),
            spec_f_h(final(self).registers) == (value & 0x0F == 0x0F),
            spec_f_c(final(self).registers) == spec_f_c(old(self).registers),
            final(self).registers.wf(),
            final(self).registers == (CpuRegisters {
                f: final(self).registers.f,
                ..old(self).registers
            }),
            *final(self) == (Cpu { registers: final(self).registers, ..*old(self) }),
    {
        let result = value.wrapping_add(1);
        self.registers.set_f_z(result == 0);
        self.registers.set_f_n(false);
        self.registers.set_f_h((value & 0x0F) == 0x0F);
        result
    }

    /// value - 1 (wrapping): Z, N, H set; C untouched.
    pub fn alu_dec_u8(&mut self, value: u8) -> (r: u8)
        requires
            old(self).registers.wf(),
        ensures
            r == ((value - 1) % 256 + 256) % 256,
            spec_f_z(final(self).registers) == (r == 0),
            spec_f_n(final(self).registers),
            spec_f_h(final(self).registers) == (value & 0x0F == 0),
            spec_f_c(final(self).registers) == spec_f_c(old(self).registers),
            final(self).registers.wf(),
            final(self).registers == (CpuRegisters {
                f: final(self).registers.f,
                ..old(self).registers
            }),
            *final(self) == (Cpu { registers: final(self).registers, ..*old(self) }),
    {
        let result = value.wrapping_sub(1);
        self.registers.set_f_z(result == 0);
        self.registers.set_f_n(true);
        self.registers.set_f_h((value & 0x0F) == 0);
        result
    }

    /// HL += value: N cleared, H from bit 11, C from bit 15; Z untouched;
    /// costs four internal T-cycles.
    pub fn alu_add_hl_rr(&mut self, value: u16)
        requires
            old(self).wf(),
            old(self).current_instruction_cycles <= 200,
        ensures
            final(self).wf(),
            final(self).registers.h * 256 + final(self).registers.l == (old(self).registers.h
                * 256 + old(self).registers.l + value) % 0x10000,
            spec_f_z(final(self).registers) == spec_f_z(old(self).registers),
            !spec_f_n(final(self).registers),
            spec_f_h(final(self).registers) == (((old(self).registers.h * 256
                + old(self).registers.l) as u16 & 0x0FFF) + (value & 0x0FFF) > 0x0FFF),
            spec_f_c(final(self).registers) == (old(self).registers.h * 256
                + old(self).registers.l + value > 0xFFFF),
            final(self).registers == (CpuRegisters {
                h: final(self).registers.h,
                l: final(self).registers.l,
                f: final(self).registers.f,
                ..old(self).registers
            }),
            *final(self) == (Cpu {
                registers: final(self).registers,
                current_instruction_cycles: (old(self).current_instruction_cycles + 4) as u8,
                ..*old(self)
            }),
    {
        let hl = self.registers.hl();
        let result = hl.wrapping_add(value);
        proof {
            crate::bits::lemma_u16_and_le(hl, 0x0FFF);
            crate::bits::lemma_u16_and_le(value, 0x0FFF);
        }
        self.registers.set_f_n(false);
        self.registers.set_f_h((hl & 0x0FFF) + (value & 0x0FFF) > 0x0FFF);
        self.registers.set_f_c((hl as u32) + (value as u32) > 0xFFFF);
        self.registers.set_hl(result);
        self.current_instruction_cycles = self.current_instruction_cycles + 4;
    }

    /// Register read by operand index (must not be 6, the memory operand).
    pub fn get_reg_by_idx(&self, idx: u8) -> (r: u8)
        requires
            idx <= 7,
            idx != 6,
        ensures
            r == spec_reg8(self.registers, idx),
    {
        match idx {
            0 => self.registers.b,
            1 => self.registers.c,
            2 => self.registers.d,
            3 => self.registers.e,
            4 => self.registers.h,
            5 => self.registers.l,
            _ => self.registers.a,
        }
    }

    /// Register write by operand index (must not be 6, the memory operand).
    pub fn set_reg_by_idx(&mut self, idx: u8, val: u8)
        requires
            idx <= 7,
            idx != 6,
        ensures
            final(self).registers == spec_set_reg8(old(self).registers, idx, val),
            *final(self) == (Cpu { registers: final(self).registers, ..*old(self) }),
    {
        match idx {
            0 => self.registers.b = val,
            1 => self.registers.c = val,
            2 => self.registers.d = val,
            3 => self.registers.e = val,
            4 => self.registers.h = val,
            5 => self.registers.l = val,
            _ => self.registers.a = val,
        }
    }
}


/// Value a CB-page operation produces, decoded purely from the opcode's bit
/// fields: bits 7:6 pick the class (shift/rotate, BIT, RES, SET) and bits
/// 5:3 the sub-operation or bit index.  BIT returns the value unchanged.
pub open spec fn spec_cb_result(op: u8, v: u8, carry_in: bool) -> u8 {
    let class = op >> 6;
    let sub = (op >> 3) & 7;
    let c: u8 = if carry_in {
        1u8
    } else {
        0u8
    };
    if class == 0 {
        if sub == 0 {
            (v << 1) | ((v >> 7) & 1)
        } else if sub == 1 {
            (v >> 1) | ((v & 1) << 7)
        } else if sub == 2 {
            (v << 1) | c
        } else if sub == 3 {
            (v >> 1) | (c << 7)
        } else if sub == 4 {
            v << 1
        } else if sub == 5 {
            (v >> 1) | (v & 0x80)
        } else if sub == 6 {
            (v << 4) | (v >> 4)
        } else {
            v >> 1
        }
    } else if class == 1 {
        v
    } else if class == 2 {
        v & !(1u8 << sub)
    } else {
        v | (1u8 << sub)
    }
}

/// Carry flag a CB-page operation leaves: the bit shifted out for the
/// shift/rotate class, the old carry elsewhere.
pub open spec fn spec_cb_carry(op: u8, v: u8, carry_in: bool) -> bool {
    let class = op >> 6;
    let sub = (op >> 3) & 7;
    if class == 0 {
        if sub == 0 || sub == 2 || sub == 4 {
            (v >> 7) & 1 == 1
        } else if sub == 6 {
            false
        } else {
            v & 1 == 1
        }
    } else {
        carry_in
    }
}

/// Zero flag a CB-page operation leaves (meaningful for classes 0 and 1).
pub open spec fn spec_cb_zero(op: u8, v: u8, carry_in: bool) -> bool {
    let class = op >> 6;
    let sub = (op >> 3) & 7;
    if class == 1 {
        v & (1u8 << sub) == 0
    } else {
        spec_cb_result(op, v, carry_in) == 0
    }
}

impl Cpu {
    /// Rotate left circular.
    pub fn cb_rlc(&mut self, value: u8) -> (r: u8)
        requires
            old(self).registers.wf(),
        ensures
            r == (value << 1) | ((value >> 7) & 1),
            spec_f_z(final(self).registers) == (r == 0),
            !spec_f_n(final(self).registers),
            !spec_f_h(final(self).registers),
            spec_f_c(final(self).registers) == ((value >> 7) & 1 == 1),
            final(self).registers.wf(),
            final(self).registers == (CpuRegisters {
                f: final(self).registers.f,
                ..old(self).registers
            }),
            *final(self) == (Cpu { registers: final(self).registers, ..*old(self) }),
    {
        let c = (value >> 7) & 1;
        let res = (value << 1) | c;
        self.registers.set_flags(res == 0, false, false, c == 1);
        res
    }

    /// Rotate right circular.
    pub fn cb_rrc(&mut self, value: u8) -> (r: u8)
        requires
            old(self).registers.wf(),
        ensures
            r == (value >> 1) | ((value & 1) << 7),
            spec_f_z(final(self).registers) == (r == 0),
            !spec_f_n(final(self).registers),
            !spec_f_h(final(self).registers),
            spec_f_c(final(self).registers) == (value & 1 == 1),
            final(self).registers.wf(),
            final(self).registers == (CpuRegisters {
                f: final(self).registers.f,
                ..old(self).registers
            }),
            *final(self) == (Cpu { registers: final(self).registers, ..*old(self) }),
    {
        let c = value & 1;
        let res = (value >> 1) | (c << 7);
        self.registers.set_flags(res == 0, false, false, c == 1);
        res
    }

    /// Rotate left through carry.
    pub fn cb_rl(&mut self, value: u8) -> (r: u8)
        requires
            old(self).registers.wf(),
        ensures
            r == (value << 1) | (if spec_f_c(old(self).registers) {
                1u8
            } else {
                0u8
            }),
            spec_f_z(final(self).registers) == (r == 0),
            !spec_f_n(final(self).registers),
            !spec_f_h(final(self).registers),
            spec_f_c(final(self).registers) == ((value >> 7) & 1 == 1),
            final(self).registers.wf(),
            final(self).registers == (CpuRegisters {
                f: final(self).registers.f,
                ..old(self).registers
            }),
            *final(self) == (Cpu { registers: final(self).registers, ..*old(self) }),
    {
        let oc: u8 = if self.registers.f_c() {
            1
        } else {
            0
        };
        let nc = (value >> 7) & 1;
        let res = (value << 1) | oc;
        self.registers.set_flags(res == 0, false, false, nc == 1);
        res
    }

    /// Rotate right through carry.
    pub fn cb_rr(&mut self, value: u8) -> (r: u8)
        requires
            old(self).registers.wf(),
        ensures
            r == (value >> 1) | ((if spec_f_c(old(self).registers) {
                1u8
            } else {
                0u8
            }) << 7),
            spec_f_z(final(self).registers) == (r == 0),
            !spec_f_n(final(self).registers),
            !spec_f_h(final(self).registers),
            spec_f_c(final(self).registers) == (value & 1 == 1),
            final(self).registers.wf(),
            final(self).registers == (CpuRegisters {
                f: final(self).registers.f,
                ..old(self).registers
            }),
            *final(self) == (Cpu { registers: final(self).registers, ..*old(self) }),
    {
        let oc: u8 = if self.registers.f_c() {
            1
        } else {
            0
        };
        let nc = value & 1;
        let res = (value >> 1) | (oc << 7);
        self.registers.set_flags(res == 0, false, false, nc == 1);
        res
    }

    /// Shift left arithmetic.
    pub fn cb_sla(&mut self, value: u8) -> (r: u8)
        requires
            old(self).registers.wf(),
        ensures
            r == value << 1,
            spec_f_z(final(self).registers) == (r == 0),
            !spec_f_n(final(self).registers),
            !spec_f_h(final(self).registers),
            spec_f_c(final(self).registers) == ((value >> 7) & 1 == 1),
            final(self).registers.wf(),
            final(self).registers == (CpuRegisters {
                f: final(self).registers.f,
                ..old(self).registers
            }),
            *final(self) == (Cpu { registers: final(self).registers, ..*old(self) }),
    {
        let c = (value >> 7) & 1;
        let res = value << 1;
        self.registers.set_flags(res == 0, false, false, c == 1);
        res
    }

    /// Shift right arithmetic (bit 7 kept).
    pub fn cb_sra(&mut self, value: u8) -> (r: u8)
        requires
            old(self).registers.wf(),
        ensures
            r == (value >> 1) | (value & 0x80),
            spec_f_z(final(self).registers) == (r == 0),
            !spec_f_n(final(self).registers),
            !spec_f_h(final(self).registers),
            spec_f_c(final(self).registers) == (value & 1 == 1),
            final(self).registers.wf(),
            final(self).registers == (CpuRegisters {
                f: final(self).registers.f,
                ..old(self).registers
            }),
            *final(self) == (Cpu { registers: final(self).registers, ..*old(self) }),
    {
        let c = value & 1;
        let res = (value >> 1) | (value & 0x80);
        self.registers.set_flags(res == 0, false, false, c == 1);
        res
    }

    /// Swap nibbles.
    pub fn cb_swap(&mut self, value: u8) -> (r: u8)
        requires
            old(self).registers.wf(),
        ensures
            r == (value << 4) | (value >> 4),
            spec_f_z(final(self).registers) == (r == 0),
            !spec_f_n(final(self).registers),
            !spec_f_h(final(self).registers),
            !spec_f_c(final(self).registers),
            final(self).registers.wf(),
            final(self).registers == (CpuRegisters {
                f: final(self).registers.f,
                ..old(self).registers
            }),
            *final(self) == (Cpu { registers: final(self).registers, ..*old(self) }),
    {
        let res = (value << 4) | (value >> 4);
        self.registers.set_flags(res == 0, false, false, false);
        res
    }

    /// Shift right logical.
    pub fn cb_srl(&mut self, value: u8) -> (r: u8)
        requires
            old(self).registers.wf(),
        ensures
            r == value >> 1,
            spec_f_z(final(self).registers) == (r == 0),
            !spec_f_n(final(self).registers),
            !spec_f_h(final(self).registers),
            spec_f_c(final(self).registers) == (value & 1 == 1),
            final(self).registers.wf(),
            final(self).registers == (CpuRegisters {
                f: final(self).registers.f,
                ..old(self).registers
            }),
            *final(self) == (Cpu { registers: final(self).registers, ..*old(self) }),
    {
        let c = value & 1;
        let res = value >> 1;
        self.registers.set_flags(res == 0, false, false, c == 1);
        res
    }

    /// Apply the CB-page operation `cb_opcode` to `current_value`: the
    /// result is decoded from the opcode's bit fields, and the flags follow
    /// the operation class (BIT and the shift/rotate family write flags;
    /// RES and SET leave them).
    pub fn cb_operate(&mut self, cb_opcode: u8, current_value: u8) -> (r: u8)
        requires
            old(self).registers.wf(),
        ensures
            r == spec_cb_result(cb_opcode, current_value, spec_f_c(old(self).registers)),
            final(self).registers.wf(),
            final(self).registers == (CpuRegisters {
                f: final(self).registers.f,
                ..old(self).registers
            }),
            *final(self) == (Cpu { registers: final(self).registers, ..*old(self) }),
            cb_opcode >> 6 == 0 || cb_opcode >> 6 == 1 ==> {
                &&& spec_f_z(final(self).registers) == spec_cb_zero(
                    cb_opcode,
                    current_value,
                    spec_f_c(old(self).registers),
                )
                &&& !spec_f_n(final(self).registers)
                &&& spec_f_h(final(self).registers) == (cb_opcode >> 6 == 1)
                &&& spec_f_c(final(self).registers) == spec_cb_carry(
                    cb_opcode,
                    current_value,
                    spec_f_c(old(self).registers),
                )
            },
            cb_opcode >> 6 >= 2 ==> final(self).registers == old(self).registers,
    {
        let operation_sub_type = (cb_opcode >> 3) & 0x07;
        let operation_main_type = cb_opcode >> 6;
        proof {
            crate::bits::lemma_u8_shr_bound(cb_opcode, 6);
            crate::bits::lemma_u8_and_le(cb_opcode >> 3, 0x07);
        }
        match operation_main_type {
            0 => {
                match operation_sub_type {
                    0 => self.cb_rlc(current_value),
                    1 => self.cb_rrc(current_value),
                    2 => self.cb_rl(current_value),
                    3 => self.cb_rr(current_value),
                    4 => self.cb_sla(current_value),
                    5 => self.cb_sra(current_value),
                    6 => self.cb_swap(current_value),
                    _ => self.cb_srl(current_value),
                }
            },
            1 => {
                let bit_to_test = operation_sub_type;
                self.registers.set_f_z((current_value & (1u8 << bit_to_test)) == 0);
                self.registers.set_f_n(false);
                self.registers.set_f_h(true);
                current_value
            },
            2 => current_value & !(1u8 << operation_sub_type),
            _ => current_value | (1u8 << operation_sub_type),
        }
    }

    /// Execute the 0xCB-prefixed instruction at PC: fetch the page opcode,
    /// read the operand named by its low three bits (a register, or memory
    /// at HL for 6), apply the decoded operation, and write the result back
    /// unless the operation is BIT.
    pub fn execute_cb_prefixed(&mut self)
        requires
            old(self).wf(),
            old(self).current_instruction_cycles <= 150,
        ensures
            final(self).wf(),
            final(self).ime == old(self).ime,
            final(self).halted == old(self).halted,
            final(self).total_clock_cycles == old(self).total_clock_cycles,
            final(self).registers.pc == (old(self).registers.pc + 1) % 0x10000,
            final(self).registers.sp == old(self).registers.sp,
            old(self).current_instruction_cycles + 4 <= final(self).current_instruction_cycles
                <= old(self).current_instruction_cycles + 12,
            ({
                let op = crate::mmu::spec_read_byte(old(self).mmu, old(self).registers.pc);
                let idx = op & 7;
                let carry_in = spec_f_c(old(self).registers);
                if idx != 6 {
                    let v = spec_reg8(old(self).registers, idx);
                    let res = spec_cb_result(op, v, carry_in);
                    &&& final(self).mmu == old(self).mmu
                    &&& final(self).current_instruction_cycles
                        == old(self).current_instruction_cycles + 4
                    &&& (op >> 6 != 1 ==> spec_reg8(final(self).registers, idx) == res)
                    &&& (op >> 6 == 0 ==> final(self).registers == spec_set_reg8(
                        (CpuRegisters {
                            pc: ((old(self).registers.pc + 1) % 0x10000) as u16,
                            f: final(self).registers.f,
                            ..old(self).registers
                        }),
                        idx,
                        res,
                    ))
                    &&& (op >> 6 == 1 ==> final(self).registers == (CpuRegisters {
                        pc: ((old(self).registers.pc + 1) % 0x10000) as u16,
                        f: final(self).registers.f,
                        ..old(self).registers
                    }))
                    &&& (op >> 6 >= 2 ==> final(self).registers == spec_set_reg8(
                        (CpuRegisters {
                            pc: ((old(self).registers.pc + 1) % 0x10000) as u16,
                            ..old(self).registers
                        }),
                        idx,
                        res,
                    ))
                    &&& (op >> 6 <= 1 ==> {
                        &&& spec_f_z(final(self).registers) == spec_cb_zero(op, v, carry_in)
                        &&& !spec_f_n(final(self).registers)
                        &&& spec_f_h(final(self).registers) == (op >> 6 == 1)
                        &&& spec_f_c(final(self).registers) == spec_cb_carry(op, v, carry_in)
                    })
                } else {
                    let v = crate::mmu::spec_read_byte(
                        old(self).mmu,
                        (old(self).registers.h * 256 + old(self).registers.l) as u16,
                    );
                    let res = spec_cb_result(op, v, carry_in);
                    &&& (op >> 6 == 1 ==> final(self).mmu == old(self).mmu
                        && final(self).current_instruction_cycles
                        == old(self).current_instruction_cycles + 8)
                    &&& (op >> 6 != 1 ==> crate::mmu::spec_write_byte_rel(
                        old(self).mmu,
                        final(self).mmu,
                        (old(self).registers.h * 256 + old(self).registers.l) as u16,
                        res,
                    ) && final(self).current_instruction_cycles
                        == old(self).current_instruction_cycles + 12)
                    &&& (op >> 6 <= 1 ==> final(self).registers == (CpuRegisters {
                        pc: ((old(self).registers.pc + 1) % 0x10000) as u16,
                        f: final(self).registers.f,
                        ..old(self).registers
                    }))
                    &&& (op >> 6 >= 2 ==> final(self).registers == (CpuRegisters {
                        pc: ((old(self).registers.pc + 1) % 0x10000) as u16,
                        ..old(self).registers
                    }))
                    &&& (op >> 6 <= 1 ==> {
                        &&& spec_f_z(final(self).registers) == spec_cb_zero(op, v, carry_in)
                        &&& !spec_f_n(final(self).registers)
                        &&& spec_f_h(final(self).registers) == (op >> 6 == 1)
                        &&& spec_f_c(final(self).registers) == spec_cb_carry(op, v, carry_in)
                    })
                }
            }),
    {
        let cb_opcode = self.fetch_byte_operand();
        let reg_idx = cb_opcode & 0x07;
        proof {
            crate::bits::lemma_u8_and_le(cb_opcode, 0x07);
            crate::bits::lemma_u8_shr_bound(cb_opcode, 6);
        }
        let is_hl = reg_idx == 6;
        let current_value: u8 = if is_hl {
            self.read_byte(self.registers.hl())
        } else {
            self.get_reg_by_idx(reg_idx)
        };
        let result_value = self.cb_operate(cb_opcode, current_value);
        let operation_main_type = cb_opcode >> 6;
        if operation_main_type != 1 {
            if is_hl {
                self.write_byte(self.registers.hl(), result_value);
            } else {
                self.set_reg_by_idx(reg_idx, result_value);
            }
        }
    }
}

/// The operation the CB page executes is fully determined by the opcode's
/// bit-decoded triple: bits 7:6 select the class, bits 5:3 the sub-operation
/// (or bit index), bits 2:0 the operand.  The shift/rotate class transforms
/// the value, BIT leaves it, RES clears the indexed bit, SET sets it.
pub proof fn lemma_cb_page_decoding(op: u8, v: u8, carry_in: bool)
    ensures
        op >> 6 == 1 ==> spec_cb_result(op, v, carry_in) == v,
        op >> 6 == 2 ==> spec_cb_result(op, v, carry_in) == v & !(1u8 << ((op >> 3) & 7)),
        op >> 6 == 3 ==> spec_cb_result(op, v, carry_in) == v | (1u8 << ((op >> 3) & 7)),
        op >> 6 == 0 && (op >> 3) & 7 == 6 ==> spec_cb_result(op, v, carry_in) == (v << 4) | (v
            >> 4),
        op >> 6 == 0 && (op >> 3) & 7 == 7 ==> spec_cb_result(op, v, carry_in) == v >> 1,
{
}

/// Adjustment DAA applies: 0x06 and/or 0x60 as the N, H, C flags and (after
/// an addition) the nibble values demand.
pub open spec fn spec_daa_adjust(a: u8, n: bool, h: bool, c: bool) -> u8 {
    let adj1: u8 = if c {
        0x60u8
    } else {
        0x00u8
    };
    let adj2: u8 = if h {
        adj1 | 0x06
    } else {
        adj1
    };
    if !n {
        let adj3: u8 = if a & 0x0F > 0x09 {
            adj2 | 0x06
        } else {
            adj2
        };
        if a > 0x99 {
            adj3 | 0x60
        } else {
            adj3
        }
    } else {
        adj2
    }
}

/// A after DAA: the adjustment is added after an addition and subtracted
/// after a subtraction, wrapping at 256.
pub open spec fn spec_daa_value(a: u8, n: bool, h: bool, c: bool) -> u8 {
    let adj = spec_daa_adjust(a, n, h, c);
    if !n {
        ((a + adj) % 256) as u8
    } else {
        ((a + 256 - adj) % 256) as u8
    }
}

/// Decimal-adjust result on A with the flags it leaves: C reports an
/// adjustment of at least 0x60, H clears, Z reflects the result.
pub open spec fn spec_daa(a: u8, n: bool, h: bool, c: bool) -> (u8, bool, bool) {
    let v = spec_daa_value(a, n, h, c);
    (v, v == 0, spec_daa_adjust(a, n, h, c) >= 0x60)
}

impl Cpu {
    /// The DAA instruction: decimal-adjust A.
    #[verifier::rlimit(60)]
    pub fn op_daa(&mut self)
        requires
            old(self).registers.wf(),
        ensures
            ({
                let (a2, z2, c2) = spec_daa(
                    old(self).registers.a,
                    spec_f_n(old(self).registers),
                    spec_f_h(old(self).registers),
                    spec_f_c(old(self).registers),
                );
                &&& final(self).registers.a == a2
                &&& spec_f_z(final(self).registers) == z2
                &&& spec_f_c(final(self).registers) == c2
                &&& !spec_f_h(final(self).registers)
                &&& spec_f_n(final(self).registers) == spec_f_n(old(self).registers)
            }),
            final(self).registers.wf(),
            final(self).registers == (CpuRegisters {
                a: final(self).registers.a,
                f: final(self).registers.f,
                ..old(self).registers
            }),
            *final(self) == (Cpu { registers: final(self).registers, ..*old(self) }),
    {
        let a = self.registers.a;
        let mut adjust: u8 = if self.registers.f_c() {
            0x60
        } else {
            0x00
        };
        if self.registers.f_h() {
            adjust |= 0x06;
        }
        let a2: u8;
        if !self.registers.f_n() {
            if a & 0x0F > 0x09 {
                adjust |= 0x06;
            }
            if a > 0x99 {
                adjust |= 0x60;
            }
            a2 = ((a as u16 + adjust as u16) % 256) as u8;
        } else {
            proof {
                crate::bits::lemma_u8_or_ge(0x60, 0x06);
                crate::bits::lemma_u8_and_le(adjust, 0xFF);
            }
            a2 = ((a as u16 + 256 - adjust as u16) % 256) as u8;
        }
        let n = self.registers.f_n();
        self.registers.set_flags(a2 == 0, n, false, adjust >= 0x60);
        self.registers.a = a2;
    }
}

/// Core of the BCD round trip, stated over plain bit arithmetic.
proof fn lemma_daa_round_trip_bits(a: u8, b: u8)
    by (bit_vector)
    requires
        a & 0x0F <= 9,
        a >> 4 <= 9,
        b & 0x0F <= 9,
        b >> 4 <= 9,
        a >= b,
    ensures
        ({
            let s = ((a + b) % 256) as u8;
            let h1 = (a & 0x0F) + (b & 0x0F) > 0x0F;
            let c1 = a + b > 0xFF;
            let d1 = spec_daa_value(s, false, h1, c1);
            let r2 = ((d1 + 256 - b) % 256) as u8;
            let h2 = (d1 & 0x0F) < (b & 0x0F);
            let c2 = d1 < b;
            spec_daa_value(r2, true, h2, c2) == a
        }),
{
}

/// On binary-coded-decimal operands, decimal-adjusted addition followed by
/// decimal-adjusted subtraction of the same operand returns the original
/// value: `a == DAA(sub(DAA(add(a, b)), b))` for BCD `a >= b`.
pub proof fn lemma_daa_bcd_round_trip(a: u8, b: u8)
    requires
        a & 0x0F <= 9,
        a >> 4 <= 9,
        b & 0x0F <= 9,
        b >> 4 <= 9,
        a >= b,
    ensures
        ({
            let s = ((a + b) % 256) as u8;
            let h1 = (a & 0x0F) + (b & 0x0F) > 0x0F;
            let c1 = a + b > 0xFF;
            let (d1, z1, cd1) = spec_daa(s, false, h1, c1);
            let r2 = ((d1 + 256 - b) % 256) as u8;
            let h2 = (d1 & 0x0F) < (b & 0x0F);
            let c2 = d1 < b;
            let (d2, z2, cd2) = spec_daa(r2, true, h2, c2);
            d2 == a
        }),
{
    lemma_daa_round_trip_bits(a, b);
}


/// Accumulator value an arithmetic-class instruction leaves (class from
/// opcode bits 5:3: ADD, ADC, SUB, SBC, AND, XOR, OR, CP).
pub open spec fn spec_alu_acc(class: u8, a: u8, v: u8, cin: bool) -> u8 {
    let c: int = if cin {
        1int
    } else {
        0int
    };
    if class == 0 {
        ((a + v) % 256) as u8
    } else if class == 1 {
        ((a + v + c) % 256) as u8
    } else if class == 2 {
        (((a - v) % 256 + 256) % 256) as u8
    } else if class == 3 {
        (((a - v - c) % 256 + 256) % 256) as u8
    } else if class == 4 {
        a & v
    } else if class == 5 {
        a ^ v
    } else if class == 6 {
        a | v
    } else {
        a
    }
}

/// (Z, N, H, C) an arithmetic-class instruction leaves.
pub open spec fn spec_alu_flags(class: u8, a: u8, v: u8, cin: bool) -> (bool, bool, bool, bool) {
    let c: int = if cin {
        1int
    } else {
        0int
    };
    if class == 0 {
        ((a + v) % 256 == 0, false, (a & 0x0F) + (v & 0x0F) > 0x0F, a + v > 0xFF)
    } else if class == 1 {
        ((a + v + c) % 256 == 0, false, (a & 0x0F) + (v & 0x0F) + c > 0x0F, a + v + c > 0xFF)
    } else if class == 2 {
        (a == v, true, (a & 0x0F) < (v & 0x0F), (a as int) < v)
    } else if class == 3 {
        (
            ((a - v - c) % 256 + 256) % 256 == 0,
            true,
            (a & 0x0F) < (v & 0x0F) + c,
            (a as int) < v + c,
        )
    } else if class == 4 {
        (a & v == 0, false, true, false)
    } else if class == 5 {
        (a ^ v == 0, false, false, false)
    } else if class == 6 {
        (a | v == 0, false, false, false)
    } else {
        (a == v, true, (a & 0x0F) < (v & 0x0F), (a as int) < v)
    }
}

impl Cpu {
    /// Register-to-register load block (0x40-0x7F except HALT): move the
    /// source operand into the destination operand, through memory at HL
    /// when either three-bit field is 6.
    pub fn execute_ld_group(&mut self, opcode: u8)
        requires
            old(self).wf(),
            0x40 <= opcode <= 0x7F,
            opcode != 0x76,
            old(self).current_instruction_cycles <= 100,
        ensures
            final(self).wf(),
            final(self).ime == old(self).ime,
            final(self).halted == old(self).halted,
            final(self).total_clock_cycles == old(self).total_clock_cycles,
            ({
                let dst = (opcode >> 3) & 7;
                let src = opcode & 7;
                if src != 6 && dst != 6 {
                    &&& *final(self) == (Cpu {
                        registers: spec_set_reg8(
                            old(self).registers,
                            dst,
                            spec_reg8(old(self).registers, src),
                        ),
                        ..*old(self)
                    })
                } else if src == 6 {
                    &&& *final(self) == (Cpu {
                        registers: spec_set_reg8(
                            old(self).registers,
                            dst,
                            crate::mmu::spec_read_byte(
                                old(self).mmu,
                                (old(self).registers.h * 256 + old(self).registers.l) as u16,
                            ),
                        ),
                        current_instruction_cycles: (old(self).current_instruction_cycles
                            + 4) as u8,
                        ..*old(self)
                    })
                } else {
                    &&& final(self).registers == old(self).registers
                    &&& crate::mmu::spec_write_byte_rel(
                        old(self).mmu,
                        final(self).mmu,
                        (old(self).registers.h * 256 + old(self).registers.l) as u16,
                        spec_reg8(old(self).registers, src),
                    )
                    &&& *final(self) == (Cpu {
                        mmu: final(self).mmu,
                        current_instruction_cycles: (old(self).current_instruction_cycles
                            + 4) as u8,
                        ..*old(self)
                    })
                }
            }),
    {
        let dst = (opcode >> 3) & 7;
        let src = opcode & 7;
        proof {
            crate::bits::lemma_u8_and_le(opcode >> 3, 7);
            crate::bits::lemma_u8_and_le(opcode, 7);
            crate::bits::lemma_ld_operand_fields(opcode);
        }
        if src == 6 {
            let hl = self.registers.hl();
            let v = self.read_byte(hl);
            self.set_reg_by_idx(dst, v);
        } else if dst == 6 {
            let v = self.get_reg_by_idx(src);
            let hl = self.registers.hl();
            self.write_byte(hl, v);
        } else {
            let v = self.get_reg_by_idx(src);
            self.set_reg_by_idx(dst, v);
        }
    }

    /// Arithmetic block (0x80-0xBF): combine A with the source operand
    /// according to the class bits; CP discards the result.
    pub fn execute_alu_group(&mut self, opcode: u8)
        requires
            old(self).wf(),
            0x80 <= opcode <= 0xBF,
            old(self).current_instruction_cycles <= 100,
        ensures
            final(self).wf(),
            final(self).ime == old(self).ime,
            final(self).halted == old(self).halted,
            final(self).total_clock_cycles == old(self).total_clock_cycles,
            final(self).mmu == old(self).mmu,
            ({
                let class = (opcode >> 3) & 7;
                let src = opcode & 7;
                let v = if src == 6 {
                    crate::mmu::spec_read_byte(
                        old(self).mmu,
                        (old(self).registers.h * 256 + old(self).registers.l) as u16,
                    )
                } else {
                    spec_reg8(old(self).registers, src)
                };
                &&& final(self).registers.a == spec_alu_acc(
                    class,
                    old(self).registers.a,
                    v,
                    spec_f_c(old(self).registers),
                )
                &&& (
                spec_f_z(final(self).registers),
                spec_f_n(final(self).registers),
                spec_f_h(final(self).registers),
                spec_f_c(final(self).registers),
                ) == spec_alu_flags(class, old(self).registers.a, v, spec_f_c(old(self).registers))
                &&& final(self).registers == (CpuRegisters {
                    a: final(self).registers.a,
                    f: final(self).registers.f,
                    ..old(self).registers
                })
                &&& final(self).current_instruction_cycles == old(
                    self,
                ).current_instruction_cycles + (if src == 6 {
                    4int
                } else {
                    0int
                })
            }),
    {
        let class = (opcode >> 3) & 7;
        let src = opcode & 7;
        proof {
            crate::bits::lemma_u8_and_le(opcode >> 3, 7);
            crate::bits::lemma_u8_and_le(opcode, 7);
        }
        let v: u8 = if src == 6 {
            let hl = self.registers.hl();
            self.read_byte(hl)
        } else {
            self.get_reg_by_idx(src)
        };
        match class {
            0 => {
                let r = self.alu_add_u8(v, false);
                self.registers.a = r;
            },
            1 => {
                let r = self.alu_add_u8(v, true);
                self.registers.a = r;
            },
            2 => {
                let r = self.alu_sub_u8(v, false);
                self.registers.a = r;
            },
            3 => {
                let r = self.alu_sub_u8(v, true);
                self.registers.a = r;
            },
            4 => self.alu_and_u8(v),
            5 => self.alu_xor_u8(v),
            6 => self.alu_or_u8(v),
            _ => self.alu_cp_u8(v),
        }
    }
}


impl Cpu {
    /// Opcode page 0x00-0x3F: immediate loads, 16-bit register arithmetic,
    /// rotates of A, relative jumps, DAA and the flag instructions.
    #[verifier::rlimit(100)]
    #[verifier::spinoff_prover]
    pub fn execute_low(&mut self, opcode: u8)
        requires
            old(self).wf(),
            opcode <= 0x3F,
            old(self).current_instruction_cycles <= 100,
        ensures
            final(self).wf(),
            final(self).ime == old(self).ime,
            final(self).halted == old(self).halted,
            final(self).total_clock_cycles == old(self).total_clock_cycles,
            old(self).current_instruction_cycles <= final(self).current_instruction_cycles
                <= old(self).current_instruction_cycles + 20,
            opcode == 0x00 ==> *final(self) == *old(self),
            opcode == 0x27 ==> ({
                let (a2, z2, c2) = spec_daa(
                    old(self).registers.a,
                    spec_f_n(old(self).registers),
                    spec_f_h(old(self).registers),
                    spec_f_c(old(self).registers),
                );
                &&& final(self).registers.a == a2
                &&& spec_f_z(final(self).registers) == z2
                &&& spec_f_c(final(self).registers) == c2
                &&& !spec_f_h(final(self).registers)
                &&& spec_f_n(final(self).registers) == spec_f_n(old(self).registers)
                &&& final(self).mmu == old(self).mmu
                &&& final(self).registers == (CpuRegisters {
                    a: final(self).registers.a,
                    f: final(self).registers.f,
                    ..old(self).registers
                })
            }),
            opcode == 0x3E ==> *final(self) == (Cpu {
                registers: (CpuRegisters {
                    a: crate::mmu::spec_read_byte(old(self).mmu, old(self).registers.pc),
                    pc: ((old(self).registers.pc + 1) % 0x10000) as u16,
                    ..old(self).registers
                }),
                current_instruction_cycles: (old(self).current_instruction_cycles + 4) as u8,
                ..*old(self)
            }),
            opcode == 0x06 ==> *final(self) == (Cpu {
                registers: (CpuRegisters {
                    b: crate::mmu::spec_read_byte(old(self).mmu, old(self).registers.pc),
                    pc: ((old(self).registers.pc + 1) % 0x10000) as u16,
                    ..old(self).registers
                }),
                current_instruction_cycles: (old(self).current_instruction_cycles + 4) as u8,
                ..*old(self)
            }),
    {
        match opcode {
            0x00 => {},
            0x01 => {
                let nn = self.fetch_word_operand();
                self.registers.set_bc(nn);
            },
            0x02 => {
                let addr = self.registers.bc();
                self.write_byte(addr, self.registers.a);
            },
            0x03 => {
                let v = self.registers.bc().wrapping_add(1);
                self.registers.set_bc(v);
                self.current_instruction_cycles = self.current_instruction_cycles + 4;
            },
            0x04 | 0x0C | 0x14 | 0x1C | 0x24 | 0x2C | 0x3C => {
                let reg_idx = (opcode >> 3) & 0x07;
                proof {
                    crate::bits::lemma_u8_and_le(opcode >> 3, 7);
                    assert((opcode >> 3) & 0x07 != 6) by (bit_vector)
                        requires
                            opcode == 0x04 || opcode == 0x0C || opcode == 0x14 || opcode == 0x1C
                                || opcode == 0x24 || opcode == 0x2C || opcode == 0x3C,
                    ;
                }
                let old_val = self.get_reg_by_idx(reg_idx);
                let new_val = self.alu_inc_u8(old_val);
                self.set_reg_by_idx(reg_idx, new_val);
            },
            0x05 | 0x0D | 0x15 | 0x1D | 0x25 | 0x2D | 0x3D => {
                let reg_idx = (opcode >> 3) & 0x07;
                proof {
                    crate::bits::lemma_u8_and_le(opcode >> 3, 7);
                    assert((opcode >> 3) & 0x07 != 6) by (bit_vector)
                        requires
                            opcode == 0x05 || opcode == 0x0D || opcode == 0x15 || opcode == 0x1D
                                || opcode == 0x25 || opcode == 0x2D || opcode == 0x3D,
                    ;
                }
                let old_val = self.get_reg_by_idx(reg_idx);
                let new_val = self.alu_dec_u8(old_val);
                self.set_reg_by_idx(reg_idx, new_val);
            },
            0x06 => {
                let n = self.fetch_byte_operand();
                self.registers.b = n;
            },
            0x07 => {
                let a = self.registers.a;
                let c = (a >> 7) & 1;
                self.registers.a = (a << 1) | c;
                self.registers.set_flags(false, false, false, c == 1);
            },
            0x08 => {
                let addr = self.fetch_word_operand();
                let sp = self.registers.sp;
                self.write_word(addr, sp);
            },
            0x09 => {
                let v = self.registers.bc();
                self.alu_add_hl_rr(v);
            },
            0x0A => {
                let addr = self.registers.bc();
                self.registers.a = self.read_byte(addr);
            },
            0x0B => {
                let v = self.registers.bc().wrapping_sub(1);
                self.registers.set_bc(v);
                self.current_instruction_cycles = self.current_instruction_cycles + 4;
            },
            0x0E => {
                let n = self.fetch_byte_operand();
                self.registers.c = n;
            },
            0x0F => {
                let a = self.registers.a;
                let c = a & 1;
                self.registers.a = (a >> 1) | (c << 7);
                self.registers.set_flags(false, false, false, c == 1);
            },
            0x10 => {
                let _ = self.fetch_byte_operand();
            },
            0x11 => {
                let nn = self.fetch_word_operand();
                self.registers.set_de(nn);
            },
            0x12 => {
                let addr = self.registers.de();
                self.write_byte(addr, self.registers.a);
            },
            0x13 => {
                let v = self.registers.de().wrapping_add(1);
                self.registers.set_de(v);
                self.current_instruction_cycles = self.current_instruction_cycles + 4;
            },
            0x16 => {
                let n = self.fetch_byte_operand();
                self.registers.d = n;
            },
            0x17 => {
                let a = self.registers.a;
                let oc: u8 = if self.registers.f_c() {
                    1
                } else {
                    0
                };
                let nc = (a >> 7) & 1;
                self.registers.a = (a << 1) | oc;
                self.registers.set_flags(false, false, false, nc == 1);
            },
            0x18 => {
                let offset = self.fetch_byte_operand() as i8;
                self.registers.pc = self.registers.pc.wrapping_add_signed(offset as i16);
                self.current_instruction_cycles = self.current_instruction_cycles + 4;
            },
            0x19 => {
                let v = self.registers.de();
                self.alu_add_hl_rr(v);
            },
            0x1A => {
                let addr = self.registers.de();
                self.registers.a = self.read_byte(addr);
            },
            0x1B => {
                let v = self.registers.de().wrapping_sub(1);
                self.registers.set_de(v);
                self.current_instruction_cycles = self.current_instruction_cycles + 4;
            },
            0x1E => {
                let n = self.fetch_byte_operand();
                self.registers.e = n;
            },
            0x1F => {
                let a = self.registers.a;
                let oc: u8 = if self.registers.f_c() {
                    1
                } else {
                    0
                };
                let nc = a & 1;
                self.registers.a = (a >> 1) | (oc << 7);
                self.registers.set_flags(false, false, false, nc == 1);
            },
            0x20 => {
                let offset = self.fetch_byte_operand() as i8;
                if !self.registers.f_z() {
                    self.registers.pc = self.registers.pc.wrapping_add_signed(offset as i16);
                    self.current_instruction_cycles = self.current_instruction_cycles + 4;
                }
            },
            0x21 => {
                let nn = self.fetch_word_operand();
                self.registers.set_hl(nn);
            },
            0x22 => {
                let addr = self.registers.hl();
                self.write_byte(addr, self.registers.a);
                let v = self.registers.hl().wrapping_add(1);
                self.registers.set_hl(v);
            },
            0x23 => {
                let v = self.registers.hl().wrapping_add(1);
                self.registers.set_hl(v);
                self.current_instruction_cycles = self.current_instruction_cycles + 4;
            },
            0x26 => {
                let n = self.fetch_byte_operand();
                self.registers.h = n;
            },
            0x27 => {
                self.op_daa();
            },
            0x28 => {
                let offset = self.fetch_byte_operand() as i8;
                if self.registers.f_z() {
                    self.registers.pc = self.registers.pc.wrapping_add_signed(offset as i16);
                    self.current_instruction_cycles = self.current_instruction_cycles + 4;
                }
            },
            0x29 => {
                let v = self.registers.hl();
                self.alu_add_hl_rr(v);
            },
            0x2A => {
                let addr = self.registers.hl();
                self.registers.a = self.read_byte(addr);
                let v = self.registers.hl().wrapping_add(1);
                self.registers.set_hl(v);
            },
            0x2B => {
                let v = self.registers.hl().wrapping_sub(1);
                self.registers.set_hl(v);
                self.current_instruction_cycles = self.current_instruction_cycles + 4;
            },
            0x2E => {
                let n = self.fetch_byte_operand();
                self.registers.l = n;
            },
            0x2F => {
                self.registers.a = !self.registers.a;
                self.registers.set_f_n(true);
                self.registers.set_f_h(true);
            },
            0x30 => {
                let offset = self.fetch_byte_operand() as i8;
                if !self.registers.f_c() {
                    self.registers.pc = self.registers.pc.wrapping_add_signed(offset as i16);
                    self.current_instruction_cycles = self.current_instruction_cycles + 4;
                }
            },
            0x31 => {
                let nn = self.fetch_word_operand();
                self.registers.sp = nn;
            },
            0x32 => {
                let addr = self.registers.hl();
                self.write_byte(addr, self.registers.a);
                let v = self.registers.hl().wrapping_sub(1);
                self.registers.set_hl(v);
            },
            0x33 => {
                self.registers.sp = self.registers.sp.wrapping_add(1);
                self.current_instruction_cycles = self.current_instruction_cycles + 4;
            },
            0x34 => {
                let addr = self.registers.hl();
                let val = self.read_byte(addr);
                let result = self.alu_inc_u8(val);
                self.write_byte(addr, result);
            },
            0x35 => {
                let addr = self.registers.hl();
                let val = self.read_byte(addr);
                let result = self.alu_dec_u8(val);
                self.write_byte(addr, result);
            },
            0x36 => {
                let n = self.fetch_byte_operand();
                let addr = self.registers.hl();
                self.write_byte(addr, n);
            },
            0x37 => {
                self.registers.set_f_n(false);
                self.registers.set_f_h(false);
                self.registers.set_f_c(true);
            },
            0x38 => {
                let offset = self.fetch_byte_operand() as i8;
                if self.registers.f_c() {
                    self.registers.pc = self.registers.pc.wrapping_add_signed(offset as i16);
                    self.current_instruction_cycles = self.current_instruction_cycles + 4;
                }
            },
            0x39 => {
                let v = self.registers.sp;
                self.alu_add_hl_rr(v);
            },
            0x3A => {
                let addr = self.registers.hl();
                self.registers.a = self.read_byte(addr);
                let v = self.registers.hl().wrapping_sub(1);
                self.registers.set_hl(v);
            },
            0x3B => {
                self.registers.sp = self.registers.sp.wrapping_sub(1);
                self.current_instruction_cycles = self.current_instruction_cycles + 4;
            },
            0x3E => {
                let n = self.fetch_byte_operand();
                self.registers.a = n;
            },
            0x3F => {
                let c = self.registers.f_c();
                self.registers.set_f_n(false);
                self.registers.set_f_h(false);
                self.registers.set_f_c(!c);
            },
            _ => {},
        }
    }
}


/// Fixed handler address of the interrupt with the lowest pending bit.
pub open spec fn spec_irq_vector(pending: u8) -> u16 {
    if pending & 0x01 != 0 {
        0x0040u16
    } else if pending & 0x02 != 0 {
        0x0048u16
    } else if pending & 0x04 != 0 {
        0x0050u16
    } else if pending & 0x08 != 0 {
        0x0058u16
    } else {
        0x0060u16
    }
}

/// Index of the lowest set pending-interrupt bit (0 to 4).
pub open spec fn spec_lowest_irq_bit(pending: u8) -> u8 {
    if pending & 0x01 != 0 {
        0u8
    } else if pending & 0x02 != 0 {
        1u8
    } else if pending & 0x04 != 0 {
        2u8
    } else if pending & 0x08 != 0 {
        3u8
    } else {
        4u8
    }
}

/// How an interrupt dispatch relates the machine before and after: IME
/// drops, the halted flag clears, the lowest pending interrupt's IF bit is
/// cleared, the old PC is pushed at SP-1 (high byte) and SP-2 (low byte),
/// PC jumps to the interrupt's fixed vector, and the service costs twenty
/// T-cycles.
pub open spec fn spec_dispatch_rel(pre: Cpu, post: Cpu) -> bool {
    let if_val = pre.mmu.io_registers@[0x0F];
    let pending = (if_val & pre.mmu.interrupt_enable_register & 0x1F) as u8;
    let sp1 = (((pre.registers.sp - 1) % 0x10000 + 0x10000) % 0x10000) as u16;
    let sp2 = (((pre.registers.sp - 2) % 0x10000 + 0x10000) % 0x10000) as u16;
    &&& !post.ime
    &&& !post.halted
    &&& post.total_clock_cycles == pre.total_clock_cycles
    &&& post.current_instruction_cycles == pre.current_instruction_cycles + 20
    &&& post.registers == (CpuRegisters {
        pc: spec_irq_vector(pending),
        sp: sp2,
        ..pre.registers
    })
    &&& exists|m1: Mmu, m2: Mmu|
        {
            &&& crate::mmu::spec_write_io_rel(
                pre.mmu,
                m1,
                0xFF0F,
                (if_val & !(1u8 << spec_lowest_irq_bit(pending))) as u8,
            )
            &&& #[trigger] crate::mmu::spec_write_byte_rel(
                m1,
                m2,
                sp1,
                (pre.registers.pc >> 8) as u8,
            )
            &&& crate::mmu::spec_write_byte_rel(m2, post.mmu, sp2, (pre.registers.pc & 0xFF) as u8)
        }
}

/// How one executed instruction relates the machine before (PC already past
/// the opcode byte) and after: the flag and interrupt-control discipline and
/// cycle bounds of every opcode, and exact effects for NOP, DAA, the
/// immediate loads of A and B, register-to-register loads, the
/// register-operand arithmetic block, and ADD SP,e8.
pub open spec fn spec_execute_rel(pre: Cpu, post: Cpu, opcode: u8) -> bool {
    &&& post.wf()
    &&& post.total_clock_cycles == pre.total_clock_cycles
    &&& post.halted == (if opcode == 0x76 {
        true
    } else {
        pre.halted
    })
    &&& post.ime == (if opcode == 0xF3 {
        false
    } else if opcode == 0xFB || opcode == 0xD9 {
        true
    } else {
        pre.ime
    })
    &&& pre.current_instruction_cycles <= post.current_instruction_cycles
        <= pre.current_instruction_cycles + 20
    &&& (opcode == 0x00 ==> post == pre)
    &&& (opcode == 0x27 ==> ({
        let (a2, z2, c2) = spec_daa(
            pre.registers.a,
            spec_f_n(pre.registers),
            spec_f_h(pre.registers),
            spec_f_c(pre.registers),
        );
        &&& post.registers.a == a2
        &&& spec_f_z(post.registers) == z2
        &&& spec_f_c(post.registers) == c2
        &&& !spec_f_h(post.registers)
        &&& spec_f_n(post.registers) == spec_f_n(pre.registers)
        &&& post.mmu == pre.mmu
        &&& post.registers == (CpuRegisters {
            a: post.registers.a,
            f: post.registers.f,
            ..pre.registers
        })
    }))
    &&& (opcode == 0x3E ==> post == (Cpu {
        registers: (CpuRegisters {
            a: crate::mmu::spec_read_byte(pre.mmu, pre.registers.pc),
            pc: ((pre.registers.pc + 1) % 0x10000) as u16,
            ..pre.registers
        }),
        current_instruction_cycles: (pre.current_instruction_cycles + 4) as u8,
        ..pre
    }))
    &&& (opcode == 0x06 ==> post == (Cpu {
        registers: (CpuRegisters {
            b: crate::mmu::spec_read_byte(pre.mmu, pre.registers.pc),
            pc: ((pre.registers.pc + 1) % 0x10000) as u16,
            ..pre.registers
        }),
        current_instruction_cycles: (pre.current_instruction_cycles + 4) as u8,
        ..pre
    }))
    &&& ((0x40 <= opcode <= 0x7F && opcode != 0x76 && opcode & 7 != 6 && (opcode >> 3) & 7
        != 6) ==> post == (Cpu {
        registers: spec_set_reg8(
            pre.registers,
            (opcode >> 3) & 7,
            spec_reg8(pre.registers, opcode & 7),
        ),
        ..pre
    }))
    &&& ((0x80 <= opcode <= 0xBF && opcode & 7 != 6) ==> ({
        &&& post.mmu == pre.mmu
        &&& post.registers.a == spec_alu_acc(
            (opcode >> 3) & 7,
            pre.registers.a,
            spec_reg8(pre.registers, opcode & 7),
            spec_f_c(pre.registers),
        )
        &&& (
        spec_f_z(post.registers),
        spec_f_n(post.registers),
        spec_f_h(post.registers),
        spec_f_c(post.registers),
        ) == spec_alu_flags(
            (opcode >> 3) & 7,
            pre.registers.a,
            spec_reg8(pre.registers, opcode & 7),
            spec_f_c(pre.registers),
        )
        &&& post.registers == (CpuRegisters {
            a: post.registers.a,
            f: post.registers.f,
            ..pre.registers
        })
    }))
    &&& (opcode == 0xE8 ==> ({
        let e8 = crate::mmu::spec_read_byte(pre.mmu, pre.registers.pc);
        let offset = ((e8 as i8) as u16);
        &&& post.mmu == pre.mmu
        &&& post.registers == (CpuRegisters {
            sp: ((pre.registers.sp + offset) % 0x10000) as u16,
            pc: ((pre.registers.pc + 1) % 0x10000) as u16,
            f: post.registers.f,
            ..pre.registers
        })
        &&& !spec_f_z(post.registers)
        &&& !spec_f_n(post.registers)
        &&& spec_f_h(post.registers) == ((pre.registers.sp & 0x000F) + (offset & 0x000F)
            > 0x000F)
        &&& spec_f_c(post.registers) == ((pre.registers.sp & 0x00FF) + (offset & 0x00FF)
            > 0x00FF)
        &&& post.current_instruction_cycles == pre.current_instruction_cycles + 12
    }))
}

impl Cpu {
    /// Opcode page 0xC0-0xFF: jumps, calls, returns, stack operations,
    /// immediate arithmetic, the high-memory loads, the interrupt-enable
    /// instructions and the 0xCB prefix.  An opcode outside the instruction
    /// set is treated as a no-op rather than aborting.
    #[verifier::rlimit(100)]
    #[verifier::spinoff_prover]
    pub fn execute_high(&mut self, opcode: u8)
        requires
            old(self).wf(),
            opcode >= 0xC0,
            old(self).current_instruction_cycles <= 100,
        ensures
            final(self).wf(),
            final(self).halted == old(self).halted,
            final(self).total_clock_cycles == old(self).total_clock_cycles,
            final(self).ime == (if opcode == 0xF3 {
                false
            } else if opcode == 0xFB || opcode == 0xD9 {
                true
            } else {
                old(self).ime
            }),
            old(self).current_instruction_cycles <= final(self).current_instruction_cycles
                <= old(self).current_instruction_cycles + 20,
            opcode == 0xE8 ==> ({
                let e8 = crate::mmu::spec_read_byte(old(self).mmu, old(self).registers.pc);
                let offset = ((e8 as i8) as u16);
                &&& final(self).mmu == old(self).mmu
                &&& final(self).registers == (CpuRegisters {
                    sp: ((old(self).registers.sp + offset) % 0x10000) as u16,
                    pc: ((old(self).registers.pc + 1) % 0x10000) as u16,
                    f: final(self).registers.f,
                    ..old(self).registers
                })
                &&& !spec_f_z(final(self).registers)
                &&& !spec_f_n(final(self).registers)
                &&& spec_f_h(final(self).registers) == ((old(self).registers.sp & 0x000F) + (
                offset & 0x000F) > 0x000F)
                &&& spec_f_c(final(self).registers) == ((old(self).registers.sp & 0x00FF) + (
                offset & 0x00FF) > 0x00FF)
                &&& final(self).current_instruction_cycles == old(
                    self,
                ).current_instruction_cycles + 12
            }),
    {
        match opcode {
            0xC0 => {
                if !self.registers.f_z() {
                    self.registers.pc = self.pop_u16();
                    self.current_instruction_cycles = self.current_instruction_cycles + 8;
                } else {
                    self.current_instruction_cycles = self.current_instruction_cycles + 4;
                }
            },
            0xC1 => {
                let val = self.pop_u16();
                self.registers.set_bc(val);
            },
            0xC2 => {
                let addr = self.fetch_word_operand();
                if !self.registers.f_z() {
                    self.registers.pc = addr;
                    self.current_instruction_cycles = self.current_instruction_cycles + 4;
                }
            },
            0xC3 => {
                let addr = self.fetch_word_operand();
                self.registers.pc = addr;
                self.current_instruction_cycles = self.current_instruction_cycles + 4;
            },
            0xC4 => {
                let addr = self.fetch_word_operand();
                if !self.registers.f_z() {
                    let pc = self.registers.pc;
                    self.push_u16(pc);
                    self.registers.pc = addr;
                }
            },
            0xC5 => {
                let v = self.registers.bc();
                self.push_u16(v);
            },
            0xC6 => {
                let val = self.fetch_byte_operand();
                let r = self.alu_add_u8(val, false);
                self.registers.a = r;
            },
            0xC8 => {
                if self.registers.f_z() {
                    self.registers.pc = self.pop_u16();
                    self.current_instruction_cycles = self.current_instruction_cycles + 8;
                } else {
                    self.current_instruction_cycles = self.current_instruction_cycles + 4;
                }
            },
            0xC9 => {
                self.registers.pc = self.pop_u16();
                self.current_instruction_cycles = self.current_instruction_cycles + 4;
            },
            0xCA => {
                let addr = self.fetch_word_operand();
                if self.registers.f_z() {
                    self.registers.pc = addr;
                    self.current_instruction_cycles = self.current_instruction_cycles + 4;
                }
            },
            0xCB => {
                self.execute_cb_prefixed();
            },
            0xCC => {
                let addr = self.fetch_word_operand();
                if self.registers.f_z() {
                    let pc = self.registers.pc;
                    self.push_u16(pc);
                    self.registers.pc = addr;
                }
            },
            0xCD => {
                let addr = self.fetch_word_operand();
                let pc = self.registers.pc;
                self.push_u16(pc);
                self.registers.pc = addr;
            },
            0xCE => {
                let val = self.fetch_byte_operand();
                let r = self.alu_add_u8(val, true);
                self.registers.a = r;
            },
            0xD0 => {
                if !self.registers.f_c() {
                    self.registers.pc = self.pop_u16();
                    self.current_instruction_cycles = self.current_instruction_cycles + 8;
                } else {
                    self.current_instruction_cycles = self.current_instruction_cycles + 4;
                }
            },
            0xD1 => {
                let val = self.pop_u16();
                self.registers.set_de(val);
            },
            0xD2 => {
                let addr = self.fetch_word_operand();
                if !self.registers.f_c() {
                    self.registers.pc = addr;
                    self.current_instruction_cycles = self.current_instruction_cycles + 4;
                }
            },
            0xD4 => {
                let addr = self.fetch_word_operand();
                if !self.registers.f_c() {
                    let pc = self.registers.pc;
                    self.push_u16(pc);
                    self.registers.pc = addr;
                }
            },
            0xD5 => {
                let v = self.registers.de();
                self.push_u16(v);
            },
            0xD6 => {
                let val = self.fetch_byte_operand();
                let r = self.alu_sub_u8(val, false);
                self.registers.a = r;
            },
            0xD8 => {
                if self.registers.f_c() {
                    self.registers.pc = self.pop_u16();
                    self.current_instruction_cycles = self.current_instruction_cycles + 8;
                } else {
                    self.current_instruction_cycles = self.current_instruction_cycles + 4;
                }
            },
            0xD9 => {
                self.registers.pc = self.pop_u16();
                self.ime = true;
                self.current_instruction_cycles = self.current_instruction_cycles + 4;
            },
            0xDA => {
                let addr = self.fetch_word_operand();
                if self.registers.f_c() {
                    self.registers.pc = addr;
                    self.current_instruction_cycles = self.current_instruction_cycles + 4;
                }
            },
            0xDC => {
                let addr = self.fetch_word_operand();
                if self.registers.f_c() {
                    let pc = self.registers.pc;
                    self.push_u16(pc);
                    self.registers.pc = addr;
                }
            },
            0xDE => {
                let val = self.fetch_byte_operand();
                let r = self.alu_sub_u8(val, true);
                self.registers.a = r;
            },
            0xE0 => {
                let offset = self.fetch_byte_operand() as u16;
                self.write_byte(0xFF00 + offset, self.registers.a);
            },
            0xE1 => {
                let val = self.pop_u16();
                self.registers.set_hl(val);
            },
            0xE2 => {
                let addr = 0xFF00 + self.registers.c as u16;
                self.write_byte(addr, self.registers.a);
            },
            0xE5 => {
                let v = self.registers.hl();
                self.push_u16(v);
            },
            0xE6 => {
                let val = self.fetch_byte_operand();
                self.alu_and_u8(val);
            },
            0xE8 => {
                let offset = self.fetch_byte_operand() as i8 as i16 as u16;
                let sp = self.registers.sp;
                proof {
                    crate::bits::lemma_u16_and_le(sp, 0x000F);
                    crate::bits::lemma_u16_and_le(offset, 0x000F);
                    crate::bits::lemma_u16_and_le(sp, 0x00FF);
                    crate::bits::lemma_u16_and_le(offset, 0x00FF);
                }
                let h = (sp & 0x000F) + (offset & 0x000F) > 0x000F;
                let c = (sp & 0x00FF) + (offset & 0x00FF) > 0x00FF;
                self.registers.set_flags(false, false, h, c);
                self.registers.sp = sp.wrapping_add(offset);
                self.current_instruction_cycles = self.current_instruction_cycles + 8;
            },
            0xE9 => {
                self.registers.pc = self.registers.hl();
            },
            0xEA => {
                let addr = self.fetch_word_operand();
                self.write_byte(addr, self.registers.a);
            },
            0xEE => {
                let val = self.fetch_byte_operand();
                self.alu_xor_u8(val);
            },
            0xF0 => {
                let offset = self.fetch_byte_operand() as u16;
                self.registers.a = self.read_byte(0xFF00 + offset);
            },
            0xF1 => {
                let val = self.pop_u16();
                self.registers.set_af(val);
            },
            0xF2 => {
                let addr = 0xFF00 + self.registers.c as u16;
                self.registers.a = self.read_byte(addr);
            },
            0xF3 => {
                self.ime = false;
            },
            0xF5 => {
                let v = self.registers.af();
                self.push_u16(v);
            },
            0xF6 => {
                let val = self.fetch_byte_operand();
                self.alu_or_u8(val);
            },
            0xF8 => {
                let offset = self.fetch_byte_operand() as i8 as i16 as u16;
                let sp = self.registers.sp;
                let result = sp.wrapping_add(offset);
                proof {
                    crate::bits::lemma_u16_and_le(sp, 0x000F);
                    crate::bits::lemma_u16_and_le(offset, 0x000F);
                    crate::bits::lemma_u16_and_le(sp, 0x00FF);
                    crate::bits::lemma_u16_and_le(offset, 0x00FF);
                }
                let h = (sp & 0x000F) + (offset & 0x000F) > 0x000F;
                let c = (sp & 0x00FF) + (offset & 0x00FF) > 0x00FF;
                self.registers.set_flags(false, false, h, c);
                self.registers.set_hl(result);
                self.current_instruction_cycles = self.current_instruction_cycles + 4;
            },
            0xF9 => {
                self.registers.sp = self.registers.hl();
                self.current_instruction_cycles = self.current_instruction_cycles + 4;
            },
            0xFA => {
                let addr = self.fetch_word_operand();
                self.registers.a = self.read_byte(addr);
            },
            0xFB => {
                self.ime = true;
            },
            0xFE => {
                let val = self.fetch_byte_operand();
                self.alu_cp_u8(val);
            },
            0xC7 | 0xCF | 0xD7 | 0xDF | 0xE7 | 0xEF | 0xF7 | 0xFF => {
                let pc = self.registers.pc;
                self.push_u16(pc);
                proof {
                    crate::bits::lemma_u8_and_le(opcode, 0x38);
                }
                self.registers.pc = (opcode & 0x38) as u16;
            },
            _ => {},
        }
    }

    /// Decode and execute one instruction.  Register-to-register loads, the
    /// arithmetic block and DAA carry exact contracts through their group
    /// functions; every opcode preserves the machine invariant, accounts at
    /// most twenty extra T-cycles, and only EI, DI, RETI and HALT touch the
    /// interrupt-enable and halted flags.
    pub fn execute_opcode(&mut self, opcode: u8)
        requires
            old(self).wf(),
            old(self).current_instruction_cycles <= 100,
        ensures
            spec_execute_rel(*old(self), *final(self), opcode),
    {
        if opcode == 0x76 {
            self.halted = true;
        } else if opcode >= 0x40 && opcode <= 0x7F {
            self.execute_ld_group(opcode);
        } else if opcode >= 0x80 && opcode <= 0xBF {
            self.execute_alu_group(opcode);
        } else if opcode <= 0x3F {
            self.execute_low(opcode);
        } else {
            self.execute_high(opcode);
        }
    }

    /// Interrupt dispatch: with interrupts pending a halted CPU wakes; with
    /// IME set the lowest pending interrupt is acknowledged (its IF bit
    /// cleared), IME drops, PC is pushed and control jumps to the fixed
    /// vector, for twenty T-cycles.
    pub fn handle_interrupts(&mut self) -> (dispatched: bool)
        requires
            old(self).wf(),
            old(self).current_instruction_cycles <= 100,
        ensures
            final(self).wf(),
            final(self).total_clock_cycles == old(self).total_clock_cycles,
            ({
                let pending = old(self).mmu.io_registers@[0x0F]
                    & old(self).mmu.interrupt_enable_register & 0x1F;
                &&& final(self).halted == (old(self).halted && pending == 0)
                &&& dispatched == (old(self).ime && pending != 0)
                &&& !dispatched ==> {
                    &&& final(self).registers == old(self).registers
                    &&& final(self).mmu == old(self).mmu
                    &&& final(self).ime == old(self).ime
                    &&& final(self).current_instruction_cycles == old(
                        self,
                    ).current_instruction_cycles
                }
                &&& dispatched ==> {
                    &&& !final(self).ime
                    &&& final(self).registers.pc == spec_irq_vector(pending)
                    &&& final(self).current_instruction_cycles == old(
                        self,
                    ).current_instruction_cycles + 20
                    &&& spec_dispatch_rel(*old(self), *final(self))
                }
            }),
    {
        let ie = self.mmu.interrupt_enable_register;
        let if_val = self.mmu.io_registers[0x0F];
        proof {
            crate::bits::lemma_u8_and_le(if_val & ie, 0x1F);
        }
        let pending_and_enabled = if_val & ie & 0x1F;
        if self.halted && pending_and_enabled != 0 {
            self.halted = false;
        }
        if !self.ime || pending_and_enabled == 0 {
            return false;
        }
        self.ime = false;
        self.current_instruction_cycles = self.current_instruction_cycles + 8;
        let bit_num: u8 = if pending_and_enabled & 0x01 != 0 {
            0
        } else if pending_and_enabled & 0x02 != 0 {
            1
        } else if pending_and_enabled & 0x04 != 0 {
            2
        } else if pending_and_enabled & 0x08 != 0 {
            3
        } else {
            4
        };
        proof {
            assert((if_val & ie & 0x1F != 0 && if_val & ie & 0x1F & 0x01 == 0 && if_val & ie
                & 0x1F & 0x02 == 0 && if_val & ie & 0x1F & 0x04 == 0 && if_val & ie & 0x1F & 0x08
                == 0) ==> if_val & ie & 0x1F & 0x10 != 0) by (bit_vector);
            assert(forall|b: u8|
                b < 5 ==> ((if_val & !(1u8 << b)) & 0x1F) | 0xE0 == ((if_val & !(1u8 << b))
                    | 0xE0) & 0xFF) by (bit_vector);
        }
        let cleared = if_val & !(1u8 << bit_num);
        self.mmu.write_io_register_byte(0xFF0F, cleared);
        let ghost m1 = self.mmu;
        let pc = self.registers.pc;
        let ghost sp1 = (((old(self).registers.sp - 1) % 0x10000 + 0x10000) % 0x10000) as u16;
        let ghost sp2 = (((old(self).registers.sp - 2) % 0x10000 + 0x10000) % 0x10000) as u16;
        self.push_u16(pc);
        self.registers.pc = match bit_num {
            0 => VBLANK_INTERRUPT_ADDR,
            1 => LCD_STAT_INTERRUPT_ADDR,
            2 => TIMER_INTERRUPT_ADDR,
            3 => SERIAL_INTERRUPT_ADDR,
            _ => JOYPAD_INTERRUPT_ADDR,
        };
        proof {
            assert(bit_num == spec_lowest_irq_bit(pending_and_enabled));
            let m2 = choose|m: Mmu|
                #[trigger] crate::mmu::spec_write_byte_rel(m1, m, sp1, (pc >> 8) as u8)
                    && crate::mmu::spec_write_byte_rel(m, self.mmu, sp2, (pc & 0xFF) as u8);
            assert(crate::mmu::spec_write_byte_rel(m1, m2, sp1, (pc >> 8) as u8)
                && crate::mmu::spec_write_byte_rel(m2, self.mmu, sp2, (pc & 0xFF) as u8));
            assert(spec_dispatch_rel(*old(self), *self));
        }
        true
    }

    /// One CPU step, exactly one visible action: with IME set and an
    /// interrupt pending, the dispatch of `spec_dispatch_rel` (twenty
    /// T-cycles); while halted with nothing pending, a four-cycle idle tick;
    /// otherwise the instruction at PC, per `spec_execute_rel`.  A halted
    /// CPU wakes when an interrupt is pending.  In every case the owned
    /// peripherals then advance by the same count (`spec_tick_rel`) and the
    /// total cycle counter grows by it.  Returns the T-cycles consumed.
    pub fn step(&mut self) -> (cycles: u8)
        requires
            old(self).wf(),
        ensures
            final(self).wf(),
            4 <= cycles <= 24,
            cycles == final(self).current_instruction_cycles,
            final(self).total_clock_cycles == (old(self).total_clock_cycles + cycles) % (
            0x10000000000000000),
            ({
                let pending = old(self).mmu.io_registers@[0x0F]
                    & old(self).mmu.interrupt_enable_register & 0x1F;
                let dispatched = old(self).ime && pending != 0;
                &&& (dispatched ==> cycles == 20 && exists|mid: Cpu|
                    spec_dispatch_rel(
                        (Cpu { current_instruction_cycles: 0, ..*old(self) }),
                        mid,
                    ) && #[trigger] crate::mmu::spec_tick_rel(mid.mmu, final(self).mmu, 20)
                        && *final(self)
                        == (Cpu {
                        mmu: final(self).mmu,
                        total_clock_cycles: final(self).total_clock_cycles,
                        ..mid
                    }))
                &&& ((!dispatched && old(self).halted && pending == 0) ==> {
                    &&& cycles == 4
                    &&& final(self).registers == old(self).registers
                    &&& final(self).ime == old(self).ime
                    &&& final(self).halted
                    &&& crate::mmu::spec_tick_rel(old(self).mmu, final(self).mmu, 4)
                })
                &&& ((!dispatched && !(old(self).halted && pending == 0)) ==> ({
                    let opcode = crate::mmu::spec_read_byte(
                        old(self).mmu,
                        old(self).registers.pc,
                    );
                    exists|mid: Cpu|
                        spec_execute_rel(
                            (Cpu {
                                registers: (CpuRegisters {
                                    pc: ((old(self).registers.pc + 1) % 0x10000) as u16,
                                    ..old(self).registers
                                }),
                                halted: false,
                                current_instruction_cycles: 4,
                                ..*old(self)
                            }),
                            mid,
                            opcode,
                        ) && cycles == mid.current_instruction_cycles
                            && #[trigger] crate::mmu::spec_tick_rel(
                            mid.mmu,
                            final(self).mmu,
                            cycles,
                        )
                            && *final(self) == (Cpu {
                            mmu: final(self).mmu,
                            total_clock_cycles: final(self).total_clock_cycles,
                            ..mid
                        })
                }))
            }),
    {
        self.current_instruction_cycles = 0;
        let ghost started = *self;
        let dispatched = self.handle_interrupts();
        if dispatched {
            let ghost mid = *self;
            self.total_clock_cycles = self.total_clock_cycles.wrapping_add(
                self.current_instruction_cycles as u64,
            );
            let c = self.current_instruction_cycles;
            self.mmu.tick_components(c);
            proof {
                assert(spec_dispatch_rel(started, mid));
            }
            return c;
        }
        if self.halted {
            self.current_instruction_cycles = 4;
            self.total_clock_cycles = self.total_clock_cycles.wrapping_add(4);
            self.mmu.tick_components(4);
            return 4;
        }
        let opcode_addr = self.registers.pc;
        let opcode = self.read_byte(opcode_addr);
        self.registers.pc = self.registers.pc.wrapping_add(1);
        let ghost pre_exec = *self;
        self.execute_opcode(opcode);
        let ghost mid = *self;
        self.total_clock_cycles = self.total_clock_cycles.wrapping_add(
            self.current_instruction_cycles as u64,
        );
        let c = self.current_instruction_cycles;
        self.mmu.tick_components(c);
        proof {
            assert(pre_exec == (Cpu {
                registers: (CpuRegisters {
                    pc: ((old(self).registers.pc + 1) % 0x10000) as u16,
                    ..old(self).registers
                }),
                halted: false,
                current_instruction_cycles: 4,
                ..*old(self)
            }));
            assert(spec_execute_rel(pre_exec, mid, opcode));
        }
        c
    }
}

} // verus!
