//! Whole-machine tests: CPU programs executed from reset, frame timing,
//! interrupt delivery and the decimal-adjust arithmetic.

use gb_core::apu::Apu;
use gb_core::cartridge::Cartridge;
use gb_core::cpu::Cpu;
use gb_core::joypad::GameboyKey;
use gb_core::mmu::Mmu;

/// A 32 KiB plain ROM whose entry point at $0100 holds `program` followed by
/// a two-byte backward jump that loops forever.
fn build_program_rom(program: &[u8]) -> Vec<u8> {
    let mut rom = vec![0u8; 2 * 0x4000];
    rom[0x0147] = 0x00;
    rom[0x0148] = 0x00;
    rom[0x0149] = 0x00;
    for (i, b) in program.iter().enumerate() {
        rom[0x0100 + i] = *b;
    }
    // JR -2: spin here.
    rom[0x0100 + program.len()] = 0x18;
    rom[0x0100 + program.len() + 1] = 0xFE;
    rom
}

fn make_cpu(rom: Vec<u8>) -> Cpu {
    let cartridge = Cartridge::from_bytes(rom).unwrap();
    let apu = Apu::new(44100);
    let mmu = Mmu::new_at(cartridge, apu, 0).unwrap();
    Cpu::new(mmu)
}

#[test]
fn program_ld_add_daa() {
    // LD A,0x42; LD B,0x00; ADD A,B; DAA.
    let rom = build_program_rom(&[0x3E, 0x42, 0x06, 0x00, 0x80, 0x27]);
    let mut cpu = make_cpu(rom);
    for _ in 0..4 {
        cpu.step();
    }
    assert_eq!(cpu.registers.a, 0x42);
    assert!(!cpu.registers.f_z());
    assert!(!cpu.registers.f_n());
    assert!(!cpu.registers.f_h());
    assert!(!cpu.registers.f_c());
}

#[test]
fn daa_add_then_sub_round_trips_bcd() {
    // A = 0x42 + 0x39, decimal-adjusted, then - 0x39, decimal-adjusted.
    let rom = build_program_rom(&[
        0x3E, 0x42, // LD A,0x42
        0x06, 0x39, // LD B,0x39
        0x80, // ADD A,B
        0x27, // DAA
        0x90, // SUB B
        0x27, // DAA
    ]);
    let mut cpu = make_cpu(rom);
    for _ in 0..4 {
        cpu.step();
    }
    assert_eq!(cpu.registers.a, 0x81);
    for _ in 0..2 {
        cpu.step();
    }
    assert_eq!(cpu.registers.a, 0x42);
}

#[test]
fn cb_page_decodes_by_bit_fields() {
    let rom = build_program_rom(&[
        0x3E, 0x81, // LD A,0x81
        0xCB, 0x07, // RLC A   (class 0, sub 0, operand A)
        0xCB, 0xC7, // SET 0,A (class 3, bit 0)
        0xCB, 0x8F, // RES 1,A (class 2, bit 1)
        0xCB, 0x47, // BIT 0,A (class 1, bit 0)
    ]);
    let mut cpu = make_cpu(rom);
    cpu.step();
    cpu.step();
    // RLC 0x81 = 0x03 with carry set.
    assert_eq!(cpu.registers.a, 0x03);
    assert!(cpu.registers.f_c());
    cpu.step();
    assert_eq!(cpu.registers.a, 0x03);
    cpu.step();
    assert_eq!(cpu.registers.a, 0x01);
    cpu.step();
    assert!(!cpu.registers.f_z());
    assert!(cpu.registers.f_h());
}

#[test]
fn frame_timing_one_frame_is_70224_cycles() {
    let rom = build_program_rom(&[]);
    let mut cpu = make_cpu(rom);
    let mut cycles: u64 = 0;
    let mut frames: u32 = 0;
    let mut seen_lines = [false; 154];
    while cycles < 70224 {
        cycles += cpu.step() as u64;
        seen_lines[cpu.mmu.ppu.ly as usize] = true;
        if cpu.mmu.ppu.frame_ready {
            frames += 1;
            cpu.mmu.ppu.frame_ready = false;
        }
    }
    assert_eq!(frames, 1);
    for (ly, seen) in seen_lines.iter().enumerate() {
        assert!(*seen, "scanline {} never reached", ly);
    }
    // The second frame completes after another 70224 cycles.
    let first_frame_cycles = cycles;
    while cycles < 2 * 70224 {
        cycles += cpu.step() as u64;
        if cpu.mmu.ppu.frame_ready {
            frames += 1;
            cpu.mmu.ppu.frame_ready = false;
        }
    }
    assert_eq!(frames, 2);
    assert!(first_frame_cycles < 70224 + 24);
}

#[test]
fn vblank_interrupt_is_delivered() {
    // EI, then spin; IE enables VBlank.
    let rom = build_program_rom(&[0xFB]);
    let mut cpu = make_cpu(rom);
    cpu.mmu.write_byte(0xFFFF, 0x01);
    let mut cycles: u64 = 0;
    let mut dispatched = false;
    while cycles < 80000 {
        cycles += cpu.step() as u64;
        if cpu.registers.pc < 0x0100 {
            dispatched = true;
            break;
        }
    }
    assert!(dispatched);
    assert_eq!(cpu.registers.pc & 0xFFF8, 0x0040 & 0xFFF8);
    assert!(!cpu.ime);
}

#[test]
fn timer_interrupt_requested_through_step() {
    let rom = build_program_rom(&[]);
    let mut cpu = make_cpu(rom);
    cpu.mmu.write_byte(0xFF07, 0x05);
    cpu.mmu.write_byte(0xFF05, 0xFF);
    cpu.mmu.write_byte(0xFF06, 0x42);
    // The spin loop takes twelve cycles per step: after two steps (24
    // T-cycles) the trigger bit has fallen once (cycle 16), TIMA overflowed,
    // and the four-cycle reload delay has expired (cycle 20).
    let mut cycles: u64 = 0;
    while cycles < 24 {
        cycles += cpu.step() as u64;
    }
    assert_eq!(cpu.mmu.read_byte(0xFF05), 0x42);
    assert_eq!(cpu.mmu.read_byte(0xFF0F) & 0x04, 0x04);
}

#[test]
fn halt_wakes_on_pending_interrupt() {
    // HALT with interrupts disabled; a pending timer interrupt un-halts.
    let rom = build_program_rom(&[0x76, 0x3E, 0x07]);
    let mut cpu = make_cpu(rom);
    cpu.mmu.write_byte(0xFFFF, 0x04);
    cpu.step();
    assert!(cpu.halted);
    let c = cpu.step();
    assert_eq!(c, 4);
    assert!(cpu.halted);
    cpu.mmu.request_interrupt(2);
    cpu.step();
    assert!(!cpu.halted);
    // With IME clear no dispatch happened; execution continues in place.
    cpu.step();
    assert_eq!(cpu.registers.a, 0x07);
}

#[test]
fn joypad_interrupt_on_selected_press() {
    let rom = build_program_rom(&[]);
    let mut cpu = make_cpu(rom);
    // Select the action group.
    cpu.mmu.write_byte(0xFF00, 0x10);
    let before = cpu.mmu.read_byte(0xFF0F);
    cpu.mmu.press_button(GameboyKey::Up);
    assert_eq!(cpu.mmu.read_byte(0xFF0F), before);
    cpu.mmu.press_button(GameboyKey::A);
    assert_eq!(cpu.mmu.read_byte(0xFF0F) & 0x10, 0x10);
}

#[test]
fn stack_push_pop_round_trip() {
    let rom = build_program_rom(&[
        0x01, 0x34, 0x12, // LD BC,0x1234
        0xC5, // PUSH BC
        0xD1, // POP DE
    ]);
    let mut cpu = make_cpu(rom);
    for _ in 0..3 {
        cpu.step();
    }
    assert_eq!(cpu.registers.de(), 0x1234);
    assert_eq!(cpu.registers.sp, 0xFFFE);
}

#[test]
fn flags_low_nibble_stays_zero() {
    let rom = build_program_rom(&[
        0xF1, // POP AF (loads whatever the stack holds into AF)
        0x3E, 0xFF, // LD A,0xFF
        0xC6, 0x01, // ADD A,0x01
    ]);
    let mut cpu = make_cpu(rom);
    for _ in 0..3 {
        cpu.step();
        assert_eq!(cpu.registers.f & 0x0F, 0);
    }
    assert_eq!(cpu.registers.a, 0x00);
    assert!(cpu.registers.f_z());
    assert!(cpu.registers.f_c());
}

#[test]
fn serial_output_through_program() {
    let rom = build_program_rom(&[
        0x3E, 0x48, // LD A,'H'
        0xE0, 0x01, // LDH (0x01),A
        0x3E, 0x81, // LD A,0x81
        0xE0, 0x02, // LDH (0x02),A
    ]);
    let mut cpu = make_cpu(rom);
    for _ in 0..4 {
        cpu.step();
    }
    let out = cpu.mmu.take_serial_output();
    assert_eq!(out, vec![0x48]);
}

#[test]
fn palette_cycling_rotates_presets() {
    let rom = build_program_rom(&[]);
    let mut cpu = make_cpu(rom);
    let first = cpu.mmu.ppu.get_colors().clone();
    cpu.mmu.ppu.cycle_palette();
    assert_eq!(cpu.mmu.ppu.palette_index, 1);
    let second = cpu.mmu.ppu.get_colors().clone();
    assert_ne!(first, second);
    cpu.mmu.ppu.cycle_palette();
    cpu.mmu.ppu.cycle_palette();
    cpu.mmu.ppu.cycle_palette();
    assert_eq!(cpu.mmu.ppu.palette_index, 0);
    assert_eq!(*cpu.mmu.ppu.get_colors(), first);
}

#[test]
fn add_sp_signed_operand() {
    let rom = build_program_rom(&[
        0x31, 0x00, 0xD0, // LD SP,0xD000
        0xE8, 0xFE, // ADD SP,-2
        0xF8, 0x01, // LD HL,SP+1
    ]);
    let mut cpu = make_cpu(rom);
    for _ in 0..3 {
        cpu.step();
    }
    assert_eq!(cpu.registers.sp, 0xCFFE);
    assert_eq!(cpu.registers.hl(), 0xCFFF);
}
