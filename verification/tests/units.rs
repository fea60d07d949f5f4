//! Component-level tests: cartridge parsing, timer edges, joypad selection,
//! audio register file, and the memory map's locks and masks.

use gb_core::apu::Apu;
use gb_core::cartridge::Cartridge;
use gb_core::cartridge::CartridgeError;
use gb_core::joypad::GameboyKey;
use gb_core::joypad::Joypad;
use gb_core::mmu::LoadError;
use gb_core::mmu::Mmu;
use gb_core::timer::Timer;

/// A minimal ROM image: `banks` 16 KiB banks, with the given type and
/// RAM-size codes and an ASCII title.
fn build_rom(banks: usize, type_code: u8, ram_code: u8, title: &str) -> Vec<u8> {
    let mut rom = vec![0u8; banks * 0x4000];
    for (i, b) in title.bytes().enumerate() {
        rom[0x0134 + i] = b;
    }
    rom[0x0147] = type_code;
    rom[0x0148] = match banks {
        2 => 0x00,
        4 => 0x01,
        8 => 0x02,
        _ => 0x00,
    };
    rom[0x0149] = ram_code;
    rom
}

fn make_mmu(rom: Vec<u8>) -> Mmu {
    let cartridge = Cartridge::from_bytes(rom).unwrap();
    let apu = Apu::new(44100);
    Mmu::new_at(cartridge, apu, 1000).unwrap()
}

#[test]
fn cartridge_too_small_is_refused() {
    let r = Cartridge::from_bytes(vec![0u8; 0x14F]);
    assert!(matches!(r, Err(CartridgeError::TooSmall)));
    let ok = Cartridge::from_bytes(vec![0u8; 0x150]);
    assert!(ok.is_ok());
}

#[test]
fn cartridge_header_metadata() {
    let rom = build_rom(2, 0x03, 0x02, "TESTTITLE");
    let c = Cartridge::from_bytes(rom).unwrap();
    assert_eq!(c.title, "TESTTITLE");
    assert!(c.has_battery());
    assert_eq!(c.cartridge_type_name(), "MBC1+RAM+BATTERY");
    assert_eq!(c.rom_size_str(), "32 KB");
    assert_eq!(c.ram_size_str(), "8 KB");
    let plain = Cartridge::from_bytes(build_rom(2, 0x00, 0x00, "X")).unwrap();
    assert!(!plain.has_battery());
    assert_eq!(plain.cartridge_type_name(), "ROM ONLY");
}

#[test]
fn unsupported_cartridge_type_refuses_construction() {
    let rom = build_rom(2, 0x0B, 0x00, "MMM");
    let cartridge = Cartridge::from_bytes(rom).unwrap();
    let apu = Apu::new(44100);
    let r = Mmu::new_at(cartridge, apu, 0);
    assert!(matches!(r, Err(LoadError::UnsupportedCartridgeType)));
}

#[test]
fn timer_div_reset_and_tac_mask() {
    let mut t = Timer::new();
    t.tick(255);
    t.tick(255);
    assert_eq!(t.read_div(), 1);
    t.write_div();
    assert_eq!(t.read_div(), 0);
    t.write_tac(0xFD);
    assert_eq!(t.read_tac(), 0xFD | 0xF8);
    assert_eq!(t.read_tac() & 0x07, 0x05);
}

#[test]
fn timer_increments_once_per_falling_edge() {
    // TAC = 0x05: enabled, trigger bit 3 -> one TIMA step per 16 cycles.
    let mut t = Timer::new();
    t.write_tac(0x05);
    t.tick(16);
    assert_eq!(t.read_tima(), 1);
    t.tick(15);
    assert_eq!(t.read_tima(), 1);
    t.tick(1);
    assert_eq!(t.read_tima(), 2);
    t.tick(160);
    assert_eq!(t.read_tima(), 12);
}

#[test]
fn timer_overflow_reloads_after_delay_and_requests_interrupt() {
    let mut t = Timer::new();
    t.write_tac(0x05);
    t.write_tima(0xFF);
    t.write_tma(0x42);
    t.tick(16);
    // Overflowed: the reload is pending for four cycles.
    assert_eq!(t.read_tima(), 0x00);
    assert!(!t.take_interrupt_request());
    t.tick(4);
    assert_eq!(t.read_tima(), 0x42);
    assert!(t.take_interrupt_request());
    assert!(!t.take_interrupt_request());
}

#[test]
fn timer_write_during_reload_delay_is_ignored() {
    let mut t = Timer::new();
    t.write_tac(0x05);
    t.write_tima(0xFF);
    t.write_tma(0x42);
    t.tick(17);
    t.write_tima(0x99);
    assert_eq!(t.read_tima(), 0x00);
    t.tick(3);
    assert_eq!(t.read_tima(), 0x42);
}

#[test]
fn joypad_selection_and_read() {
    let mut j = Joypad::new();
    assert_eq!(j.read_p1() & 0x0F, 0x0F);
    // Select the direction group (bit 4 low) and press Right.
    j.write_p1(0x20);
    let irq = j.button_down(GameboyKey::Right);
    assert!(irq);
    assert_eq!(j.read_p1() & 0x01, 0);
    j.button_up(GameboyKey::Right);
    assert_eq!(j.read_p1() & 0x01, 1);
}

#[test]
fn joypad_interrupt_only_for_selected_group() {
    let mut j = Joypad::new();
    // Select only the action group (bit 5 low, bit 4 high).
    j.write_p1(0x10);
    assert!(!j.button_down(GameboyKey::Right));
    assert!(j.button_down(GameboyKey::A));
    // A second press of a held button is no new press.
    assert!(!j.button_down(GameboyKey::A));
    let dbg = j.get_input_state_debug();
    assert_eq!(dbg, "A:1 B:0 Sel:0 St:0 R:1 L:0 U:0 D:0");
}

#[test]
fn apu_wave_ram_locked_while_channel_enabled() {
    let mut apu = Apu::new(44100);
    apu.write_reg(0xFF26, 0x80);
    apu.write_reg(0xFF30, 0xAB);
    assert_eq!(apu.read_reg(0xFF30), 0xAB);
    // Enable channel 3's DAC and trigger it: wave RAM locks.
    apu.write_reg(0xFF1A, 0x80);
    apu.write_reg(0xFF1E, 0x80);
    apu.write_reg(0xFF30, 0x55);
    assert_eq!(apu.read_reg(0xFF30), 0xFF);
    // Disabling the DAC silences the channel and unlocks wave RAM.
    apu.write_reg(0xFF1A, 0x00);
    assert_eq!(apu.read_reg(0xFF30), 0xAB);
}

#[test]
fn apu_length_counter_silences_channel_in_nr52() {
    let mut apu = Apu::new(44100);
    apu.write_reg(0xFF26, 0x80);
    // Channel 2: full volume, length 64 - 62 = 2, length enabled, trigger.
    apu.write_reg(0xFF17, 0xF0);
    apu.write_reg(0xFF16, 62);
    apu.write_reg(0xFF19, 0xC0);
    assert_eq!(apu.read_reg(0xFF26) & 0x02, 0x02);
    // Length ticks on even sequencer steps: two expire the counter within
    // four full steps (4 * 8192 cycles).
    for _ in 0..(4 * 8192 / 64) {
        apu.tick(64);
    }
    assert_eq!(apu.read_reg(0xFF26) & 0x02, 0x00);
}

#[test]
fn apu_power_off_zeros_registers_and_ignores_writes() {
    let mut apu = Apu::new(44100);
    apu.write_reg(0xFF26, 0x80);
    apu.write_reg(0xFF25, 0xFF);
    apu.write_reg(0xFF24, 0x77);
    assert_eq!(apu.read_reg(0xFF25), 0xFF);
    apu.write_reg(0xFF26, 0x00);
    assert_eq!(apu.read_reg(0xFF25), 0x00);
    assert_eq!(apu.read_reg(0xFF24), 0x00);
    apu.write_reg(0xFF25, 0x33);
    assert_eq!(apu.read_reg(0xFF25), 0x00);
    // Power back on: the frame sequencer restarts at step zero.
    apu.write_reg(0xFF26, 0x80);
    assert_eq!(apu.core.frame_seq_step, 0);
}

#[test]
fn apu_pulse_duty_advances_and_output_varies() {
    let mut apu = Apu::new(44100);
    apu.write_reg(0xFF26, 0x80);
    // Channel 2: duty 0b10, freq 0x7C0 (reload (2048 - 1984) * 4 = 256
    // cycles), volume 15, length disabled, trigger.
    apu.write_reg(0xFF17, 0xF0);
    apu.write_reg(0xFF16, 0x80);
    apu.write_reg(0xFF18, 0xC0);
    apu.write_reg(0xFF19, 0x87);
    let start_step = apu.core.ch2.duty_step;
    assert_eq!(start_step, 0);
    let mut outputs = Vec::new();
    for _ in 0..256 {
        apu.tick(4);
        let (_, s2, _, _) = apu.channel_outputs();
        outputs.push(s2);
    }
    // 1024 cycles: the empty timer reloads (and steps) on the first tick,
    // then expires after each further 256 cycles, stepping at cycles 260,
    // 516 and 772 within the window: four advances in all.
    assert_eq!(apu.core.ch2.duty_step, 4);
    // Across a full duty cycle the waveform shows both levels.
    for _ in 0..512 {
        apu.tick(4);
        let (_, s2, _, _) = apu.channel_outputs();
        outputs.push(s2);
    }
    assert!(outputs.iter().any(|&s| s == 15));
    assert!(outputs.iter().any(|&s| s == 0));
}

#[test]
fn mmu_if_upper_bits_always_read_set() {
    let mut m = make_mmu(build_rom(2, 0x00, 0x00, "T"));
    assert_eq!(m.read_byte(0xFF0F) & 0xE0, 0xE0);
    m.write_byte(0xFF0F, 0x00);
    assert_eq!(m.read_byte(0xFF0F), 0xE0);
    m.write_byte(0xFF0F, 0xFF);
    assert_eq!(m.read_byte(0xFF0F), 0xFF);
    m.write_byte(0xFFFF, 0xAB);
    assert_eq!(m.read_byte(0xFFFF), 0xAB);
}

#[test]
fn mmu_ram_disabled_reads_ff_and_drops_writes() {
    let mut m = make_mmu(build_rom(2, 0x03, 0x02, "T"));
    m.write_byte(0xA000, 0x12);
    assert_eq!(m.read_byte(0xA000), 0xFF);
    assert_eq!(m.external_ram[0], 0x00);
    m.write_byte(0x0000, 0x0A);
    m.write_byte(0xA000, 0x12);
    assert_eq!(m.read_byte(0xA000), 0x12);
    m.write_byte(0x0000, 0x00);
    assert_eq!(m.read_byte(0xA000), 0xFF);
}

#[test]
fn mmu_vram_and_oam_lock_follow_ppu_mode() {
    let mut m = make_mmu(build_rom(2, 0x00, 0x00, "T"));
    // Fresh PPU: LCD on, OAM scan -> OAM locked, VRAM open.
    m.write_byte(0x8000, 0x77);
    assert_eq!(m.read_byte(0x8000), 0x77);
    m.write_byte(0xFE00, 0x55);
    assert_eq!(m.read_byte(0xFE00), 0xFF);
    assert_eq!(m.ppu.oam[0], 0x00);
    // LCD off: everything open.
    m.write_byte(0xFF40, 0x00);
    m.ppu.step(4);
    m.write_byte(0xFE00, 0x55);
    assert_eq!(m.read_byte(0xFE00), 0x55);
}

#[test]
fn mmu_serial_stub_collects_bytes() {
    let mut m = make_mmu(build_rom(2, 0x00, 0x00, "T"));
    m.write_byte(0xFF01, 0x55);
    m.write_byte(0xFF02, 0x81);
    m.write_byte(0xFF01, 0x66);
    m.write_byte(0xFF02, 0x81);
    let out = m.take_serial_output();
    assert_eq!(out, vec![0x55, 0x66]);
    assert!(m.take_serial_output().is_empty());
}

#[test]
fn mmu_unusable_range_reads_ff() {
    let m = make_mmu(build_rom(2, 0x00, 0x00, "T"));
    assert_eq!(m.read_byte(0xFEA0), 0xFF);
    assert_eq!(m.read_byte(0xFEFF), 0xFF);
}

#[test]
fn mbc1_bank_zero_promotes_to_one() {
    let mut m = make_mmu(build_rom(8, 0x01, 0x00, "T"));
    m.write_byte(0x2000, 0x00);
    assert_eq!(m.current_rom_bank, 1);
    m.write_byte(0x2000, 0x02);
    assert_eq!(m.current_rom_bank, 2);
}

#[test]
fn mbc1_bank_select_reads_selected_bank() {
    let mut rom = build_rom(8, 0x01, 0x00, "T");
    rom[5 * 0x4000] = 0xAB;
    let mut m = make_mmu(rom);
    m.write_byte(0x0000, 0x0A);
    m.write_byte(0x2000, 0x05);
    assert_eq!(m.current_rom_bank, 5);
    assert_eq!(m.read_byte(0x4000), 0xAB);
}

#[test]
fn mbc5_bank_zero_is_legal() {
    let mut rom = build_rom(8, 0x19, 0x00, "T");
    rom[0x0012] = 0xCD;
    let mut m = make_mmu(rom);
    m.write_byte(0x2000, 0x00);
    assert_eq!(m.current_rom_bank, 0);
    assert_eq!(m.read_byte(0x4012), 0xCD);
}

#[test]
fn mbc2_nibble_ram() {
    let mut m = make_mmu(build_rom(2, 0x05, 0x00, "T"));
    m.write_byte(0x0000, 0x0A);
    m.write_byte(0xA000, 0xFF);
    assert_eq!(m.read_byte(0xA000), 0xFF);
    assert_eq!(m.mbc2_ram[0], 0x0F);
    m.write_byte(0xA001, 0x03);
    assert_eq!(m.read_byte(0xA001), 0xF3);
}

#[test]
fn dma_copies_exactly_160_bytes() {
    let mut m = make_mmu(build_rom(2, 0x00, 0x00, "T"));
    for i in 0..512u16 {
        m.write_byte(0xC000 + i, (i % 251) as u8);
    }
    m.write_byte(0xFF46, 0xC0);
    for i in 0..160usize {
        assert_eq!(m.ppu.oam[i], (i % 251) as u8);
    }
    // The byte past the window is untouched.
    assert_eq!(m.read_byte(0xC0A0), (160 % 251) as u8);
}

#[test]
fn rtc_latch_and_advance() {
    let mut m = make_mmu(build_rom(2, 0x10, 0x03, "T"));
    m.write_byte(0x0000, 0x0A);
    // Select the seconds register and confirm the latch sequence copies the
    // advanced clock.
    m.update_rtc_at(1000 + 75);
    assert_eq!(m.rtc_registers[0], 15);
    assert_eq!(m.rtc_registers[1], 1);
    m.write_byte(0x4000, 0x08);
    m.handle_mbc3_write_at(0x6000, 0x00, 2000);
    m.handle_mbc3_write_at(0x6000, 0x01, 1000 + 75);
    assert_eq!(m.read_byte(0xA000), 15);
}

#[test]
fn battery_snapshot_restore_round_trip() {
    let rom = build_rom(2, 0x03, 0x02, "T");
    let mut a = make_mmu(rom.clone());
    a.write_byte(0x0000, 0x0A);
    for i in 0..0x2000u16 {
        let v = if i % 2 == 0 { 0x5A } else { 0xA5 };
        a.write_byte(0xA000 + i, v);
    }
    let data = a.get_ram_and_rtc_data_at(1000);
    assert_eq!(data.len(), 0x2000);
    let mut b = make_mmu(rom);
    b.load_ram_and_rtc_at(&data, 1000);
    b.write_byte(0x0000, 0x0A);
    for i in 0..0x2000u16 {
        assert_eq!(b.read_byte(0xA000 + i), a.read_byte(0xA000 + i));
    }
}

#[test]
fn battery_restore_partial_copies_what_fits() {
    let rom = build_rom(2, 0x03, 0x02, "T");
    let mut m = make_mmu(rom);
    m.write_byte(0x0000, 0x0A);
    m.write_byte(0xA000, 0x11);
    m.write_byte(0xA001, 0x22);
    m.write_byte(0xA002, 0x33);
    // A three-byte image overwrites only the first three bytes.
    let short = vec![0xAA, 0xBB, 0xCC];
    m.load_ram_and_rtc_at(&short, 1000);
    assert_eq!(m.read_byte(0xA000), 0xAA);
    assert_eq!(m.read_byte(0xA001), 0xBB);
    assert_eq!(m.read_byte(0xA002), 0xCC);
    assert_eq!(m.read_byte(0xA003), 0x00);
}

#[test]
fn battery_round_trip_rtc_without_ram() {
    // MBC3+TIMER+BATTERY: no external RAM, the snapshot is the 13 RTC bytes.
    let rom = build_rom(2, 0x0F, 0x00, "T");
    let mut a = make_mmu(rom.clone());
    a.update_rtc_at(1000 + 3723);
    let data = a.get_ram_and_rtc_data_at(5000);
    assert_eq!(data.len(), 13);
    let mut b = make_mmu(rom);
    b.load_ram_and_rtc_at(&data, 5000);
    assert_eq!(b.rtc_registers, a.rtc_registers);
    assert_eq!(b.rtc_last_timestamp, a.rtc_last_timestamp);
}

#[test]
fn battery_snapshot_restore_keeps_rtc() {
    let rom = build_rom(2, 0x10, 0x03, "T");
    let mut a = make_mmu(rom.clone());
    a.update_rtc_at(1000 + 3723);
    assert_eq!(a.rtc_registers[0], 3);
    assert_eq!(a.rtc_registers[1], 2);
    assert_eq!(a.rtc_registers[2], 1);
    let data = a.get_ram_and_rtc_data_at(5000);
    let mut b = make_mmu(rom);
    b.load_ram_and_rtc_at(&data, 5000);
    assert_eq!(b.rtc_registers, a.rtc_registers);
    assert_eq!(b.rtc_last_timestamp, a.rtc_last_timestamp);
}
