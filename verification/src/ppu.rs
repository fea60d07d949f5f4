//! Pixel-processing unit: per-scanline state machine (OAM scan, drawing,
//! horizontal blank, vertical blank), sprite selection, scanline rendering
//! into a 160x144 framebuffer, and the STAT/LY=LYC interrupt sources.

use vstd::prelude::*;

verus! {

pub const SCREEN_WIDTH: usize = 160;

pub const SCREEN_HEIGHT: usize = 144;

pub const VRAM_SIZE: usize = 8192;

pub const OAM_SIZE: usize = 160;

/// T-cycles of one scanline.
pub const LINE_CYCLES: u32 = 456;

/// T-cycles of one full frame (154 lines of 456).
pub const FRAME_CYCLES: u32 = 70224;

/// Frame position at which the vertical blank begins (144 * 456).
pub const VBLANK_START_POS: u32 = 65664;

#[derive(Debug, Clone, Copy, PartialEq, Eq, Structural)]
pub enum PpuMode {
    HBlank,
    VBlank,
    OamScan,
    Drawing,
}

#[derive(Debug, Clone, Copy, PartialEq, Eq, Structural)]
pub enum PpuInterruptType {
    NoInterrupt,
    VBlank,
    LcdStat,
}

/// STAT low-bit encoding of a mode.
pub open spec fn spec_mode_stat_bits(m: PpuMode) -> u8 {
    match m {
        PpuMode::HBlank => 0,
        PpuMode::VBlank => 1,
        PpuMode::OamScan => 2,
        PpuMode::Drawing => 3,
    }
}

/// T-cycles a mode lasts before its transition fires.
pub open spec fn spec_mode_threshold(m: PpuMode) -> u32 {
    match m {
        PpuMode::OamScan => 80,
        PpuMode::Drawing => 172,
        PpuMode::HBlank => 204,
        PpuMode::VBlank => 456,
    }
}

/// T-cycles of the line already spent when a mode begins.
pub open spec fn spec_mode_base(m: PpuMode) -> int {
    match m {
        PpuMode::OamScan => 0,
        PpuMode::Drawing => 80,
        PpuMode::HBlank => 252,
        PpuMode::VBlank => 0,
    }
}

impl PpuMode {
    /// STAT low-bit encoding of the mode.
    pub fn to_stat_bits(self) -> (r: u8)
        ensures
            r == spec_mode_stat_bits(self),
    {
        match self {
            PpuMode::HBlank => 0,
            PpuMode::VBlank => 1,
            PpuMode::OamScan => 2,
            PpuMode::Drawing => 3,
        }
    }
}

/// One of the four preset 4-entry color palettes.
pub open spec fn spec_palette(palette: int, shade: int) -> u32 {
    if palette == 0 {
        if shade == 0 {
            0x00E0F8D0
        } else if shade == 1 {
            0x0088C070
        } else if shade == 2 {
            0x00346856
        } else {
            0x00081820
        }
    } else if palette == 1 {
        if shade == 0 {
            0x00FFFFFF
        } else if shade == 1 {
            0x00AAAAAA
        } else if shade == 2 {
            0x00555555
        } else {
            0x00000000
        }
    } else if palette == 2 {
        if shade == 0 {
            0x00F8E4A0
        } else if shade == 1 {
            0x00D0A068
        } else if shade == 2 {
            0x00A06030
        } else {
            0x00302010
        }
    } else {
        if shade == 0 {
            0x00D0F0F8
        } else if shade == 1 {
            0x0070A0C0
        } else if shade == 2 {
            0x00406080
        } else {
            0x00102030
        }
    }
}

/// One palette entry.
pub fn palette_color(palette: usize, shade: usize) -> (r: u32)
    requires
        palette < 4,
        shade < 4,
    ensures
        r == spec_palette(palette as int, shade as int),
{
    match palette {
        0 => match shade {
            0 => 0x00E0F8D0,
            1 => 0x0088C070,
            2 => 0x00346856,
            _ => 0x00081820,
        },
        1 => match shade {
            0 => 0x00FFFFFF,
            1 => 0x00AAAAAA,
            2 => 0x00555555,
            _ => 0x00000000,
        },
        2 => match shade {
            0 => 0x00F8E4A0,
            1 => 0x00D0A068,
            2 => 0x00A06030,
            _ => 0x00302010,
        },
        _ => match shade {
            0 => 0x00D0F0F8,
            1 => 0x0070A0C0,
            2 => 0x00406080,
            _ => 0x00102030,
        },
    }
}

pub struct Ppu {
    pub vram: Vec<u8>,
    pub oam: Vec<u8>,
    pub lcdc: u8,
    pub stat: u8,
    pub scy: u8,
    pub scx: u8,
    pub ly: u8,
    pub lyc: u8,
    pub bgp: u8,
    pub obp0: u8,
    pub obp1: u8,
    pub wy: u8,
    pub wx: u8,
    pub current_mode: PpuMode,
    pub cycles_in_current_mode: u32,
    pub frame_buffer: Vec<u32>,
    pub frame_ready: bool,
    /// Sprites selected for the current scanline: (OAM byte offset, X).
    pub scanline_sprites: Vec<(usize, u8)>,
    pub colors: Vec<u32>,
    pub palette_index: usize,
}

/// Whether OAM entry `i` covers scanline `ly` for sprite height `h`
/// (Y-coordinate arithmetic wraps at 256, as the hardware's does).
pub open spec fn spec_sprite_covers(oam: Seq<u8>, ly: u8, h: u8, i: int) -> bool {
    let y = oam[4 * i];
    let top = ((y - 16) % 256 + 256) % 256;
    &&& ly >= top
    &&& (ly as int) < (top + h) % 256
}

/// Sprite selection from OAM entry `i` on, with `acc` already selected:
/// entries are taken in OAM order until ten are gathered.
pub open spec fn spec_scan_from(
    oam: Seq<u8>,
    ly: u8,
    h: u8,
    i: int,
    acc: Seq<(usize, u8)>,
) -> Seq<(usize, u8)>
    decreases 40 - i,
{
    if i >= 40 || acc.len() >= 10 {
        acc
    } else {
        let acc2 = if spec_sprite_covers(oam, ly, h, i) {
            acc.push(((4 * i) as usize, oam[4 * i + 1]))
        } else {
            acc
        };
        spec_scan_from(oam, ly, h, i + 1, acc2)
    }
}

/// The sprites OAM scan selects for scanline `ly`.
pub open spec fn spec_selected_sprites(oam: Seq<u8>, ly: u8, h: u8) -> Seq<(usize, u8)> {
    spec_scan_from(oam, ly, h, 0, Seq::empty())
}

/// Position of a PPU state within its 70224-cycle frame.
pub open spec fn spec_frame_pos(p: Ppu) -> int {
    if p.current_mode == PpuMode::VBlank {
        p.ly * 456 + p.cycles_in_current_mode
    } else {
        p.ly * 456 + spec_mode_base(p.current_mode) + p.cycles_in_current_mode
    }
}

impl Ppu {
    /// Size and bound constraints that hold even in the middle of a step.
    pub open spec fn wf_static(self) -> bool {
        &&& self.vram@.len() == VRAM_SIZE
        &&& self.oam@.len() == OAM_SIZE
        &&& self.frame_buffer@.len() == SCREEN_WIDTH * SCREEN_HEIGHT
        &&& self.colors@.len() == 4
        &&& self.palette_index < 4
        &&& self.scanline_sprites@.len() <= 10
        &&& forall|i: int|
            0 <= i < self.scanline_sprites@.len() ==> (#[trigger] self.scanline_sprites@[i]).0
                <= 156 && self.scanline_sprites@[i].0 % 4 == 0
    }

    /// Structural bounds every reachable PPU state keeps: sizes, a mode
    /// accumulator below its threshold, and LY consistent with the mode.
    pub open spec fn wf(self) -> bool {
        &&& self.wf_static()
        &&& self.cycles_in_current_mode < spec_mode_threshold(self.current_mode)
        &&& (self.current_mode == PpuMode::VBlank ==> 144 <= self.ly <= 153)
        &&& (self.current_mode != PpuMode::VBlank ==> self.ly <= 143)
    }

    pub fn new() -> (r: Ppu)
        ensures
            r.wf(),
            r.lcdc == 0x91,
            r.stat == 0x80,
            r.ly == 0,
            r.lyc == 0,
            r.bgp == 0xFC,
            r.current_mode == PpuMode::OamScan,
            r.cycles_in_current_mode == 0,
            !r.frame_ready,
            r.palette_index == 0,
            forall|i: int| 0 <= i < 4 ==> r.colors@[i] == spec_palette(0, i),
            forall|i: int|
                0 <= i < SCREEN_WIDTH * SCREEN_HEIGHT ==> r.frame_buffer@[i] == spec_palette(
                    0,
                    0,
                ),
            forall|i: int| 0 <= i < VRAM_SIZE ==> r.vram@[i] == 0,
            forall|i: int| 0 <= i < OAM_SIZE ==> r.oam@[i] == 0,
    {
        let mut colors: Vec<u32> = Vec::new();
        colors.push(palette_color(0, 0));
        colors.push(palette_color(0, 1));
        colors.push(palette_color(0, 2));
        colors.push(palette_color(0, 3));
        Ppu {
            vram: vec![0u8; 8192],
            oam: vec![0u8; 160],
            lcdc: 0x91,
            stat: 0x80,
            scy: 0,
            scx: 0,
            ly: 0,
            lyc: 0,
            bgp: 0xFC,
            obp0: 0xFF,
            obp1: 0xFF,
            wy: 0,
            wx: 0,
            current_mode: PpuMode::OamScan,
            cycles_in_current_mode: 0,
            frame_buffer: vec![0x00E0F8D0u32; 23040],
            frame_ready: false,
            scanline_sprites: Vec::new(),
            colors,
            palette_index: 0,
        }
    }

    /// The active 4-entry palette.
    pub fn get_colors(&self) -> (r: &Vec<u32>)
        ensures
            r@ == self.colors@,
    {
        &self.colors
    }

    /// Switch to the next preset palette.
    pub fn cycle_palette(&mut self)
        requires
            old(self).wf(),
        ensures
            final(self).wf(),
            final(self).palette_index == (old(self).palette_index + 1) % 4,
            forall|i: int|
                0 <= i < 4 ==> final(self).colors@[i] == spec_palette(
                    final(self).palette_index as int,
                    i,
                ),
            *final(self) == (Ppu {
                palette_index: final(self).palette_index,
                colors: final(self).colors,
                ..*old(self)
            }),
    {
        self.palette_index = (self.palette_index + 1) % 4;
        let mut colors: Vec<u32> = Vec::new();
        colors.push(palette_color(self.palette_index, 0));
        colors.push(palette_color(self.palette_index, 1));
        colors.push(palette_color(self.palette_index, 2));
        colors.push(palette_color(self.palette_index, 3));
        self.colors = colors;
    }

    pub open spec fn spec_lcd_enabled(self) -> bool {
        self.lcdc & 0x80 != 0
    }

    pub fn is_lcd_enabled(&self) -> (r: bool)
        ensures
            r == self.spec_lcd_enabled(),
    {
        (self.lcdc & 0x80) != 0
    }

    pub open spec fn spec_sprites_enabled(self) -> bool {
        self.lcdc & 0x02 != 0
    }

    pub fn is_sprites_enabled(&self) -> (r: bool)
        ensures
            r == self.spec_sprites_enabled(),
    {
        (self.lcdc & 0x02) != 0
    }

    /// 8 or 16, from LCDC bit 2.
    pub open spec fn spec_sprite_height(self) -> u8 {
        if self.lcdc & 0x04 != 0 {
            16u8
        } else {
            8u8
        }
    }

    pub fn get_sprite_height(&self) -> (r: u8)
        ensures
            r == self.spec_sprite_height(),
    {
        if (self.lcdc & 0x04) != 0 {
            16
        } else {
            8
        }
    }

    /// Update STAT bit 2 from LY = LYC; returns whether the LYC source must
    /// raise an LCD-STAT interrupt.
    pub fn check_lyc_coincidence(&mut self) -> (r: bool)
        ensures
            final(self).stat == (if old(self).ly == old(self).lyc {
                old(self).stat | 0x04
            } else {
                old(self).stat & !0x04u8
            }),
            r == (old(self).ly == old(self).lyc && old(self).stat & 0x40 != 0),
            *final(self) == (Ppu { stat: final(self).stat, ..*old(self) }),
    {
        proof {
            crate::bits::lemma_stat_coincidence_bit(self.stat);
        }
        if self.ly == self.lyc {
            self.stat |= 0x04;
            (self.stat & 0x40) != 0
        } else {
            self.stat &= !0x04u8;
            false
        }
    }

    /// Select up to ten sprites whose rows cover the current scanline, in
    /// OAM order; none while sprites are disabled.
    #[verifier::rlimit(100)]
    pub fn perform_oam_scan(&mut self)
        requires
            old(self).wf_static(),
        ensures
            final(self).wf_static(),
            final(self).scanline_sprites@ == (if old(self).spec_sprites_enabled() {
                spec_selected_sprites(
                    old(self).oam@,
                    old(self).ly,
                    old(self).spec_sprite_height(),
                )
            } else {
                Seq::<(usize, u8)>::empty()
            }),
            *final(self) == (Ppu {
                scanline_sprites: final(self).scanline_sprites,
                ..*old(self)
            }),
    {
        self.scanline_sprites = Vec::new();
        if !self.is_sprites_enabled() {
            return ;
        }
        let sprite_height = self.get_sprite_height();
        let ghost oam0 = self.oam@;
        let ghost ly0 = self.ly;
        let mut i: usize = 0;
        while i < 40 && self.scanline_sprites.len() < 10
            invariant
                i <= 40,
                self.oam@ == oam0,
                self.ly == ly0,
                old(self).wf_static(),
                *self == (Ppu { scanline_sprites: self.scanline_sprites, ..*old(self) }),
                sprite_height == old(self).spec_sprite_height(),
                self.scanline_sprites@.len() <= 10,
                forall|k: int|
                    0 <= k < self.scanline_sprites@.len() ==> (
                    #[trigger] self.scanline_sprites@[k]).0 <= 156
                        && self.scanline_sprites@[k].0 % 4 == 0,
                spec_scan_from(oam0, ly0, sprite_height, i as int, self.scanline_sprites@)
                    == spec_selected_sprites(oam0, ly0, sprite_height),
            decreases 40 - i,
        {
            let ghost acc0 = self.scanline_sprites@;
            let oam_addr_base = i * 4;
            let y_pos = self.oam[oam_addr_base];
            let screen_y_top = y_pos.wrapping_sub(16);
            if self.ly >= screen_y_top && self.ly < screen_y_top.wrapping_add(sprite_height) {
                let x_pos = self.oam[oam_addr_base + 1];
                self.scanline_sprites.push((oam_addr_base, x_pos));
            }
            proof {
                assert(spec_sprite_covers(oam0, ly0, sprite_height, i as int) == (ly0
                    >= ((y_pos - 16) % 256 + 256) % 256 && (ly0 as int) < ((((y_pos - 16) % 256
                    + 256) % 256) + sprite_height) % 256));
                assert(self.scanline_sprites@ == (if spec_sprite_covers(
                    oam0,
                    ly0,
                    sprite_height,
                    i as int,
                ) {
                    acc0.push(((4 * i) as usize, oam0[4 * i + 1]))
                } else {
                    acc0
                }));
                assert(spec_scan_from(oam0, ly0, sprite_height, i as int, acc0) == spec_scan_from(
                    oam0,
                    ly0,
                    sprite_height,
                    i as int + 1,
                    self.scanline_sprites@,
                ));
            }
            i = i + 1;
        }
        proof {
            assert(spec_scan_from(oam0, ly0, sprite_height, i as int, self.scanline_sprites@)
                == self.scanline_sprites@);
        }
    }

    /// Enter `new_mode`: STAT's mode bits follow, entering OAM scan selects
    /// the line's sprites, and the mode's STAT interrupt source fires if
    /// enabled.
    pub fn change_mode(&mut self, new_mode: PpuMode) -> (r: PpuInterruptType)
        requires
            old(self).wf_static(),
        ensures
            final(self).wf_static(),
            final(self).current_mode == new_mode,
            final(self).stat == ((old(self).stat & 0xFC) | spec_mode_stat_bits(new_mode)),
            final(self).scanline_sprites@ == (if new_mode == PpuMode::OamScan {
                if old(self).spec_sprites_enabled() {
                    spec_selected_sprites(
                        old(self).oam@,
                        old(self).ly,
                        old(self).spec_sprite_height(),
                    )
                } else {
                    Seq::<(usize, u8)>::empty()
                }
            } else {
                old(self).scanline_sprites@
            }),
            *final(self) == (Ppu {
                current_mode: new_mode,
                stat: final(self).stat,
                scanline_sprites: final(self).scanline_sprites,
                ..*old(self)
            }),
            r == (if (new_mode == PpuMode::HBlank && old(self).stat & 0x08 != 0) || (new_mode
                == PpuMode::VBlank && old(self).stat & 0x10 != 0) || (new_mode
                == PpuMode::OamScan && old(self).stat & 0x20 != 0) {
                PpuInterruptType::LcdStat
            } else {
                PpuInterruptType::NoInterrupt
            }),
            final(self).stat & 0xF8 == old(self).stat & 0xF8,
            r == PpuInterruptType::LcdStat ==> old(self).stat & 0x78 != 0,
    {
        proof {
            crate::bits::lemma_stat_mode_bits(self.stat, spec_mode_stat_bits(new_mode));
            crate::bits::lemma_stat_sources(self.stat, self.stat);
        }
        self.current_mode = new_mode;
        self.stat = (self.stat & 0xFC) | new_mode.to_stat_bits();
        if new_mode == PpuMode::OamScan {
            self.perform_oam_scan();
        }
        let should_interrupt = match new_mode {
            PpuMode::HBlank => (self.stat & 0x08) != 0,
            PpuMode::VBlank => (self.stat & 0x10) != 0,
            PpuMode::OamScan => (self.stat & 0x20) != 0,
            PpuMode::Drawing => false,
        };
        if should_interrupt {
            PpuInterruptType::LcdStat
        } else {
            PpuInterruptType::NoInterrupt
        }
    }
}


/// Shade index a DMG palette register assigns to a color id.
pub open spec fn spec_shade(palette: u8, color_id: u8) -> u8 {
    (palette >> ((color_id * 2) as u8)) & 3
}

/// Background/window color id of screen column `x` on the current scanline:
/// tilemap choice, SCX/SCY or window-relative coordinates, tile fetch with
/// signed or unsigned addressing, and the two-bitplane combination.
pub open spec fn spec_bg_color_id(p: Ppu, x: u8) -> u8 {
    let bg_display_enabled = p.lcdc & 1 != 0;
    let window_display_enabled = p.lcdc & 0x20 != 0 && p.wy <= p.ly;
    let on_window = window_display_enabled && x >= p.wx.saturating_sub(7);
    if !(bg_display_enabled || on_window) {
        0u8
    } else {
        let map_base: u16 = if on_window {
            if p.lcdc & 0x40 != 0 {
                0x9C00u16
            } else {
                0x9800u16
            }
        } else {
            if p.lcdc & 0x08 != 0 {
                0x9C00u16
            } else {
                0x9800u16
            }
        };
        let map_y: u8 = if on_window {
            (p.ly - p.wy) as u8
        } else {
            p.ly.wrapping_add(p.scy)
        };
        let map_x: u8 = if on_window {
            x.wrapping_sub(p.wx.wrapping_sub(7))
        } else {
            x.wrapping_add(p.scx)
        };
        let tile_map_addr: int = map_base + (map_y / 8) * 32 + (map_x / 8);
        let tile_index = p.vram@[tile_map_addr - 0x8000];
        let signed_addressing = p.lcdc & 0x10 == 0;
        let tile_data_addr: int = if signed_addressing {
            0x9000 + (tile_index as i8) * 16
        } else {
            0x8000 + tile_index * 16
        };
        let line_data_addr: int = tile_data_addr + (map_y % 8) * 2;
        let byte1 = p.vram@[line_data_addr - 0x8000];
        let byte2 = p.vram@[line_data_addr + 1 - 0x8000];
        let x_in_tile: u8 = (7 - (map_x % 8)) as u8;
        let b1 = (byte1 >> x_in_tile) & 1;
        let b2 = (byte2 >> x_in_tile) & 1;
        (b2 << 1) | b1
    }
}

impl Ppu {
    /// Background/window color id of one screen column of the current line.
    pub fn bg_pixel_color_id(&self, screen_x: usize) -> (id: u8)
        requires
            self.wf_static(),
            screen_x < SCREEN_WIDTH,
        ensures
            id == spec_bg_color_id(*self, screen_x as u8),
            id < 4,
    {
        let x = screen_x as u8;
        let bg_display_enabled = (self.lcdc & 1) != 0;
        let window_display_enabled = (self.lcdc & 0x20) != 0 && self.wy <= self.ly;
        let on_window = window_display_enabled && x >= self.wx.saturating_sub(7);
        if !(bg_display_enabled || on_window) {
            return 0;
        }
        let map_base: u16 = if on_window {
            if (self.lcdc & 0x40) != 0 {
                0x9C00
            } else {
                0x9800
            }
        } else {
            if (self.lcdc & 0x08) != 0 {
                0x9C00
            } else {
                0x9800
            }
        };
        let map_y: u8 = if on_window {
            self.ly - self.wy
        } else {
            self.ly.wrapping_add(self.scy)
        };
        let map_x: u8 = if on_window {
            x.wrapping_sub(self.wx.wrapping_sub(7))
        } else {
            x.wrapping_add(self.scx)
        };
        let tile_row = (map_y / 8) as u16;
        let tile_col = (map_x / 8) as u16;
        let tile_map_addr: u16 = map_base + tile_row * 32 + tile_col;
        let tile_index = self.vram[(tile_map_addr - 0x8000) as usize];
        let signed_addressing = (self.lcdc & 0x10) == 0;
        let tile_data_addr: u16 = if signed_addressing {
            (0x9000i32 + (tile_index as i8) as i32 * 16) as u16
        } else {
            0x8000u16 + (tile_index as u16) * 16
        };
        let y_in_tile = (map_y % 8) as u16;
        let line_data_addr = tile_data_addr + y_in_tile * 2;
        let byte1 = self.vram[(line_data_addr - 0x8000) as usize];
        let byte2 = self.vram[(line_data_addr + 1 - 0x8000) as usize];
        let x_in_tile: u8 = 7 - (map_x % 8);
        let color_bit_1 = (byte1 >> x_in_tile) & 1;
        let color_bit_2 = (byte2 >> x_in_tile) & 1;
        proof {
            crate::bits::lemma_u8_and_le(byte1 >> x_in_tile, 1);
            crate::bits::lemma_u8_and_le(byte2 >> x_in_tile, 1);
            crate::bits::lemma_color_id_bound(color_bit_1, color_bit_2);
        }
        (color_bit_2 << 1) | color_bit_1
    }

    /// Draw the background and window of the current scanline into the
    /// framebuffer and report each column's color id for sprite priority.
    pub fn render_background_and_window(&mut self, bg_pixel_color_ids: &mut Vec<u8>)
        requires
            old(self).wf_static(),
            old(self).ly < 144,
            old(bg_pixel_color_ids)@.len() == SCREEN_WIDTH,
        ensures
            final(self).wf_static(),
            final(bg_pixel_color_ids)@.len() == SCREEN_WIDTH,
            forall|x: int|
                0 <= x < 160 ==> final(bg_pixel_color_ids)@[x] == spec_bg_color_id(
                    *old(self),
                    x as u8,
                ),
            forall|x: int|
                0 <= x < 160 ==> final(self).frame_buffer@[old(self).ly * 160 + x]
                    == old(self).colors@[spec_shade(
                    old(self).bgp,
                    #[trigger] spec_bg_color_id(*old(self), x as u8),
                ) as int],
            forall|i: int|
                0 <= i < 23040 && !(old(self).ly * 160 <= i < old(self).ly * 160 + 160)
                    ==> final(self).frame_buffer@[i] == old(self).frame_buffer@[i],
            *final(self) == (Ppu { frame_buffer: final(self).frame_buffer, ..*old(self) }),
    {
        let line_start: usize = (self.ly as usize) * 160;
        let mut screen_x: usize = 0;
        while screen_x < 160
            invariant
                screen_x <= 160,
                old(self).wf_static(),
                old(self).ly < 144,
                line_start == old(self).ly * 160,
                *self == (Ppu { frame_buffer: self.frame_buffer, ..*old(self) }),
                self.frame_buffer@.len() == 23040,
                bg_pixel_color_ids@.len() == 160,
                forall|x: int|
                    0 <= x < screen_x ==> bg_pixel_color_ids@[x] == spec_bg_color_id(
                        *old(self),
                        x as u8,
                    ),
                forall|x: int|
                    0 <= x < screen_x ==> self.frame_buffer@[line_start + x]
                        == old(self).colors@[spec_shade(
                        old(self).bgp,
                        #[trigger] spec_bg_color_id(*old(self), x as u8),
                    ) as int],
                forall|i: int|
                    0 <= i < 23040 && !(line_start <= i < line_start + screen_x)
                        ==> self.frame_buffer@[i] == old(self).frame_buffer@[i],
            decreases 160 - screen_x,
        {
            let final_color_id = self.bg_pixel_color_id(screen_x);
            bg_pixel_color_ids.set(screen_x, final_color_id);
            let shade_index = (self.bgp >> (final_color_id * 2)) & 0x03;
            proof {
                crate::bits::lemma_u8_and_le(self.bgp >> ((final_color_id * 2) as u8), 0x03);
            }
            let color = self.colors[shade_index as usize];
            self.frame_buffer.set(line_start + screen_x, color);
            screen_x = screen_x + 1;
        }
    }
}

/// Strict drawing order of two selected sprites: X ascending, OAM offset
/// as tiebreak.
pub open spec fn spec_sprite_before(a: (usize, u8), b: (usize, u8)) -> bool {
    a.1 < b.1 || (a.1 == b.1 && a.0 < b.0)
}

/// Non-strict counterpart of `spec_sprite_before`.
pub open spec fn spec_sprite_le(a: (usize, u8), b: (usize, u8)) -> bool {
    a.1 < b.1 || (a.1 == b.1 && a.0 <= b.0)
}

/// Whether `a` must be drawn strictly before `b`.
fn sprite_before(a: (usize, u8), b: (usize, u8)) -> (r: bool)
    ensures
        r == spec_sprite_before(a, b),
{
    a.1 < b.1 || (a.1 == b.1 && a.0 < b.0)
}

/// Insertion sort of the selected sprites by (X, OAM offset).  Entries keep
/// the OAM-offset bounds they came with.
fn sort_sprites(v: &mut Vec<(usize, u8)>)
    requires
        forall|k: int|
            0 <= k < old(v)@.len() ==> (#[trigger] old(v)@[k]).0 <= 156 && old(v)@[k].0 % 4
                == 0,
    ensures
        final(v)@.len() == old(v)@.len(),
        forall|a: int, b: int|
            0 <= a < b < final(v)@.len() ==> spec_sprite_le(
                #[trigger] final(v)@[a],
                #[trigger] final(v)@[b],
            ),
        forall|k: int|
            0 <= k < final(v)@.len() ==> (#[trigger] final(v)@[k]).0 <= 156
                && final(v)@[k].0 % 4 == 0,
{
    let n = v.len();
    if n == 0 {
        return ;
    }
    let mut i: usize = 1;
    while i < n
        invariant
            1 <= i <= n,
            v@.len() == n,
            n == old(v)@.len(),
            forall|a: int, b: int|
                0 <= a < b < i ==> spec_sprite_le(#[trigger] v@[a], #[trigger] v@[b]),
            forall|k: int|
                0 <= k < n ==> (#[trigger] v@[k]).0 <= 156 && v@[k].0 % 4 == 0,
        decreases n - i,
    {
        let mut j: usize = i;
        while j > 0 && sprite_before(v[j], v[j - 1])
            invariant
                0 <= j <= i < n,
                v@.len() == n,
                n == old(v)@.len(),
                forall|a: int, b: int|
                    0 <= a < b <= i && b != j ==> spec_sprite_le(
                        #[trigger] v@[a],
                        #[trigger] v@[b],
                    ),
                forall|a: int| j < a <= i ==> spec_sprite_le(v@[j as int], #[trigger] v@[a]),
                forall|k: int|
                    0 <= k < n ==> (#[trigger] v@[k]).0 <= 156 && v@[k].0 % 4 == 0,
            decreases j,
        {
            let upper = v[j];
            let lower = v[j - 1];
            v.set(j, lower);
            v.set(j - 1, upper);
            j = j - 1;
        }
        proof {
            assert forall|a: int, b: int| 0 <= a < b <= i implies spec_sprite_le(
                #[trigger] v@[a],
                #[trigger] v@[b],
            ) by {
                if b == j {
                    if j > 0 {
                        assert(spec_sprite_le(v@[j - 1], v@[j as int]));
                        if a < j - 1 {
                            assert(spec_sprite_le(v@[a], v@[j - 1]));
                        }
                    }
                }
            }
        }
        i = i + 1;
    }
}


/// Whether a pixel value is one of the four entries of the active palette.
/// What the sprite pass reads: the memories and registers fixed for the
/// duration of one scanline.
#[verifier::ext_equal]
pub struct SpriteRenderInput {
    pub oam: Seq<u8>,
    pub vram: Seq<u8>,
    pub ly: u8,
    pub sprite_height: u8,
    pub obp0: u8,
    pub obp1: u8,
    pub colors: Seq<u32>,
    pub bg_ids: Seq<u8>,
}

/// The sprite-pass inputs a PPU state provides, with the background color
/// ids of the current line.
pub open spec fn spec_sprite_input(p: Ppu, bg_ids: Seq<u8>) -> SpriteRenderInput {
    SpriteRenderInput {
        oam: p.oam@,
        vram: p.vram@,
        ly: p.ly,
        sprite_height: p.spec_sprite_height(),
        obp0: p.obp0,
        obp1: p.obp1,
        colors: p.colors@,
        bg_ids,
    }
}

/// Row and drawn-mask after one sprite pixel: column `sprite_x + xo` takes
/// the sprite's palette color exactly when it lands on screen, no
/// earlier-priority sprite claimed the column, the two-bitplane color id is
/// not transparent, and the background-over-object attribute does not
/// suppress it over a non-zero background color id.
pub open spec fn spec_sprite_pixel(
    c: SpriteRenderInput,
    palette: u8,
    sprite_x: u8,
    x_flip: bool,
    bg_over_obj: bool,
    byte1: u8,
    byte2: u8,
    xo: u8,
    row: Seq<u32>,
    drawn: Seq<bool>,
) -> (Seq<u32>, Seq<bool>) {
    let screen_x = sprite_x.wrapping_add(xo);
    if screen_x < 160 && !drawn[screen_x as int] {
        let pos: u8 = if x_flip {
            xo
        } else {
            (7 - xo) as u8
        };
        let b1 = (byte1 >> pos) & 1;
        let b2 = (byte2 >> pos) & 1;
        let color_id = (b2 << 1) | b1;
        if color_id != 0 && !(bg_over_obj && c.bg_ids[screen_x as int] != 0) {
            let shade = (palette >> ((color_id * 2) as u8)) & 0x03;
            (
                row.update(screen_x as int, c.colors[shade as int]),
                drawn.update(screen_x as int, true),
            )
        } else {
            (row, drawn)
        }
    } else {
        (row, drawn)
    }
}

/// Row and drawn-mask after the sprite's pixels from offset `xo` to 7.
pub open spec fn spec_sprite_pixels(
    c: SpriteRenderInput,
    palette: u8,
    sprite_x: u8,
    x_flip: bool,
    bg_over_obj: bool,
    byte1: u8,
    byte2: u8,
    xo: int,
    row: Seq<u32>,
    drawn: Seq<bool>,
) -> (Seq<u32>, Seq<bool>)
    decreases 8 - xo,
{
    if xo < 0 || xo >= 8 {
        (row, drawn)
    } else {
        let (r2, d2) = spec_sprite_pixel(
            c,
            palette,
            sprite_x,
            x_flip,
            bg_over_obj,
            byte1,
            byte2,
            xo as u8,
            row,
            drawn,
        );
        spec_sprite_pixels(c, palette, sprite_x, x_flip, bg_over_obj, byte1, byte2, xo + 1, r2, d2)
    }
}

/// Row and drawn-mask after one whole sprite: attributes decode from OAM,
/// Y-flip and the 8x16 tile pairing pick the tile row, and the eight pixels
/// are drawn; a sprite whose row no longer covers the line draws nothing.
pub open spec fn spec_draw_sprite(
    c: SpriteRenderInput,
    sprite: (usize, u8),
    row: Seq<u32>,
    drawn: Seq<bool>,
) -> (Seq<u32>, Seq<bool>) {
    let base = sprite.0 as int;
    let sprite_y_pos_raw = c.oam[base];
    let tile_index = c.oam[base + 2];
    let attributes = c.oam[base + 3];
    let sprite_x = sprite.1.wrapping_sub(8);
    let y_flip = attributes & 0x40 != 0;
    let x_flip = attributes & 0x20 != 0;
    let palette = if attributes & 0x10 != 0 {
        c.obp1
    } else {
        c.obp0
    };
    let bg_over_obj = attributes & 0x80 != 0;
    let y0 = c.ly.wrapping_sub(sprite_y_pos_raw.wrapping_sub(16));
    if y0 >= c.sprite_height {
        (row, drawn)
    } else {
        let y1: u8 = if y_flip {
            (c.sprite_height - 1 - y0) as u8
        } else {
            y0
        };
        let masked: u16 = (tile_index as u16) & 0xFE;
        let fti: u16 = if c.sprite_height == 16 {
            if y1 >= 8 {
                (masked + 1) as u16
            } else {
                masked
            }
        } else {
            tile_index as u16
        };
        let y2: u8 = if c.sprite_height == 16 && y1 >= 8 {
            (y1 - 8) as u8
        } else {
            y1
        };
        let addr: int = 0x8000 + fti * 16 + y2 * 2;
        let byte1 = c.vram[addr - 0x8000];
        let byte2 = c.vram[addr + 1 - 0x8000];
        spec_sprite_pixels(c, palette, sprite_x, x_flip, bg_over_obj, byte1, byte2, 0, row, drawn)
    }
}

/// Row and drawn-mask after the sprites from index `si` on, drawn in the
/// order of the list.
pub open spec fn spec_draw_sprites(
    c: SpriteRenderInput,
    sprites: Seq<(usize, u8)>,
    si: int,
    row: Seq<u32>,
    drawn: Seq<bool>,
) -> (Seq<u32>, Seq<bool>)
    decreases sprites.len() - si,
{
    if si < 0 || si >= sprites.len() {
        (row, drawn)
    } else {
        let (r2, d2) = spec_draw_sprite(c, sprites[si], row, drawn);
        spec_draw_sprites(c, sprites, si + 1, r2, d2)
    }
}

impl Ppu {
    /// Draw the selected sprites of the current scanline over the background.
    /// The sprites are drawn in ascending (X, OAM offset) order, and the
    /// row's final pixels equal the sprite pass `spec_draw_sprites` applied
    /// over the row as the background left it: per sprite, a pixel is
    /// written exactly when its color id is non-zero, no earlier sprite
    /// claimed the column, and the background-over-object attribute does not
    /// suppress it; a written pixel is the OBP0/OBP1 shade's palette entry.
    #[verifier::rlimit(100)]
    #[verifier::spinoff_prover]
    pub fn render_sprites(&mut self, bg_pixel_color_ids: &Vec<u8>)
        requires
            old(self).wf_static(),
            old(self).ly < 144,
            bg_pixel_color_ids@.len() == SCREEN_WIDTH,
        ensures
            final(self).wf_static(),
            final(self).scanline_sprites@.len() == old(self).scanline_sprites@.len(),
            forall|a: int, b: int|
                0 <= a < b < final(self).scanline_sprites@.len() ==> spec_sprite_le(
                    #[trigger] final(self).scanline_sprites@[a],
                    #[trigger] final(self).scanline_sprites@[b],
                ),
            forall|i: int|
                0 <= i < 23040 && !(old(self).ly * 160 <= i < old(self).ly * 160 + 160)
                    ==> final(self).frame_buffer@[i] == old(self).frame_buffer@[i],
            ({
                let row2 = spec_draw_sprites(
                    spec_sprite_input(*old(self), bg_pixel_color_ids@),
                    final(self).scanline_sprites@,
                    0,
                    old(self).frame_buffer@.subrange(
                        old(self).ly * 160,
                        old(self).ly * 160 + 160,
                    ),
                    Seq::new(160, |i: int| false),
                ).0;
                forall|x: int|
                    0 <= x < 160 ==> final(self).frame_buffer@[old(self).ly * 160 + x]
                        == row2[x]
            }),
            *final(self) == (Ppu {
                frame_buffer: final(self).frame_buffer,
                scanline_sprites: final(self).scanline_sprites,
                ..*old(self)
            }),
    {
        sort_sprites(&mut self.scanline_sprites);
        let sprite_height = self.get_sprite_height();
        let mut drawn_pixels: Vec<bool> = vec![false; 160];
        let line_start: usize = (self.ly as usize) * 160;
        let sprite_count = self.scanline_sprites.len();
        let ghost ctx = spec_sprite_input(*old(self), bg_pixel_color_ids@);
        let ghost row0 = old(self).frame_buffer@.subrange(
            line_start as int,
            line_start + 160,
        );
        let ghost drawn0 = Seq::new(160, |i: int| false);
        let ghost sprites0 = self.scanline_sprites@;
        proof {
            assert(drawn_pixels@ =~= drawn0);
            assert(self.frame_buffer@.subrange(line_start as int, line_start + 160) =~= row0);
        }
        let mut si: usize = 0;
        while si < sprite_count
            invariant
                si <= sprite_count,
                old(self).wf_static(),
                old(self).ly < 144,
                line_start == old(self).ly * 160,
                sprite_count == self.scanline_sprites@.len(),
                sprite_count == old(self).scanline_sprites@.len(),
                self.scanline_sprites@ == sprites0,
                drawn_pixels@.len() == 160,
                bg_pixel_color_ids@.len() == 160,
                self.frame_buffer@.len() == 23040,
                ctx == spec_sprite_input(*old(self), bg_pixel_color_ids@),
                sprite_height == ctx.sprite_height,
                forall|k: int|
                    0 <= k < self.scanline_sprites@.len() ==> (
                    #[trigger] self.scanline_sprites@[k]).0 <= 156
                        && self.scanline_sprites@[k].0 % 4 == 0,
                forall|a: int, b: int|
                    0 <= a < b < self.scanline_sprites@.len() ==> spec_sprite_le(
                        #[trigger] self.scanline_sprites@[a],
                        #[trigger] self.scanline_sprites@[b],
                    ),
                *self == (Ppu {
                    frame_buffer: self.frame_buffer,
                    scanline_sprites: self.scanline_sprites,
                    ..*old(self)
                }),
                forall|i: int|
                    0 <= i < 23040 && !(line_start <= i < line_start + 160)
                        ==> self.frame_buffer@[i] == old(self).frame_buffer@[i],
                spec_draw_sprites(
                    ctx,
                    self.scanline_sprites@,
                    si as int,
                    self.frame_buffer@.subrange(line_start as int, line_start + 160),
                    drawn_pixels@,
                ) == spec_draw_sprites(ctx, self.scanline_sprites@, 0, row0, drawn0),
            decreases sprite_count - si,
        {
            let ghost row_at = self.frame_buffer@.subrange(line_start as int, line_start + 160);
            let ghost drawn_at = drawn_pixels@;
            let ghost sprite = self.scanline_sprites@[si as int];
            let (oam_addr_base, sprite_x_pos_raw) = self.scanline_sprites[si];
            let sprite_y_pos_raw = self.oam[oam_addr_base];
            let tile_index = self.oam[oam_addr_base + 2];
            let attributes = self.oam[oam_addr_base + 3];
            let sprite_x = sprite_x_pos_raw.wrapping_sub(8);
            let y_flip = (attributes & 0x40) != 0;
            let x_flip = (attributes & 0x20) != 0;
            let palette = if (attributes & 0x10) != 0 {
                self.obp1
            } else {
                self.obp0
            };
            let bg_over_obj = (attributes & 0x80) != 0;
            let mut y_in_tile = self.ly.wrapping_sub(sprite_y_pos_raw.wrapping_sub(16));
            // A sprite whose row no longer covers this line (the sprite
            // height shrank since OAM scan) is skipped rather than drawn
            // from out-of-row tile data.
            if y_in_tile < sprite_height {
                if y_flip {
                    y_in_tile = sprite_height - 1 - y_in_tile;
                }
                let mut final_tile_index = tile_index as u16;
                if sprite_height == 16 {
                    proof {
                        crate::bits::lemma_u16_and_le(final_tile_index, 0xFE);
                    }
                    final_tile_index &= 0xFE;
                    if y_in_tile >= 8 {
                        final_tile_index += 1;
                        y_in_tile -= 8;
                    }
                }
                let tile_data_addr: u16 = 0x8000u16 + final_tile_index * 16 + (y_in_tile as u16)
                    * 2;
                let byte1 = self.vram[(tile_data_addr - 0x8000) as usize];
                let byte2 = self.vram[(tile_data_addr + 1 - 0x8000) as usize];
                proof {
                    assert(byte1 == ctx.vram[tile_data_addr - 0x8000]);
                    assert(byte2 == ctx.vram[tile_data_addr + 1 - 0x8000]);
                }
                let mut x_offset: u8 = 0;
                while x_offset < 8
                    invariant
                        x_offset <= 8,
                        old(self).wf_static(),
                        old(self).ly < 144,
                        line_start == old(self).ly * 160,
                        sprite_count == self.scanline_sprites@.len(),
                        sprite_count == old(self).scanline_sprites@.len(),
                        self.scanline_sprites@ == sprites0,
                        drawn_pixels@.len() == 160,
                        bg_pixel_color_ids@.len() == 160,
                        self.frame_buffer@.len() == 23040,
                        ctx == spec_sprite_input(*old(self), bg_pixel_color_ids@),
                        sprite_height == ctx.sprite_height,
                        forall|k: int|
                            0 <= k < self.scanline_sprites@.len() ==> (
                            #[trigger] self.scanline_sprites@[k]).0 <= 156
                                && self.scanline_sprites@[k].0 % 4 == 0,
                        forall|a: int, b: int|
                            0 <= a < b < self.scanline_sprites@.len() ==> spec_sprite_le(
                                #[trigger] self.scanline_sprites@[a],
                                #[trigger] self.scanline_sprites@[b],
                            ),
                        *self == (Ppu {
                            frame_buffer: self.frame_buffer,
                            scanline_sprites: self.scanline_sprites,
                            ..*old(self)
                        }),
                        forall|i: int|
                            0 <= i < 23040 && !(line_start <= i < line_start + 160)
                                ==> self.frame_buffer@[i] == old(self).frame_buffer@[i],
                        spec_sprite_pixels(
                            ctx,
                            palette,
                            sprite_x,
                            x_flip,
                            bg_over_obj,
                            byte1,
                            byte2,
                            x_offset as int,
                            self.frame_buffer@.subrange(line_start as int, line_start + 160),
                            drawn_pixels@,
                        ) == spec_sprite_pixels(
                            ctx,
                            palette,
                            sprite_x,
                            x_flip,
                            bg_over_obj,
                            byte1,
                            byte2,
                            0,
                            row_at,
                            drawn_at,
                        ),
                    decreases 8 - x_offset,
                {
                    let ghost row_px = self.frame_buffer@.subrange(
                        line_start as int,
                        line_start + 160,
                    );
                    let ghost drawn_px = drawn_pixels@;
                    let screen_x = sprite_x.wrapping_add(x_offset);
                    if screen_x < 160 && !drawn_pixels[screen_x as usize] {
                        let color_bit_pos: u8 = if x_flip {
                            x_offset
                        } else {
                            7 - x_offset
                        };
                        let b1 = (byte1 >> color_bit_pos) & 1;
                        let b2 = (byte2 >> color_bit_pos) & 1;
                        proof {
                            crate::bits::lemma_u8_and_le(byte1 >> color_bit_pos, 1);
                            crate::bits::lemma_u8_and_le(byte2 >> color_bit_pos, 1);
                            crate::bits::lemma_color_id_bound(b1, b2);
                        }
                        let color_id = (b2 << 1) | b1;
                        if color_id != 0 && !(bg_over_obj && bg_pixel_color_ids[screen_x
                            as usize] != 0) {
                            let shade_index = (palette >> (color_id * 2)) & 0x03;
                            proof {
                                crate::bits::lemma_u8_and_le(
                                    palette >> ((color_id * 2) as u8),
                                    0x03,
                                );
                            }
                            let color = self.colors[shade_index as usize];
                            self.frame_buffer.set(line_start + screen_x as usize, color);
                            drawn_pixels.set(screen_x as usize, true);
                            proof {
                                assert(self.frame_buffer@.subrange(
                                    line_start as int,
                                    line_start + 160,
                                ) =~= row_px.update(screen_x as int, color));
                            }
                        }
                    }
                    proof {
                        assert((self.frame_buffer@.subrange(
                            line_start as int,
                            line_start + 160,
                        ), drawn_pixels@) == spec_sprite_pixel(
                            ctx,
                            palette,
                            sprite_x,
                            x_flip,
                            bg_over_obj,
                            byte1,
                            byte2,
                            x_offset,
                            row_px,
                            drawn_px,
                        ));
                    }
                    x_offset = x_offset + 1;
                }
            }
            proof {
                let base = sprite.0 as int;
                assert(sprite_y_pos_raw == ctx.oam[base]);
                assert(tile_index == ctx.oam[base + 2]);
                assert(attributes == ctx.oam[base + 3]);
                assert(spec_draw_sprite(ctx, sprite, row_at, drawn_at) == (
                self.frame_buffer@.subrange(line_start as int, line_start + 160),
                drawn_pixels@,
                ));
                reveal_with_fuel(spec_draw_sprites, 2);
                assert(0 <= (si as int) && (si as int) < self.scanline_sprites@.len());
                assert(spec_draw_sprite(ctx, self.scanline_sprites@[si as int], row_at, drawn_at).0
                    == self.frame_buffer@.subrange(line_start as int, line_start + 160));
                assert(spec_draw_sprite(ctx, self.scanline_sprites@[si as int], row_at, drawn_at).1
                    == drawn_pixels@);
                assert(spec_draw_sprites(
                    ctx,
                    self.scanline_sprites@,
                    si as int,
                    row_at,
                    drawn_at,
                ) == spec_draw_sprites(
                    ctx,
                    self.scanline_sprites@,
                    si as int + 1,
                    self.frame_buffer@.subrange(line_start as int, line_start + 160),
                    drawn_pixels@,
                ));
            }
            si = si + 1;
        }
        proof {
            assert(spec_draw_sprites(
                ctx,
                self.scanline_sprites@,
                sprite_count as int,
                self.frame_buffer@.subrange(line_start as int, line_start + 160),
                drawn_pixels@,
            ) == (self.frame_buffer@.subrange(line_start as int, line_start + 160),
            drawn_pixels@));
        }
    }

    /// Render the current scanline: the row becomes the background pixels
    /// (each column the BGP shade of its tile-fetched color id) with the
    /// selected sprites drawn over them when sprites are enabled; rows other
    /// than the current one are untouched, and lines past the visible 144
    /// render nothing.
    pub fn render_scanline(&mut self)
        requires
            old(self).wf_static(),
        ensures
            final(self).wf_static(),
            final(self).scanline_sprites@.len() == old(self).scanline_sprites@.len(),
            old(self).ly >= 144 ==> *final(self) == *old(self),
            forall|i: int|
                0 <= i < 23040 && !(old(self).ly * 160 <= i < old(self).ly * 160 + 160)
                    ==> final(self).frame_buffer@[i] == old(self).frame_buffer@[i],
            old(self).ly < 144 ==> ({
                let ids = Seq::new(160, |x: int| spec_bg_color_id(*old(self), x as u8));
                let bg_row = Seq::new(
                    160,
                    |x: int|
                        old(self).colors@[spec_shade(
                            old(self).bgp,
                            spec_bg_color_id(*old(self), x as u8),
                        ) as int],
                );
                if old(self).spec_sprites_enabled() {
                    let row2 = spec_draw_sprites(
                        spec_sprite_input(*old(self), ids),
                        final(self).scanline_sprites@,
                        0,
                        bg_row,
                        Seq::new(160, |i: int| false),
                    ).0;
                    forall|x: int|
                        0 <= x < 160 ==> final(self).frame_buffer@[old(self).ly * 160 + x]
                            == row2[x]
                } else {
                    forall|x: int|
                        0 <= x < 160 ==> final(self).frame_buffer@[old(self).ly * 160 + x]
                            == bg_row[x]
                }
            }),
            *final(self) == (Ppu {
                frame_buffer: final(self).frame_buffer,
                scanline_sprites: final(self).scanline_sprites,
                ..*old(self)
            }),
    {
        if self.ly >= 144 {
            return ;
        }
        let ghost ids = Seq::new(160, |x: int| spec_bg_color_id(*old(self), x as u8));
        let ghost bg_row = Seq::new(
            160,
            |x: int|
                old(self).colors@[spec_shade(
                    old(self).bgp,
                    spec_bg_color_id(*old(self), x as u8),
                ) as int],
        );
        let mut bg_pixel_color_ids: Vec<u8> = vec![0u8; 160];
        self.render_background_and_window(&mut bg_pixel_color_ids);
        let ghost line_start = old(self).ly * 160;
        proof {
            assert(bg_pixel_color_ids@ =~= ids);
            assert(self.frame_buffer@.subrange(line_start, line_start + 160) =~= bg_row);
        }
        if self.is_sprites_enabled() {
            let ghost mid = *self;
            self.render_sprites(&bg_pixel_color_ids);
            proof {
                assert(spec_sprite_input(mid, bg_pixel_color_ids@) =~= spec_sprite_input(
                    *old(self),
                    ids,
                ));
                assert(mid.frame_buffer@.subrange(mid.ly * 160, mid.ly * 160 + 160) == bg_row);
            }
        }
    }

    /// Advance the PPU by the T-cycles one CPU step consumed.  Returns
    /// whether the VBlank interrupt and whether an LCD-STAT interrupt must be
    /// requested.
    ///
    /// With the LCD enabled the position within the 70224-cycle frame
    /// advances by exactly `cycles` (wrapping at the frame's end), which
    /// makes every line exactly 456 cycles and the mode cycle
    /// OamScan, Drawing, HBlank, then OamScan or VBlank.  `frame_ready` is
    /// raised exactly when the position crosses the start of the vertical
    /// blank, together with the VBlank interrupt.
    pub fn step(&mut self, cycles: u8) -> (r: (bool, bool))
        requires
            old(self).wf(),
        ensures
            final(self).wf(),
            *final(self) == (Ppu {
                stat: final(self).stat,
                ly: final(self).ly,
                current_mode: final(self).current_mode,
                cycles_in_current_mode: final(self).cycles_in_current_mode,
                frame_buffer: final(self).frame_buffer,
                frame_ready: final(self).frame_ready,
                scanline_sprites: final(self).scanline_sprites,
                ..*old(self)
            }),
            !old(self).spec_lcd_enabled() ==> {
                &&& final(self).ly == 0
                &&& final(self).current_mode == PpuMode::HBlank
                &&& final(self).cycles_in_current_mode == 0
                &&& final(self).stat == (old(self).stat & 0xFC)
                &&& final(self).frame_buffer@ == old(self).frame_buffer@
                &&& final(self).frame_ready == old(self).frame_ready
                &&& r == (false, false)
            },
            old(self).spec_lcd_enabled() ==> {
                &&& spec_frame_pos(*final(self)) == (spec_frame_pos(*old(self)) + cycles)
                    % 70224
                &&& final(self).frame_ready == (old(self).frame_ready || (spec_frame_pos(
                    *old(self),
                ) < 65664 && spec_frame_pos(*old(self)) + cycles >= 65664))
                &&& r.0 == (spec_frame_pos(*old(self)) < 65664 && spec_frame_pos(*old(self))
                    + cycles >= 65664)
                &&& (r.1 ==> old(self).stat & 0x78 != 0)
                &&& final(self).stat & 0xF8 == old(self).stat & 0xF8
            },
    {
        if !self.is_lcd_enabled() {
            self.cycles_in_current_mode = 0;
            self.ly = 0;
            self.stat = self.stat & 0xFC;
            self.current_mode = PpuMode::HBlank;
            return (false, false);
        }
        let ghost p0 = *old(self);
        let ghost pos0 = spec_frame_pos(p0);
        proof {
            assert(pos0 < 70224);
            assert(p0.current_mode != PpuMode::VBlank ==> pos0 <= 65663);
        }
        self.cycles_in_current_mode = self.cycles_in_current_mode + cycles as u32;
        let mut vblank_irq = false;
        let mut stat_irq = false;
        let ghost mut wrapped: bool = false;
        while self.cycles_in_current_mode >= mode_threshold_cycles(self.current_mode)
            invariant
                old(self).wf(),
                old(self).spec_lcd_enabled(),
                pos0 == spec_frame_pos(p0),
                p0 == *old(self),
                self.wf_static(),
                self.current_mode == PpuMode::VBlank ==> 144 <= self.ly <= 153,
                self.current_mode != PpuMode::VBlank ==> self.ly <= 143,
                *self == (Ppu {
                    stat: self.stat,
                    ly: self.ly,
                    current_mode: self.current_mode,
                    cycles_in_current_mode: self.cycles_in_current_mode,
                    frame_buffer: self.frame_buffer,
                    frame_ready: self.frame_ready,
                    scanline_sprites: self.scanline_sprites,
                    ..*old(self)
                }),
                spec_frame_pos(*self) == pos0 + cycles - (if wrapped {
                    70224int
                } else {
                    0int
                }),
                wrapped ==> spec_frame_pos(*self) < 70224,
                !wrapped && self.current_mode != PpuMode::VBlank ==> pos0 < 65664,
                vblank_irq == (pos0 < 65664 && (wrapped || self.current_mode
                    == PpuMode::VBlank)),
                self.frame_ready == (p0.frame_ready || vblank_irq),
                stat_irq ==> p0.stat & 0x78 != 0,
                self.stat & 0xF8 == p0.stat & 0xF8,
            decreases self.cycles_in_current_mode,
        {
            match self.current_mode {
                PpuMode::OamScan => {
                    self.cycles_in_current_mode = self.cycles_in_current_mode - 80;
                    let ghost pre_stat = self.stat;
                    let irq = self.change_mode(PpuMode::Drawing);
                    proof {
                        crate::bits::lemma_stat_sources(pre_stat, p0.stat);
                    }
                    if irq == PpuInterruptType::LcdStat {
                        stat_irq = true;
                    }
                },
                PpuMode::Drawing => {
                    self.cycles_in_current_mode = self.cycles_in_current_mode - 172;
                    self.render_scanline();
                    let ghost pre_stat = self.stat;
                    let irq = self.change_mode(PpuMode::HBlank);
                    proof {
                        crate::bits::lemma_stat_sources(pre_stat, p0.stat);
                    }
                    if irq == PpuInterruptType::LcdStat {
                        stat_irq = true;
                    }
                },
                PpuMode::HBlank => {
                    self.cycles_in_current_mode = self.cycles_in_current_mode - 204;
                    self.ly = self.ly + 1;
                    proof {
                        crate::bits::lemma_stat_sources(self.stat, p0.stat);
                        crate::bits::lemma_stat_coincidence_bit(self.stat);
                    }
                    if self.check_lyc_coincidence() {
                        stat_irq = true;
                    }
                    if self.ly == 144 {
                        self.frame_ready = true;
                        vblank_irq = true;
                        let ghost pre_stat = self.stat;
                        let irq = self.change_mode(PpuMode::VBlank);
                        proof {
                            crate::bits::lemma_stat_sources(pre_stat, p0.stat);
                        }
                        if irq == PpuInterruptType::LcdStat {
                            stat_irq = true;
                        }
                    } else {
                        let ghost pre_stat = self.stat;
                        let irq = self.change_mode(PpuMode::OamScan);
                        proof {
                            crate::bits::lemma_stat_sources(pre_stat, p0.stat);
                        }
                        let irq2 = irq;
                        if irq2 == PpuInterruptType::LcdStat {
                            stat_irq = true;
                        }
                    }
                },
                PpuMode::VBlank => {
                    self.cycles_in_current_mode = self.cycles_in_current_mode - 456;
                    self.ly = self.ly + 1;
                    if self.ly > 153 {
                        self.ly = 0;
                        proof {
                            wrapped = true;
                        }
                        let ghost pre_stat = self.stat;
                        let irq = self.change_mode(PpuMode::OamScan);
                        proof {
                            crate::bits::lemma_stat_sources(pre_stat, p0.stat);
                        }
                        if irq == PpuInterruptType::LcdStat {
                            stat_irq = true;
                        }
                    }
                    proof {
                        crate::bits::lemma_stat_sources(self.stat, p0.stat);
                        crate::bits::lemma_stat_coincidence_bit(self.stat);
                    }
                    if self.check_lyc_coincidence() {
                        stat_irq = true;
                    }
                },
            }
        }
        proof {
            if wrapped {
                assert(spec_frame_pos(*self) == (pos0 + cycles) % 70224) by {
                    assert(70224 <= pos0 + cycles < 2 * 70224);
                };
                assert(pos0 + cycles >= 65664);
            } else {
                assert(spec_frame_pos(*self) == pos0 + cycles);
                assert(spec_frame_pos(*self) < 70224);
                assert(spec_frame_pos(*self) == (pos0 + cycles) % 70224);
                if self.current_mode == PpuMode::VBlank {
                    assert(spec_frame_pos(*self) >= 65664);
                } else {
                    assert(spec_frame_pos(*self) <= 65663);
                }
            }
        }
        (vblank_irq, stat_irq)
    }
}

/// T-cycles the given mode lasts before its transition fires.
fn mode_threshold_cycles(m: PpuMode) -> (r: u32)
    ensures
        r == spec_mode_threshold(m),
{
    match m {
        PpuMode::OamScan => 80,
        PpuMode::Drawing => 172,
        PpuMode::HBlank => 204,
        PpuMode::VBlank => 456,
    }
}


/// Every scanline is exactly 456 T-cycles - the OAM-scan, drawing and
/// horizontal-blank thresholds in sequence - and a full frame is 154 such
/// lines, 70224 T-cycles; a well-formed PPU always sits inside one frame,
/// in the vertical blank exactly from position 65664 on.  Together with
/// `step`'s postcondition (the frame position advances by exactly the
/// T-cycles consumed, wrapping at 70224) this pins the mode cycle.
pub proof fn lemma_line_and_frame_lengths(p: Ppu)
    requires
        p.wf(),
    ensures
        spec_mode_threshold(PpuMode::OamScan) + spec_mode_threshold(PpuMode::Drawing)
            + spec_mode_threshold(PpuMode::VBlank) == 2 * 456 - 204,
        spec_mode_threshold(PpuMode::OamScan) + spec_mode_threshold(PpuMode::Drawing)
            + spec_mode_threshold(PpuMode::HBlank) == 456,
        154 * 456 == 70224,
        0 <= spec_frame_pos(p) < 70224,
        p.current_mode == PpuMode::VBlank <==> spec_frame_pos(p) >= 144 * 456,
{
}

} // verus!
