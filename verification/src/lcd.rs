//! The LCD controller model: the mode state machine (OAM scan, pixel
//! transfer, horizontal and vertical blank), the display registers, and an
//! RGB framebuffer that background rendering fills scanline by scanline.

use vstd::prelude::*;

verus! {

/// The controller's mode within a scanline or blank period.
#[derive(Debug, Clone, PartialEq, Eq, Structural)]
pub enum LCDMode {
    HBlank,
    VBlank,
    OAM,
    Transfer,
}

/// The LCD controller and its framebuffer (RGB, one byte per channel).
#[derive(Debug)]
pub struct LCD {
    pub width: u16,
    pub height: u16,
    pub mode: LCDMode,
    pub mode_clock: u32,
    pub line: u8,
    pub scanline: u8,
    pub lcd_enabled: bool,
    pub window_tile_map: u16,
    pub window_enabled: bool,
    pub bg_window_tile_data: u16,
    pub bg_tile_map: u16,
    pub sprite_size: u8,
    pub sprite_enabled: bool,
    pub bg_enabled: bool,
    pub scroll_x: u8,
    pub scroll_y: u8,
    pub window_x: u8,
    pub window_y: u8,
    pub lcdc: u8,
    pub stat: u8,
    pub scy: u8,
    pub scx: u8,
    pub ly: u8,
    pub lyc: u8,
    pub dma: u8,
    pub bgp: u8,
    pub obp0: u8,
    pub obp1: u8,
    pub wy: u8,
    pub wx: u8,
    pub framebuffer: Vec<u8>,
}

/// The (mode, mode_clock, line) triple one `update` call moves the enabled
/// controller to: each mode runs for its fixed cycle budget, lines advance
/// in the horizontal blank, line 144 opens the vertical blank, and the frame
/// wraps after line 153.
pub open spec fn spec_lcd_advance(mode: LCDMode, clock: int, line: int) -> (LCDMode, int, int) {
    match mode {
        LCDMode::HBlank => {
            if clock >= 204 {
                if line + 1 == 144 {
                    (LCDMode::VBlank, 0, line + 1)
                } else {
                    (LCDMode::OAM, 0, line + 1)
                }
            } else {
                (LCDMode::HBlank, clock, line)
            }
        },
        LCDMode::VBlank => {
            if clock >= 456 {
                if line + 1 > 153 {
                    (LCDMode::OAM, 0, 0)
                } else {
                    (LCDMode::VBlank, 0, line + 1)
                }
            } else {
                (LCDMode::VBlank, clock, line)
            }
        },
        LCDMode::OAM => {
            if clock >= 80 {
                (LCDMode::Transfer, 0, line)
            } else {
                (LCDMode::OAM, clock, line)
            }
        },
        LCDMode::Transfer => {
            if clock >= 172 {
                (LCDMode::HBlank, 0, line)
            } else {
                (LCDMode::Transfer, clock, line)
            }
        },
    }
}

impl LCD {
    /// A controller at power-on: 160x144, horizontal blank, an all-black
    /// framebuffer.
    pub fn new() -> (r: LCD)
        ensures
            r.width == 160,
            r.height == 144,
            r.mode == LCDMode::HBlank,
            r.mode_clock == 0,
            r.line == 0,
            r.scanline == 0,
            r.lcd_enabled,
            r.framebuffer@.len() == 160 * 144 * 3,
            forall|i: int| 0 <= i < r.framebuffer@.len() ==> r.framebuffer@[i] == 0,
    {
        let framebuffer: Vec<u8> = vec![0u8; 160 * 144 * 3];
        LCD {
            width: 160,
            height: 144,
            mode: LCDMode::HBlank,
            mode_clock: 0,
            line: 0,
            scanline: 0,
            lcd_enabled: true,
            window_tile_map: 0x9800,
            window_enabled: false,
            bg_window_tile_data: 0x8000,
            bg_tile_map: 0x9800,
            sprite_size: 8,
            sprite_enabled: true,
            bg_enabled: true,
            scroll_x: 0,
            scroll_y: 0,
            window_x: 0,
            window_y: 0,
            lcdc: 0x91,
            stat: 0x00,
            scy: 0x00,
            scx: 0x00,
            ly: 0x00,
            lyc: 0x00,
            dma: 0x00,
            bgp: 0xFC,
            obp0: 0xFF,
            obp1: 0xFF,
            wy: 0x00,
            wx: 0x00,
            framebuffer,
        }
    }

    /// Advances the controller by a cycle count. A disabled controller
    /// stands still. An enabled one accumulates the cycles and moves through
    /// the mode machine as `spec_lcd_advance` says; the scanline rendered at
    /// the end of a transfer only repaints the framebuffer, never the
    /// registers.
    pub fn update(&mut self, cycles: u32)
        ensures
            !old(self).lcd_enabled ==> *final(self) == *old(self),
            old(self).lcd_enabled ==> ({
                let accumulated: int = if old(self).mode_clock + cycles > u32::MAX {
                    u32::MAX as int
                } else {
                    old(self).mode_clock + cycles
                };
                let next = spec_lcd_advance(old(self).mode, accumulated, old(self).line as int);
                &&& final(self).mode == next.0
                &&& final(self).mode_clock == next.1
                &&& final(self).line == if next.2 > 255 {
                    0
                } else {
                    next.2
                }
                &&& final(self).framebuffer@.len() == old(self).framebuffer@.len()
                &&& *final(self) == (LCD {
                    mode: final(self).mode,
                    mode_clock: final(self).mode_clock,
                    line: final(self).line,
                    framebuffer: final(self).framebuffer,
                    ..*old(self)
                })
            }),
    {
        if !self.lcd_enabled {
            return ;
        }
        self.mode_clock = if self.mode_clock > u32::MAX - cycles {
            u32::MAX
        } else {
            self.mode_clock + cycles
        };
        match self.mode {
            LCDMode::HBlank => {
                if self.mode_clock >= 204 {
                    self.mode_clock = 0;
                    if self.line == 143 {
                        self.line = 144;
                        self.mode = LCDMode::VBlank;
                    } else {
                        self.line = if self.line == 255 {
                            0
                        } else {
                            self.line + 1
                        };
                        self.mode = LCDMode::OAM;
                    }
                }
            },
            LCDMode::VBlank => {
                if self.mode_clock >= 456 {
                    self.mode_clock = 0;
                    if self.line >= 153 {
                        self.line = 0;
                        self.mode = LCDMode::OAM;
                    } else {
                        self.line = self.line + 1;
                    }
                }
            },
            LCDMode::OAM => {
                if self.mode_clock >= 80 {
                    self.mode_clock = 0;
                    self.mode = LCDMode::Transfer;
                }
            },
            LCDMode::Transfer => {
                if self.mode_clock >= 172 {
                    self.mode_clock = 0;
                    self.mode = LCDMode::HBlank;
                    self.render_scanline();
                }
            },
        }
    }

    /// Paints the current scanline: the background layer when it is
    /// enabled, then sprites. Only the framebuffer changes.
    fn render_scanline(&mut self)
        ensures
            final(self).framebuffer@.len() == old(self).framebuffer@.len(),
            *final(self) == (LCD { framebuffer: final(self).framebuffer, ..*old(self) }),
    {
        if self.bg_enabled {
            self.render_background();
        }
        if self.sprite_enabled {
            self.render_sprites();
        }
    }

    /// Paints the background pixels of the current line from the tile data;
    /// a pixel whose slot would fall outside the framebuffer is skipped.
    fn render_background(&mut self)
        ensures
            final(self).framebuffer@.len() == old(self).framebuffer@.len(),
            *final(self) == (LCD { framebuffer: final(self).framebuffer, ..*old(self) }),
    {
        let y = self.line as u16;
        let mut x: u16 = 0;
        while x < self.width
            invariant
                y <= 255,
                self.framebuffer@.len() == old(self).framebuffer@.len(),
                *self == (LCD { framebuffer: self.framebuffer, ..*old(self) }),
            decreases self.width - x,
        {
            let tile_x = (x as u32 + self.scroll_x as u32) / 8;
            let pixel_x = (x as u32 + self.scroll_x as u32) % 8;
            let tile_y = (y as u32 + self.scroll_y as u32) / 8;
            let pixel_y = (y as u32 + self.scroll_y as u32) % 8;
            let tile_index = self.get_tile_index(tile_x, tile_y);
            let pixel_color = self.get_tile_pixel(tile_index, pixel_x, pixel_y);
            proof {
                let yi = y as int;
                let wi = self.width as int;
                assert(yi * wi <= 255 * 65535) by (nonlinear_arith)
                    requires
                        0 <= yi <= 255,
                        0 <= wi <= 65535,
                ;
            }
            let index = (y as usize * self.width as usize + x as usize) * 3;
            let color = self.get_color(pixel_color);
            if index + 2 < self.framebuffer.len() {
                self.framebuffer[index] = color.0;
                self.framebuffer[index + 1] = color.1;
                self.framebuffer[index + 2] = color.2;
            }
            x = x + 1;
        }
    }

    /// Sprite painting; the sprite path contributes nothing yet.
    fn render_sprites(&mut self)
        ensures
            *final(self) == *old(self),
    {
    }

    /// The index of the background tile covering a tile coordinate; tile
    /// data does not live in the controller, so the lookup yields zero.
    fn get_tile_index(&self, _tile_x: u32, _tile_y: u32) -> (r: u8)
        ensures
            r == 0,
    {
        0
    }

    /// The palette index of one pixel of a tile; zero for the same reason.
    fn get_tile_pixel(&self, _tile_index: u8, _pixel_x: u32, _pixel_y: u32) -> (r: u8)
        ensures
            r == 0,
    {
        0
    }

    /// The RGB triple of a palette index: white, light grey, dark grey and
    /// black, in that order; anything else is black.
    fn get_color(&self, color_index: u8) -> (r: (u8, u8, u8))
        ensures
            color_index == 0 ==> r == (255u8, 255u8, 255u8),
            color_index == 1 ==> r == (192u8, 192u8, 192u8),
            color_index == 2 ==> r == (96u8, 96u8, 96u8),
            color_index >= 3 ==> r == (0u8, 0u8, 0u8),
    {
        match color_index {
            0 => (255, 255, 255),
            1 => (192, 192, 192),
            2 => (96, 96, 96),
            _ => (0, 0, 0),
        }
    }

    /// The framebuffer, read-only: RGB bytes, row by row.
    pub fn get_framebuffer(&self) -> (r: &[u8])
        ensures
            r@ == self.framebuffer@,
    {
        self.framebuffer.as_slice()
    }

    /// Back to the horizontal blank at line zero with a black framebuffer;
    /// the display registers keep their values.
    pub fn reset(&mut self)
        ensures
            final(self).mode == LCDMode::HBlank,
            final(self).mode_clock == 0,
            final(self).line == 0,
            final(self).scanline == 0,
            final(self).framebuffer@.len() == old(self).framebuffer@.len(),
            forall|i: int|
                0 <= i < final(self).framebuffer@.len() ==> final(self).framebuffer@[i] == 0,
            *final(self) == (LCD {
                mode: LCDMode::HBlank,
                mode_clock: 0,
                line: 0,
                scanline: 0,
                framebuffer: final(self).framebuffer,
                ..*old(self)
            }),
    {
        self.mode = LCDMode::HBlank;
        self.mode_clock = 0;
        self.line = 0;
        self.scanline = 0;
        let len = self.framebuffer.len();
        let mut i: usize = 0;
        while i < len
            invariant
                len == self.framebuffer@.len(),
                i <= len,
                forall|j: int| 0 <= j < i ==> self.framebuffer@[j] == 0,
                *self == (LCD {
                    mode: LCDMode::HBlank,
                    mode_clock: 0,
                    line: 0,
                    scanline: 0,
                    framebuffer: self.framebuffer,
                    ..*old(self)
                }),
            decreases len - i,
        {
            self.framebuffer[i] = 0;
            i = i + 1;
        }
    }
}

impl Default for LCD {
    fn default() -> (r: LCD)
        ensures
            r.width == 160,
            r.height == 144,
            r.mode == LCDMode::HBlank,
    {
        LCD::new()
    }
}

} // verus!
