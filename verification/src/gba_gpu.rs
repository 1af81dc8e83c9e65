//! The 32-bit system's display unit: mode registers, background state,
//! sprite attributes, and per-scanline rendering against the memory map.

use vstd::prelude::*;

use crate::gba::GBAMemory;

verus! {

/// Rendering counters.
#[derive(Debug, Clone, Copy, PartialEq, Eq, Structural)]
pub struct GPUStats {
    pub frames_rendered: u32,
    pub pixels_drawn: u64,
    pub sprites_rendered: u64,
    pub backgrounds_rendered: u64,
    pub vblank_count: u32,
    pub hblank_count: u32,
}

impl Default for GPUStats {
    /// All counters start at zero.
    fn default() -> (r: GPUStats)
        ensures
            r == (GPUStats {
                frames_rendered: 0,
                pixels_drawn: 0,
                sprites_rendered: 0,
                backgrounds_rendered: 0,
                vblank_count: 0,
                hblank_count: 0,
            }),
    {
        GPUStats {
            frames_rendered: 0,
            pixels_drawn: 0,
            sprites_rendered: 0,
            backgrounds_rendered: 0,
            vblank_count: 0,
            hblank_count: 0,
        }
    }
}

/// The display modes the control register can select.
#[derive(Debug, Clone, Copy, PartialEq, Eq, Structural)]
pub enum DisplayMode {
    Mode0,
    Mode1,
    Mode2,
    Mode3,
    Mode4,
    Mode5,
}

/// What kind of layer a background index renders as.
#[derive(Debug, Clone, Copy, PartialEq, Eq, Structural)]
pub enum BackgroundType {
    Text,
    Affine,
    Bitmap,
    Disabled,
}

/// One sprite's four attribute words.
#[derive(Debug, Clone, Copy, PartialEq, Eq, Structural)]
pub struct SpriteAttribute {
    pub attr0: u16,
    pub attr1: u16,
    pub attr2: u16,
    pub attr3: u16,
}

/// A palette entry as channels.
#[derive(Debug, Clone, Copy, PartialEq, Eq, Structural)]
pub struct PaletteColor {
    pub r: u8,
    pub g: u8,
    pub b: u8,
    pub a: u8,
}

/// The display mode a control-register value selects; the three spare
/// encodings fall back to the first mode.
pub open spec fn spec_display_mode(dispcnt: u16) -> DisplayMode {
    let bits = dispcnt & 0x7;
    if bits == 1 {
        DisplayMode::Mode1
    } else if bits == 2 {
        DisplayMode::Mode2
    } else if bits == 3 {
        DisplayMode::Mode3
    } else if bits == 4 {
        DisplayMode::Mode4
    } else if bits == 5 {
        DisplayMode::Mode5
    } else {
        DisplayMode::Mode0
    }
}

/// How many text backgrounds a mode drives.
pub open spec fn spec_background_enabled(dispcnt: u16, bg: int) -> bool {
    if bg >= 4 || bg < 0 {
        false
    } else {
        match spec_display_mode(dispcnt) {
            DisplayMode::Mode0 => bg < 4,
            DisplayMode::Mode1 => bg < 3,
            DisplayMode::Mode2 => bg < 2,
            DisplayMode::Mode3 => false,
            DisplayMode::Mode4 => false,
            DisplayMode::Mode5 => false,
        }
    }
}

/// The layer kind of a background index under a control-register value.
pub open spec fn spec_background_type(dispcnt: u16, bg: int) -> BackgroundType {
    if bg >= 4 || bg < 0 {
        BackgroundType::Disabled
    } else {
        match spec_display_mode(dispcnt) {
            DisplayMode::Mode0 => BackgroundType::Text,
            DisplayMode::Mode1 => BackgroundType::Text,
            DisplayMode::Mode2 => BackgroundType::Text,
            DisplayMode::Mode3 => BackgroundType::Bitmap,
            DisplayMode::Mode4 => BackgroundType::Bitmap,
            DisplayMode::Mode5 => BackgroundType::Bitmap,
        }
    }
}

/// The display unit.
#[derive(Debug)]
pub struct GBAGPU {
    dispcnt: u16,
    green_swap: u16,
    dispstat: u16,
    vcount: u16,
    bgcnt: Vec<u16>,
    bgofs: Vec<u16>,
    oam: Vec<u16>,
    palette: Vec<u16>,
    vram: Vec<u8>,
    current_scanline: u16,
    frame_count: u32,
    stats: GPUStats,
}

impl GBAGPU {
    #[verifier::type_invariant]
    spec fn type_inv(self) -> bool {
        &&& self.bgcnt@.len() == 4
        &&& self.bgofs@.len() == 4
        &&& self.oam@.len() == 0x200
        &&& self.palette@.len() == 0x200
        &&& self.vram@.len() == 0x18000
    }

    /// The display control register.
    pub closed spec fn spec_dispcnt(&self) -> u16 {
        self.dispcnt
    }

    /// The current scanline.
    pub closed spec fn spec_scanline(&self) -> u16 {
        self.current_scanline
    }

    /// Frames completed so far.
    pub closed spec fn spec_frames(&self) -> u32 {
        self.frame_count
    }

    /// The rendering counters.
    pub closed spec fn spec_stats(&self) -> GPUStats {
        self.stats
    }

    /// A display unit at power-on: every register zero, scanline zero.
    pub fn new() -> (r: GBAGPU)
        ensures
            r.spec_dispcnt() == 0,
            r.spec_scanline() == 0,
            r.spec_frames() == 0,
            r.spec_stats() == (GPUStats {
                frames_rendered: 0,
                pixels_drawn: 0,
                sprites_rendered: 0,
                backgrounds_rendered: 0,
                vblank_count: 0,
                hblank_count: 0,
            }),
    {
        GBAGPU {
            dispcnt: 0,
            green_swap: 0,
            dispstat: 0,
            vcount: 0,
            bgcnt: vec![0u16; 4],
            bgofs: vec![0u16; 4],
            oam: vec![0u16; 0x200],
            palette: vec![0u16; 0x200],
            vram: vec![0u8; 0x18000],
            current_scanline: 0,
            frame_count: 0,
            stats: GPUStats::default(),
        }
    }

    /// Back to the power-on state.
    pub fn reset(&mut self)
        ensures
            final(self).spec_dispcnt() == 0,
            final(self).spec_scanline() == 0,
            final(self).spec_frames() == 0,
            final(self).spec_stats().frames_rendered == 0,
    {
        *self = GBAGPU::new();
    }

    /// Sets the display control register.
    pub fn set_dispcnt(&mut self, value: u16)
        ensures
            final(self).spec_dispcnt() == value,
            final(self).spec_scanline() == old(self).spec_scanline(),
            final(self).spec_frames() == old(self).spec_frames(),
            final(self).spec_stats() == old(self).spec_stats(),
    {
        proof {
            use_type_invariant(&*self);
        }
        self.dispcnt = value;
    }

    /// The mode the control register selects.
    pub fn get_display_mode(&self) -> (r: DisplayMode)
        ensures
            r == spec_display_mode(self.spec_dispcnt()),
    {
        let bits = self.dispcnt & 0x7;
        if bits == 1 {
            DisplayMode::Mode1
        } else if bits == 2 {
            DisplayMode::Mode2
        } else if bits == 3 {
            DisplayMode::Mode3
        } else if bits == 4 {
            DisplayMode::Mode4
        } else if bits == 5 {
            DisplayMode::Mode5
        } else {
            DisplayMode::Mode0
        }
    }

    /// Whether a background index is driven in the current mode.
    pub fn is_background_enabled(&self, bg: usize) -> (r: bool)
        ensures
            r == spec_background_enabled(self.spec_dispcnt(), bg as int),
    {
        if bg >= 4 {
            return false;
        }
        match self.get_display_mode() {
            DisplayMode::Mode0 => bg < 4,
            DisplayMode::Mode1 => bg < 3,
            DisplayMode::Mode2 => bg < 2,
            DisplayMode::Mode3 => false,
            DisplayMode::Mode4 => false,
            DisplayMode::Mode5 => false,
        }
    }

    /// The layer kind of a background index in the current mode.
    pub fn get_background_type(&self, bg: usize) -> (r: BackgroundType)
        ensures
            r == spec_background_type(self.spec_dispcnt(), bg as int),
    {
        if bg >= 4 {
            return BackgroundType::Disabled;
        }
        match self.get_display_mode() {
            DisplayMode::Mode0 => BackgroundType::Text,
            DisplayMode::Mode1 => BackgroundType::Text,
            DisplayMode::Mode2 => BackgroundType::Text,
            DisplayMode::Mode3 => BackgroundType::Bitmap,
            DisplayMode::Mode4 => BackgroundType::Bitmap,
            DisplayMode::Mode5 => BackgroundType::Bitmap,
        }
    }

    /// Renders the current scanline: every enabled background layer, then
    /// the sprites; books the pixels drawn.
    pub fn render_scanline(&mut self, memory: &mut GBAMemory) -> (r: Result<
        (),
        crate::error::MemoryError,
    >)
        ensures
            r is Ok,
            final(self).spec_dispcnt() == old(self).spec_dispcnt(),
            final(self).spec_scanline() == old(self).spec_scanline(),
            final(self).spec_frames() == old(self).spec_frames(),
            final(self).spec_stats().pixels_drawn == crate::optimizer::sat_add64(
                old(self).spec_stats().pixels_drawn,
                240,
            ),
            final(self).spec_stats().backgrounds_rendered == crate::optimizer::sat_add64(
                old(self).spec_stats().backgrounds_rendered,
                1,
            ),
            final(memory).spec_rom() == old(memory).spec_rom(),
    {
        proof {
            use_type_invariant(&*self);
        }
        let mut scanline_buffer: Vec<u16> = vec![0u16; 240];
        let mut bg: usize = 0;
        while bg < 4
            invariant
                self.type_inv(),
                *self == *old(self),
                scanline_buffer@.len() == 240,
                memory.spec_rom() == old(memory).spec_rom(),
            decreases 4 - bg,
        {
            if self.is_background_enabled(bg) {
                match self.render_background_scanline(bg, &mut scanline_buffer, memory) {
                    Ok(()) => {},
                    Err(e) => {
                        return Err(e);
                    },
                }
            }
            bg = bg + 1;
        }
        match self.render_sprites_scanline(&mut scanline_buffer, memory) {
            Ok(()) => {},
            Err(e) => {
                return Err(e);
            },
        }
        self.stats.pixels_drawn = if self.stats.pixels_drawn > u64::MAX - 240 {
            u64::MAX
        } else {
            self.stats.pixels_drawn + 240
        };
        self.stats.backgrounds_rendered = if self.stats.backgrounds_rendered == u64::MAX {
            u64::MAX
        } else {
            self.stats.backgrounds_rendered + 1
        };
        Ok(())
    }

    /// Renders one background layer of the current scanline into the line
    /// buffer.
    fn render_background_scanline(
        &self,
        bg: usize,
        buffer: &mut Vec<u16>,
        memory: &mut GBAMemory,
    ) -> (r: Result<(), crate::error::MemoryError>)
        requires
            bg < 4,
            old(buffer)@.len() == 240,
        ensures
            r is Ok,
            final(buffer)@.len() == 240,
            final(memory).spec_rom() == old(memory).spec_rom(),
    {
        match self.get_background_type(bg) {
            BackgroundType::Text => self.render_text_background_scanline(bg, buffer, memory),
            BackgroundType::Bitmap => self.render_bitmap_background_scanline(buffer, memory),
            BackgroundType::Affine => Ok(()),
            BackgroundType::Disabled => Ok(()),
        }
    }

    /// Renders one text background layer of the current scanline.
    fn render_text_background_scanline(
        &self,
        bg: usize,
        buffer: &mut Vec<u16>,
        memory: &mut GBAMemory,
    ) -> (r: Result<(), crate::error::MemoryError>)
        requires
            bg < 4,
            old(buffer)@.len() == 240,
        ensures
            r is Ok,
            final(buffer)@.len() == 240,
            final(memory).spec_rom() == old(memory).spec_rom(),
    {
        proof {
            use_type_invariant(self);
        }
        let bgcnt_raw = self.bgcnt[bg];
        let bgofs_raw = self.bgofs[bg];
        let bgofs_x_raw = bgofs_raw;
        let bgofs_x = (bgofs_raw & 0x1FF) as u32;
        let bgofs_y = ((bgofs_raw >> 8) & 0x1FF) as u32;
        let screen_size = (bgcnt_raw >> 14) & 0x3;
        let char_base = ((bgcnt_raw >> 2) & 0xF) as u32;
        let screen_base = ((bgcnt_raw >> 8) & 0x1F) as u32;
        let screen_width: u32 = if screen_size == 1 || screen_size == 3 {
            64
        } else {
            32
        };
        let screen_height: u32 = if screen_size == 2 || screen_size == 3 {
            64
        } else {
            32
        };
        proof {
            let o = bgofs_x;
            let o2 = bgofs_y;
            let c1 = char_base;
            let c2 = screen_base;
            assert(o <= 0x1FF && o2 <= 0x1FF && c1 <= 0xF && c2 <= 0x1F) by (bit_vector)
                requires
                    o == (bgofs_x_raw & 0x1FF) as u32,
                    o2 == ((bgofs_raw >> 8) & 0x1FF) as u32,
                    c1 == ((bgcnt_raw >> 2) & 0xF) as u32,
                    c2 == ((bgcnt_raw >> 8) & 0x1F) as u32,
            ;
        }
        let mut x: usize = 0;
        while x < 240
            invariant
                buffer@.len() == 240,
                screen_width == 32 || screen_width == 64,
                screen_height == 32 || screen_height == 64,
                bgofs_x <= 0x1FF,
                bgofs_y <= 0x1FF,
                char_base <= 0xF,
                screen_base <= 0x1F,
                memory.spec_rom() == old(memory).spec_rom(),
            decreases 240 - x,
        {
            let screen_x = (x as u32 + bgofs_x) % (screen_width * 8);
            let screen_y = (self.current_scanline as u32 + bgofs_y) % (screen_height * 8);
            let tile_x = screen_x / 8;
            let tile_y = screen_y / 8;
            let pixel_x = screen_x % 8;
            let pixel_y = screen_y % 8;
            let screen_addr: u32 = 0x06000000 + screen_base * 0x800 + (tile_y * screen_width
                + tile_x) * 2;
            let tile_data = match memory.read_16(screen_addr) {
                Ok(w) => w,
                Err(e) => {
                    return Err(e);
                },
            };
            let tile_index = (tile_data & 0x3FF) as u32;
            let h_flip = (tile_data >> 10) & 0x1;
            let v_flip = (tile_data >> 11) & 0x1;
            let palette_index = ((tile_data >> 12) & 0xF) as u32;
            let tile_addr: u32 = 0x06000000 + char_base * 0x4000 + tile_index * 32;
            let final_pixel_x = if h_flip != 0 {
                7 - pixel_x
            } else {
                pixel_x
            };
            let final_pixel_y = if v_flip != 0 {
                7 - pixel_y
            } else {
                pixel_y
            };
            let pixel_addr = tile_addr + (final_pixel_y * 4 + final_pixel_x / 2);
            let pixel_data = match memory.read_8(pixel_addr) {
                Ok(b) => b,
                Err(e) => {
                    return Err(e);
                },
            };
            let color_index = if pixel_x % 2 == 0 {
                pixel_data & 0xF
            } else {
                (pixel_data >> 4) & 0xF
            };
            if color_index != 0 {
                let palette_addr: u32 = 0x05000000 + palette_index * 32 + (color_index as u32)
                    * 2;
                let color = match memory.read_16(palette_addr) {
                    Ok(w) => w,
                    Err(e) => {
                        return Err(e);
                    },
                };
                buffer[x] = color;
            }
            x = x + 1;
        }
        Ok(())
    }

    /// Renders one bitmap-mode scanline.
    fn render_bitmap_background_scanline(
        &self,
        buffer: &mut Vec<u16>,
        memory: &mut GBAMemory,
    ) -> (r: Result<(), crate::error::MemoryError>)
        requires
            old(buffer)@.len() == 240,
        ensures
            r is Ok,
            final(buffer)@.len() == 240,
            final(memory).spec_rom() == old(memory).spec_rom(),
    {
        let mode = self.get_display_mode();
        match mode {
            DisplayMode::Mode3 => {
                let mut x: usize = 0;
                while x < 240
                    invariant
                        buffer@.len() == 240,
                        memory.spec_rom() == old(memory).spec_rom(),
                    decreases 240 - x,
                {
                    let pixel_addr: u32 = (0x06000000u64 + (self.current_scanline as u64 * 240
                        + x as u64) * 2) as u32;
                    let color = match memory.read_16(pixel_addr) {
                        Ok(w) => w,
                        Err(e) => {
                            return Err(e);
                        },
                    };
                    buffer[x] = color;
                    x = x + 1;
                }
                Ok(())
            },
            DisplayMode::Mode4 => {
                let mut x: usize = 0;
                while x < 240
                    invariant
                        buffer@.len() == 240,
                        memory.spec_rom() == old(memory).spec_rom(),
                    decreases 240 - x,
                {
                    let pixel_addr: u32 = (0x06000000u64 + self.current_scanline as u64 * 240
                        + x as u64) as u32;
                    let color_index = match memory.read_8(pixel_addr) {
                        Ok(b) => b,
                        Err(e) => {
                            return Err(e);
                        },
                    };
                    if color_index != 0 {
                        let palette_addr: u32 = 0x05000000 + (color_index as u32) * 2;
                        let color = match memory.read_16(palette_addr) {
                            Ok(w) => w,
                            Err(e) => {
                                return Err(e);
                            },
                        };
                        buffer[x] = color;
                    }
                    x = x + 1;
                }
                Ok(())
            },
            DisplayMode::Mode5 => {
                let mut x: usize = 0;
                while x < 160
                    invariant
                        buffer@.len() == 240,
                        x <= 160,
                        memory.spec_rom() == old(memory).spec_rom(),
                    decreases 160 - x,
                {
                    let pixel_addr: u32 = (0x06000000u64 + (self.current_scanline as u64 * 160
                        + x as u64) * 2) as u32;
                    let color = match memory.read_16(pixel_addr) {
                        Ok(w) => w,
                        Err(e) => {
                            return Err(e);
                        },
                    };
                    buffer[x] = color;
                    x = x + 1;
                }
                Ok(())
            },
            _ => Ok(()),
        }
    }

    /// Renders the sprites that touch the current scanline.
    fn render_sprites_scanline(&self, buffer: &mut Vec<u16>, memory: &mut GBAMemory) -> (r:
        Result<(), crate::error::MemoryError>)
        requires
            old(buffer)@.len() == 240,
        ensures
            r is Ok,
            final(buffer)@.len() == 240,
            final(memory).spec_rom() == old(memory).spec_rom(),
    {
        let mut sprite_index: usize = 0;
        while sprite_index < 128
            invariant
                buffer@.len() == 240,
                memory.spec_rom() == old(memory).spec_rom(),
            decreases 128 - sprite_index,
        {
            let sprite = self.get_sprite(sprite_index);
            if self.is_sprite_on_scanline(sprite) {
                match self.render_sprite_scanline(sprite, buffer, memory) {
                    Ok(()) => {},
                    Err(e) => {
                        return Err(e);
                    },
                }
            }
            sprite_index = sprite_index + 1;
        }
        Ok(())
    }

    /// The attribute words of one sprite slot.
    fn get_sprite(&self, index: usize) -> (r: SpriteAttribute)
        requires
            index < 128,
    {
        proof {
            use_type_invariant(self);
        }
        let base_addr = index * 4;
        SpriteAttribute {
            attr0: self.oam[base_addr],
            attr1: self.oam[base_addr + 1],
            attr2: self.oam[base_addr + 2],
            attr3: self.oam[base_addr + 3],
        }
    }

    /// Whether a sprite's rows cover the current scanline.
    fn is_sprite_on_scanline(&self, sprite: SpriteAttribute) -> (r: bool)
        ensures
            r == ({
                let y = sprite.attr0 & 0xFF;
                y <= self.spec_scanline() && self.spec_scanline() < y + spec_sprite_height(sprite)
            }),
    {
        let a0 = sprite.attr0;
        let y = a0 & 0xFF;
        let height = self.get_sprite_height(sprite);
        proof {
            assert(a0 & 0xFF <= 0xFF) by (bit_vector);
        }
        y <= self.current_scanline && (self.current_scanline as u32) < y as u32 + height as u32
    }

    /// A sprite's height in rows, from its size field.
    fn get_sprite_height(&self, sprite: SpriteAttribute) -> (r: u16)
        ensures
            r == spec_sprite_height(sprite),
    {
        let size = (sprite.attr1 >> 14) & 0x3;
        if size == 1 {
            16
        } else if size == 2 {
            32
        } else if size == 3 {
            64
        } else {
            8
        }
    }

    /// Renders the pixels of one sprite row into the line buffer.
    fn render_sprite_scanline(
        &self,
        sprite: SpriteAttribute,
        buffer: &mut Vec<u16>,
        memory: &mut GBAMemory,
    ) -> (r: Result<(), crate::error::MemoryError>)
        requires
            old(buffer)@.len() == 240,
        ensures
            r is Ok,
            final(buffer)@.len() == 240,
            final(memory).spec_rom() == old(memory).spec_rom(),
    {
        let a1 = sprite.attr1;
        let a2 = sprite.attr2;
        let x = (a1 & 0x1FF) as u32;
        let y = sprite.attr0 & 0xFF;
        let tile_index = (a2 & 0x3FF) as u32;
        let palette_index = ((a2 >> 12) & 0xF) as u32;
        proof {
            assert(a1 & 0x1FF <= 0x1FF && (a2 >> 12) & 0xF <= 0xF) by (bit_vector);
        }
        let scanline_y: u32 = if self.current_scanline >= y {
            (self.current_scanline - y) as u32
        } else {
            0
        };
        let tile_addr: u32 = (0x06010000u64 + tile_index as u64 * 32 + scanline_y as u64 * 4)
            as u32;
        let mut pixel_x: u32 = 0;
        while pixel_x < 8
            invariant
                buffer@.len() == 240,
                x <= 0x1FF,
                palette_index <= 0xF,
                pixel_x <= 8,
                memory.spec_rom() == old(memory).spec_rom(),
            decreases 8 - pixel_x,
        {
            let pixel_addr = tile_addr.wrapping_add(pixel_x / 2);
            let pixel_data = match memory.read_8(pixel_addr) {
                Ok(b) => b,
                Err(e) => {
                    return Err(e);
                },
            };
            let color_index = if pixel_x % 2 == 0 {
                pixel_data & 0xF
            } else {
                (pixel_data >> 4) & 0xF
            };
            if color_index != 0 {
                let buffer_x = (x + pixel_x) as usize;
                if buffer_x < 240 {
                    let palette_addr: u32 = 0x05000200 + palette_index * 32 + (color_index as u32)
                        * 2;
                    let color = match memory.read_16(palette_addr) {
                        Ok(w) => w,
                        Err(e) => {
                            return Err(e);
                        },
                    };
                    buffer[buffer_x] = color;
                }
            }
            pixel_x = pixel_x + 1;
        }
        Ok(())
    }

    /// Advances one scanline: line 160 wraps to zero and completes a
    /// frame, lines 144 to 159 count as vertical blank, the rest as
    /// horizontal blank.
    pub fn update(&mut self)
        ensures
            old(self).spec_scanline() >= 159 ==> final(self).spec_scanline() == 0 && final(self).spec_frames() == (if old(self).spec_frames() == u32::MAX {
                u32::MAX as int
            } else {
                old(self).spec_frames() + 1
            }),
            old(self).spec_scanline() < 159 ==> final(self).spec_scanline() == old(self).spec_scanline() + 1 && final(self).spec_frames() == old(self).spec_frames(),
            final(self).spec_dispcnt() == old(self).spec_dispcnt(),
    {
        proof {
            use_type_invariant(&*self);
        }
        let next = if self.current_scanline >= 159 {
            0
        } else {
            self.current_scanline + 1
        };
        self.current_scanline = next;
        if next == 0 {
            self.frame_count = if self.frame_count == u32::MAX {
                u32::MAX
            } else {
                self.frame_count + 1
            };
            self.stats.frames_rendered = if self.stats.frames_rendered == u32::MAX {
                u32::MAX
            } else {
                self.stats.frames_rendered + 1
            };
            self.stats.vblank_count = if self.stats.vblank_count == u32::MAX {
                u32::MAX
            } else {
                self.stats.vblank_count + 1
            };
        } else if next >= 144 {
            self.stats.vblank_count = if self.stats.vblank_count == u32::MAX {
                u32::MAX
            } else {
                self.stats.vblank_count + 1
            };
        } else {
            self.stats.hblank_count = if self.stats.hblank_count == u32::MAX {
                u32::MAX
            } else {
                self.stats.hblank_count + 1
            };
        }
        self.vcount = next;
    }

    /// The rendering counters.
    pub fn get_stats(&self) -> (r: &GPUStats)
        ensures
            r == self.spec_stats(),
    {
        &self.stats
    }
}

/// A sprite's height in rows, from its size field.
pub open spec fn spec_sprite_height(sprite: SpriteAttribute) -> u16 {
    let size = (sprite.attr1 >> 14) & 0x3;
    if size == 1 {
        16
    } else if size == 2 {
        32
    } else if size == 3 {
        64
    } else {
        8
    }
}

impl Default for GBAGPU {
    fn default() -> (r: GBAGPU)
        ensures
            r.spec_scanline() == 0,
            r.spec_frames() == 0,
    {
        GBAGPU::new()
    }
}

} // verus!
