//! The picture processing unit: the scanline state machine and the line
//! rasterizer.

use vstd::prelude::*;
use vstd::slice::slice_subrange;
use crate::bus::consts::{MMAP_SPRITE_OAM, MMAP_VIDEO_RAM};
use crate::bus::memory_range::{in_range, range_offset, MemoryRange};
use crate::bus::Memory;
use crate::cpu::interrupts::{Interrupt, InterruptMask, InterruptSource};
use crate::GameboyError;

verus! {

/// The display control register.
pub const IO_LCDC: u16 = 0xFF40;

/// The display status register.
pub const IO_STAT: u16 = 0xFF41;

/// The vertical scroll register.
pub const IO_SCY: u16 = 0xFF42;

/// The horizontal scroll register.
pub const IO_SCX: u16 = 0xFF43;

/// The current scanline.
pub const IO_LY: u16 = 0xFF44;

/// The scanline compare register.
pub const IO_LYC: u16 = 0xFF45;

/// The background palette.
pub const IO_BGP: u16 = 0xFF47;

/// The first object palette.
pub const IO_OBP0: u16 = 0xFF48;

/// The second object palette.
pub const IO_OBP1: u16 = 0xFF49;

/// The window's vertical position.
pub const IO_WY: u16 = 0xFF4A;

/// The window's horizontal position, plus seven.
pub const IO_WX: u16 = 0xFF4B;

/// The display registers.
pub const MMAP_IO_DISPLAY: MemoryRange = 0xFF40_FF4B;

/// The size of the video RAM in bytes.
pub const VRAM_SIZE: usize = 0x2000;

/// The size of the object attribute memory in bytes.
pub const OAM_SIZE: usize = 0xa0;

/// The number of objects that the attribute memory describes.
pub const NUM_SPRITES: usize = 40;

/// The width of the screen in pixels.
pub const WIDTH: usize = 160;

/// The height of the screen in pixels.
pub const HEIGHT: usize = 144;

/// The number of cycles in a frame: 154 lines of 456 cycles.
pub const FRAME_CYCLES: usize = 70224;

/// A color of the frame buffer, packed as 0x00RRGGBB.
pub type Color = u32;

/// The four colors of the screen, from the darkest to the lightest.
pub open spec fn spec_palette(shade: usize) -> Color {
    if shade == 0 {
        0x081820
    } else if shade == 1 {
        0x346856
    } else if shade == 2 {
        0x88c070
    } else {
        0xe0f8d0
    }
}

/// Returns the color of a shade of the screen.
#[verifier::when_used_as_spec(spec_palette)]
pub fn palette(shade: usize) -> (color: Color)
    ensures
        color == spec_palette(shade),
{
    if shade == 0 {
        0x081820
    } else if shade == 1 {
        0x346856
    } else if shade == 2 {
        0x88c070
    } else {
        0xe0f8d0
    }
}

/// The shade that `palette` gives to the color index `color`: the palette
/// holds four two-bit fields, and a field value of zero is the lightest shade.
pub open spec fn spec_get_color(palette: u8, color: u8) -> usize {
    let field = if color == 0 {
        palette % 4
    } else if color == 1 {
        palette / 4 % 4
    } else if color == 2 {
        palette / 16 % 4
    } else {
        palette / 64
    };
    (3 - field) as usize
}

/// Returns the shade that `palette` gives to the color index `color`.
#[verifier::when_used_as_spec(spec_get_color)]
pub fn get_color(palette: u8, color: u8) -> (shade: usize)
    ensures
        shade == spec_get_color(palette, color),
        shade < 4,
{
    let field = if color == 0 {
        palette % 4
    } else if color == 1 {
        palette / 4 % 4
    } else if color == 2 {
        palette / 16 % 4
    } else {
        palette / 64
    };
    (3 - field) as usize
}

/// Whether the pixel at column `bit` of a tile row is set in the plane
/// `byte`; column zero is the most significant bit.
pub open spec fn spec_pixel_bit(byte: u8, bit: u8) -> bool {
    byte & (0x80u8 >> bit) != 0
}

/// Tells whether the pixel at column `bit` of a tile row is set in `byte`.
#[verifier::when_used_as_spec(spec_pixel_bit)]
pub fn pixel_bit(byte: u8, bit: u8) -> (set: bool)
    requires
        bit < 8,
    ensures
        set == spec_pixel_bit(byte, bit),
{
    byte & (0x80u8 >> bit) != 0
}

/// The color index of a pixel: the low plane gives bit zero, the high plane
/// bit one.
pub open spec fn spec_color_index(low: u8, high: u8, bit: u8) -> u8 {
    ((if spec_pixel_bit(high, bit) {
        2int
    } else {
        0int
    }) + (if spec_pixel_bit(low, bit) {
        1int
    } else {
        0int
    })) as u8
}

/// Returns the color index of the pixel at column `bit` of a tile row.
#[verifier::when_used_as_spec(spec_color_index)]
pub fn color_index(low: u8, high: u8, bit: u8) -> (index: u8)
    requires
        bit < 8,
    ensures
        index == spec_color_index(low, high, bit),
        index < 4,
{
    let high_part: u8 = if pixel_bit(high, bit) {
        2
    } else {
        0
    };
    let low_part: u8 = if pixel_bit(low, bit) {
        1
    } else {
        0
    };
    high_part + low_part
}

/// The modes of the display controller. A frame is 144 visible lines, each
/// going through `SearchOam`, `RenderLine` and `Hblank`, then ten lines of
/// `Vblank`.
#[derive(Clone, Copy, Debug, PartialEq, Eq, Structural)]
pub enum PpuMode {
    /// Horizontal blanking, at the end of a visible line.
    Hblank,
    /// Vertical blanking, after the last visible line.
    Vblank,
    /// The controller reads the object attributes of the line.
    SearchOam,
    /// The controller draws the line.
    RenderLine,
}

impl PpuMode {
    /// The number of cycles the controller stays in the mode: for `Vblank`,
    /// the length of one of its lines.
    pub open spec fn spec_duration(&self) -> usize {
        match self {
            PpuMode::SearchOam => 80,
            PpuMode::RenderLine => 172,
            PpuMode::Hblank => 204,
            PpuMode::Vblank => 456,
        }
    }

    /// Returns the number of cycles the controller stays in the mode.
    #[verifier::when_used_as_spec(spec_duration)]
    pub fn duration(&self) -> (cycles: usize)
        ensures
            cycles == self.spec_duration(),
    {
        match self {
            PpuMode::SearchOam => 80,
            PpuMode::RenderLine => 172,
            PpuMode::Hblank => 204,
            PpuMode::Vblank => 456,
        }
    }

    /// The two bits that the status register shows for the mode.
    pub open spec fn spec_code(&self) -> u8 {
        match self {
            PpuMode::Hblank => 0,
            PpuMode::Vblank => 1,
            PpuMode::SearchOam => 2,
            PpuMode::RenderLine => 3,
        }
    }

    /// The number of cycles between the start of a visible line and the
    /// start of the mode within it; zero for `Vblank`.
    pub open spec fn spec_line_offset(&self) -> int {
        match self {
            PpuMode::SearchOam => 0,
            PpuMode::RenderLine => 80,
            PpuMode::Hblank => 252,
            PpuMode::Vblank => 0,
        }
    }
}

/// The display control register.
#[derive(Clone, Copy, Debug, PartialEq, Eq, Structural)]
pub struct Lcdc {
    /// The register's eight bits.
    pub data: u8,
}

impl Lcdc {
    /// Creates the register with every bit cleared.
    pub fn new() -> (lcdc: Lcdc)
        ensures
            lcdc.data == 0,
    {
        Lcdc { data: 0 }
    }

    /// Gives the register its value at boot: display on, background on,
    /// unsigned tile indices.
    pub fn reset(&mut self)
        ensures
            final(self).data == 0x91,
    {
        self.data = 0x91;
    }

    /// Bit 7: whether the display is on.
    pub open spec fn spec_power(&self) -> bool {
        self.data & 0x80 != 0
    }

    /// Bit 6: whether the window uses the tile map at 0x1C00.
    pub open spec fn spec_window_tilemap(&self) -> bool {
        self.data & 0x40 != 0
    }

    /// Bit 5: whether the window is shown.
    pub open spec fn spec_window_enable(&self) -> bool {
        self.data & 0x20 != 0
    }

    /// Bit 4: whether tile indices are unsigned, counted from 0x0000.
    pub open spec fn spec_tileset(&self) -> bool {
        self.data & 0x10 != 0
    }

    /// Bit 3: whether the background uses the tile map at 0x1C00.
    pub open spec fn spec_bg_tilemap(&self) -> bool {
        self.data & 0x8 != 0
    }

    /// Bit 2: whether objects are 16 lines high.
    pub open spec fn spec_sprite_size(&self) -> bool {
        self.data & 0x4 != 0
    }

    /// Bit 1: whether objects are shown.
    pub open spec fn spec_sprites_enable(&self) -> bool {
        self.data & 0x2 != 0
    }

    /// Bit 0: whether the background is shown.
    pub open spec fn spec_bg_enable(&self) -> bool {
        self.data & 0x1 != 0
    }

    /// Tells whether the display is on.
    #[verifier::when_used_as_spec(spec_power)]
    pub fn power(&self) -> (set: bool)
        ensures
            set == self.spec_power(),
    {
        self.data & 0x80 != 0
    }

    /// Tells whether the window uses the tile map at 0x1C00.
    #[verifier::when_used_as_spec(spec_window_tilemap)]
    pub fn window_tilemap(&self) -> (set: bool)
        ensures
            set == self.spec_window_tilemap(),
    {
        self.data & 0x40 != 0
    }

    /// Tells whether the window is shown.
    #[verifier::when_used_as_spec(spec_window_enable)]
    pub fn window_enable(&self) -> (set: bool)
        ensures
            set == self.spec_window_enable(),
    {
        self.data & 0x20 != 0
    }

    /// Tells whether tile indices are unsigned.
    #[verifier::when_used_as_spec(spec_tileset)]
    pub fn tileset(&self) -> (set: bool)
        ensures
            set == self.spec_tileset(),
    {
        self.data & 0x10 != 0
    }

    /// Tells whether the background uses the tile map at 0x1C00.
    #[verifier::when_used_as_spec(spec_bg_tilemap)]
    pub fn bg_tilemap(&self) -> (set: bool)
        ensures
            set == self.spec_bg_tilemap(),
    {
        self.data & 0x8 != 0
    }

    /// Tells whether objects are 16 lines high.
    #[verifier::when_used_as_spec(spec_sprite_size)]
    pub fn sprite_size(&self) -> (set: bool)
        ensures
            set == self.spec_sprite_size(),
    {
        self.data & 0x4 != 0
    }

    /// Tells whether objects are shown.
    #[verifier::when_used_as_spec(spec_sprites_enable)]
    pub fn sprites_enable(&self) -> (set: bool)
        ensures
            set == self.spec_sprites_enable(),
    {
        self.data & 0x2 != 0
    }

    /// Tells whether the background is shown.
    #[verifier::when_used_as_spec(spec_bg_enable)]
    pub fn bg_enable(&self) -> (set: bool)
        ensures
            set == self.spec_bg_enable(),
    {
        self.data & 0x1 != 0
    }

    /// Replaces the register's bits.
    pub fn write(&mut self, value: u8)
        ensures
            final(self).data == value,
    {
        self.data = value;
    }

    /// Returns the register's bits.
    pub fn read(&self) -> (value: u8)
        ensures
            value == self.data,
    {
        self.data
    }
}

/// The display status register.
#[derive(Clone, Copy, Debug, PartialEq, Eq, Structural)]
pub struct Stat {
    /// Bits 3 to 6, which the program writes: the events that raise the
    /// status interrupt.
    pub data: u8,
    /// Bit 2, which the controller sets while the scanline equals the compare
    /// register.
    pub signal: u8,
    /// Bits 0 and 1, which show the controller's mode.
    pub mode: u8,
}

impl Stat {
    /// Creates the register with every bit cleared.
    pub fn new() -> (stat: Stat)
        ensures
            stat == (Stat { data: 0, signal: 0, mode: 0 }),
    {
        Stat { data: 0, signal: 0, mode: 0 }
    }

    /// Clears the bits that the program writes.
    pub fn reset(&mut self)
        ensures
            *final(self) == (Stat { data: 0, ..*old(self) }),
    {
        self.data = 0;
    }

    /// Bit 6: whether a scanline match raises the status interrupt.
    pub open spec fn spec_lyc_check_enable(&self) -> bool {
        self.data & 0x40 != 0
    }

    /// Bit 5: whether entering `SearchOam` raises the status interrupt.
    pub open spec fn spec_oam_check_enable(&self) -> bool {
        self.data & 0x20 != 0
    }

    /// Bit 4: whether entering `Vblank` raises the status interrupt.
    pub open spec fn spec_vblank_check_enable(&self) -> bool {
        self.data & 0x10 != 0
    }

    /// Bit 3: whether entering `Hblank` raises the status interrupt.
    pub open spec fn spec_hblank_check_enable(&self) -> bool {
        self.data & 0x8 != 0
    }

    /// The register with its match bit set to `value`.
    pub open spec fn with_lyc_signal(self, value: bool) -> Stat {
        Stat {
            signal: if value {
                4
            } else {
                0
            },
            ..self
        }
    }

    /// The register showing `mode`.
    pub open spec fn with_mode(self, mode: PpuMode) -> Stat {
        Stat { mode: mode.spec_code(), ..self }
    }

    /// What the program reads: the three groups of bits together, and bit 7,
    /// which is always set.
    pub open spec fn spec_read(&self) -> u8 {
        self.data | self.signal | self.mode | 0x80
    }

    /// Tells whether a scanline match raises the status interrupt.
    #[verifier::when_used_as_spec(spec_lyc_check_enable)]
    pub fn lyc_check_enable(&self) -> (set: bool)
        ensures
            set == self.spec_lyc_check_enable(),
    {
        self.data & 0x40 != 0
    }

    /// Tells whether entering `SearchOam` raises the status interrupt.
    #[verifier::when_used_as_spec(spec_oam_check_enable)]
    pub fn oam_check_enable(&self) -> (set: bool)
        ensures
            set == self.spec_oam_check_enable(),
    {
        self.data & 0x20 != 0
    }

    /// Tells whether entering `Vblank` raises the status interrupt.
    #[verifier::when_used_as_spec(spec_vblank_check_enable)]
    pub fn vblank_check_enable(&self) -> (set: bool)
        ensures
            set == self.spec_vblank_check_enable(),
    {
        self.data & 0x10 != 0
    }

    /// Tells whether entering `Hblank` raises the status interrupt.
    #[verifier::when_used_as_spec(spec_hblank_check_enable)]
    pub fn hblank_check_enable(&self) -> (set: bool)
        ensures
            set == self.spec_hblank_check_enable(),
    {
        self.data & 0x8 != 0
    }

    /// Sets or clears the match bit.
    pub fn set_lyc_signal(&mut self, value: bool)
        ensures
            *final(self) == old(self).with_lyc_signal(value),
    {
        self.signal = if value {
            4
        } else {
            0
        };
    }

    /// Shows `mode` in bits 0 and 1.
    pub fn set_mode(&mut self, mode: PpuMode)
        ensures
            *final(self) == old(self).with_mode(mode),
    {
        match mode {
            PpuMode::Hblank => {
                self.mode = 0;
            },
            PpuMode::Vblank => {
                self.mode = 1;
            },
            PpuMode::SearchOam => {
                self.mode = 2;
            },
            PpuMode::RenderLine => {
                self.mode = 3;
            },
        }
    }

    /// Replaces the bits that the program writes; the three low bits of
    /// `value` are dropped.
    pub fn write(&mut self, value: u8)
        ensures
            *final(self) == (Stat { data: value & 0xF8, ..*old(self) }),
    {
        self.data = value & 0xF8;
    }

    /// Returns what the program reads.
    #[verifier::when_used_as_spec(spec_read)]
    pub fn read(&self) -> (value: u8)
        ensures
            value == self.spec_read(),
    {
        self.data | self.signal | self.mode | 0x80
    }
}

/// One object of the attribute memory.
#[derive(Clone, Copy, Debug, PartialEq, Eq, Structural)]
pub struct SpriteData {
    /// The column of the object's left edge, modulo 256: the attribute's
    /// second byte minus eight.
    pub x: u8,
    /// The line of the object's top edge, modulo 256: the attribute's first
    /// byte minus sixteen.
    pub y: u8,
    /// The object's first tile.
    pub tile_id: u8,
    /// The object's flags.
    pub tile_attr: u8,
}

impl SpriteData {
    /// The object that four attribute bytes describe. A tall object starts at
    /// an even tile.
    pub open spec fn spec_new(data: Seq<u8>, sprite_size: bool) -> SpriteData {
        SpriteData {
            x: if data[1] >= 8 {
                (data[1] - 8) as u8
            } else {
                (data[1] + 248) as u8
            },
            y: if data[0] >= 16 {
                (data[0] - 16) as u8
            } else {
                (data[0] + 240) as u8
            },
            tile_id: if sprite_size {
                data[2] & 0xfe
            } else {
                data[2]
            },
            tile_attr: data[3],
        }
    }

    /// Reads an object from its four attribute bytes.
    pub fn new(data: &[u8], sprite_size: bool) -> (sprite: SpriteData)
        requires
            data@.len() == 4,
        ensures
            sprite == SpriteData::spec_new(data@, sprite_size),
    {
        SpriteData {
            x: if data[1] >= 8 {
                data[1] - 8
            } else {
                data[1] + 248
            },
            y: if data[0] >= 16 {
                data[0] - 16
            } else {
                data[0] + 240
            },
            tile_id: if sprite_size {
                data[2] & 0xfe
            } else {
                data[2]
            },
            tile_attr: data[3],
        }
    }

    /// Bit 4 of the flags: whether the object uses the second palette.
    pub open spec fn spec_palette_select(&self) -> bool {
        self.tile_attr & 0x10 != 0
    }

    /// Bit 5 of the flags: whether the object is mirrored horizontally.
    pub open spec fn spec_flip_x(&self) -> bool {
        self.tile_attr & 0x20 != 0
    }

    /// Bit 6 of the flags: whether the object is mirrored vertically.
    pub open spec fn spec_flip_y(&self) -> bool {
        self.tile_attr & 0x40 != 0
    }

    /// Bit 7 of the flags: whether the background hides the object.
    pub open spec fn spec_sprite_behind(&self) -> bool {
        self.tile_attr & 0x80 != 0
    }

    /// The column of the object's left edge, from -8 to 247.
    pub open spec fn spec_left(&self) -> int {
        if self.x >= 248 {
            self.x - 256
        } else {
            self.x as int
        }
    }

    /// The line of the object's top edge, from -16 to 239.
    pub open spec fn spec_top(&self) -> int {
        if self.y >= 240 {
            self.y - 256
        } else {
            self.y as int
        }
    }

    /// Tells whether the object uses the second palette.
    #[verifier::when_used_as_spec(spec_palette_select)]
    pub fn palette_select(&self) -> (set: bool)
        ensures
            set == self.spec_palette_select(),
    {
        self.tile_attr & 0x10 != 0
    }

    /// Tells whether the object is mirrored horizontally.
    #[verifier::when_used_as_spec(spec_flip_x)]
    pub fn flip_x(&self) -> (set: bool)
        ensures
            set == self.spec_flip_x(),
    {
        self.tile_attr & 0x20 != 0
    }

    /// Tells whether the object is mirrored vertically.
    #[verifier::when_used_as_spec(spec_flip_y)]
    pub fn flip_y(&self) -> (set: bool)
        ensures
            set == self.spec_flip_y(),
    {
        self.tile_attr & 0x40 != 0
    }

    /// Tells whether the background hides the object.
    #[verifier::when_used_as_spec(spec_sprite_behind)]
    pub fn sprite_behind(&self) -> (set: bool)
        ensures
            set == self.spec_sprite_behind(),
    {
        self.tile_attr & 0x80 != 0
    }

    /// Returns the column of the object's left edge.
    pub fn left(&self) -> (column: i16)
        ensures
            column == self.spec_left(),
            -8 <= column <= 247,
    {
        if self.x >= 248 {
            self.x as i16 - 256
        } else {
            self.x as i16
        }
    }

    /// Returns the line of the object's top edge.
    pub fn top(&self) -> (line: i16)
        ensures
            line == self.spec_top(),
            -16 <= line <= 239,
    {
        if self.y >= 240 {
            self.y as i16 - 256
        } else {
            self.y as i16
        }
    }
}

/// The mathematical state of the display controller.
#[verifier::ext_equal]
pub struct PpuView {
    /// The frame buffer, row by row.
    pub buffer: Seq<Color>,
    /// The video RAM: tile data from 0x0000, tile maps from 0x1800.
    pub vram: Seq<u8>,
    /// The object attribute memory: four bytes per object.
    pub oam: Seq<u8>,
    /// The control register.
    pub lcdc: Lcdc,
    /// The status register.
    pub stat: Stat,
    /// The background's vertical scroll.
    pub scy: u8,
    /// The background's horizontal scroll.
    pub scx: u8,
    /// The current scanline.
    pub ly: u8,
    /// The scanline compare register.
    pub lyc: u8,
    /// The background palette.
    pub bgp: u8,
    /// The first object palette.
    pub obp0: u8,
    /// The second object palette.
    pub obp1: u8,
    /// The window's first line.
    pub wy: u8,
    /// The window's first column, plus seven.
    pub wx: u8,
    /// The current mode.
    pub mode: PpuMode,
    /// The cycles spent in the current mode.
    pub mode_counter: usize,
    /// The interrupts raised since the mask was last cleared.
    pub interrupt_flag: InterruptMask,
}

impl PpuView {
    /// The controller's invariant: the memories have their sizes, the mode
    /// has not outlasted its duration, and the scanline is a visible one
    /// exactly outside vertical blanking.
    pub open spec fn wf(self) -> bool {
        &&& self.buffer.len() == WIDTH * HEIGHT
        &&& self.vram.len() == VRAM_SIZE
        &&& self.oam.len() == OAM_SIZE
        &&& self.mode_counter < self.mode.spec_duration()
        &&& self.mode == PpuMode::Vblank ==> 144 <= self.ly <= 153
        &&& self.mode != PpuMode::Vblank ==> self.ly < 144
    }

    /// The state with `interrupt` added to the raised interrupts.
    pub open spec fn raise(self, interrupt: Interrupt) -> PpuView {
        PpuView { interrupt_flag: self.interrupt_flag | interrupt.spec_value(), ..self }
    }

    /// The state in `mode`, which the status register shows.
    pub open spec fn with_mode(self, mode: PpuMode) -> PpuView {
        PpuView { mode, stat: self.stat.with_mode(mode), ..self }
    }

    /// The state after the scanline was compared with the compare register:
    /// the status register's match bit says whether they are equal, and a
    /// match raises the status interrupt if the program asked for it.
    pub open spec fn refresh_lyc(self) -> PpuView {
        let compared = PpuView { stat: self.stat.with_lyc_signal(self.lyc == self.ly), ..self };
        if self.lyc == self.ly && compared.stat.spec_lyc_check_enable() {
            compared.raise(Interrupt::LcdStat)
        } else {
            compared
        }
    }

    /// The index in the frame buffer of the first pixel of the current line.
    pub open spec fn line_start(self) -> int {
        self.ly * WIDTH
    }

    /// The state with the current line filled with the darkest color.
    pub open spec fn with_cleared_line(self) -> PpuView {
        PpuView {
            buffer: Seq::new(
                self.buffer.len(),
                |i: int|
                    if self.line_start() <= i < self.line_start() + WIDTH {
                        spec_palette(0)
                    } else {
                        self.buffer[i]
                    },
            ),
            ..self
        }
    }

    /// Whether the window covers a part of the current line.
    pub open spec fn window_on_line(self) -> bool {
        self.lcdc.spec_window_enable() && self.ly >= self.wy
    }

    /// Whether the pixel at column `x` of the current line shows the window
    /// rather than the scrolled background.
    pub open spec fn in_window(self, x: int) -> bool {
        self.window_on_line() && x + 7 >= self.wx
    }

    /// The column, in the 256 by 256 picture that the tile map describes, of
    /// the pixel that column `x` of the screen shows.
    pub open spec fn source_x(self, x: int) -> int {
        if self.in_window(x) {
            x + 7 - self.wx
        } else {
            (self.scx + x) % 256
        }
    }

    /// The line, in the picture that the tile map describes, of the pixel
    /// that column `x` of the current line shows.
    pub open spec fn source_y(self, x: int) -> int {
        if self.in_window(x) {
            self.ly - self.wy
        } else {
            (self.scy + self.ly) % 256
        }
    }

    /// The offset in video RAM of the tile map that column `x` is read from.
    pub open spec fn tilemap_base(self, x: int) -> int {
        if self.in_window(x) {
            if self.lcdc.spec_window_tilemap() {
                0x1c00
            } else {
                0x1800
            }
        } else {
            if self.lcdc.spec_bg_tilemap() {
                0x1c00
            } else {
                0x1800
            }
        }
    }

    /// The tile index that the tile map holds for column `x`.
    pub open spec fn tile_number(self, x: int) -> u8 {
        self.vram[self.tilemap_base(x) + (self.source_y(x) / 8) % 32 * 32 + (self.source_x(x) / 8)
            % 32]
    }

    /// The offset in video RAM of line `row` of the background tile
    /// `number`. Unsigned indices count tiles of 16 bytes from 0x0000; signed
    /// indices count them from 0x1000, so that 128 is the tile at 0x0800.
    pub open spec fn tile_row_offset(self, number: u8, row: int) -> int {
        if self.lcdc.spec_tileset() {
            number * 16 + row * 2
        } else {
            0x800 + (number + 128) % 256 * 16 + row * 2
        }
    }

    /// The color of the background or window at column `x` of the current
    /// line.
    pub open spec fn bg_color(self, x: int) -> Color {
        let offset = self.tile_row_offset(self.tile_number(x), self.source_y(x) % 8);
        let index = spec_color_index(
            self.vram[offset],
            self.vram[offset + 1],
            (self.source_x(x) % 8) as u8,
        );
        spec_palette(spec_get_color(self.bgp, index))
    }

    /// The state with the background and the window drawn on the current
    /// line, if the background is enabled.
    pub open spec fn with_background(self) -> PpuView {
        if self.lcdc.spec_bg_enable() {
            PpuView {
                buffer: Seq::new(
                    self.buffer.len(),
                    |i: int|
                        if self.line_start() <= i < self.line_start() + WIDTH {
                            self.bg_color(i - self.line_start())
                        } else {
                            self.buffer[i]
                        },
                ),
                ..self
            }
        } else {
            self
        }
    }

    /// The height of every object: 8 or 16 lines.
    pub open spec fn sprite_height(self) -> int {
        if self.lcdc.spec_sprite_size() {
            16
        } else {
            8
        }
    }

    /// The object at position `index` of the attribute memory.
    pub open spec fn sprite(self, index: int) -> SpriteData {
        SpriteData::spec_new(
            self.oam.subrange(4 * index, 4 * index + 4),
            self.lcdc.spec_sprite_size(),
        )
    }

    /// Whether `sprite` has a row on the current line.
    pub open spec fn sprite_on_line(self, sprite: SpriteData) -> bool {
        sprite.spec_top() <= self.ly < sprite.spec_top() + self.sprite_height()
    }

    /// The row of `sprite` that the current line shows, counted in the
    /// object's tile data: from the bottom when the object is mirrored
    /// vertically.
    pub open spec fn sprite_row(self, sprite: SpriteData) -> int {
        if sprite.spec_flip_y() {
            self.sprite_height() - 1 - (self.ly - sprite.spec_top())
        } else {
            self.ly - sprite.spec_top()
        }
    }

    /// The color index of the pixel of `sprite` that lies `column` pixels
    /// right of its left edge on the current line.
    pub open spec fn sprite_color_index(self, sprite: SpriteData, column: int) -> u8 {
        let offset = sprite.tile_id * 16 + self.sprite_row(sprite) * 2;
        spec_color_index(
            self.vram[offset],
            self.vram[offset + 1],
            (if sprite.spec_flip_x() {
                7 - column
            } else {
                column
            }) as u8,
        )
    }

    /// The state with one pixel of `sprite` drawn. Nothing is drawn where the
    /// pixel is transparent (color index zero) or off the screen, nor, for an
    /// object behind the background, where the frame buffer holds another
    /// color than the darkest.
    pub open spec fn with_sprite_pixel(self, sprite: SpriteData, column: int) -> PpuView {
        let x = sprite.spec_left() + column;
        let index = self.sprite_color_index(sprite, column);
        let palette = if sprite.spec_palette_select() {
            self.obp1
        } else {
            self.obp0
        };
        if index == 0 || x < 0 || x >= WIDTH {
            self
        } else if sprite.spec_sprite_behind() && self.buffer[self.line_start() + x]
            != spec_palette(0) {
            self
        } else {
            PpuView {
                buffer: self.buffer.update(
                    self.line_start() + x,
                    spec_palette(spec_get_color(palette, index)),
                ),
                ..self
            }
        }
    }

    /// The state with the first `count` pixels of `sprite` drawn, from its
    /// left edge on.
    pub open spec fn with_sprite_pixels(self, sprite: SpriteData, count: nat) -> PpuView
        decreases count,
    {
        if count == 0 {
            self
        } else {
            self.with_sprite_pixels(sprite, (count - 1) as nat).with_sprite_pixel(
                sprite,
                count - 1,
            )
        }
    }

    /// The state with the object at position `index` drawn, if it has a row
    /// on the current line.
    pub open spec fn with_sprite(self, index: int) -> PpuView {
        let sprite = self.sprite(index);
        if self.sprite_on_line(sprite) {
            self.with_sprite_pixels(sprite, 8)
        } else {
            self
        }
    }

    /// The state with the first `count` objects drawn in the order of the
    /// attribute memory: a later object covers an earlier one.
    pub open spec fn with_sprites_upto(self, count: nat) -> PpuView
        decreases count,
    {
        if count == 0 {
            self
        } else {
            self.with_sprites_upto((count - 1) as nat).with_sprite(count - 1)
        }
    }

    /// The state with the objects drawn on the current line, if objects are
    /// enabled.
    pub open spec fn with_sprites(self) -> PpuView {
        if self.lcdc.spec_sprites_enable() {
            self.with_sprites_upto(NUM_SPRITES as nat)
        } else {
            self
        }
    }

    /// The state with the current line drawn: cleared, then the background
    /// and the window, then the objects.
    pub open spec fn rendered(self) -> PpuView {
        self.with_cleared_line().with_background().with_sprites()
    }

    /// The state after the current mode ended.
    ///
    /// `SearchOam` is followed by `RenderLine`; `RenderLine` draws the line
    /// and is followed by `Hblank`; `Hblank` moves to the next line and is
    /// followed by `SearchOam`, or by `Vblank` after line 143; each line of
    /// `Vblank` moves to the next line, and line 153 is followed by
    /// `SearchOam` on line 0.
    pub open spec fn leave_mode(self) -> PpuView {
        match self.mode {
            PpuMode::SearchOam => self.with_mode(PpuMode::RenderLine),
            PpuMode::RenderLine => {
                let drawn = self.rendered().with_mode(PpuMode::Hblank);
                if drawn.stat.spec_hblank_check_enable() {
                    drawn.raise(Interrupt::LcdStat)
                } else {
                    drawn
                }
            },
            PpuMode::Hblank => {
                let next = PpuView { ly: (self.ly + 1) as u8, ..self }.refresh_lyc();
                if next.ly == 144 {
                    let blank = next.with_mode(PpuMode::Vblank).raise(Interrupt::VerticalBlank);
                    if blank.stat.spec_vblank_check_enable() {
                        blank.raise(Interrupt::LcdStat)
                    } else {
                        blank
                    }
                } else {
                    next.with_mode(PpuMode::SearchOam)
                }
            },
            PpuMode::Vblank => {
                let next = PpuView { ly: (self.ly + 1) as u8, ..self }.refresh_lyc();
                if next.ly == 154 {
                    let first = PpuView { ly: 0, ..next }.refresh_lyc().with_mode(
                        PpuMode::SearchOam,
                    );
                    if first.stat.spec_oam_check_enable() {
                        first.raise(Interrupt::LcdStat)
                    } else {
                        first
                    }
                } else {
                    next
                }
            },
        }
    }

    /// The state after `cycles` cycles. A display that is off stands still.
    /// Otherwise the cycles are spent in the current mode until it ends, and
    /// what is left of them in the modes that follow.
    pub open spec fn advance(self, cycles: nat) -> PpuView
        decreases cycles,
    {
        if !self.lcdc.spec_power() || self.mode_counter >= self.mode.spec_duration() {
            self
        } else if self.mode_counter + cycles < self.mode.spec_duration() {
            PpuView { mode_counter: (self.mode_counter + cycles) as usize, ..self }
        } else {
            PpuView { mode_counter: 0, ..self }.leave_mode().advance(
                (cycles - (self.mode.spec_duration() - self.mode_counter)) as nat,
            )
        }
    }

    /// The number of cycles since the start of the frame: 456 for each line
    /// before the current one, then the cycles spent in the line.
    pub open spec fn frame_position(self) -> int {
        self.ly * 456 + self.mode.spec_line_offset() + self.mode_counter
    }

    /// What a read of `address` returns.
    pub open spec fn read(self, address: u16) -> Result<u8, GameboyError> {
        if address == IO_LCDC {
            Ok(self.lcdc.data)
        } else if address == IO_STAT {
            Ok(self.stat.spec_read())
        } else if address == IO_SCY {
            Ok(self.scy)
        } else if address == IO_SCX {
            Ok(self.scx)
        } else if address == IO_LY {
            Ok(self.ly)
        } else if address == IO_LYC {
            Ok(self.lyc)
        } else if address == IO_BGP {
            Ok(self.bgp)
        } else if address == IO_OBP0 {
            Ok(self.obp0)
        } else if address == IO_OBP1 {
            Ok(self.obp1)
        } else if address == IO_WY {
            Ok(self.wy)
        } else if address == IO_WX {
            Ok(self.wx)
        } else if in_range(MMAP_VIDEO_RAM, address) {
            Ok(self.vram[address - 0x8000])
        } else if in_range(MMAP_SPRITE_OAM, address) {
            Ok(self.oam[address - 0xFE00])
        } else {
            Err(GameboyError::BadAddress(address))
        }
    }

    /// The state after a write of `value` to `address`, and what the write
    /// returns. The scanline register is read-only.
    pub open spec fn write(self, address: u16, value: u8) -> (PpuView, Result<(), GameboyError>) {
        if address == IO_LCDC {
            (PpuView { lcdc: Lcdc { data: value }, ..self }, Ok(()))
        } else if address == IO_STAT {
            (PpuView { stat: Stat { data: value & 0xF8, ..self.stat }, ..self }, Ok(()))
        } else if address == IO_SCY {
            (PpuView { scy: value, ..self }, Ok(()))
        } else if address == IO_SCX {
            (PpuView { scx: value, ..self }, Ok(()))
        } else if address == IO_LYC {
            (PpuView { lyc: value, ..self }, Ok(()))
        } else if address == IO_BGP {
            (PpuView { bgp: value, ..self }, Ok(()))
        } else if address == IO_OBP0 {
            (PpuView { obp0: value, ..self }, Ok(()))
        } else if address == IO_OBP1 {
            (PpuView { obp1: value, ..self }, Ok(()))
        } else if address == IO_WY {
            (PpuView { wy: value, ..self }, Ok(()))
        } else if address == IO_WX {
            (PpuView { wx: value, ..self }, Ok(()))
        } else if in_range(MMAP_VIDEO_RAM, address) {
            (PpuView { vram: self.vram.update(address - 0x8000, value), ..self }, Ok(()))
        } else if in_range(MMAP_SPRITE_OAM, address) {
            (PpuView { oam: self.oam.update(address - 0xFE00, value), ..self }, Ok(()))
        } else {
            (self, Err(GameboyError::BadAddress(address)))
        }
    }
}

/// The display controller.
pub struct Ppu {
    buffer: Vec<Color>,
    vram: Vec<u8>,
    oam: Vec<u8>,
    lcdc: Lcdc,
    stat: Stat,
    scy: u8,
    scx: u8,
    ly: u8,
    lyc: u8,
    bgp: u8,
    obp0: u8,
    obp1: u8,
    wy: u8,
    wx: u8,
    mode: PpuMode,
    mode_counter: usize,
    interrupt_flag: InterruptMask,
}

impl View for Ppu {
    type V = PpuView;

    closed spec fn view(&self) -> PpuView {
        PpuView {
            buffer: self.buffer@,
            vram: self.vram@,
            oam: self.oam@,
            lcdc: self.lcdc,
            stat: self.stat,
            scy: self.scy,
            scx: self.scx,
            ly: self.ly,
            lyc: self.lyc,
            bgp: self.bgp,
            obp0: self.obp0,
            obp1: self.obp1,
            wy: self.wy,
            wx: self.wx,
            mode: self.mode,
            mode_counter: self.mode_counter,
            interrupt_flag: self.interrupt_flag,
        }
    }
}

/// The state of the controller at boot: black frame buffer, empty memories,
/// first cycle of line 0.
pub open spec fn boot_state() -> PpuView {
    PpuView {
        buffer: Seq::new((WIDTH * HEIGHT) as nat, |i: int| 0u32),
        vram: Seq::new(VRAM_SIZE as nat, |i: int| 0u8),
        oam: Seq::new(OAM_SIZE as nat, |i: int| 0u8),
        lcdc: Lcdc { data: 0x91 },
        stat: Stat { data: 0, signal: 0, mode: 2 },
        scy: 0,
        scx: 0,
        ly: 0,
        lyc: 0,
        bgp: 0xFC,
        obp0: 0xFF,
        obp1: 0xFF,
        wy: 0,
        wx: 0,
        mode: PpuMode::SearchOam,
        mode_counter: 0,
        interrupt_flag: 0,
    }
}

impl Ppu {
    /// Creates the controller in its state at boot.
    pub fn new() -> (ppu: Ppu)
        ensures
            ppu@ == boot_state(),
            ppu@.wf(),
    {
        let mut ppu = Ppu {
            buffer: vec![0; WIDTH * HEIGHT],
            vram: vec![0; VRAM_SIZE],
            oam: vec![0; OAM_SIZE],
            lcdc: Lcdc::new(),
            stat: Stat::new(),
            scy: 0,
            scx: 0,
            ly: 0,
            lyc: 0,
            bgp: 0,
            obp0: 0,
            obp1: 0,
            wy: 0,
            wx: 0,
            mode: PpuMode::SearchOam,
            mode_counter: 0,
            interrupt_flag: 0,
        };
        ppu.reset();
        ppu
    }

    /// Puts the registers and the state machine back to their state at boot.
    /// The frame buffer and the two memories keep their contents, and the
    /// raised interrupts stay raised.
    pub fn reset(&mut self)
        requires
            old(self)@.wf(),
        ensures
            final(self)@ == (PpuView {
                buffer: old(self)@.buffer,
                vram: old(self)@.vram,
                oam: old(self)@.oam,
                stat: Stat { data: 0, mode: 2, ..old(self)@.stat },
                interrupt_flag: old(self)@.interrupt_flag,
                ..boot_state()
            }),
            final(self)@.wf(),
    {
        self.mode = PpuMode::SearchOam;
        self.mode_counter = 0;
        self.ly = 0;
        self.lcdc.reset();
        self.stat.reset();
        self.stat.set_mode(self.mode);
        self.scy = 0x00;
        self.scx = 0x00;
        self.lyc = 0x00;
        self.bgp = 0xFC;
        self.obp0 = 0xFF;
        self.obp1 = 0xFF;
        self.wy = 0x00;
        self.wx = 0x00;
    }

    /// Copies the frame buffer to `frame_buffer`.
    pub fn flush(&mut self, frame_buffer: &mut [u32])
        requires
            old(self)@.wf(),
            old(frame_buffer)@.len() == WIDTH * HEIGHT,
        ensures
            final(self)@ == old(self)@,
            final(frame_buffer)@ == old(self)@.buffer,
    {
        let mut i: usize = 0;
        while i < WIDTH * HEIGHT
            invariant
                i <= WIDTH * HEIGHT,
                self@ == old(self)@,
                self@.wf(),
                frame_buffer@.len() == WIDTH * HEIGHT,
                forall|j: int| 0 <= j < i ==> frame_buffer@[j] == self@.buffer[j],
            decreases WIDTH * HEIGHT - i,
        {
            frame_buffer[i] = self.buffer[i];
            i += 1;
        }
        assert(frame_buffer@ =~= self@.buffer);
    }

    /// Returns the object attribute memory.
    pub fn oam(&self) -> (oam: &[u8])
        ensures
            oam@ == self@.oam,
    {
        self.oam.as_slice()
    }

    /// Writes one byte of the object attribute memory.
    pub fn set_oam(&mut self, index: usize, value: u8)
        requires
            old(self)@.wf(),
            index < OAM_SIZE,
        ensures
            final(self)@ == (PpuView {
                oam: old(self)@.oam.update(index as int, value),
                ..old(self)@
            }),
            final(self)@.wf(),
    {
        self.oam[index] = value;
    }

    /// Advances the controller by `cycles` cycles.
    pub fn process(&mut self, cycles: usize)
        requires
            old(self)@.wf(),
        ensures
            final(self)@ == old(self)@.advance(cycles as nat),
            final(self)@.wf(),
    {
        if !self.lcdc.power() {
            return ;
        }
        let mut remaining = cycles;
        let mut needed = self.mode.duration() - self.mode_counter;
        while remaining >= needed
            invariant
                self@.wf(),
                self@.lcdc.spec_power(),
                needed == self@.mode.spec_duration() - self@.mode_counter,
                self@.advance(remaining as nat) == old(self)@.advance(cycles as nat),
            decreases remaining,
        {
            remaining -= needed;
            self.mode_counter = 0;
            self.leave_mode();
            needed = self.mode.duration();
        }
        self.mode_counter += remaining;
    }

    /// Ends the current mode.
    fn leave_mode(&mut self)
        requires
            old(self)@.wf(),
            old(self)@.mode_counter == 0,
        ensures
            final(self)@ == old(self)@.leave_mode(),
            final(self)@.wf(),
            final(self)@.lcdc == old(self)@.lcdc,
            final(self)@.mode_counter == 0,
    {
        match self.mode {
            PpuMode::SearchOam => {
                self.set_mode(PpuMode::RenderLine);
            },
            PpuMode::RenderLine => {
                self.render_line();
                self.set_mode(PpuMode::Hblank);
                if self.stat.hblank_check_enable() {
                    self.interrupt_flag = self.interrupt_flag | Interrupt::LcdStat.value();
                }
            },
            PpuMode::Hblank => {
                self.ly += 1;
                self.refresh_lyc_signal();
                if self.ly == 144 {
                    self.set_mode(PpuMode::Vblank);
                    self.interrupt_flag = self.interrupt_flag | Interrupt::VerticalBlank.value();
                    if self.stat.vblank_check_enable() {
                        self.interrupt_flag = self.interrupt_flag | Interrupt::LcdStat.value();
                    }
                } else {
                    self.set_mode(PpuMode::SearchOam);
                }
            },
            PpuMode::Vblank => {
                self.ly += 1;
                self.refresh_lyc_signal();
                if self.ly == 154 {
                    self.ly = 0;
                    self.refresh_lyc_signal();
                    self.set_mode(PpuMode::SearchOam);
                    if self.stat.oam_check_enable() {
                        self.interrupt_flag = self.interrupt_flag | Interrupt::LcdStat.value();
                    }
                }
            },
        }
    }

    fn set_mode(&mut self, mode: PpuMode)
        ensures
            final(self)@ == old(self)@.with_mode(mode),
    {
        self.mode = mode;
        self.stat.set_mode(mode);
    }

    fn refresh_lyc_signal(&mut self)
        ensures
            final(self)@ == old(self)@.refresh_lyc(),
    {
        self.stat.set_lyc_signal(self.lyc == self.ly);
        if self.lyc == self.ly && self.stat.lyc_check_enable() {
            self.interrupt_flag = self.interrupt_flag | Interrupt::LcdStat.value();
        }
    }

    /// Draws the current line into the frame buffer.
    fn render_line(&mut self)
        requires
            old(self)@.wf(),
            old(self)@.ly < 144,
        ensures
            final(self)@ == old(self)@.rendered(),
            final(self)@ == (PpuView { buffer: final(self)@.buffer, ..old(self)@ }),
            final(self)@.buffer.len() == old(self)@.buffer.len(),
    {
        let line_offset = (self.ly as usize) * WIDTH;
        let mut x: usize = 0;
        while x < WIDTH
            invariant
                x <= WIDTH,
                old(self)@.wf(),
                old(self)@.ly < 144,
                line_offset == old(self)@.line_start(),
                self@ == (PpuView { buffer: self@.buffer, ..old(self)@ }),
                self@.buffer.len() == old(self)@.buffer.len(),
                forall|i: int|
                    0 <= i < self@.buffer.len() ==> self@.buffer[i] == if line_offset <= i
                        < line_offset + x {
                        spec_palette(0)
                    } else {
                        old(self)@.buffer[i]
                    },
            decreases WIDTH - x,
        {
            self.buffer[line_offset + x] = palette(0);
            x += 1;
        }
        assert(self@.buffer =~= old(self)@.with_cleared_line().buffer);
        self.draw_bg();
        self.draw_sprites();
    }

    /// Returns the offset in video RAM of line `row` of the background tile
    /// `number`.
    fn tile_row_offset(&self, number: u8, row: usize) -> (offset: usize)
        requires
            row < 8,
        ensures
            offset == self@.tile_row_offset(number, row as int),
            offset + 1 < VRAM_SIZE,
    {
        if self.lcdc.tileset() {
            number as usize * 16 + row * 2
        } else {
            0x800 + (number as usize + 128) % 256 * 16 + row * 2
        }
    }

    /// Draws the background and the window on the current line.
    fn draw_bg(&mut self)
        requires
            old(self)@.wf(),
            old(self)@.ly < 144,
        ensures
            final(self)@ == old(self)@.with_background(),
            final(self)@ == (PpuView { buffer: final(self)@.buffer, ..old(self)@ }),
            final(self)@.buffer.len() == old(self)@.buffer.len(),
    {
        if !self.lcdc.bg_enable() {
            return ;
        }
        let line_offset = (self.ly as usize) * WIDTH;
        let window_on_line = self.lcdc.window_enable() && self.ly >= self.wy;
        let mut x: usize = 0;
        while x < WIDTH
            invariant
                x <= WIDTH,
                old(self)@.wf(),
                old(self)@.ly < 144,
                old(self)@.lcdc.spec_bg_enable(),
                line_offset == old(self)@.line_start(),
                window_on_line == old(self)@.window_on_line(),
                self@ == (PpuView { buffer: self@.buffer, ..old(self)@ }),
                self@.buffer.len() == old(self)@.buffer.len(),
                forall|i: int|
                    0 <= i < self@.buffer.len() ==> self@.buffer[i] == if line_offset <= i
                        < line_offset + x {
                        old(self)@.bg_color(i - line_offset)
                    } else {
                        old(self)@.buffer[i]
                    },
            decreases WIDTH - x,
        {
            let in_window = window_on_line && x + 7 >= self.wx as usize;
            let source_x: usize = if in_window {
                x + 7 - self.wx as usize
            } else {
                (self.scx as usize + x) % 256
            };
            let source_y: usize = if in_window {
                (self.ly - self.wy) as usize
            } else {
                (self.scy as usize + self.ly as usize) % 256
            };
            let base: usize = if in_window {
                if self.lcdc.window_tilemap() {
                    0x1c00
                } else {
                    0x1800
                }
            } else {
                if self.lcdc.bg_tilemap() {
                    0x1c00
                } else {
                    0x1800
                }
            };
            let number = self.vram[base + (source_y / 8) % 32 * 32 + (source_x / 8) % 32];
            let offset = self.tile_row_offset(number, source_y % 8);
            let index = color_index(
                self.vram[offset],
                self.vram[offset + 1],
                (source_x % 8) as u8,
            );
            let color = palette(get_color(self.bgp, index));
            assert(color == old(self)@.bg_color(x as int));
            self.buffer[line_offset + x] = color;
            x += 1;
        }
        assert(self@.buffer =~= old(self)@.with_background().buffer);
    }

    /// Draws the objects on the current line.
    fn draw_sprites(&mut self)
        requires
            old(self)@.wf(),
            old(self)@.ly < 144,
        ensures
            final(self)@ == old(self)@.with_sprites(),
            final(self)@ == (PpuView { buffer: final(self)@.buffer, ..old(self)@ }),
            final(self)@.buffer.len() == old(self)@.buffer.len(),
    {
        if !self.lcdc.sprites_enable() {
            return ;
        }
        let mut index: usize = 0;
        while index < NUM_SPRITES
            invariant
                index <= NUM_SPRITES,
                old(self)@.wf(),
                old(self)@.ly < 144,
                self@ == old(self)@.with_sprites_upto(index as nat),
                self@ == (PpuView { buffer: self@.buffer, ..old(self)@ }),
                self@.buffer.len() == old(self)@.buffer.len(),
            decreases NUM_SPRITES - index,
        {
            self.draw_sprite(index);
            index += 1;
        }
    }

    /// Draws one object, if it has a row on the current line.
    fn draw_sprite(&mut self, index: usize)
        requires
            old(self)@.wf(),
            old(self)@.ly < 144,
            index < NUM_SPRITES,
        ensures
            final(self)@ == old(self)@.with_sprite(index as int),
            final(self)@ == (PpuView { buffer: final(self)@.buffer, ..old(self)@ }),
            final(self)@.buffer.len() == old(self)@.buffer.len(),
    {
        let sprite = SpriteData::new(
            slice_subrange(self.oam.as_slice(), 4 * index, 4 * index + 4),
            self.lcdc.sprite_size(),
        );
        let height: i16 = if self.lcdc.sprite_size() {
            16
        } else {
            8
        };
        let top = sprite.top();
        let line = self.ly as i16;
        if line < top || line >= top + height {
            return ;
        }
        let row: i16 = if sprite.flip_y() {
            height - 1 - (line - top)
        } else {
            line - top
        };
        let offset: usize = sprite.tile_id as usize * 16 + row as usize * 2;
        let low = self.vram[offset];
        let high = self.vram[offset + 1];
        let left = sprite.left();
        let active_palette = if sprite.palette_select() {
            self.obp1
        } else {
            self.obp0
        };
        let line_offset = (self.ly as usize) * WIDTH;
        let mut column: u8 = 0;
        while column < 8
            invariant
                column <= 8,
                old(self)@.wf(),
                old(self)@.ly < 144,
                sprite == old(self)@.sprite(index as int),
                old(self)@.sprite_on_line(sprite),
                left == sprite.spec_left(),
                line_offset == old(self)@.line_start(),
                offset == sprite.tile_id * 16 + old(self)@.sprite_row(sprite) * 2,
                low == old(self)@.vram[offset as int],
                high == old(self)@.vram[offset + 1],
                active_palette == if sprite.spec_palette_select() {
                    old(self)@.obp1
                } else {
                    old(self)@.obp0
                },
                self@ == old(self)@.with_sprite_pixels(sprite, column as nat),
                self@ == (PpuView { buffer: self@.buffer, ..old(self)@ }),
                self@.buffer.len() == old(self)@.buffer.len(),
            decreases 8 - column,
        {
            let x = left + column as i16;
            let bit = if sprite.flip_x() {
                7 - column
            } else {
                column
            };
            let color = color_index(low, high, bit);
            if color != 0 && 0 <= x && x < 160 {
                let position = line_offset + x as usize;
                if !sprite.sprite_behind() || self.buffer[position] == palette(0) {
                    self.buffer[position] = palette(get_color(active_palette, color));
                }
            }
            column += 1;
        }
    }
}

impl Memory for Ppu {
    open spec fn valid(&self) -> bool {
        self@.wf()
    }

    open spec fn read_spec(&self, address: u16) -> Result<u8, GameboyError> {
        self@.read(address)
    }

    open spec fn write_spec(
        pre: &Self,
        post: &Self,
        address: u16,
        value: u8,
        result: Result<(), GameboyError>,
    ) -> bool {
        (post@, result) == pre@.write(address, value)
    }

    fn write(&mut self, address: u16, value: u8) -> (result: Result<(), GameboyError>) {
        if address == IO_LCDC {
            self.lcdc.write(value);
        } else if address == IO_STAT {
            self.stat.write(value);
        } else if address == IO_SCY {
            self.scy = value;
        } else if address == IO_SCX {
            self.scx = value;
        } else if address == IO_LYC {
            self.lyc = value;
        } else if address == IO_BGP {
            self.bgp = value;
        } else if address == IO_OBP0 {
            self.obp0 = value;
        } else if address == IO_OBP1 {
            self.obp1 = value;
        } else if address == IO_WY {
            self.wy = value;
        } else if address == IO_WX {
            self.wx = value;
        } else if in_range(MMAP_VIDEO_RAM, address) {
            let offset = range_offset(MMAP_VIDEO_RAM, address);
            self.vram[offset] = value;
        } else if in_range(MMAP_SPRITE_OAM, address) {
            let offset = range_offset(MMAP_SPRITE_OAM, address);
            self.oam[offset] = value;
        } else {
            return Err(GameboyError::BadAddress(address));
        }
        Ok(())
    }

    fn read(&self, address: u16) -> (result: Result<u8, GameboyError>) {
        if address == IO_LCDC {
            Ok(self.lcdc.read())
        } else if address == IO_STAT {
            Ok(self.stat.read())
        } else if address == IO_SCY {
            Ok(self.scy)
        } else if address == IO_SCX {
            Ok(self.scx)
        } else if address == IO_LY {
            Ok(self.ly)
        } else if address == IO_LYC {
            Ok(self.lyc)
        } else if address == IO_BGP {
            Ok(self.bgp)
        } else if address == IO_OBP0 {
            Ok(self.obp0)
        } else if address == IO_OBP1 {
            Ok(self.obp1)
        } else if address == IO_WY {
            Ok(self.wy)
        } else if address == IO_WX {
            Ok(self.wx)
        } else if in_range(MMAP_VIDEO_RAM, address) {
            Ok(self.vram[range_offset(MMAP_VIDEO_RAM, address)])
        } else if in_range(MMAP_SPRITE_OAM, address) {
            Ok(self.oam[range_offset(MMAP_SPRITE_OAM, address)])
        } else {
            Err(GameboyError::BadAddress(address))
        }
    }
}

impl InterruptSource for Ppu {
    open spec fn pending(&self) -> InterruptMask {
        self@.interrupt_flag
    }

    open spec fn cleared(pre: &Self, post: &Self) -> bool {
        post@ == (PpuView { interrupt_flag: 0, ..pre@ })
    }

    fn interrupts(&self) -> (mask: InterruptMask) {
        self.interrupt_flag
    }

    fn clear(&mut self) {
        self.interrupt_flag = 0;
    }
}

/// The line that the controller is on when `position` cycles of the frame
/// have passed.
pub open spec fn line_at(position: int) -> int {
    position / 456
}

/// The mode that the controller is in when `position` cycles of the frame
/// have passed: the first 144 lines are visible ones, each of 80 cycles of
/// `SearchOam`, 172 of `RenderLine` and 204 of `Hblank`.
pub open spec fn mode_at(position: int) -> PpuMode {
    if position / 456 >= 144 {
        PpuMode::Vblank
    } else if position % 456 < 80 {
        PpuMode::SearchOam
    } else if position % 456 < 252 {
        PpuMode::RenderLine
    } else {
        PpuMode::Hblank
    }
}

proof fn lemma_sprite_pixels_frame(v: PpuView, sprite: SpriteData, count: nat)
    requires
        v.buffer.len() == WIDTH * HEIGHT,
        v.ly < 144,
    ensures
        v.with_sprite_pixels(sprite, count) == (PpuView {
            buffer: v.with_sprite_pixels(sprite, count).buffer,
            ..v
        }),
        v.with_sprite_pixels(sprite, count).buffer.len() == v.buffer.len(),
    decreases count,
{
    if count > 0 {
        lemma_sprite_pixels_frame(v, sprite, (count - 1) as nat);
    }
}

proof fn lemma_sprites_frame(v: PpuView, count: nat)
    requires
        v.buffer.len() == WIDTH * HEIGHT,
        v.ly < 144,
    ensures
        v.with_sprites_upto(count) == (PpuView { buffer: v.with_sprites_upto(count).buffer, ..v }),
        v.with_sprites_upto(count).buffer.len() == v.buffer.len(),
    decreases count,
{
    if count > 0 {
        lemma_sprites_frame(v, (count - 1) as nat);
        let before = v.with_sprites_upto((count - 1) as nat);
        lemma_sprite_pixels_frame(before, before.sprite(count - 1), 8);
    }
}

/// Drawing a line changes the frame buffer and nothing else, and keeps the
/// frame buffer's size.
pub proof fn lemma_rendered_frame(v: PpuView)
    requires
        v.buffer.len() == WIDTH * HEIGHT,
        v.ly < 144,
    ensures
        v.rendered() == (PpuView { buffer: v.rendered().buffer, ..v }),
        v.rendered().buffer.len() == v.buffer.len(),
{
    lemma_sprites_frame(v.with_cleared_line().with_background(), NUM_SPRITES as nat);
}

/// The end of a mode keeps the invariant and the control register, and moves
/// the controller to the frame position that follows the mode's last cycle.
pub proof fn lemma_leave_mode(v: PpuView)
    requires
        v.wf(),
        v.mode_counter == 0,
    ensures
        v.leave_mode().wf(),
        v.leave_mode().lcdc == v.lcdc,
        v.leave_mode().mode_counter == 0,
        v.leave_mode().frame_position() == (v.frame_position() + v.mode.spec_duration())
            % 70224,
{
    if v.mode == PpuMode::RenderLine {
        lemma_rendered_frame(v);
    }
}

/// The controller's mode and scanline are those of its frame position, which
/// stays within the frame.
pub proof fn lemma_position_timing(v: PpuView)
    requires
        v.wf(),
    ensures
        0 <= v.frame_position() < 70224,
        v.ly == line_at(v.frame_position()),
        v.mode == mode_at(v.frame_position()),
        v.mode_counter == v.frame_position() - v.ly * 456 - v.mode.spec_line_offset(),
{
}

proof fn lemma_mod_shift(position: int, rest: int)
    ensures
        ((position % 70224) + rest) % 70224 == (position + rest) % 70224,
{
    vstd::arithmetic::div_mod::lemma_add_mod_noop(position, rest, 70224);
    vstd::arithmetic::div_mod::lemma_add_mod_noop(position % 70224, rest, 70224);
}

/// While the display is on, `cycles` cycles move the controller `cycles`
/// positions forward in the frame of 70224 cycles, whatever the modes that
/// end on the way; the invariant and the control register are kept.
pub proof fn lemma_advance_position(v: PpuView, cycles: nat)
    requires
        v.wf(),
        v.lcdc.spec_power(),
    ensures
        v.advance(cycles).wf(),
        v.advance(cycles).lcdc == v.lcdc,
        v.advance(cycles).frame_position() == (v.frame_position() + cycles) % 70224,
    decreases cycles,
{
    if v.mode_counter + cycles < v.mode.spec_duration() {
        let waited = PpuView { mode_counter: (v.mode_counter + cycles) as usize, ..v };
        assert(v.advance(cycles) == waited);
        lemma_position_timing(waited);
        assert(waited.frame_position() == v.frame_position() + cycles);
    } else {
        let needed = (v.mode.spec_duration() - v.mode_counter) as nat;
        let rest = (cycles - needed) as nat;
        let ended = PpuView { mode_counter: 0, ..v };
        let next = ended.leave_mode();
        assert(v.advance(cycles) == next.advance(rest));
        lemma_leave_mode(ended);
        lemma_advance_position(next, rest);
        let end = ended.frame_position() + v.mode.spec_duration();
        assert(v.frame_position() + cycles == end + rest);
        lemma_mod_shift(end, rest as int);
    }
}

/// Advancing in two steps is advancing by their sum.
pub proof fn lemma_advance_additive(v: PpuView, first: nat, second: nat)
    ensures
        v.advance(first).advance(second) == v.advance(first + second),
    decreases first,
{
    if !v.lcdc.spec_power() || v.mode_counter >= v.mode.spec_duration() {
    } else if v.mode_counter + first < v.mode.spec_duration() {
        let waited = PpuView { mode_counter: (v.mode_counter + first) as usize, ..v };
        assert(PpuView { mode_counter: 0, ..waited } == PpuView { mode_counter: 0, ..v });
    } else {
        let needed = (v.mode.spec_duration() - v.mode_counter) as nat;
        let next = PpuView { mode_counter: 0, ..v }.leave_mode();
        lemma_advance_additive(next, (first - needed) as nat, second);
    }
}

/// The frame period: while the display is on, the mode, the scanline and the
/// cycles spent in the mode are the same 70224 cycles later, and within a
/// frame the scanline is the number of whole lines of 456 cycles that have
/// passed, so it takes each value from 0 to 153 once.
pub proof fn lemma_frame_period(v: PpuView, cycles: nat)
    requires
        v.wf(),
        v.lcdc.spec_power(),
    ensures
        v.advance(cycles + 70224).mode == v.advance(cycles).mode,
        v.advance(cycles + 70224).ly == v.advance(cycles).ly,
        v.advance(cycles + 70224).mode_counter == v.advance(cycles).mode_counter,
        v.advance(cycles).ly == line_at((v.frame_position() + cycles) % 70224),
        v.advance(cycles).mode == mode_at((v.frame_position() + cycles) % 70224),
        0 <= v.advance(cycles).ly <= 153,
{
    lemma_advance_position(v, cycles);
    lemma_advance_position(v, cycles + 70224);
    lemma_position_timing(v.advance(cycles));
    lemma_position_timing(v.advance(cycles + 70224));
    assert((v.frame_position() + cycles + 70224) % 70224 == (v.frame_position() + cycles)
        % 70224) by {
        vstd::arithmetic::div_mod::lemma_mod_add_multiples_vanish(
            v.frame_position() + cycles,
            70224,
        );
    }
}

} // verus!
