use vstd::prelude::*;

use crate::bits::lemma_u8_fields;

use super::bg::{lemma_sorted_bgs, sorted_bg_order, sorted_bgs};
use super::{bg_key, mode_has_bg, Video, VideoModel, HBLANK_DOT, VBLANK_DOT};

verus! {

/// Bit `i` of `bits`.
pub open spec fn bit_at(bits: u8, i: u8) -> bool {
    (bits >> i) & 1 == 1
}

fn bit(bits: u8, i: u8) -> (r: bool)
    requires
        i < 8,
    ensures
        r == bit_at(bits, i),
{
    (bits >> i) & 1 == 1
}

/// `bits` with its low byte replaced by `lo`.
pub open spec fn with_lo(bits: u16, lo: u8) -> u16 {
    (bits & 0xff00) | (lo as u16)
}

/// `bits` with its high byte replaced by `hi`.
pub open spec fn with_hi(bits: u16, hi: u8) -> u16 {
    (bits & 0xff) | ((hi as u16) << 8u16)
}

/// The low 4 bits of `bits` as flags.
pub open spec fn flags4(bits: u8) -> [bool; 4] {
    [bit_at(bits, 0), bit_at(bits, 1), bit_at(bits, 2), bit_at(bits, 3)]
}

fn flags4_exec(bits: u8) -> (r: [bool; 4])
    ensures
        r == flags4(bits),
{
    [bit(bits, 0), bit(bits, 1), bit(bits, 2), bit(bits, 3)]
}

/// The kind of background the display mode draws.
#[derive(Copy, Clone, Eq, PartialEq, Structural, Debug)]
pub enum BackgroundMode {
    Tile,
    Bitmap,
    Invalid,
}

/// The display control register (DISPCNT).
#[derive(Default, Copy, Clone, Debug)]
pub struct DisplayControl {
    pub mode: u8,
    pub frame_select: u8,
    pub hblank_oam_access: bool,
    pub obj_1d: bool,
    pub forced_blank: bool,
    pub display_bg: [bool; 4],
    pub display_obj: bool,
    pub display_bg_window: [bool; 2],
    pub display_obj_window: bool,
    pub cached_bits: u16,
}

/// The kind of background display mode `mode` draws: 0-2 tiles, 3-5 bitmaps.
pub open spec fn background_mode(mode: u8) -> BackgroundMode {
    if mode <= 2 {
        BackgroundMode::Tile
    } else if mode <= 5 {
        BackgroundMode::Bitmap
    } else {
        BackgroundMode::Invalid
    }
}

impl DisplayControl {
    /// The register with its low byte written: the mode (bits 0-2), the displayed frame (bit
    /// 4), H-blank OAM access (bit 5), 1D object mapping (bit 6) and forced blank (bit 7).
    pub open spec fn lo_written(self, bits: u8) -> DisplayControl {
        DisplayControl {
            cached_bits: with_lo(self.cached_bits, bits),
            mode: bits & 7,
            frame_select: (bits >> 4u8) & 1,
            hblank_oam_access: bit_at(bits, 5),
            obj_1d: bit_at(bits, 6),
            forced_blank: bit_at(bits, 7),
            ..self
        }
    }

    /// The register with its high byte written: which backgrounds (bits 0-3) and objects (bit
    /// 4) are shown, and which windows are on (bits 5-7).
    pub open spec fn hi_written(self, bits: u8) -> DisplayControl {
        DisplayControl {
            cached_bits: with_hi(self.cached_bits, bits),
            display_bg: flags4(bits),
            display_obj: bit_at(bits, 4),
            display_bg_window: [bit_at(bits, 5), bit_at(bits, 6)],
            display_obj_window: bit_at(bits, 7),
            ..self
        }
    }

    pub fn set_lo_bits(&mut self, bits: u8)
        ensures
            *final(self) == old(self).lo_written(bits),
    {
        self.cached_bits = (self.cached_bits & 0xff00) | (bits as u16);
        self.mode = bits & 7;
        self.frame_select = (bits >> 4u8) & 1;
        self.hblank_oam_access = bit(bits, 5);
        self.obj_1d = bit(bits, 6);
        self.forced_blank = bit(bits, 7);
    }

    pub fn set_hi_bits(&mut self, bits: u8)
        ensures
            *final(self) == old(self).hi_written(bits),
    {
        self.cached_bits = (self.cached_bits & 0xff) | ((bits as u16) << 8u16);
        self.display_bg = flags4_exec(bits);
        self.display_obj = bit(bits, 4);
        self.display_bg_window = [bit(bits, 5), bit(bits, 6)];
        self.display_obj_window = bit(bits, 7);
    }

    pub fn mode(&self) -> (r: BackgroundMode)
        ensures
            r == background_mode(self.mode),
    {
        if self.mode <= 2 {
            BackgroundMode::Tile
        } else if self.mode <= 5 {
            BackgroundMode::Bitmap
        } else {
            BackgroundMode::Invalid
        }
    }

    /// The VRAM offset of the displayed bitmap frame.
    pub fn frame_vram_offset(&self) -> (r: usize)
        requires
            self.frame_select <= 1,
        ensures
            r == self.frame_select * 0xa000,
    {
        self.frame_select as usize * 0xa000
    }

    /// The VRAM offset of the object tiles: past the background data, which is larger in the
    /// bitmap modes.
    pub fn obj_vram_offset(&self) -> (r: usize)
        ensures
            r == (if background_mode(self.mode) == BackgroundMode::Tile {
                0x1_0000usize
            } else {
                0x1_4000usize
            }),
    {
        match self.mode() {
            BackgroundMode::Tile => 0x1_0000,
            BackgroundMode::Bitmap | BackgroundMode::Invalid => 0x1_4000,
        }
    }
}

/// The display status register (DISPSTAT).
#[derive(Default, Copy, Clone, Debug)]
pub struct DisplayStatus {
    pub vblank_irq_enabled: bool,
    pub hblank_irq_enabled: bool,
    pub vcount_irq_enabled: bool,
    pub vcount_target: u8,
    pub cached_bits: u8,
}

impl DisplayStatus {
    /// The low byte as read: the written bits, with the V-blank (bit 0), H-blank (bit 1) and
    /// V-count match (bit 2) flags of the current position.
    pub open spec fn lo_bits_value(self, vblanking: bool, hblanking: bool, vcount: u8) -> u8 {
        (self.cached_bits & !7u8) | (if vblanking {
            1u8
        } else {
            0u8
        }) | (if hblanking {
            2u8
        } else {
            0u8
        }) | (if vcount == self.vcount_target {
            4u8
        } else {
            0u8
        })
    }

    pub fn lo_bits(self, vblanking: bool, hblanking: bool, vcount: u8) -> (r: u8)
        ensures
            r == self.lo_bits_value(vblanking, hblanking, vcount),
    {
        (self.cached_bits & !7u8) | (if vblanking {
            1u8
        } else {
            0u8
        }) | (if hblanking {
            2u8
        } else {
            0u8
        }) | (if vcount == self.vcount_target {
            4u8
        } else {
            0u8
        })
    }

    /// The register with its low byte written: the V-blank, H-blank and V-count interrupt
    /// enables (bits 3-5).
    pub open spec fn lo_written(self, bits: u8) -> DisplayStatus {
        DisplayStatus {
            cached_bits: bits,
            vblank_irq_enabled: bit_at(bits, 3),
            hblank_irq_enabled: bit_at(bits, 4),
            vcount_irq_enabled: bit_at(bits, 5),
            ..self
        }
    }

    pub fn set_lo_bits(&mut self, bits: u8)
        ensures
            *final(self) == old(self).lo_written(bits),
    {
        self.cached_bits = bits;
        self.vblank_irq_enabled = bit(bits, 3);
        self.hblank_irq_enabled = bit(bits, 4);
        self.vcount_irq_enabled = bit(bits, 5);
    }
}

/// How the screens of a text-mode background are laid out.
#[derive(Copy, Clone, Default, Debug, PartialEq, Eq, Structural)]
pub enum ScreenAreas {
    #[default]
    One,
    TwoHorizontal,
    TwoVertical,
    Four,
}

/// The layout numbered `bits` (0 to 3).
pub open spec fn screen_areas(bits: u8) -> ScreenAreas {
    if bits == 0 {
        ScreenAreas::One
    } else if bits == 1 {
        ScreenAreas::TwoHorizontal
    } else if bits == 2 {
        ScreenAreas::TwoVertical
    } else {
        ScreenAreas::Four
    }
}

/// The side in tiles of a background with layout `areas`: 32 for a text screen, else 16 << the
/// layout's number.
pub open spec fn screen_tile_len_of(areas: ScreenAreas, text_mode: bool) -> u8 {
    if text_mode {
        32
    } else {
        match areas {
            ScreenAreas::One => 16,
            ScreenAreas::TwoHorizontal => 32,
            ScreenAreas::TwoVertical => 64,
            ScreenAreas::Four => 128,
        }
    }
}

/// A background control register (BGxCNT).
#[derive(Copy, Clone, Default, Debug)]
pub struct BackgroundControl {
    pub priority: u8,
    pub dots_base_block: u8,
    pub mosaic: bool,
    pub color256: bool,
    pub screen_base_block: u8,
    pub wraparound: bool,
    pub screen_config: ScreenAreas,
    pub cached_bits: u16,
}

/// The parity (0 or 1) of `x`, as `rem_euclid(2)` gives it.
pub open spec fn parity(x: i32) -> int {
    if x % 2 == 0 {
        0
    } else {
        1
    }
}

impl BackgroundControl {
    /// The register with its low byte written: the priority (bits 0-1), the tile data block
    /// (bits 2-3), mosaic (bit 6) and 256-colour tiles (bit 7).
    pub open spec fn lo_written(self, bits: u8) -> BackgroundControl {
        BackgroundControl {
            cached_bits: with_lo(self.cached_bits, bits),
            priority: bits & 3,
            dots_base_block: (bits >> 2u8) & 3,
            mosaic: bit_at(bits, 6),
            color256: bit_at(bits, 7),
            ..self
        }
    }

    /// The register with its high byte written: the screen data block (bits 0-4), wraparound
    /// (bit 5) and the screen layout (bits 6-7).
    pub open spec fn hi_written(self, bits: u8) -> BackgroundControl {
        BackgroundControl {
            cached_bits: with_hi(self.cached_bits, bits),
            screen_base_block: bits & 0x1f,
            wraparound: bit_at(bits, 5),
            screen_config: screen_areas(bits >> 6u8),
            ..self
        }
    }

    pub fn set_lo_bits(&mut self, bits: u8)
        ensures
            *final(self) == old(self).lo_written(bits),
    {
        self.cached_bits = (self.cached_bits & 0xff00) | (bits as u16);
        self.priority = bits & 3;
        self.dots_base_block = (bits >> 2u8) & 3;
        self.mosaic = bit(bits, 6);
        self.color256 = bit(bits, 7);
    }

    pub fn set_hi_bits(&mut self, bits: u8)
        ensures
            *final(self) == old(self).hi_written(bits),
    {
        proof {
            lemma_u8_fields(bits);
            lemma_u8_fields(bits >> 6u8);
        }
        self.cached_bits = (self.cached_bits & 0xff) | ((bits as u16) << 8u16);
        self.screen_base_block = bits & 0x1f;
        self.wraparound = bit(bits, 5);
        let areas = bits >> 6u8;
        self.screen_config = if areas == 0 {
            ScreenAreas::One
        } else if areas == 1 {
            ScreenAreas::TwoHorizontal
        } else if areas == 2 {
            ScreenAreas::TwoVertical
        } else {
            ScreenAreas::Four
        };
    }

    /// The VRAM offset of the tile data: 16KiB blocks.
    pub fn dots_vram_offset(self) -> (r: usize)
        requires
            self.dots_base_block <= 3,
        ensures
            r == 0x4000 * self.dots_base_block,
    {
        0x4000 * self.dots_base_block as usize
    }

    /// The VRAM offset of screen `screen_idx`: 2KiB blocks from the screen data block.
    pub fn screen_vram_offset(self, screen_idx: u8) -> (r: usize)
        requires
            self.screen_base_block + screen_idx <= u8::MAX,
        ensures
            r == 0x800 * (self.screen_base_block + screen_idx),
    {
        0x800 * (self.screen_base_block + screen_idx) as usize
    }

    /// The side of the background in tiles: 32 for a text screen, else 16, 32, 64 or 128 by
    /// the layout.
    pub fn screen_tile_len(self, text_mode: bool) -> (r: u8)
        ensures
            r == screen_tile_len_of(self.screen_config, text_mode),
    {
        if text_mode {
            32
        } else {
            match self.screen_config {
                ScreenAreas::One => 16,
                ScreenAreas::TwoHorizontal => 32,
                ScreenAreas::TwoVertical => 64,
                ScreenAreas::Four => 128,
            }
        }
    }

    /// The index of the text-mode screen holding screen position (`screen_x`, `screen_y`): a
    /// single screen; two side by side; two stacked; or four in a square.
    pub fn text_mode_screen_index(self, screen_pos: (i32, i32)) -> (r: u8)
        ensures
            r == (match self.screen_config {
                ScreenAreas::One => 0,
                ScreenAreas::TwoHorizontal => parity(screen_pos.0),
                ScreenAreas::TwoVertical => parity(screen_pos.1),
                ScreenAreas::Four => 2 * parity(screen_pos.1) + parity(screen_pos.0),
            }),
    {
        let (screen_x, screen_y) = screen_pos;
        let x: u8 = if screen_x % 2 == 0 {
            0
        } else {
            1
        };
        let y: u8 = if screen_y % 2 == 0 {
            0
        } else {
            1
        };
        match self.screen_config {
            ScreenAreas::One => 0,
            ScreenAreas::TwoHorizontal => x,
            ScreenAreas::TwoVertical => y,
            ScreenAreas::Four => 2 * y + x,
        }
    }
}

/// A background's scroll offsets (BGxHOFS and BGxVOFS).
#[derive(Copy, Clone, Default, Debug)]
pub struct BackgroundOffset(pub u16, pub u16);

impl BackgroundOffset {
    pub fn get(self) -> (r: (u16, u16))
        ensures
            r == (self.0, self.1),
    {
        (self.0, self.1)
    }
}

/// `coord` with byte `idx` written as `bits`; the top byte holds only 4 bits, and writing it
/// sign-extends the 28-bit value.
pub open spec fn written_coord(coord: i32, idx: int, bits: u8) -> i32 {
    let u = coord as u32;
    if idx < 3 {
        let shift = (8 * idx) as u32;
        ((u & !(0xffu32 << shift)) | ((bits as u32) << shift)) as i32
    } else {
        let v = (u & !0x0f00_0000u32) | (((bits & 0xf) as u32) << 24u32);
        (if v & 0x0800_0000 != 0 {
            v | 0xf000_0000
        } else {
            v & 0x0fff_ffff
        }) as i32
    }
}

/// Writing a byte keeps a 28-bit coordinate a 28-bit coordinate.
pub proof fn lemma_written_coord_range(coord: i32, idx: int, bits: u8)
    requires
        -0x800_0000 <= coord < 0x800_0000,
        0 <= idx < 4,
    ensures
        -0x800_0000 <= written_coord(coord, idx, bits) < 0x800_0000,
{
    let s: u32 = (8 * idx) as u32;
    let c = coord;
    assert(((-0x800_0000i32 <= c && c < 0x800_0000i32 && s <= 16u32) ==> (-0x800_0000i32 <= ((
    (c as u32) & !(0xffu32 << s)) | ((bits as u32) << s)) as i32 && ((((c as u32) & !(0xffu32
        << s)) | ((bits as u32) << s)) as i32) < 0x800_0000i32)) && (-0x800_0000i32 <= (if (((c
        as u32) & !0x0f00_0000u32) | (((bits & 0xf) as u32) << 24u32)) & 0x0800_0000 != 0 {
        (((c as u32) & !0x0f00_0000u32) | (((bits & 0xf) as u32) << 24u32)) | 0xf000_0000
    } else {
        (((c as u32) & !0x0f00_0000u32) | (((bits & 0xf) as u32) << 24u32)) & 0x0fff_ffff
    }) as i32) && ((if (((c as u32) & !0x0f00_0000u32) | (((bits & 0xf) as u32) << 24u32))
        & 0x0800_0000 != 0 {
        (((c as u32) & !0x0f00_0000u32) | (((bits & 0xf) as u32) << 24u32)) | 0xf000_0000
    } else {
        (((c as u32) & !0x0f00_0000u32) | (((bits & 0xf) as u32) << 24u32)) & 0x0fff_ffff
    }) as i32) < 0x800_0000i32) by (bit_vector);
}

fn write_coord(coord: i32, idx: usize, bits: u8) -> (r: i32)
    requires
        idx < 4,
    ensures
        r == written_coord(coord, idx as int, bits),
{
    let u = coord as u32;
    if idx < 3 {
        let shift = (8 * idx) as u32;
        ((u & !(0xffu32 << shift)) | ((bits as u32) << shift)) as i32
    } else {
        let v = (u & !0x0f00_0000u32) | (((bits & 0xf) as u32) << 24u32);
        (if v & 0x0800_0000 != 0 {
            v | 0xf000_0000
        } else {
            v & 0x0fff_ffff
        }) as i32
    }
}

/// An affine background's reference point (BGxX and BGxY), as written and as used while
/// drawing.
#[derive(Copy, Clone, Default, Debug)]
pub struct ReferencePoint {
    pub external: (i32, i32),
    pub internal: (i32, i32),
}

impl ReferencePoint {
    /// The point with byte `idx` of its X coordinate written, which also becomes the internal
    /// X.
    pub open spec fn x_written(self, idx: int, bits: u8) -> ReferencePoint {
        let x = written_coord(self.external.0, idx, bits);
        ReferencePoint { external: (x, self.external.1), internal: (x, self.internal.1) }
    }

    /// The point with byte `idx` of its Y coordinate written, which also becomes the internal
    /// Y.
    pub open spec fn y_written(self, idx: int, bits: u8) -> ReferencePoint {
        let y = written_coord(self.external.1, idx, bits);
        ReferencePoint { external: (self.external.0, y), internal: (self.internal.0, y) }
    }

    pub fn set_x_byte(&mut self, idx: usize, bits: u8)
        requires
            idx < 4,
        ensures
            *final(self) == old(self).x_written(idx as int, bits),
    {
        self.external.0 = write_coord(self.external.0, idx, bits);
        self.internal.0 = self.external.0;
    }

    pub fn set_y_byte(&mut self, idx: usize, bits: u8)
        requires
            idx < 4,
        ensures
            *final(self) == old(self).y_written(idx as int, bits),
    {
        self.external.1 = write_coord(self.external.1, idx, bits);
        self.internal.1 = self.external.1;
    }
}

/// An affine background's transformation matrix (BGxPA to BGxPD), in 8.8 fixed point.
#[derive(Copy, Clone, Debug)]
pub struct BackgroundAffine {
    pub a: i16,
    pub b: i16,
    pub c: i16,
    pub d: i16,
}

impl Default for BackgroundAffine {
    /// The identity transformation.
    fn default() -> (r: Self)
        ensures
            r == (BackgroundAffine { a: 0x100, b: 0, c: 0, d: 0x100 }),
    {
        BackgroundAffine { a: 0x100, b: 0, c: 0, d: 0x100 }
    }
}

/// A window's edges (WINxH and WINxV).
#[derive(Default, Copy, Clone, Debug)]
pub struct WindowDimensions {
    pub horiz: (u8, u8),
    pub vert: (u8, u8),
}

/// What a window shows (a byte of WININ or WINOUT).
#[derive(Copy, Clone, Default, Debug)]
pub struct WindowControl {
    pub display_bg: [bool; 4],
    pub display_obj: bool,
    pub blendfx_enabled: bool,
    pub cached_bits: u8,
}

/// The window control register written with `bits`: which backgrounds (bits 0-3) and objects
/// (bit 4) show, and whether blending applies (bit 5).
pub open spec fn window_control_of(bits: u8) -> WindowControl {
    WindowControl {
        cached_bits: bits,
        display_bg: flags4(bits),
        display_obj: bit_at(bits, 4),
        blendfx_enabled: bit_at(bits, 5),
    }
}

impl WindowControl {
    pub fn set_bits(&mut self, bits: u8)
        ensures
            *final(self) == window_control_of(bits),
    {
        self.cached_bits = bits;
        self.display_bg = flags4_exec(bits);
        self.display_obj = bit(bits, 4);
        self.blendfx_enabled = bit(bits, 5);
    }
}

/// The mosaic size written as `bits`.
pub open spec fn mosaic_size_of(bits: u8) -> MosaicSize {
    MosaicSize(((bits & 0xf) + 1) as u8, ((bits >> 4u8) + 1) as u8)
}

/// A mosaic's block width and height in dots (from MOSAIC).
#[derive(Copy, Clone, Default, Debug)]
pub struct MosaicSize(pub u8, pub u8);

impl MosaicSize {
    /// Writes the register: width less one in the low nibble, height less one in the high.
    pub fn set_bits(&mut self, bits: u8)
        ensures
            *final(self) == mosaic_size_of(bits),
    {
        proof {
            lemma_u8_fields(bits);
        }
        self.0 = (bits & 0xf) + 1;
        self.1 = (bits >> 4u8) + 1;
    }

    pub fn get(self) -> (r: (u8, u8))
        ensures
            r == (self.0, self.1),
    {
        (self.0, self.1)
    }
}

/// The colour special effect.
#[derive(Copy, Clone, Eq, PartialEq, Structural, Default, Debug)]
pub enum BlendMode {
    #[default]
    Off,
    Alpha,
    Brighten,
    Dim,
}

/// The effect numbered `bits` (0 to 3).
pub open spec fn blend_mode(bits: u8) -> BlendMode {
    if bits == 0 {
        BlendMode::Off
    } else if bits == 1 {
        BlendMode::Alpha
    } else if bits == 2 {
        BlendMode::Brighten
    } else {
        BlendMode::Dim
    }
}

/// The colour special effects selection (BLDCNT).
#[derive(Copy, Clone, Default, Debug)]
pub struct BlendControl {
    pub bg_target: [[bool; 4]; 2],
    pub obj_target: [bool; 2],
    pub backdrop_target: [bool; 2],
    pub mode: BlendMode,
    pub cached_bits: u16,
}

impl BlendControl {
    /// The register with its low byte written: the first target's backgrounds (bits 0-3),
    /// objects (bit 4) and backdrop (bit 5), and the effect (bits 6-7).
    pub open spec fn lo_written(self, bits: u8) -> BlendControl {
        BlendControl {
            cached_bits: with_lo(self.cached_bits, bits),
            bg_target: [flags4(bits), self.bg_target[1]],
            obj_target: [bit_at(bits, 4), self.obj_target[1]],
            backdrop_target: [bit_at(bits, 5), self.backdrop_target[1]],
            mode: blend_mode(bits >> 6u8),
        }
    }

    /// The register with its high byte written: the second target's backgrounds (bits 0-3),
    /// objects (bit 4) and backdrop (bit 5).
    pub open spec fn hi_written(self, bits: u8) -> BlendControl {
        BlendControl {
            cached_bits: with_hi(self.cached_bits, bits),
            bg_target: [self.bg_target[0], flags4(bits)],
            obj_target: [self.obj_target[0], bit_at(bits, 4)],
            backdrop_target: [self.backdrop_target[0], bit_at(bits, 5)],
            mode: self.mode,
        }
    }

    pub fn set_lo_bits(&mut self, bits: u8)
        ensures
            *final(self) == old(self).lo_written(bits),
    {
        proof {
            lemma_u8_fields(bits >> 6u8);
        }
        self.cached_bits = (self.cached_bits & 0xff00) | (bits as u16);
        self.bg_target = [flags4_exec(bits), self.bg_target[1]];
        self.obj_target = [bit(bits, 4), self.obj_target[1]];
        self.backdrop_target = [bit(bits, 5), self.backdrop_target[1]];
        let m = bits >> 6u8;
        self.mode = if m == 0 {
            BlendMode::Off
        } else if m == 1 {
            BlendMode::Alpha
        } else if m == 2 {
            BlendMode::Brighten
        } else {
            BlendMode::Dim
        };
    }

    pub fn set_hi_bits(&mut self, bits: u8)
        ensures
            *final(self) == old(self).hi_written(bits),
    {
        self.cached_bits = (self.cached_bits & 0xff) | ((bits as u16) << 8u16);
        self.bg_target = [self.bg_target[0], flags4_exec(bits)];
        self.obj_target = [self.obj_target[0], bit(bits, 4)];
        self.backdrop_target = [self.backdrop_target[0], bit(bits, 5)];
    }
}

/// A blending coefficient (a byte of BLDALPHA, or BLDY), in 16ths.
#[derive(Copy, Clone, Default, Debug)]
pub struct BlendCoefficient(pub u8);

/// A scroll offset's high byte written: only bit 8 is kept.
pub open spec fn ofs_hi_written(v: u16, value: u8) -> u16 {
    (v & !0x100u16) | (((value & 1) as u16) << 8u16)
}

/// A scroll offset with the byte at I/O address `addr` written.
pub open spec fn ofs_written(v: u16, addr: u32, value: u8) -> u16 {
    if addr % 2 == 0 {
        with_lo(v, value)
    } else {
        ofs_hi_written(v, value)
    }
}

/// A signed half-word with its low (`hi` false) or high byte written.
pub open spec fn i16_byte_written(v: i16, hi: bool, value: u8) -> i16 {
    (if hi {
        with_hi(v as u16, value)
    } else {
        with_lo(v as u16, value)
    }) as i16
}

impl BackgroundAffine {
    /// The matrix with a byte of parameter `k` (0: a, 1: b, 2: c, 3: d) written.
    pub open spec fn param_written(self, k: int, hi: bool, value: u8) -> BackgroundAffine {
        if k == 0 {
            BackgroundAffine { a: i16_byte_written(self.a, hi, value), ..self }
        } else if k == 1 {
            BackgroundAffine { b: i16_byte_written(self.b, hi, value), ..self }
        } else if k == 2 {
            BackgroundAffine { c: i16_byte_written(self.c, hi, value), ..self }
        } else {
            BackgroundAffine { d: i16_byte_written(self.d, hi, value), ..self }
        }
    }
}

fn i16_write_byte(v: i16, hi: bool, value: u8) -> (r: i16)
    ensures
        r == i16_byte_written(v, hi, value),
{
    (if hi {
        (v as u16 & 0xff) | ((value as u16) << 8u16)
    } else {
        (v as u16 & 0xff00) | (value as u16)
    }) as i16
}

fn ofs_write(v: u16, addr: u32, value: u8) -> (r: u16)
    ensures
        r == ofs_written(v, addr, value),
{
    if addr % 2 == 0 {
        (v & 0xff00) | (value as u16)
    } else {
        (v & !0x100u16) | (((value & 1) as u16) << 8u16)
    }
}

/// The four backgrounds that display mode `mode` draws from tiles, as flags.
pub open spec fn mode_bgs(mode: u8) -> Seq<bool> {
    Seq::new(4, |i: int| mode_has_bg(mode, i))
}

impl VideoModel {
    /// The unit with the low byte of DISPCNT written; switching to another tile mode resets
    /// the drawing order to that mode's backgrounds, sorted.
    pub open spec fn dispcnt_lo_written(self, bits: u8) -> VideoModel {
        let d = self.dispcnt.lo_written(bits);
        VideoModel {
            dispcnt: d,
            tile_mode_bg_order: if self.dispcnt.mode != d.mode && background_mode(d.mode)
                == BackgroundMode::Tile {
                sorted_bgs(self.bgcnt, mode_bgs(d.mode))
            } else {
                self.tile_mode_bg_order
            },
            ..self
        }
    }

    /// The byte an I/O read of `addr` (an offset in the video registers) yields: the written
    /// bits of DISPCNT, GREENSWP, BGxCNT, WININ, WINOUT, BLDCNT and BLDALPHA; DISPSTAT with the
    /// V-blank (not on the last line), H-blank and V-count match flags; the current line; 0 for
    /// the write-only registers.
    pub open spec fn io_read(self, addr: u32) -> u8 {
        if addr == 0x00 {
            (self.dispcnt.cached_bits & 0xff) as u8
        } else if addr == 0x01 {
            (self.dispcnt.cached_bits >> 8u16) as u8
        } else if addr == 0x02 {
            (self.greenswp & 0xff) as u8
        } else if addr == 0x03 {
            (self.greenswp >> 8u16) as u8
        } else if addr == 0x04 {
            self.dispstat.lo_bits_value(
                self.y >= VBLANK_DOT && self.y != 227,
                self.x >= HBLANK_DOT,
                self.y,
            )
        } else if addr == 0x05 {
            self.dispstat.vcount_target
        } else if addr == 0x06 {
            self.y
        } else if 0x08 <= addr < 0x10 {
            let bits = self.bgcnt[(addr - 8) / 2].cached_bits;
            if addr % 2 == 0 {
                (bits & 0xff) as u8
            } else {
                (bits >> 8u16) as u8
            }
        } else if addr == 0x48 {
            self.winin[0].cached_bits
        } else if addr == 0x49 {
            self.winin[1].cached_bits
        } else if addr == 0x4a {
            self.winout.cached_bits
        } else if addr == 0x4b {
            self.winobj.cached_bits
        } else if addr == 0x50 {
            (self.bldcnt.cached_bits & 0xff) as u8
        } else if addr == 0x51 {
            (self.bldcnt.cached_bits >> 8u16) as u8
        } else if addr == 0x52 {
            self.bldalpha.0
        } else if addr == 0x53 {
            self.bldalpha.1
        } else {
            0
        }
    }

    /// The unit after an I/O write of `value` to `addr` (an offset in the video registers).
    pub open spec fn io_written(self, addr: u32, value: u8) -> VideoModel {
        if addr == 0x00 {
            self.dispcnt_lo_written(value)
        } else if addr == 0x01 {
            VideoModel { dispcnt: self.dispcnt.hi_written(value), ..self }
        } else if addr == 0x02 {
            VideoModel { greenswp: with_lo(self.greenswp, value), ..self }
        } else if addr == 0x03 {
            VideoModel { greenswp: with_hi(self.greenswp, value), ..self }
        } else if addr == 0x04 {
            VideoModel { dispstat: self.dispstat.lo_written(value), ..self }
        } else if addr == 0x05 {
            VideoModel { dispstat: DisplayStatus { vcount_target: value, ..self.dispstat }, ..self }
        } else if 0x08 <= addr < 0x10 {
            if addr % 2 == 0 {
                self.bgcnt_lo_written((addr - 8) / 2, value)
            } else {
                self.bgcnt_hi_written((addr - 8) / 2, value)
            }
        } else if 0x10 <= addr < 0x20 {
            let i = (addr - 0x10) / 4;
            let o = self.bgofs[i];
            VideoModel {
                bgofs: self.bgofs.update(
                    i,
                    if (addr / 2) % 2 == 1 {
                        BackgroundOffset(o.0, ofs_written(o.1, addr, value))
                    } else {
                        BackgroundOffset(ofs_written(o.0, addr, value), o.1)
                    },
                ),
                ..self
            }
        } else if 0x20 <= addr < 0x28 || 0x30 <= addr < 0x38 {
            let j: int = if addr < 0x30 {
                0
            } else {
                1
            };
            VideoModel {
                bgp: self.bgp.update(
                    j,
                    self.bgp[j].param_written(((addr % 8) / 2) as int, addr % 2 == 1, value),
                ),
                ..self
            }
        } else if 0x28 <= addr < 0x30 || 0x38 <= addr < 0x40 {
            let j: int = if addr < 0x30 {
                0
            } else {
                1
            };
            let p = self.bgref[j];
            VideoModel {
                bgref: self.bgref.update(
                    j,
                    if addr % 8 >= 4 {
                        p.y_written((addr % 4) as int, value)
                    } else {
                        p.x_written((addr % 4) as int, value)
                    },
                ),
                ..self
            }
        } else if 0x40 <= addr < 0x48 {
            let j = ((addr - 0x40) / 2) % 2;
            let w = self.win[j];
            let edges = if addr >= 0x44 {
                w.vert
            } else {
                w.horiz
            };
            let edges = if addr % 2 == 0 {
                (edges.0, value)
            } else {
                (value, edges.1)
            };
            VideoModel {
                win: self.win.update(
                    j,
                    if addr >= 0x44 {
                        WindowDimensions { vert: edges, ..w }
                    } else {
                        WindowDimensions { horiz: edges, ..w }
                    },
                ),
                ..self
            }
        } else if addr == 0x48 || addr == 0x49 {
            VideoModel { winin: self.winin.update(addr - 0x48, window_control_of(value)), ..self }
        } else if addr == 0x4a {
            VideoModel { winout: window_control_of(value), ..self }
        } else if addr == 0x4b {
            VideoModel { winobj: window_control_of(value), ..self }
        } else if addr == 0x4c {
            VideoModel { mosaic_bg: mosaic_size_of(value), ..self }
        } else if addr == 0x4d {
            VideoModel { mosaic_obj: mosaic_size_of(value), ..self }
        } else if addr == 0x50 {
            VideoModel { bldcnt: self.bldcnt.lo_written(value), ..self }
        } else if addr == 0x51 {
            VideoModel { bldcnt: self.bldcnt.hi_written(value), ..self }
        } else if addr == 0x52 {
            VideoModel { bldalpha: (value, self.bldalpha.1), ..self }
        } else if addr == 0x53 {
            VideoModel { bldalpha: (self.bldalpha.0, value), ..self }
        } else if addr == 0x54 {
            VideoModel { bldy: value, ..self }
        } else {
            self
        }
    }
}

impl Video {
    /// Reads the video register byte at `addr` (an offset in the I/O registers).
    pub fn read_byte(&self, addr: u32) -> (r: u8)
        requires
            self.wf(),
            addr < 0x57,
        ensures
            r == self@.io_read(addr),
    {
        match addr {
            0x00 => (self.dispcnt.cached_bits & 0xff) as u8,
            0x01 => (self.dispcnt.cached_bits >> 8u16) as u8,
            0x02 => (self.greenswp & 0xff) as u8,
            0x03 => (self.greenswp >> 8u16) as u8,
            0x04 => self.dispstat.lo_bits(
                self.y >= VBLANK_DOT && self.y != 227,
                self.x >= HBLANK_DOT as u16,
                self.y,
            ),
            0x05 => self.dispstat.vcount_target,
            0x06 => self.y,
            0x08..=0x0f => {
                let bits = self.bgcnt[((addr - 8) / 2) as usize].cached_bits;
                if addr % 2 == 0 {
                    (bits & 0xff) as u8
                } else {
                    (bits >> 8u16) as u8
                }
            },
            0x48 => self.winin[0].cached_bits,
            0x49 => self.winin[1].cached_bits,
            0x4a => self.winout.cached_bits,
            0x4b => self.winobj.cached_bits,
            0x50 => (self.bldcnt.cached_bits & 0xff) as u8,
            0x51 => (self.bldcnt.cached_bits >> 8u16) as u8,
            0x52 => self.bldalpha[0].0,
            0x53 => self.bldalpha[1].0,
            _ => 0,
        }
    }

    fn write_dispcnt_lo(&mut self, value: u8)
        requires
            old(self).wf(),
        ensures
            final(self).wf(),
            final(self)@ == old(self)@.dispcnt_lo_written(value),
    {
        let ghost before = self@;
        proof {
            lemma_u8_fields(value);
        }
        let old_mode = self.dispcnt.mode;
        self.dispcnt.set_lo_bits(value);
        let mode = self.dispcnt.mode;
        if old_mode != mode && self.dispcnt.mode() == BackgroundMode::Tile {
            let members = [mode == 0 || mode == 1, mode == 0 || mode == 1, true, mode == 0 || mode
                == 2];
            assert(members@ =~= mode_bgs(mode));
            self.tile_mode_bg_order = sorted_bg_order(&self.bgcnt, members);
            proof {
                lemma_sorted_bgs(self@.bgcnt, mode_bgs(mode));
                assert forall|i: int| 0 <= i < 4 implies (#[trigger] mode_bgs(mode)[i]
                    == mode_has_bg(mode, i)) by {}
            }
        }
    }

    fn write_bgref(&mut self, j: usize, addr: u32, value: u8)
        requires
            old(self).wf(),
            j < 2,
        ensures
            final(self).wf(),
            final(self)@ == (VideoModel {
                bgref: old(self)@.bgref.update(
                    j as int,
                    if addr % 8 >= 4 {
                        old(self)@.bgref[j as int].y_written((addr % 4) as int, value)
                    } else {
                        old(self)@.bgref[j as int].x_written((addr % 4) as int, value)
                    },
                ),
                ..old(self)@
            }),
    {
        let ghost before = self@;
        let mut p = self.bgref[j];
        assert(p.bounded(self.x, self.y));
        proof {
            lemma_written_coord_range(p.external.0, (addr % 4) as int, value);
            lemma_written_coord_range(p.external.1, (addr % 4) as int, value);
        }
        if addr % 8 >= 4 {
            p.set_y_byte((addr % 4) as usize, value);
        } else {
            p.set_x_byte((addr % 4) as usize, value);
        }
        self.bgref[j] = p;
        assert forall|i: int| 0 <= i < 2 implies #[trigger] self@.bgref[i].bounded(self.x, self.y) by {
            if i != j {
                assert(self@.bgref[i] == before.bgref[i]);
            }
        }
    }

    /// Writes `value` to the video register byte at `addr` (an offset in the I/O registers).
    #[verifier::rlimit(40)]
    pub fn write_byte(&mut self, addr: u32, value: u8)
        requires
            old(self).wf(),
            addr < 0x57,
        ensures
            final(self).wf(),
            final(self)@ == old(self)@.io_written(addr, value),
    {
        proof {
            lemma_u8_fields(value);
        }
        match addr {
            0x00 => self.write_dispcnt_lo(value),
            0x01 => self.dispcnt.set_hi_bits(value),
            0x02 => {
                self.greenswp = (self.greenswp & 0xff00) | (value as u16);
            },
            0x03 => {
                self.greenswp = (self.greenswp & 0xff) | ((value as u16) << 8u16);
            },
            0x04 => self.dispstat.set_lo_bits(value),
            0x05 => {
                self.dispstat.vcount_target = value;
            },
            0x08..=0x0f => {
                let i = ((addr - 8) / 2) as usize;
                if addr % 2 == 0 {
                    self.set_bgcnt_lo_bits(i, value);
                } else {
                    self.set_bgcnt_hi_bits(i, value);
                }
            },
            0x10..=0x1f => {
                let i = ((addr - 0x10) / 4) as usize;
                let mut o = self.bgofs[i];
                if (addr / 2) % 2 == 1 {
                    o.1 = ofs_write(o.1, addr, value);
                } else {
                    o.0 = ofs_write(o.0, addr, value);
                }
                self.bgofs[i] = o;
            },
            0x20..=0x27 | 0x30..=0x37 => {
                let j: usize = if addr < 0x30 {
                    0
                } else {
                    1
                };
                let k = (addr % 8) / 2;
                let hi = addr % 2 == 1;
                let mut p = self.bgp[j];
                if k == 0 {
                    p.a = i16_write_byte(p.a, hi, value);
                } else if k == 1 {
                    p.b = i16_write_byte(p.b, hi, value);
                } else if k == 2 {
                    p.c = i16_write_byte(p.c, hi, value);
                } else {
                    p.d = i16_write_byte(p.d, hi, value);
                }
                self.bgp[j] = p;
            },
            0x28..=0x2f | 0x38..=0x3f => {
                let j: usize = if addr < 0x30 {
                    0
                } else {
                    1
                };
                self.write_bgref(j, addr, value);
            },
            0x40..=0x47 => {
                let j = (((addr - 0x40) / 2) % 2) as usize;
                let mut w = self.win[j];
                if addr >= 0x44 {
                    if addr % 2 == 0 {
                        w.vert.1 = value;
                    } else {
                        w.vert.0 = value;
                    }
                } else {
                    if addr % 2 == 0 {
                        w.horiz.1 = value;
                    } else {
                        w.horiz.0 = value;
                    }
                }
                self.win[j] = w;
            },
            0x48 => self.winin[0].set_bits(value),
            0x49 => self.winin[1].set_bits(value),
            0x4a => self.winout.set_bits(value),
            0x4b => self.winobj.set_bits(value),
            0x4c => self.mosaic_bg.set_bits(value),
            0x4d => self.mosaic_obj.set_bits(value),
            0x50 => self.bldcnt.set_lo_bits(value),
            0x51 => self.bldcnt.set_hi_bits(value),
            0x52 => {
                self.bldalpha[0].0 = value;
            },
            0x53 => {
                self.bldalpha[1].0 = value;
            },
            0x54 => {
                self.bldy.0 = value;
            },
            _ => {},
        }
    }
}

impl DisplayControl {
    /// The register's value at power-on: all clear.
    pub open spec fn reset() -> DisplayControl {
        DisplayControl {
            mode: 0,
            frame_select: 0,
            hblank_oam_access: false,
            obj_1d: false,
            forced_blank: false,
            display_bg: [false, false, false, false],
            display_obj: false,
            display_bg_window: [false, false],
            display_obj_window: false,
            cached_bits: 0,
        }
    }

    pub fn new() -> (r: DisplayControl)
        ensures
            r == DisplayControl::reset(),
    {
        DisplayControl {
            mode: 0,
            frame_select: 0,
            hblank_oam_access: false,
            obj_1d: false,
            forced_blank: false,
            display_bg: [false, false, false, false],
            display_obj: false,
            display_bg_window: [false, false],
            display_obj_window: false,
            cached_bits: 0,
        }
    }
}

impl BackgroundControl {
    /// The register's value at power-on: all clear.
    pub open spec fn reset() -> BackgroundControl {
        BackgroundControl {
            priority: 0,
            dots_base_block: 0,
            mosaic: false,
            color256: false,
            screen_base_block: 0,
            wraparound: false,
            screen_config: ScreenAreas::One,
            cached_bits: 0,
        }
    }

    pub fn new() -> (r: BackgroundControl)
        ensures
            r == BackgroundControl::reset(),
    {
        BackgroundControl {
            priority: 0,
            dots_base_block: 0,
            mosaic: false,
            color256: false,
            screen_base_block: 0,
            wraparound: false,
            screen_config: ScreenAreas::One,
            cached_bits: 0,
        }
    }
}

impl WindowControl {
    /// The register's value at power-on: nothing shown.
    pub open spec fn reset() -> WindowControl {
        WindowControl {
            display_bg: [false, false, false, false],
            display_obj: false,
            blendfx_enabled: false,
            cached_bits: 0,
        }
    }

    pub fn new() -> (r: WindowControl)
        ensures
            r == WindowControl::reset(),
    {
        WindowControl {
            display_bg: [false, false, false, false],
            display_obj: false,
            blendfx_enabled: false,
            cached_bits: 0,
        }
    }
}

impl BlendControl {
    /// The register's value at power-on: no targets, no effect.
    pub open spec fn reset() -> BlendControl {
        BlendControl {
            bg_target: [[false, false, false, false], [false, false, false, false]],
            obj_target: [false, false],
            backdrop_target: [false, false],
            mode: BlendMode::Off,
            cached_bits: 0,
        }
    }

    pub fn new() -> (r: BlendControl)
        ensures
            r == BlendControl::reset(),
    {
        BlendControl {
            bg_target: [[false, false, false, false], [false, false, false, false]],
            obj_target: [false, false],
            backdrop_target: [false, false],
            mode: BlendMode::Off,
            cached_bits: 0,
        }
    }
}

/// Replacing a byte of a half-word gives that byte back and keeps the other.
pub proof fn lemma_hword_bytes(bits: u16, v: u8)
    ensures
        (with_lo(bits, v) & 0xff) as u8 == v,
        (with_hi(bits, v) >> 8u16) as u8 == v,
        with_lo(bits, v) >> 8u16 == bits >> 8u16,
        with_hi(bits, v) & 0xff == bits & 0xff,
{
    assert((((bits & 0xff00) | (v as u16)) & 0xff) as u8 == v && ((((bits & 0xff) | ((v as u16)
        << 8u16)) >> 8u16) as u8 == v) && ((bits & 0xff00) | (v as u16)) >> 8u16 == bits >> 8u16
        && ((bits & 0xff) | ((v as u16) << 8u16)) & 0xff == bits & 0xff) by (bit_vector);
}

/// The video registers that can be both read and written (DISPCNT, GREENSWP, the V-count
/// target, BGxCNT, WININ, WINOUT, BLDCNT and BLDALPHA) read back the byte last written.
pub proof fn lemma_io_read_back(m: VideoModel, addr: u32, value: u8)
    requires
        m.wf(),
        addr <= 3 || addr == 5 || 8 <= addr < 0x10 || 0x48 <= addr < 0x4c || 0x50 <= addr < 0x54,
    ensures
        m.io_written(addr, value).io_read(addr) == value,
{
    let w = m.io_written(addr, value);
    if 8 <= addr < 0x10 {
        let i = (addr - 8) / 2;
        lemma_hword_bytes(m.bgcnt[i].cached_bits, value);
        assert(w.bgcnt[i].cached_bits == (if addr % 2 == 0 {
            with_lo(m.bgcnt[i].cached_bits, value)
        } else {
            with_hi(m.bgcnt[i].cached_bits, value)
        }));
    } else if addr <= 1 {
        lemma_hword_bytes(m.dispcnt.cached_bits, value);
    } else if addr <= 3 {
        lemma_hword_bytes(m.greenswp, value);
    } else if addr >= 0x50 {
        lemma_hword_bytes(m.bldcnt.cached_bits, value);
    }
}

} // verus!
