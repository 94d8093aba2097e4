use vstd::prelude::*;

use super::bg::{affine_transform_pos, affine_transformed, flip_tile_dot_pos, flipped, DotPaletteInfo};
use super::reg::{background_mode, BackgroundMode, WindowControl};
use super::{hword_at, load_hword, oam_entry, Video, VideoModel, TILE_DOT_LEN, VBLANK_DOT};

verus! {

/// Bit `i` of `value`.
pub open spec fn bit16(value: u16, i: u16) -> bool {
    (value >> i) & 1 == 1
}

fn bit(value: u16, i: u16) -> (r: bool)
    requires
        i < 16,
    ensures
        r == bit16(value, i),
{
    (value >> i) & 1 == 1
}

/// How an object is drawn.
#[derive(Debug, Copy, Clone, Eq, PartialEq, Structural)]
pub enum Mode {
    Normal,
    AlphaBlend,
    WindowMask,
}

/// An object's affine transformation setting.
#[derive(Debug, Copy, Clone)]
pub enum AffineAttribute {
    Enabled { double_size: bool, params_idx: u8 },
    Disabled { hidden: bool, flip: (bool, bool) },
}

impl AffineAttribute {
    pub fn is_double_size(self) -> (r: bool)
        ensures
            r == (self matches AffineAttribute::Enabled { double_size: true, .. }),
    {
        match self {
            AffineAttribute::Enabled { double_size, .. } => double_size,
            AffineAttribute::Disabled { .. } => false,
        }
    }
}

/// An object's shape.
#[derive(Debug, Copy, Clone, Eq, PartialEq, Structural)]
pub enum Shape {
    Square,
    RectangleHorizontal,
    RectangleVertical,
    Invalid,
}

/// The model of an object's attributes.
pub struct AttributesModel {
    pub pos: (i16, i16),
    pub affine: AffineAttribute,
    pub mode: Option<Mode>,
    pub mosaic: bool,
    pub shape: Shape,
    pub size: u8,
    pub dots_base_idx: u16,
    pub priority: u8,
    pub palette_idx: Option<u16>,
    pub tiles_size: (u8, u8),
    pub clip_dots_size: (u8, u8),
}

/// An object's attributes, decoded from its three OAM half-words.
#[derive(Debug, Copy, Clone)]
pub struct Attributes {
    pos: (i16, i16),
    affine: AffineAttribute,
    mode: Option<Mode>,
    mosaic: bool,
    shape: Shape,
    size: u8,
    dots_base_idx: u16,
    priority: u8,
    palette_idx: Option<u16>,
    cached_tiles_size: (u8, u8),
    cached_clip_dots_size: (u8, u8),
}

impl View for Attributes {
    type V = AttributesModel;

    closed spec fn view(&self) -> AttributesModel {
        AttributesModel {
            pos: self.pos,
            affine: self.affine,
            mode: self.mode,
            mosaic: self.mosaic,
            shape: self.shape,
            size: self.size,
            dots_base_idx: self.dots_base_idx,
            priority: self.priority,
            palette_idx: self.palette_idx,
            tiles_size: self.cached_tiles_size,
            clip_dots_size: self.cached_clip_dots_size,
        }
    }
}

/// The shape numbered `bits` (0 to 3).
pub open spec fn shape_of(bits: u16) -> Shape {
    if bits == 0 {
        Shape::Square
    } else if bits == 1 {
        Shape::RectangleHorizontal
    } else if bits == 2 {
        Shape::RectangleVertical
    } else {
        Shape::Invalid
    }
}

/// The drawing mode numbered `bits` (0 to 3); 3 is not a mode.
pub open spec fn mode_of(bits: u16) -> Option<Mode> {
    if bits == 0 {
        Some(Mode::Normal)
    } else if bits == 1 {
        Some(Mode::AlphaBlend)
    } else if bits == 2 {
        Some(Mode::WindowMask)
    } else {
        None
    }
}

/// The width and height in tiles of an object of `shape` and `size` (0 to 3).
pub open spec fn tiles_size_of(shape: Shape, size: u8) -> (u8, u8) {
    match shape {
        Shape::Square => if size == 0 {
            (1, 1)
        } else if size == 1 {
            (2, 2)
        } else if size == 2 {
            (4, 4)
        } else {
            (8, 8)
        },
        Shape::RectangleHorizontal => if size == 0 {
            (2, 1)
        } else if size == 1 {
            (4, 1)
        } else if size == 2 {
            (4, 2)
        } else {
            (8, 4)
        },
        Shape::RectangleVertical => if size == 0 {
            (1, 2)
        } else if size == 1 {
            (1, 4)
        } else if size == 2 {
            (2, 4)
        } else {
            (4, 8)
        },
        Shape::Invalid => (0, 0),
    }
}

/// The signed value of the low 9 bits of `v`.
pub open spec fn sign_extend9(v: u16) -> i16 {
    let m = (v & 0x1ff) as int;
    (if m >= 0x100 {
        m - 0x200
    } else {
        m
    }) as i16
}

/// The attributes that OAM half-words `attrs` encode. Attribute 0 holds Y (bits 0-7; values
/// from 160 wrap to negative), the affine flag (bit 8) and double-size or hidden flag (bit 9),
/// the mode (bits 10-11), mosaic (bit 12), 256 colours (bit 13) and the shape (bits 14-15).
/// Attribute 1 holds X (9 signed bits), the affine parameters (bits 9-13) or flips (bits 12-13),
/// and the size (bits 14-15). Attribute 2 holds the first tile (bits 0-9), the priority (bits
/// 10-11) and the palette (bits 12-15, for 16-colour objects).
pub open spec fn decoded(attrs: [u16; 3]) -> AttributesModel {
    let a0 = attrs[0];
    let a1 = attrs[1];
    let a2 = attrs[2];
    let affine = if bit16(a0, 8) {
        AffineAttribute::Enabled { double_size: bit16(a0, 9), params_idx: ((a1 >> 9u16) & 0x1f) as u8 }
    } else {
        AffineAttribute::Disabled { hidden: bit16(a0, 9), flip: (bit16(a1, 12), bit16(a1, 13)) }
    };
    let y8 = (a0 & 0xff) as i16;
    let y = if y8 >= VBLANK_DOT {
        (y8 - 256) as i16
    } else {
        y8
    };
    let shape = shape_of(a0 >> 14u16);
    let size = (a1 >> 14u16) as u8;
    let tiles_size = tiles_size_of(shape, size);
    let size_mul: u8 = if affine matches AffineAttribute::Enabled { double_size: true, .. } {
        2
    } else {
        1
    };
    AttributesModel {
        pos: (sign_extend9(a1), y),
        affine,
        mode: mode_of((a0 >> 10u16) & 3),
        mosaic: bit16(a0, 12),
        shape,
        size,
        dots_base_idx: a2 & 0x3ff,
        priority: ((a2 >> 10u16) & 3) as u8,
        palette_idx: if bit16(a0, 13) {
            None
        } else {
            Some(a2 >> 12u16)
        },
        tiles_size,
        clip_dots_size: (
            (tiles_size.0 * TILE_DOT_LEN * size_mul) as u8,
            (tiles_size.1 * TILE_DOT_LEN * size_mul) as u8,
        ),
    }
}

/// Bounds of the bit fields of the three attribute half-words.
pub proof fn lemma_attr_fields(a0: u16, a1: u16, a2: u16)
    ensures
        (a1 >> 9u16) & 0x1f < 32,
        a0 >> 14u16 < 4,
        a1 >> 14u16 < 4,
        (a0 >> 10u16) & 3 < 4,
        (a2 >> 10u16) & 3 < 4,
        a0 & 0xff <= 0xff,
        a1 & 0x1ff <= 0x1ff,
        a2 & 0x3ff <= 0x3ff,
        a2 >> 12u16 < 16,
{
    assert((a1 >> 9u16) & 0x1f < 32 && a0 >> 14u16 < 4 && a1 >> 14u16 < 4 && (a0 >> 10u16) & 3
        < 4 && (a2 >> 10u16) & 3 < 4 && a0 & 0xff <= 0xff && a1 & 0x1ff <= 0x1ff && a2 & 0x3ff
        <= 0x3ff && a2 >> 12u16 < 16) by (bit_vector);
}

/// The decoded attributes of any three half-words are well formed.
pub proof fn lemma_decoded_wf(attrs: [u16; 3])
    ensures
        decoded(attrs).wf(),
{
    lemma_attr_fields(attrs[0], attrs[1], attrs[2]);
}

impl AttributesModel {
    /// What decoding guarantees: the sizes agree with the shape and size, and each field is in
    /// the range of its bits.
    pub open spec fn wf(self) -> bool {
        let mul: int = if self.affine matches AffineAttribute::Enabled { double_size: true, .. } {
            2
        } else {
            1
        };
        &&& self.size < 4
        &&& self.tiles_size == tiles_size_of(self.shape, self.size)
        &&& self.clip_dots_size.0 == self.tiles_size.0 * TILE_DOT_LEN * mul
        &&& self.clip_dots_size.1 == self.tiles_size.1 * TILE_DOT_LEN * mul
        &&& self.priority <= 3
        &&& self.dots_base_idx <= 0x3ff
        &&& (self.palette_idx matches Some(p) ==> p < 16)
        &&& (self.affine matches AffineAttribute::Enabled { params_idx, .. } ==> params_idx < 32)
        &&& -256 <= self.pos.0 <= 255
        &&& -96 <= self.pos.1 < VBLANK_DOT
    }

    /// Whether the object is drawn: not hidden, with a valid mode and a valid shape.
    pub open spec fn is_enabled(self) -> bool {
        &&& !(self.affine matches AffineAttribute::Disabled { hidden: true, .. })
        &&& self.mode is Some
        &&& self.tiles_size != (0u8, 0u8)
    }
}

fn tiles_size(shape: Shape, size: u8) -> (r: (u8, u8))
    requires
        size < 4,
    ensures
        r == tiles_size_of(shape, size),
        r.0 <= 8,
        r.1 <= 8,
{
    match shape {
        Shape::Square => if size == 0 {
            (1, 1)
        } else if size == 1 {
            (2, 2)
        } else if size == 2 {
            (4, 4)
        } else {
            (8, 8)
        },
        Shape::RectangleHorizontal => if size == 0 {
            (2, 1)
        } else if size == 1 {
            (4, 1)
        } else if size == 2 {
            (4, 2)
        } else {
            (8, 4)
        },
        Shape::RectangleVertical => if size == 0 {
            (1, 2)
        } else if size == 1 {
            (1, 4)
        } else if size == 2 {
            (2, 4)
        } else {
            (4, 8)
        },
        Shape::Invalid => (0, 0),
    }
}

impl Attributes {
    /// Decodes the attributes in OAM half-words `attrs`.
    pub fn from_attrs(attrs: &[u16; 3]) -> (r: Attributes)
        ensures
            r@ == decoded(*attrs),
    {
        let a0 = attrs[0];
        let a1 = attrs[1];
        let a2 = attrs[2];
        proof {
            lemma_attr_fields(a0, a1, a2);
        }
        let affine = if bit(a0, 8) {
            AffineAttribute::Enabled {
                double_size: bit(a0, 9),
                params_idx: ((a1 >> 9u16) & 0x1f) as u8,
            }
        } else {
            AffineAttribute::Disabled { hidden: bit(a0, 9), flip: (bit(a1, 12), bit(a1, 13)) }
        };
        let mut y = (a0 & 0xff) as i16;
        if y >= VBLANK_DOT as i16 {
            y = y - 256;
        }
        let shape_bits = a0 >> 14u16;
        let shape = if shape_bits == 0 {
            Shape::Square
        } else if shape_bits == 1 {
            Shape::RectangleHorizontal
        } else if shape_bits == 2 {
            Shape::RectangleVertical
        } else {
            Shape::Invalid
        };
        let size = (a1 >> 14u16) as u8;
        let tiles = tiles_size(shape, size);
        let size_mul: u8 = if affine.is_double_size() {
            2
        } else {
            1
        };
        let clip = (tiles.0 * TILE_DOT_LEN * size_mul, tiles.1 * TILE_DOT_LEN * size_mul);
        let x9 = (a1 & 0x1ff) as i16;
        let x = if x9 >= 0x100 {
            x9 - 0x200
        } else {
            x9
        };
        let mode_bits = (a0 >> 10u16) & 3;
        let mode = if mode_bits == 0 {
            Some(Mode::Normal)
        } else if mode_bits == 1 {
            Some(Mode::AlphaBlend)
        } else if mode_bits == 2 {
            Some(Mode::WindowMask)
        } else {
            None
        };
        Attributes {
            pos: (x, y),
            affine,
            mode,
            mosaic: bit(a0, 12),
            shape,
            size,
            dots_base_idx: a2 & 0x3ff,
            priority: ((a2 >> 10u16) & 3) as u8,
            palette_idx: if bit(a0, 13) {
                None
            } else {
                Some(a2 >> 12u16)
            },
            cached_tiles_size: tiles,
            cached_clip_dots_size: clip,
        }
    }

    pub fn is_enabled(&self) -> (r: bool)
        ensures
            r == self@.is_enabled(),
    {
        let hidden = match self.affine {
            AffineAttribute::Disabled { hidden, .. } => hidden,
            AffineAttribute::Enabled { .. } => false,
        };
        !hidden && self.mode.is_some() && !(self.cached_tiles_size.0 == 0
            && self.cached_tiles_size.1 == 0)
    }

    pub fn tiles_size(&self) -> (r: (u8, u8))
        ensures
            r == self@.tiles_size,
    {
        self.cached_tiles_size
    }

    pub fn clip_dots_size(&self) -> (r: (u8, u8))
        ensures
            r == self@.clip_dots_size,
    {
        self.cached_clip_dots_size
    }

    pub fn pos(&self) -> (r: (i16, i16))
        ensures
            r == self@.pos,
    {
        self.pos
    }

    pub fn priority(&self) -> (r: u8)
        ensures
            r == self@.priority,
    {
        self.priority
    }

    pub fn affine(&self) -> (r: AffineAttribute)
        ensures
            r == self@.affine,
    {
        self.affine
    }

    pub fn shape(&self) -> (r: Shape)
        ensures
            r == self@.shape,
    {
        self.shape
    }

    pub fn mode(&self) -> (r: Option<Mode>)
        ensures
            r == self@.mode,
    {
        self.mode
    }

    pub fn palette_idx(&self) -> (r: Option<u16>)
        ensures
            r == self@.palette_idx,
    {
        self.palette_idx
    }

    pub fn dots_base_idx(&self) -> (r: u16)
        ensures
            r == self@.dots_base_idx,
    {
        self.dots_base_idx
    }

    pub fn size(&self) -> (r: u8)
        ensures
            r == self@.size,
    {
        self.size
    }

    pub fn mosaic(&self) -> (r: bool)
        ensures
            r == self@.mosaic,
    {
        self.mosaic
    }
}

impl Default for Attributes {
    /// The attributes of all-zero OAM half-words.
    fn default() -> (r: Self)
        ensures
            r@ == decoded([0u16, 0u16, 0u16]),
    {
        Attributes::from_attrs(&[0, 0, 0])
    }
}

/// What an object dot is drawn from: its object's mode and priority, and its colour.
#[derive(Debug, Copy, Clone)]
pub struct ObjDotInfo {
    pub mode: Mode,
    pub priority: u8,
    pub palette: DotPaletteInfo,
}

/// `v` limited to `lo..=hi`.
pub open spec fn clamped(v: int, lo: int, hi: int) -> int {
    if v < lo {
        lo
    } else if v > hi {
        hi
    } else {
        v
    }
}

fn clamp_i32(v: i32, lo: i32, hi: i32) -> (r: i32)
    requires
        lo <= hi,
    ensures
        r == clamped(v as int, lo as int, hi as int),
{
    if v < lo {
        lo
    } else if v > hi {
        hi
    } else {
        v
    }
}

impl VideoModel {
    /// Parameter `k` (0: dx, 1: dmx, 2: dy, 3: dmy) of the object affine parameter group `p`:
    /// the signed fourth half-words of the objects `4p` to `4p + 3`.
    pub open spec fn obj_affine_param(self, p: int, k: int) -> i32 {
        (hword_at(self.oam, 6 + 32 * p + 8 * k) as i16) as i32
    }

    /// The dot of an object of `tiles` that the affine parameter group `p` samples for dot
    /// `pos` of its area: the transformation is about the object's centre.
    pub open spec fn obj_affine_pos(self, p: int, tiles: (u8, u8), pos: (i32, i32)) -> (i32, i32) {
        let hw = tiles.0 * TILE_DOT_LEN / 2;
        let hh = tiles.1 * TILE_DOT_LEN / 2;
        affine_transformed(
            ((hw * 256) as i32, (hh * 256) as i32),
            (self.obj_affine_param(p, 1), self.obj_affine_param(p, 3)),
            (self.obj_affine_param(p, 0), self.obj_affine_param(p, 2)),
            ((pos.0 - hw) as i32, (pos.1 - hh) as i32),
        )
    }

    /// An affine object's sampled dot for dot `pos` of its area, the area being centred on
    /// the object when it is double size.
    pub open spec fn obj_affine_sample(self, a: AttributesModel, pos: (int, int)) -> (i32, i32) {
        let (double_size, p) = match a.affine {
            AffineAttribute::Enabled { double_size, params_idx } => (double_size, params_idx as int),
            AffineAttribute::Disabled { .. } => (false, 0),
        };
        let shift: (int, int) = if double_size {
            (a.tiles_size.0 * TILE_DOT_LEN / 2, a.tiles_size.1 * TILE_DOT_LEN / 2)
        } else {
            (0, 0)
        };
        self.obj_affine_pos(p, a.tiles_size, ((pos.0 - shift.0) as i32, (pos.1 - shift.1) as i32))
    }

    /// The dot of object `a` at the current position, if the object covers it and is not
    /// transparent there. The dot within the object is the position less the object's (with
    /// mosaic, less the position modulo the mosaic block, not below 0), flipped, or for an
    /// affine object transformed (outside the object drawing nothing; with mosaic the mosaic
    /// dot's sample, clamped to the object). Its colour index is in the object tiles: rows of 32
    /// tiles, or of the object's width with 1D mapping, from the object's first tile.
    pub open spec fn obj_dot(self, a: AttributesModel) -> Option<ObjDotInfo> {
        let (tw, th) = (a.tiles_size.0 as int, a.tiles_size.1 as int);
        let (ow, oh) = (tw * TILE_DOT_LEN, th * TILE_DOT_LEN);
        let (x, y) = (self.x as int, self.y as int);
        let (ox, oy) = (a.pos.0 as int, a.pos.1 as int);
        if !(ox <= x < ox + a.clip_dots_size.0) || !(oy <= y < oy + a.clip_dots_size.1) {
            None
        } else {
            let (ax, ay) = (x - ox, y - oy);
            let mosaic = a.mosaic && (self.mosaic_obj.0 != 1 || self.mosaic_obj.1 != 1);
            let (sx, sy) = (x % (self.mosaic_obj.0 as int), y % (self.mosaic_obj.1 as int));
            let (mx, my): (int, int) = if mosaic {
                (if ax >= sx {
                    ax - sx
                } else {
                    0
                }, if ay >= sy {
                    ay - sy
                } else {
                    0
                })
            } else {
                (ax, ay)
            };
            let pos: Option<(int, int)> = match a.affine {
                AffineAttribute::Enabled { .. } => {
                    let s = self.obj_affine_sample(a, (ax, ay));
                    if !(0 <= s.0 < ow) || !(0 <= s.1 < oh) {
                        None
                    } else if mosaic {
                        let m = self.obj_affine_sample(a, (mx, my));
                        Some((clamped(m.0 as int, 0, ow - 1), clamped(m.1 as int, 0, oh - 1)))
                    } else {
                        Some((s.0 as int, s.1 as int))
                    }
                },
                AffineAttribute::Disabled { flip, .. } => {
                    let f = flipped(flip, a.tiles_size, (mx as u8, my as u8));
                    Some((f.0 as int, f.1 as int))
                },
            };
            match pos {
                None => None,
                Some((px, py)) => {
                    let color256 = a.palette_idx is None;
                    let unit: int = if color256 {
                        2
                    } else {
                        1
                    };
                    let stride: int = if self.dispcnt.obj_1d {
                        tw * unit
                    } else {
                        32
                    };
                    let dots_offset = 0x1_0000 + 32 * (a.dots_base_idx + (py / 8) * stride + (px
                        / 8) * unit);
                    let dot_offset = dots_offset + (8 * (py % 8) + px % 8) / (if color256 {
                        1int
                    } else {
                        2int
                    });
                    let obj_vram = if background_mode(self.dispcnt.mode) == BackgroundMode::Tile {
                        0x1_0000int
                    } else {
                        0x1_4000int
                    };
                    if dot_offset < obj_vram || dot_offset >= self.vram.len() {
                        None
                    } else {
                        match self.tile_dot_palette(a.palette_idx, dot_offset, (px % 8) as u8) {
                            Some(palette) => Some(
                                ObjDotInfo { mode: a.mode.unwrap(), priority: a.priority, palette },
                            ),
                            None => None,
                        }
                    }
                },
            }
        }
    }
}

impl Video {
    fn obj_affine_transform_pos(&self, params_idx: u8, tiles: (u8, u8), pos: (i32, i32)) -> (r: (
        i32,
        i32,
    ))
        requires
            self.wf(),
            params_idx < 32,
            tiles.0 <= 8,
            tiles.1 <= 8,
            -0x800 <= pos.0 <= 0x800,
            -0x800 <= pos.1 <= 0x800,
        ensures
            r == self@.obj_affine_pos(params_idx as int, tiles, pos),
    {
        let offset = 6 + 32 * params_idx as usize;
        let dx = load_hword(&self.oam.buf, offset) as i16 as i32;
        let dmx = load_hword(&self.oam.buf, offset + 8) as i16 as i32;
        let dy = load_hword(&self.oam.buf, offset + 16) as i16 as i32;
        let dmy = load_hword(&self.oam.buf, offset + 24) as i16 as i32;
        let hw = (tiles.0 * TILE_DOT_LEN / 2) as i32;
        let hh = (tiles.1 * TILE_DOT_LEN / 2) as i32;
        affine_transform_pos((hw * 256, hh * 256), (dmx, dmy), (dx, dy), (pos.0 - hw, pos.1 - hh))
    }

    fn obj_affine_sample(&self, attrs: &Attributes, pos: (u8, u8)) -> (r: (i32, i32))
        requires
            self.wf(),
            attrs@.wf(),
            attrs@.affine is Enabled,
            pos.0 < 128,
            pos.1 < 128,
        ensures
            r == self@.obj_affine_sample(attrs@, (pos.0 as int, pos.1 as int)),
    {
        let (tw, th) = attrs.tiles_size();
        match attrs.affine() {
            AffineAttribute::Enabled { double_size, params_idx } => {
                let (sx, sy): (i32, i32) = if double_size {
                    ((tw * TILE_DOT_LEN / 2) as i32, (th * TILE_DOT_LEN / 2) as i32)
                } else {
                    (0, 0)
                };
                self.obj_affine_transform_pos(
                    params_idx,
                    (tw, th),
                    (pos.0 as i32 - sx, pos.1 as i32 - sy),
                )
            },
            AffineAttribute::Disabled { .. } => (0, 0),
        }
    }

    /// The dot of object `attrs` at the current position, if any.
    #[verifier::spinoff_prover]
    #[verifier::rlimit(60)]
    pub fn compute_obj_dot(&self, attrs: &Attributes) -> (r: Option<ObjDotInfo>)
        requires
            self.wf(),
            attrs@.wf(),
            attrs@.mode is Some,
            attrs@.mosaic ==> self@.mosaic_obj.0 >= 1,
        ensures
            r == self@.obj_dot(attrs@),
            r matches Some(d) ==> d.palette.color_idx < 256 && d.palette.idx == attrs@.palette_idx
                && d.priority == attrs@.priority && Some(d.mode) == attrs@.mode,
    {
        let (tw, th) = attrs.tiles_size();
        let (ow, oh) = (tw * TILE_DOT_LEN, th * TILE_DOT_LEN);
        let x = self.x as i16;
        let y = self.y as i16;
        let (ox, oy) = attrs.pos();
        let (cw, ch) = attrs.clip_dots_size();
        if !(ox <= x && x < ox + cw as i16) || !(oy <= y && y < oy + ch as i16) {
            return None;
        }
        let ax = (x - ox) as u8;
        let ay = (y - oy) as u8;
        let (mw, mh) = self.mosaic_obj.get();
        let mosaic = attrs.mosaic() && (mw != 1 || mh != 1);
        let mut mx = ax;
        let mut my = ay;
        if mosaic {
            let sx = (self.x % mw as u16) as u8;
            let sy = self.y % mh;
            mx = if ax >= sx {
                ax - sx
            } else {
                0
            };
            my = if ay >= sy {
                ay - sy
            } else {
                0
            };
        }
        let (px, py): (u8, u8) = match attrs.affine() {
            AffineAttribute::Enabled { .. } => {
                let (tx, ty) = self.obj_affine_sample(attrs, (ax, ay));
                if !(0 <= tx && tx < ow as i32) || !(0 <= ty && ty < oh as i32) {
                    return None;
                }
                if mosaic {
                    let (ux, uy) = self.obj_affine_sample(attrs, (mx, my));
                    (
                        clamp_i32(ux, 0, ow as i32 - 1) as u8,
                        clamp_i32(uy, 0, oh as i32 - 1) as u8,
                    )
                } else {
                    (tx as u8, ty as u8)
                }
            },
            AffineAttribute::Disabled { flip, .. } => flip_tile_dot_pos(flip, (tw, th), (mx, my)),
        };
        let color256 = attrs.palette_idx().is_none();
        let unit: usize = if color256 {
            2
        } else {
            1
        };
        let stride: usize = if self.dispcnt.obj_1d {
            tw as usize * unit
        } else {
            32
        };
        let (tile_x, tile_y) = ((px / TILE_DOT_LEN) as usize, (py / TILE_DOT_LEN) as usize);
        assert(tile_y * stride <= 7 * 32) by (nonlinear_arith)
            requires
                tile_y <= 7,
                stride <= 32,
        ;
        let dots_offset = 0x1_0000 + 32 * (attrs.dots_base_idx() as usize + tile_y * stride
            + tile_x * unit);
        let (dot_x, dot_y) = (px % TILE_DOT_LEN, py % TILE_DOT_LEN);
        let div: usize = if color256 {
            1
        } else {
            2
        };
        let dot_offset = dots_offset + (8 * dot_y as usize + dot_x as usize) / div;
        if dot_offset < self.dispcnt.obj_vram_offset() || dot_offset >= self.vram.len() {
            return None;
        }
        match self.read_tile_dot_palette(attrs.palette_idx(), dot_offset, dot_x) {
            Some(palette) => Some(
                ObjDotInfo { mode: attrs.mode().unwrap(), priority: attrs.priority(), palette },
            ),
            None => None,
        }
    }
}

/// Whether object `a` takes part in the search for the dot to draw (`mask` false: drawn
/// objects that are not window masks) or for the object window (`mask` true: window masks).
pub open spec fn obj_candidate(a: AttributesModel, mask: bool) -> bool {
    a.is_enabled() && (a.mode == Some(Mode::WindowMask)) == mask
}

impl VideoModel {
    /// The dot of the first of objects `0..n` (of the kind `mask` selects) that has a dot here,
    /// ordered by priority and then by index.
    pub open spec fn top_obj_dot_upto(self, n: int, mask: bool) -> Option<ObjDotInfo>
        decreases n,
    {
        if n <= 0 {
            None
        } else {
            let prev = self.top_obj_dot_upto(n - 1, mask);
            let a = self.obj_attrs(n - 1);
            if obj_candidate(a, mask) && (prev matches Some(d) ==> a.priority < d.priority) {
                match self.obj_dot(a) {
                    Some(d) => Some(d),
                    None => prev,
                }
            } else {
                prev
            }
        }
    }

    /// The object dot to draw here under window control `win`: none when objects are not
    /// displayed (or not in the window), else that of the first object with a dot here.
    pub open spec fn top_obj_dot(self, win: Option<WindowControl>) -> Option<ObjDotInfo> {
        if !self.dispcnt.display_obj || (win matches Some(w) && !w.display_obj) {
            None
        } else {
            self.top_obj_dot_upto(128, false)
        }
    }

    /// Objects can be drawn: the object mosaic size has been set (its reset value, 0 by 0,
    /// gives no mosaic block to draw a mosaic object with), or no drawn object uses mosaic.
    pub open spec fn obj_mosaic_ok(self) -> bool {
        ||| self.mosaic_obj.0 >= 1
        ||| forall|i: int|
            0 <= i < 128 ==> !(decoded(#[trigger] oam_entry(self.oam, i)).is_enabled() && decoded(
                oam_entry(self.oam, i),
            ).mosaic)
    }

    /// Whether the current position is in the object window: objects are displayed and a
    /// window-mask object has a dot here.
    pub open spec fn inside_obj_window(self) -> bool {
        self.dispcnt.display_obj && self.top_obj_dot_upto(128, true) is Some
    }
}

impl Video {
    fn scan_objs(&self, mask: bool) -> (r: Option<ObjDotInfo>)
        requires
            self.wf(),
            self@.obj_mosaic_ok(),
        ensures
            r == self@.top_obj_dot_upto(128, mask),
            r matches Some(d) ==> d.palette.color_idx < 256 && (d.palette.idx matches Some(p)
                ==> p < 16),
    {
        let mut best: Option<ObjDotInfo> = None;
        let mut i: usize = 0;
        while i < 128
            invariant
                self.wf(),
                self@.obj_mosaic_ok(),
                i <= 128,
                best == self@.top_obj_dot_upto(i as int, mask),
                best matches Some(d) ==> d.palette.color_idx < 256 && (d.palette.idx matches Some(
                    p,
                ) ==> p < 16),
            decreases 128 - i,
        {
            let a = &self.oam.attrs[i];
            proof {
                assert(a@ == self@.obj_attrs(i as int));
                assert(self@.obj_attrs(i as int).is_enabled() && self@.obj_attrs(i as int).mosaic ==> self@.mosaic_obj.0 >= 1);
                lemma_decoded_wf(oam_entry(self.oam.buf@, i as int));
            }
            let is_mask = match a.mode() {
                Some(Mode::WindowMask) => true,
                _ => false,
            };
            let better = match best {
                Some(d) => a.priority() < d.priority,
                None => true,
            };
            if a.is_enabled() && is_mask == mask && better {
                match self.compute_obj_dot(a) {
                    Some(d) => {
                        best = Some(d);
                    },
                    None => {},
                }
            }
            i += 1;
        }
        best
    }

    /// The object dot to draw at the current position under window control `win`.
    pub fn compute_top_obj_dot(&self, win: Option<WindowControl>) -> (r: Option<ObjDotInfo>)
        requires
            self.wf(),
            self@.obj_mosaic_ok(),
        ensures
            r == self@.top_obj_dot(win),
            r matches Some(d) ==> d.palette.color_idx < 256 && (d.palette.idx matches Some(p) ==> p
                < 16),
    {
        if !self.dispcnt.display_obj {
            return None;
        }
        if let Some(w) = win {
            if !w.display_obj {
                return None;
            }
        }
        self.scan_objs(false)
    }

    /// Whether the current position is in the object window.
    pub fn check_inside_obj_window(&self) -> (r: bool)
        requires
            self.wf(),
            self@.obj_mosaic_ok(),
        ensures
            r == self@.inside_obj_window(),
    {
        self.dispcnt.display_obj && self.scan_objs(true).is_some()
    }
}

impl Video {
    /// Whether objects can be drawn: the object mosaic size is set, or no drawn object uses
    /// mosaic.
    pub fn objects_drawable(&self) -> (r: bool)
        requires
            self.wf(),
        ensures
            r == self@.obj_mosaic_ok(),
    {
        if self.mosaic_obj.0 >= 1 {
            return true;
        }
        let mut i: usize = 0;
        while i < 128
            invariant
                self.wf(),
                self@.mosaic_obj.0 == 0,
                i <= 128,
                forall|j: int|
                    0 <= j < i ==> !(decoded(#[trigger] oam_entry(self@.oam, j)).is_enabled() && decoded(
                        oam_entry(self@.oam, j),
                    ).mosaic),
            decreases 128 - i,
        {
            let a = &self.oam.attrs[i];
            assert(a@ == decoded(oam_entry(self@.oam, i as int)));
            if a.is_enabled() && a.mosaic() {
                return false;
            }
            i += 1;
        }
        true
    }
}

} // verus!
