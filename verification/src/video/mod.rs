pub mod bg;
pub mod obj;
pub mod reg;
pub mod screen;

use vstd::prelude::*;

use crate::bits::lemma_u8_fields;
use crate::arm7tdmi::isa::lemma_and_le;
use crate::dma::{notified, Channel, Dma, Event};
use crate::irq::{irq_requested, Interrupt, Irq, IrqModel};

use self::bg::{BgDotInfo, BITMAP_MODE_INDEX};
use self::obj::{Attributes, Mode, ObjDotInfo};
use self::reg::{
    background_mode, bit_at, flags4, screen_areas, with_hi, with_lo, BackgroundAffine,
    BackgroundControl, BackgroundMode, BackgroundOffset, BlendCoefficient, BlendControl,
    BlendMode, DisplayControl, DisplayStatus, MosaicSize, ReferencePoint, ScreenAreas,
    WindowControl, WindowDimensions,
};

verus! {

/// The number of dots in a scanline, including the horizontal blank.
pub const HORIZ_DOTS: u16 = 308;

/// The number of scanlines, including the vertical blank.
pub const VERT_DOTS: u8 = 228;

/// The first dot of the horizontal blank: the screen's width.
pub const HBLANK_DOT: u8 = 240;

/// The first scanline of the vertical blank: the screen's height.
pub const VBLANK_DOT: u8 = 160;

/// The width and height of a tile, in dots.
pub const TILE_DOT_LEN: u8 = 8;

/// A dot's colour, with 5-bit red, green and blue components.
#[derive(Debug, Copy, Clone)]
pub struct Dot {
    r: u8,
    g: u8,
    b: u8,
}

impl View for Dot {
    type V = (u8, u8, u8);

    closed spec fn view(&self) -> (u8, u8, u8) {
        (self.r, self.g, self.b)
    }
}

/// The colour a 15-bit BGR value (red in bits 0-4, green in 5-9, blue in 10-14) encodes.
pub open spec fn bgr555(value: u16) -> (u8, u8, u8) {
    ((value & 0x1f) as u8, ((value >> 5u16) & 0x1f) as u8, ((value >> 10u16) & 0x1f) as u8)
}

impl Dot {
    pub const MAX_COMPONENT: u8 = 31;

    /// Each component is at most `MAX_COMPONENT`.
    pub open spec fn wf(self) -> bool {
        &&& self@.0 <= Self::MAX_COMPONENT
        &&& self@.1 <= Self::MAX_COMPONENT
        &&& self@.2 <= Self::MAX_COMPONENT
    }

    /// Pure white.
    pub fn white() -> (r: Dot)
        ensures
            r@ == (Self::MAX_COMPONENT, Self::MAX_COMPONENT, Self::MAX_COMPONENT),
    {
        Dot::new(Self::MAX_COMPONENT, Self::MAX_COMPONENT, Self::MAX_COMPONENT)
    }

    fn new(r: u8, g: u8, b: u8) -> (d: Dot)
        requires
            r <= Self::MAX_COMPONENT,
            g <= Self::MAX_COMPONENT,
            b <= Self::MAX_COMPONENT,
        ensures
            d@ == (r, g, b),
    {
        Dot { r, g, b }
    }

    /// The colour of a 15-bit BGR value.
    pub fn from_bgr555(value: u16) -> (d: Dot)
        ensures
            d@ == bgr555(value),
            d.wf(),
    {
        proof {
            assert(value & 0x1f < 32 && (value >> 5u16) & 0x1f < 32 && (value >> 10u16) & 0x1f < 32)
                by (bit_vector);
        }
        Dot {
            r: (value & 0x1f) as u8,
            g: ((value >> 5u16) & 0x1f) as u8,
            b: ((value >> 10u16) & 0x1f) as u8,
        }
    }

    pub fn red(self) -> (r: u8)
        ensures
            r == self@.0,
    {
        self.r
    }

    pub fn green(self) -> (r: u8)
        ensures
            r == self@.1,
    {
        self.g
    }

    pub fn blue(self) -> (r: u8)
        ensures
            r == self@.2,
    {
        self.b
    }
}

/// What the video unit hands its output to.
///
/// An implementation may describe itself through the three spec functions; one that does not
/// leaves them unknown, and nothing is then known of what the calls do to it.
pub trait Callback: Sized {
    /// Whether the callback currently skips frames (takes no dots).
    open spec fn frame_skipping(&self) -> bool {
        arbitrary()
    }

    /// Whether `after` is what `before` becomes when handed the dot at (`x`, `y`) of colour
    /// `colour` (red, green, blue).
    open spec fn dot_taken(before: Self, after: Self, x: u8, y: u8, colour: (u8, u8, u8)) -> bool {
        arbitrary()
    }

    /// Whether `after` is what `before` becomes when told that a frame ended.
    open spec fn frame_ended(before: Self, after: Self, green_swap: bool) -> bool {
        arbitrary()
    }

    fn put_dot(&mut self, x: u8, y: u8, dot: Dot)
        ensures
            Self::dot_taken(*old(self), *final(self), x, y, dot@),
    ;

    fn end_frame(&mut self, green_swap: bool)
        ensures
            Self::frame_ended(*old(self), *final(self), green_swap),
    ;

    fn is_frame_skipping(&self) -> (r: bool)
        ensures
            r == self.frame_skipping(),
    ;
}

/// Palette RAM: 512 colours of 15-bit BGR, backgrounds' first, then objects'.
#[derive(Copy, Clone)]
pub struct PaletteRam(pub [u8; 0x400]);

/// Half-word `value` stored little-endian at `addr` of `bytes` (bytes past the end are
/// dropped).
pub open spec fn hword_stored(bytes: Seq<u8>, addr: int, value: u16) -> Seq<u8> {
    let b = if addr < bytes.len() {
        bytes.update(addr, (value % 256) as u8)
    } else {
        bytes
    };
    if addr + 1 < b.len() {
        b.update(addr + 1, (value / 256) as u8)
    } else {
        b
    }
}

/// The little-endian half-word at `addr` of `bytes` (bytes past the end read 0).
pub open spec fn hword_at(bytes: Seq<u8>, addr: int) -> u16 {
    let lo: u8 = if 0 <= addr < bytes.len() {
        bytes[addr]
    } else {
        0
    };
    let hi: u8 = if 0 <= addr + 1 < bytes.len() {
        bytes[addr + 1]
    } else {
        0
    };
    (lo + 256 * hi) as u16
}

/// The half-word `value` duplicating a byte written to video memory.
pub open spec fn doubled(value: u8) -> u16 {
    (value + 256 * value) as u16
}

fn store_hword(bytes: &mut [u8], addr: usize, value: u16)
    ensures
        final(bytes)@ == hword_stored(old(bytes)@, addr as int, value),
{
    if addr < bytes.len() {
        bytes[addr] = (value % 256) as u8;
    }
    if addr < usize::MAX && addr + 1 < bytes.len() {
        bytes[addr + 1] = (value / 256) as u8;
    }
    assert(bytes@ =~= hword_stored(old(bytes)@, addr as int, value));
}

fn load_hword(bytes: &[u8], addr: usize) -> (r: u16)
    ensures
        r == hword_at(bytes@, addr as int),
{
    let lo: u8 = if addr < bytes.len() {
        bytes[addr]
    } else {
        0
    };
    let hi: u8 = if addr < usize::MAX && addr + 1 < bytes.len() {
        bytes[addr + 1]
    } else {
        0
    };
    lo as u16 + 256 * hi as u16
}

impl PaletteRam {
    pub fn read_byte(&self, addr: u32) -> (r: u8)
        requires
            addr < 0x400,
        ensures
            r == self.0@[addr as int],
    {
        self.0[addr as usize]
    }

    /// A byte written to palette RAM is stored as a half-word holding it twice.
    pub fn write_byte(&mut self, addr: u32, value: u8)
        ensures
            final(self).0@ == hword_stored(old(self).0@, addr as int, doubled(value)),
    {
        self.write_hword(addr, value as u16 + 256 * value as u16);
    }

    pub fn write_hword(&mut self, addr: u32, value: u16)
        ensures
            final(self).0@ == hword_stored(old(self).0@, addr as int, value),
    {
        store_hword(&mut self.0, addr as usize, value);
    }
}

/// Object attribute memory: 128 objects of three half-word attributes, with the affine
/// parameters interleaved in the fourth half-words; each object's attributes are kept
/// decoded. No index of the objects per screen region is kept: a dot scans all 128 objects,
/// which gives the same top object.
#[derive(Clone)]
pub struct Oam {
    buf: [u8; 0x400],
    attrs: [Attributes; 128],
}

/// The three attribute half-words of object `idx` in OAM bytes `buf`.
pub open spec fn oam_entry(buf: Seq<u8>, idx: int) -> [u16; 3] {
    [hword_at(buf, 8 * idx), hword_at(buf, 8 * idx + 2), hword_at(buf, 8 * idx + 4)]
}

impl Oam {
    /// The bytes of OAM.
    pub closed spec fn bytes(&self) -> Seq<u8> {
        self.buf@
    }

    /// Every object's decoded attributes are those of its half-words.
    pub closed spec fn wf(&self) -> bool {
        forall|i: int| 0 <= i < 128 ==> #[trigger] self.attrs@[i]@ == obj::decoded(
            oam_entry(self.buf@, i),
        )
    }

    /// Zeroed OAM.
    pub fn new() -> (r: Oam)
        ensures
            r.wf(),
            r.bytes() == Seq::new(0x400, |i: int| 0u8),
    {
        let zero = Attributes::from_attrs(&[0, 0, 0]);
        let r = Oam { buf: [0; 0x400], attrs: [zero; 128] };
        assert(r.buf@ =~= Seq::new(0x400, |i: int| 0u8));
        assert forall|i: int| 0 <= i < 128 implies #[trigger] r.attrs@[i]@ == obj::decoded(
            oam_entry(r.buf@, i),
        ) by {
            assert(oam_entry(r.buf@, i) == [0u16, 0u16, 0u16]);
        }
        r
    }

    pub fn read_byte(&self, addr: u32) -> (r: u8)
        requires
            addr < 0x400,
        ensures
            r == self.bytes()[addr as int],
    {
        self.buf[addr as usize]
    }

    /// Writes a half-word, decoding the attributes of the objects it belongs to again.
    pub fn write_hword(&mut self, addr: u32, value: u16)
        requires
            old(self).wf(),
            addr < 0x400,
        ensures
            final(self).wf(),
            final(self).bytes() == hword_stored(old(self).bytes(), addr as int, value),
    {
        if load_hword(&self.buf, addr as usize) == value {
            let lo = self.buf[addr as usize];
            if addr + 1 < 0x400 {
                let hi = self.buf[addr as usize + 1];
                assert(lo + 256 * hi == value ==> value % 256 == lo && value / 256 == hi)
                    by (nonlinear_arith);
            }
            assert(hword_stored(self.buf@, addr as int, value) =~= self.buf@);
            return;
        }
        let ghost before = self.buf@;
        store_hword(&mut self.buf, addr as usize, value);
        let idx = (addr / 8) as u8;
        let next = ((addr + 1) / 8) as u8;
        if next == idx || next >= 128 {
            assert forall|i: int| 0 <= i < 128 && i != idx implies #[trigger] self.attrs@[i]@
                == obj::decoded(oam_entry(self.buf@, i)) by {
                assert(oam_entry(self.buf@, i) == oam_entry(before, i));
            }
            self.update_cached_attrs(idx);
        } else {
            assert forall|i: int| 0 <= i < 128 && i != idx && i != next implies #[trigger] self.attrs@[i]@
                == obj::decoded(oam_entry(self.buf@, i)) by {
                assert(oam_entry(self.buf@, i) == oam_entry(before, i));
            }
            self.update_cached_attrs2(idx, next);
        }
    }

    fn update_cached_attrs2(&mut self, idx: u8, next: u8)
        requires
            idx < 128,
            next < 128,
            idx != next,
            forall|i: int| 0 <= i < 128 && i != idx && i != next ==> #[trigger] old(self).attrs@[i]@ == obj::decoded(
                oam_entry(old(self).buf@, i),
            ),
        ensures
            final(self).wf(),
            final(self).buf@ == old(self).buf@,
    {
        let offset = next as usize * 8;
        let attrs = [
            load_hword(&self.buf, offset),
            load_hword(&self.buf, offset + 2),
            load_hword(&self.buf, offset + 4),
        ];
        let decoded = Attributes::from_attrs(&attrs);
        self.attrs[next as usize] = decoded;
        assert(attrs@ =~= oam_entry(self.buf@, next as int)@);
        self.update_cached_attrs(idx);
    }

    fn update_cached_attrs(&mut self, idx: u8)
        requires
            idx < 128,
            forall|i: int| 0 <= i < 128 && i != idx ==> #[trigger] old(self).attrs@[i]@ == obj::decoded(
                oam_entry(old(self).buf@, i),
            ),
        ensures
            final(self).wf(),
            final(self).buf@ == old(self).buf@,
    {
        let offset = idx as usize * 8;
        let attrs = [
            load_hword(&self.buf, offset),
            load_hword(&self.buf, offset + 2),
            load_hword(&self.buf, offset + 4),
        ];
        let decoded = Attributes::from_attrs(&attrs);
        self.attrs[idx as usize] = decoded;
        assert forall|i: int| 0 <= i < 128 implies #[trigger] self.attrs@[i]@ == obj::decoded(
            oam_entry(self.buf@, i),
        ) by {
            if i == idx {
                assert(attrs@ =~= oam_entry(self.buf@, i)@);
            }
        }
    }
}

/// The model of the video unit.
pub struct VideoModel {
    pub x: u16,
    pub y: u8,
    pub cycle_accum: u16,
    /// The tile-mode backgrounds in drawing order: by priority, then index.
    pub tile_mode_bg_order: Seq<usize>,
    pub vram: Seq<u8>,
    pub palette: Seq<u8>,
    pub oam: Seq<u8>,
    pub dispcnt: DisplayControl,
    pub dispstat: DisplayStatus,
    pub greenswp: u16,
    pub bgcnt: Seq<BackgroundControl>,
    pub bgofs: Seq<BackgroundOffset>,
    pub bgref: Seq<ReferencePoint>,
    pub bgp: Seq<BackgroundAffine>,
    pub win: Seq<WindowDimensions>,
    pub winin: Seq<WindowControl>,
    pub winout: WindowControl,
    pub winobj: WindowControl,
    pub mosaic_bg: MosaicSize,
    pub mosaic_obj: MosaicSize,
    pub bldcnt: BlendControl,
    pub bldalpha: (u8, u8),
    pub bldy: u8,
}

/// The size of VRAM: 96KiB.
pub const VRAM_LEN: usize = 0x1_8000;

/// The video unit: its memories, its registers, and the position of the dot being drawn.
#[derive(Clone)]
pub struct Video {
    x: u16,
    y: u8,
    cycle_accum: u16,
    tile_mode_bg_order: Vec<usize>,
    vram: Vec<u8>,
    pub palette_ram: PaletteRam,
    pub oam: Oam,
    dispcnt: DisplayControl,
    dispstat: DisplayStatus,
    greenswp: u16,
    bgcnt: [BackgroundControl; 4],
    bgofs: [BackgroundOffset; 4],
    bgref: [ReferencePoint; 2],
    bgp: [BackgroundAffine; 2],
    win: [WindowDimensions; 2],
    winin: [WindowControl; 2],
    winout: WindowControl,
    winobj: WindowControl,
    mosaic_bg: MosaicSize,
    mosaic_obj: MosaicSize,
    bldcnt: BlendControl,
    bldalpha: [BlendCoefficient; 2],
    bldy: BlendCoefficient,
}

impl View for Video {
    type V = VideoModel;

    closed spec fn view(&self) -> VideoModel {
        VideoModel {
            x: self.x,
            y: self.y,
            cycle_accum: self.cycle_accum,
            tile_mode_bg_order: self.tile_mode_bg_order@,
            vram: self.vram@,
            palette: self.palette_ram.0@,
            oam: self.oam.bytes(),
            dispcnt: self.dispcnt,
            dispstat: self.dispstat,
            greenswp: self.greenswp,
            bgcnt: self.bgcnt@,
            bgofs: self.bgofs@,
            bgref: self.bgref@,
            bgp: self.bgp@,
            win: self.win@,
            winin: self.winin@,
            winout: self.winout,
            winobj: self.winobj,
            mosaic_bg: self.mosaic_bg,
            mosaic_obj: self.mosaic_obj,
            bldcnt: self.bldcnt,
            bldalpha: (self.bldalpha[0].0, self.bldalpha[1].0),
            bldy: self.bldy.0,
        }
    }
}

/// The bound on a 28-bit reference point coordinate.
pub const REF_COORD_BOUND: i32 = 0x800_0000;

impl ReferencePoint {
    /// The written coordinates are 28-bit values; the internal ones equal them during the
    /// vertical blank, and otherwise have moved at most once per scanline drawn so far (`x`,
    /// `y` being the position in the frame), by less than `0x8000`.
    pub open spec fn bounded(self, x: u16, y: u8) -> bool {
        let lines: int = if y >= VBLANK_DOT {
            0
        } else {
            y + (if x >= HBLANK_DOT {
                1int
            } else {
                0int
            })
        };
        &&& -REF_COORD_BOUND <= self.external.0 < REF_COORD_BOUND
        &&& -REF_COORD_BOUND <= self.external.1 < REF_COORD_BOUND
        &&& y >= VBLANK_DOT ==> self.internal == self.external
        &&& -REF_COORD_BOUND - 0x8000 * lines <= self.internal.0 <= REF_COORD_BOUND + 0x8000 * lines
        &&& -REF_COORD_BOUND - 0x8000 * lines <= self.internal.1 <= REF_COORD_BOUND + 0x8000 * lines
    }
}

/// The drawing-order key of background `i`: its priority, then its index.
pub open spec fn bg_key(bgcnt: Seq<BackgroundControl>, i: usize) -> int {
    4 * bgcnt[i as int].priority + i
}

/// Whether display mode `mode` draws background `i` from tiles: all four in mode 0, the
/// first three in mode 1, the last two in mode 2.
pub open spec fn mode_has_bg(mode: u8, i: int) -> bool {
    ||| mode == 0 && 0 <= i < 4
    ||| mode == 1 && 0 <= i < 3
    ||| mode == 2 && 2 <= i < 4
}

impl VideoModel {
    /// The attributes of object `i`, as its OAM half-words encode them.
    pub open spec fn obj_attrs(self, i: int) -> obj::AttributesModel {
        obj::decoded(oam_entry(self.oam, i))
    }

    /// The position is on the screen or in a blank, VRAM has its size, the drawing order holds
    /// distinct backgrounds sorted by priority and then index (in a tile mode, exactly those
    /// the mode draws), and the registers hold what their fields can.
    pub open spec fn wf(self) -> bool {
        &&& self.x < HORIZ_DOTS
        &&& self.y < VERT_DOTS
        &&& self.cycle_accum < 4
        &&& self.vram.len() == VRAM_LEN
        &&& self.palette.len() == 0x400
        &&& self.oam.len() == 0x400
        &&& (forall|i: int| 0 <= i < self.tile_mode_bg_order.len() ==> #[trigger] self.tile_mode_bg_order[i] < 4)
        &&& self.tile_mode_bg_order.no_duplicates()
        &&& (forall|a: int, b: int|
            0 <= a < b < self.tile_mode_bg_order.len() ==> bg_key(self.bgcnt, self.tile_mode_bg_order[a])
                < bg_key(self.bgcnt, self.tile_mode_bg_order[b]))
        &&& (background_mode(self.dispcnt.mode) == BackgroundMode::Tile ==> forall|i: int|
            0 <= i < 4 ==> (self.tile_mode_bg_order.contains(i as usize) <==> mode_has_bg(
                self.dispcnt.mode,
                i,
            )))
        &&& self.dispcnt.frame_select <= 1
        &&& (forall|i: int| 0 <= i < 4 ==> #[trigger] self.bgcnt[i].dots_base_block <= 3)
        &&& (forall|i: int| 0 <= i < 4 ==> #[trigger] self.bgcnt[i].screen_base_block <= 31)
        &&& (forall|i: int| 0 <= i < 4 ==> #[trigger] self.bgcnt[i].priority <= 3)
        &&& (self.mosaic_obj.0 == 0) == (self.mosaic_obj.1 == 0)
        &&& self.bgcnt.len() == 4
        &&& self.bgofs.len() == 4
        &&& self.bgref.len() == 2
        &&& self.bgp.len() == 2
        &&& self.win.len() == 2
        &&& self.winin.len() == 2
        &&& (forall|i: int| 0 <= i < 2 ==> #[trigger] self.bgref[i].bounded(self.x, self.y))
    }
}

impl Video {
    pub closed spec fn wf(&self) -> bool {
        &&& self@.wf()
        &&& self.oam.wf()
    }
}

/// Which window the dot being drawn is in.
#[derive(Debug, Copy, Clone, Eq, PartialEq, Structural)]
pub enum Window {
    /// No window is enabled.
    Off,
    Inside0,
    Inside1,
    Object,
    Outside,
}

/// What the dot of a layer is drawn from.
#[derive(Debug, Copy, Clone)]
pub enum DotInfo {
    Object(ObjDotInfo),
    Background(BgDotInfo),
    Backdrop,
}

impl DotInfo {
    /// The colour's position or index is in range.
    pub open spec fn valid(self) -> bool {
        match self {
            DotInfo::Object(o) => o.palette.valid(),
            DotInfo::Background(b) => b.valid() && b.spec_index() < 4,
            DotInfo::Backdrop => true,
        }
    }
}

/// Whether `p` is between a window's edges `lo` (inclusive) and `hi` (exclusive), which wrap
/// around when `lo > hi`.
pub open spec fn in_window_span(lo: u8, hi: u8, p: int) -> bool {
    if lo <= hi {
        lo <= p < hi
    } else {
        p < hi || p >= lo
    }
}

/// A blending coefficient's weight in 16ths: its low 5 bits, at most 16.
pub open spec fn coef_weight(v: u8) -> int {
    let w = (v & 0x1f) as int;
    if w > 16 {
        16
    } else {
        w
    }
}

/// A component blended from `t` and `b` with weights `wt` and `wb` (in 16ths), at most 31.
pub open spec fn alpha_component(t: int, b: int, wt: int, wb: int) -> u8 {
    let v = (t * wt + b * wb) / 16;
    (if v > 31 {
        31
    } else {
        v
    }) as u8
}

/// A component brightened towards 31 by `w` 16ths of the distance, rounding down.
pub open spec fn brightened_component(c: int, w: int) -> u8 {
    (c + (31 - c) * w / 16) as u8
}

/// A component darkened towards 0 by `w` 16ths of its value, rounding the result down.
pub open spec fn dimmed_component(c: int, w: int) -> u8 {
    (c - (c * w + 15) / 16) as u8
}

impl VideoModel {
    /// The control of window `win`, if there is one.
    pub open spec fn window_control(self, win: Window) -> Option<WindowControl> {
        match win {
            Window::Off => None,
            Window::Inside0 => Some(self.winin[0]),
            Window::Inside1 => Some(self.winin[1]),
            Window::Object => Some(self.winobj),
            Window::Outside => Some(self.winout),
        }
    }

    /// Whether the current position is within the edges of window `i`.
    pub open spec fn inside_window(self, i: int) -> bool {
        &&& in_window_span(self.win[i].horiz.0, self.win[i].horiz.1, self.x as int)
        &&& in_window_span(self.win[i].vert.0, self.win[i].vert.1, self.y as int)
    }

    /// The window the current position is in: none if no window is enabled; else the first of
    /// windows 0 and 1 that is enabled and contains it; else the object window if it is
    /// enabled and contains it; else the outside.
    pub open spec fn top_window(self) -> Window {
        let en = self.dispcnt.display_bg_window@;
        if !en[0] && !en[1] && !self.dispcnt.display_obj_window {
            Window::Off
        } else if en[0] && self.inside_window(0) {
            Window::Inside0
        } else if en[1] && self.inside_window(1) {
            Window::Inside1
        } else if self.dispcnt.display_obj_window && self.inside_obj_window() {
            Window::Object
        } else {
            Window::Outside
        }
    }

    /// Whether background `i` is displayed, and in window control `win` if there is one.
    pub open spec fn bg_shown(self, win: Option<WindowControl>, i: int) -> bool {
        self.dispcnt.display_bg@[i] && (win matches Some(w) ==> w.display_bg@[i])
    }

    /// The dots at the current position of the first `n` backgrounds in drawing order that
    /// are shown and not transparent here.
    pub open spec fn tile_bg_dots(self, win: Option<WindowControl>, n: int) -> Seq<BgDotInfo>
        decreases n,
    {
        if n <= 0 {
            seq![]
        } else {
            let prev = self.tile_bg_dots(win, n - 1);
            let i = self.tile_mode_bg_order[n - 1] as int;
            if self.bg_shown(win, i) {
                match self.bg_tile_mode_dot(i) {
                    Some(d) => prev.push(d),
                    None => prev,
                }
            } else {
                prev
            }
        }
    }

    /// The upper layer of object dot `obj` over background dots `bgs` (upper first): the
    /// object if its priority is at most that of the first background, else that background;
    /// the backdrop below all.
    pub open spec fn first_layer(self, obj: Option<ObjDotInfo>, bgs: Seq<BgDotInfo>) -> DotInfo {
        if obj is Some && (bgs.len() == 0 || obj.unwrap().priority <= self.bgcnt[bgs[0].spec_index() as int].priority) {
            DotInfo::Object(obj.unwrap())
        } else if bgs.len() > 0 {
            DotInfo::Background(bgs[0])
        } else {
            DotInfo::Backdrop
        }
    }

    /// The two upper layers at the current position under window control `win`. In a tile mode
    /// the object dot sorts among the shown background dots; in a bitmap mode the bitmap dot
    /// stands also as the layer below itself; an invalid mode shows the backdrop.
    pub open spec fn top_layers(self, win: Option<WindowControl>) -> (DotInfo, DotInfo) {
        let obj = self.top_obj_dot(win);
        match background_mode(self.dispcnt.mode) {
            BackgroundMode::Tile => {
                let bgs = self.tile_bg_dots(win, self.tile_mode_bg_order.len() as int);
                let top = self.first_layer(obj, bgs);
                (top, match top {
                    DotInfo::Object(_) => self.first_layer(None, bgs),
                    DotInfo::Background(_) => self.first_layer(obj, bgs.drop_first()),
                    DotInfo::Backdrop => DotInfo::Backdrop,
                })
            },
            BackgroundMode::Bitmap => {
                let bgs = match self.bg_bitmap_mode_dot(win) {
                    Some(b) => seq![b],
                    None => seq![],
                };
                let top = self.first_layer(obj, bgs);
                (top, match top {
                    DotInfo::Object(_) => self.first_layer(None, bgs),
                    DotInfo::Background(b) => DotInfo::Background(b),
                    DotInfo::Backdrop => DotInfo::Backdrop,
                })
            },
            BackgroundMode::Invalid => (DotInfo::Backdrop, DotInfo::Backdrop),
        }
    }

    /// The 15-bit colour a layer's dot is drawn in: object colours from the second half of
    /// palette RAM, tile and mode 4 colours from the first, mode 3 and 5 colours from VRAM, the
    /// backdrop from palette entry 0.
    pub open spec fn dot_bgr555(self, info: DotInfo) -> u16 {
        match info {
            DotInfo::Object(o) => hword_at(self.palette, 0x200 + o.palette.spec_ram_offset()),
            DotInfo::Background(BgDotInfo::TileMode { palette, .. }) => hword_at(
                self.palette,
                palette.spec_ram_offset(),
            ),
            DotInfo::Background(BgDotInfo::Mode3 { pos }) => hword_at(
                self.vram,
                2 * (pos.1 * HBLANK_DOT + pos.0),
            ),
            DotInfo::Background(BgDotInfo::Mode4 { color_idx }) => hword_at(
                self.palette,
                2 * color_idx,
            ),
            DotInfo::Background(BgDotInfo::Mode5 { pos }) => hword_at(
                self.vram,
                0xa000 * self.dispcnt.frame_select + 2 * (pos.1 * 160 + pos.0),
            ),
            DotInfo::Backdrop => hword_at(self.palette, 0),
        }
    }

    /// Whether a layer's dot is a target of blending (`k` 0: the upper, 1: the lower); an
    /// alpha-blending object on top makes every object a target.
    pub open spec fn is_target(self, info: DotInfo, k: int, obj_alpha: bool) -> bool {
        match info {
            DotInfo::Object(_) => self.bldcnt.obj_target@[k] || obj_alpha,
            DotInfo::Background(b) => self.bldcnt.bg_target@[k]@[b.spec_index() as int],
            DotInfo::Backdrop => self.bldcnt.backdrop_target@[k],
        }
    }

    /// The colour of the dot at the current position: white in forced blank; else the upper
    /// layer's colour, blended with the lower layer's (alpha mode, or an alpha-blending object
    /// on top, with both targets), brightened or dimmed (those modes, upper target), when the
    /// window allows effects.
    pub open spec fn composed_dot(self) -> (u8, u8, u8) {
        if self.dispcnt.forced_blank {
            (Dot::MAX_COMPONENT, Dot::MAX_COMPONENT, Dot::MAX_COMPONENT)
        } else {
            let wc = self.window_control(self.top_window());
            let (top, second) = self.top_layers(wc);
            let t = bgr555(self.dot_bgr555(top));
            let obj_alpha = top matches DotInfo::Object(o) && o.mode == Mode::AlphaBlend;
            let fx = wc matches Some(w) ==> w.blendfx_enabled;
            let w = coef_weight(self.bldy);
            if !(self.is_target(top, 0, obj_alpha) && fx) {
                t
            } else if (self.bldcnt.mode == BlendMode::Alpha || obj_alpha) && self.is_target(
                second,
                1,
                obj_alpha,
            ) {
                let b = bgr555(self.dot_bgr555(second));
                let (wt, wb) = (coef_weight(self.bldalpha.0), coef_weight(self.bldalpha.1));
                (
                    alpha_component(t.0 as int, b.0 as int, wt, wb),
                    alpha_component(t.1 as int, b.1 as int, wt, wb),
                    alpha_component(t.2 as int, b.2 as int, wt, wb),
                )
            } else if self.bldcnt.mode == BlendMode::Brighten {
                (
                    brightened_component(t.0 as int, w),
                    brightened_component(t.1 as int, w),
                    brightened_component(t.2 as int, w),
                )
            } else if self.bldcnt.mode == BlendMode::Dim {
                (
                    dimmed_component(t.0 as int, w),
                    dimmed_component(t.1 as int, w),
                    dimmed_component(t.2 as int, w),
                )
            } else {
                t
            }
        }
    }
}

impl BlendCoefficient {
    /// The coefficient's weight in 16ths.
    pub fn weight(self) -> (r: u32)
        ensures
            r == coef_weight(self.0),
            r <= 16,
    {
        let w = (self.0 & 0x1f) as u32;
        if w > 16 {
            16
        } else {
            w
        }
    }
}

fn alpha_blend_component(t: u8, b: u8, wt: u32, wb: u32) -> (r: u8)
    requires
        t <= 31,
        b <= 31,
        wt <= 16,
        wb <= 16,
    ensures
        r == alpha_component(t as int, b as int, wt as int, wb as int),
        r <= 31,
{
    assert(t * wt <= 31 * 16 && b * wb <= 31 * 16) by (nonlinear_arith)
        requires
            t <= 31,
            b <= 31,
            wt <= 16,
            wb <= 16,
    ;
    let v = (t as u32 * wt + b as u32 * wb) / 16;
    if v > 31 {
        31
    } else {
        v as u8
    }
}

fn brighten_component(c: u8, w: u32) -> (r: u8)
    requires
        c <= 31,
        w <= 16,
    ensures
        r == brightened_component(c as int, w as int),
        r <= 31,
{
    assert((31 - c) * w <= (31 - c) * 16) by (nonlinear_arith)
        requires
            c <= 31,
            w <= 16,
    ;
    (c as u32 + (31 - c as u32) * w / 16) as u8
}

fn dim_component(c: u8, w: u32) -> (r: u8)
    requires
        c <= 31,
        w <= 16,
    ensures
        r == dimmed_component(c as int, w as int),
        r <= 31,
{
    assert(c * w <= c * 16) by (nonlinear_arith)
        requires
            c <= 31,
            w <= 16,
    ;
    (c as u32 - (c as u32 * w + 15) / 16) as u8
}

impl Video {
    fn window_control(&self, win: Window) -> (r: Option<WindowControl>)
        requires
            self.wf(),
        ensures
            r == self@.window_control(win),
    {
        match win {
            Window::Off => None,
            Window::Inside0 => Some(self.winin[0]),
            Window::Inside1 => Some(self.winin[1]),
            Window::Object => Some(self.winobj),
            Window::Outside => Some(self.winout),
        }
    }

    fn inside_window(&self, i: usize) -> (r: bool)
        requires
            self.wf(),
            i < 2,
        ensures
            r == self@.inside_window(i as int),
    {
        let (x0, x1) = self.win[i].horiz;
        let (y0, y1) = self.win[i].vert;
        let inside_horiz = if x0 <= x1 {
            self.x >= x0 as u16 && self.x < x1 as u16
        } else {
            self.x < x1 as u16 || self.x >= x0 as u16
        };
        let inside_vert = if y0 <= y1 {
            self.y >= y0 && self.y < y1
        } else {
            self.y < y1 || self.y >= y0
        };
        inside_horiz && inside_vert
    }

    /// The window the current position is in.
    pub fn find_top_window(&self) -> (r: Window)
        requires
            self.wf(),
            self@.obj_mosaic_ok(),
        ensures
            r == self@.top_window(),
    {
        let en = self.dispcnt.display_bg_window;
        if !en[0] && !en[1] && !self.dispcnt.display_obj_window {
            return Window::Off;
        }
        if en[0] && self.inside_window(0) {
            return Window::Inside0;
        }
        if en[1] && self.inside_window(1) {
            return Window::Inside1;
        }
        if self.dispcnt.display_obj_window && self.check_inside_obj_window() {
            Window::Object
        } else {
            Window::Outside
        }
    }

    fn compute_tile_bg_dots(&self, win: Option<WindowControl>) -> (r: Vec<BgDotInfo>)
        requires
            self.wf(),
            background_mode(self@.dispcnt.mode) == BackgroundMode::Tile,
        ensures
            r@ == self@.tile_bg_dots(win, self@.tile_mode_bg_order.len() as int),
            forall|j: int| #![trigger r@[j]] 0 <= j < r.len() ==> r@[j].valid() && r@[j].spec_index() < 4,
    {
        let mut r: Vec<BgDotInfo> = Vec::new();
        let mut k: usize = 0;
        while k < self.tile_mode_bg_order.len()
            invariant
                self.wf(),
                background_mode(self@.dispcnt.mode) == BackgroundMode::Tile,
                k <= self@.tile_mode_bg_order.len(),
                r@ == self@.tile_bg_dots(win, k as int),
                forall|j: int| #![trigger r@[j]] 0 <= j < r.len() ==> r@[j].valid() && r@[j].spec_index() < 4,
            decreases self@.tile_mode_bg_order.len() - k,
        {
            let i = self.tile_mode_bg_order[k];
            proof {
                assert(self@.tile_mode_bg_order[k as int] == i);
                assert(self@.tile_mode_bg_order.contains(i));
                assert(mode_has_bg(self@.dispcnt.mode, i as int));
            }
            let shown = self.dispcnt.display_bg[i] && match win {
                Some(w) => w.display_bg[i],
                None => true,
            };
            if shown {
                match self.compute_bg_tile_mode_dot(i) {
                    Some(d) => {
                        r.push(d);
                    },
                    None => {},
                }
            }
            k += 1;
        }
        r
    }

    fn first_layer(&self, obj: Option<ObjDotInfo>, bgs: &Vec<BgDotInfo>, from: usize) -> (r: DotInfo)
        requires
            self.wf(),
            from <= bgs.len(),
            forall|j: int| #![trigger bgs@[j]] 0 <= j < bgs.len() ==> bgs@[j].valid() && bgs@[j].spec_index() < 4,
        ensures
            r == self@.first_layer(obj, bgs@.subrange(from as int, bgs.len() as int)),
            obj matches Some(o) && o.palette.valid() ==> r.valid(),
            obj is None ==> r.valid(),
    {
        if let Some(o) = obj {
            if from == bgs.len() || o.priority <= self.bgcnt[bgs[from].index()].priority {
                return DotInfo::Object(o);
            }
        }
        if from < bgs.len() {
            DotInfo::Background(bgs[from])
        } else {
            DotInfo::Backdrop
        }
    }

    /// The two upper layers at the current position under window control `win`.
    pub fn compute_top_layers(&self, win: Option<WindowControl>) -> (r: (DotInfo, DotInfo))
        requires
            self.wf(),
            self@.obj_mosaic_ok(),
        ensures
            r == self@.top_layers(win),
            r.0.valid(),
            r.1.valid(),
    {
        let obj = self.compute_top_obj_dot(win);
        match self.dispcnt.mode() {
            BackgroundMode::Tile => {
                let bgs = self.compute_tile_bg_dots(win);
                proof {
                    assert(bgs@.subrange(0, bgs.len() as int) =~= bgs@);
                }
                let top = self.first_layer(obj, &bgs, 0);
                let second = match top {
                    DotInfo::Object(_) => self.first_layer(None, &bgs, 0),
                    DotInfo::Background(_) => {
                        proof {
                            assert(bgs@.subrange(1, bgs.len() as int) =~= bgs@.drop_first());
                        }
                        self.first_layer(obj, &bgs, 1)
                    },
                    DotInfo::Backdrop => DotInfo::Backdrop,
                };
                (top, second)
            },
            BackgroundMode::Bitmap => {
                let bg = self.compute_bg_bitmap_mode_dot(win);
                let ghost bgs = match bg {
                    Some(b) => seq![b],
                    None => seq![],
                };
                let under = match bg {
                    Some(b) => DotInfo::Background(b),
                    None => DotInfo::Backdrop,
                };
                let top = match obj {
                    Some(o) => if bg.is_none() || o.priority <= self.bgcnt[BITMAP_MODE_INDEX].priority {
                        DotInfo::Object(o)
                    } else {
                        under
                    },
                    None => under,
                };
                let second = match top {
                    DotInfo::Object(_) => under,
                    _ => top,
                };
                proof {
                    assert(top == self@.first_layer(obj, bgs));
                }
                (top, second)
            },
            BackgroundMode::Invalid => (DotInfo::Backdrop, DotInfo::Backdrop),
        }
    }

    /// The colour of a layer's dot.
    pub fn read_dot(&self, info: DotInfo) -> (r: Dot)
        requires
            self.wf(),
            info.valid(),
        ensures
            r@ == bgr555(self@.dot_bgr555(info)),
            r.wf(),
    {
        let value = match info {
            DotInfo::Object(o) => load_hword(&self.palette_ram.0, 0x200 + o.palette.ram_offset() as usize),
            DotInfo::Background(BgDotInfo::TileMode { palette, .. }) => load_hword(
                &self.palette_ram.0,
                palette.ram_offset() as usize,
            ),
            DotInfo::Background(BgDotInfo::Mode3 { pos }) => load_hword(
                &self.vram,
                2 * (pos.1 as usize * HBLANK_DOT as usize + pos.0 as usize),
            ),
            DotInfo::Background(BgDotInfo::Mode4 { color_idx }) => load_hword(
                &self.palette_ram.0,
                2 * color_idx as usize,
            ),
            DotInfo::Background(BgDotInfo::Mode5 { pos }) => load_hword(
                &self.vram,
                self.dispcnt.frame_vram_offset() + 2 * (pos.1 as usize * 160 + pos.0 as usize),
            ),
            DotInfo::Backdrop => load_hword(&self.palette_ram.0, 0),
        };
        Dot::from_bgr555(value)
    }

    /// The colour of the dot at the current position.
    pub fn compute_dot(&self) -> (r: Dot)
        requires
            self.wf(),
            self@.obj_mosaic_ok(),
        ensures
            r@ == self@.composed_dot(),
            r.wf(),
    {
        if self.dispcnt.forced_blank {
            return Dot::white();
        }
        let wc = self.window_control(self.find_top_window());
        let (top, second) = self.compute_top_layers(wc);
        let t = self.read_dot(top);
        let obj_alpha = match top {
            DotInfo::Object(o) => match o.mode {
                Mode::AlphaBlend => true,
                _ => false,
            },
            _ => false,
        };
        let fx = match wc {
            Some(w) => w.blendfx_enabled,
            None => true,
        };
        let mode = self.bldcnt.mode;
        if !(self.is_target(top, 0, obj_alpha) && fx) {
            return t;
        }
        let alpha = match mode {
            BlendMode::Alpha => true,
            _ => obj_alpha,
        };
        if alpha && self.is_target(second, 1, obj_alpha) {
            let b = self.read_dot(second);
            let (wt, wb) = (self.bldalpha[0].weight(), self.bldalpha[1].weight());
            return Dot::new(
                alpha_blend_component(t.red(), b.red(), wt, wb),
                alpha_blend_component(t.green(), b.green(), wt, wb),
                alpha_blend_component(t.blue(), b.blue(), wt, wb),
            );
        }
        let w = self.bldy.weight();
        match mode {
            BlendMode::Brighten => Dot::new(
                brighten_component(t.red(), w),
                brighten_component(t.green(), w),
                brighten_component(t.blue(), w),
            ),
            BlendMode::Dim => Dot::new(
                dim_component(t.red(), w),
                dim_component(t.green(), w),
                dim_component(t.blue(), w),
            ),
            _ => t,
        }
    }

    fn is_target(&self, info: DotInfo, k: usize, obj_alpha: bool) -> (r: bool)
        requires
            self.wf(),
            k < 2,
            info matches DotInfo::Background(b) ==> b.spec_index() < 4,
        ensures
            r == self@.is_target(info, k as int, obj_alpha),
    {
        match info {
            DotInfo::Object(_) => self.bldcnt.obj_target[k] || obj_alpha,
            DotInfo::Background(b) => self.bldcnt.bg_target[k][b.index()],
            DotInfo::Backdrop => self.bldcnt.backdrop_target[k],
        }
    }
}

impl VideoModel {
    /// The power-on state: at the first dot, memories zeroed, registers clear, the affine
    /// matrices the identity, and the drawing order that of mode 0.
    pub open spec fn is_reset(self) -> bool {
        &&& self.x == 0
        &&& self.y == 0
        &&& self.cycle_accum == 0
        &&& self.tile_mode_bg_order == seq![0usize, 1, 2, 3]
        &&& self.vram == Seq::new(VRAM_LEN as nat, |i: int| 0u8)
        &&& self.palette == Seq::new(0x400, |i: int| 0u8)
        &&& self.oam == Seq::new(0x400, |i: int| 0u8)
        &&& self.dispcnt == DisplayControl::reset()
        &&& self.dispstat == (DisplayStatus {
            vblank_irq_enabled: false,
            hblank_irq_enabled: false,
            vcount_irq_enabled: false,
            vcount_target: 0,
            cached_bits: 0,
        })
        &&& self.greenswp == 0
        &&& self.bgcnt == Seq::new(4, |i: int| BackgroundControl::reset())
        &&& self.bgofs == Seq::new(4, |i: int| BackgroundOffset(0, 0))
        &&& self.bgref == Seq::new(2, |i: int| ReferencePoint { external: (0, 0), internal: (0, 0) })
        &&& self.bgp == Seq::new(2, |i: int| BackgroundAffine { a: 0x100, b: 0, c: 0, d: 0x100 })
        &&& self.win == Seq::new(2, |i: int| WindowDimensions { horiz: (0, 0), vert: (0, 0) })
        &&& self.winin == Seq::new(2, |i: int| WindowControl::reset())
        &&& self.winout == WindowControl::reset()
        &&& self.winobj == WindowControl::reset()
        &&& self.mosaic_bg == MosaicSize(0, 0)
        &&& self.mosaic_obj == MosaicSize(0, 0)
        &&& self.bldcnt == BlendControl::reset()
        &&& self.bldalpha == (0u8, 0u8)
        &&& self.bldy == 0
    }
}

impl Video {
    /// The video unit at power-on.
    pub fn new() -> (r: Video)
        ensures
            r.wf(),
            r@.is_reset(),
    {
        let mut order: Vec<usize> = Vec::new();
        order.push(0);
        order.push(1);
        order.push(2);
        order.push(3);
        let bgcnt = BackgroundControl::new();
        let winctl = WindowControl::new();
        let r = Video {
            x: 0,
            y: 0,
            cycle_accum: 0,
            tile_mode_bg_order: order,
            vram: vec![0u8; VRAM_LEN],
            palette_ram: PaletteRam([0; 0x400]),
            oam: Oam::new(),
            dispcnt: DisplayControl::new(),
            dispstat: DisplayStatus {
                vblank_irq_enabled: false,
                hblank_irq_enabled: false,
                vcount_irq_enabled: false,
                vcount_target: 0,
                cached_bits: 0,
            },
            greenswp: 0,
            bgcnt: [bgcnt, bgcnt, bgcnt, bgcnt],
            bgofs: [BackgroundOffset(0, 0), BackgroundOffset(0, 0), BackgroundOffset(0, 0), BackgroundOffset(0, 0)],
            bgref: [
                ReferencePoint { external: (0, 0), internal: (0, 0) },
                ReferencePoint { external: (0, 0), internal: (0, 0) },
            ],
            bgp: [BackgroundAffine::default(), BackgroundAffine::default()],
            win: [
                WindowDimensions { horiz: (0, 0), vert: (0, 0) },
                WindowDimensions { horiz: (0, 0), vert: (0, 0) },
            ],
            winin: [winctl, winctl],
            winout: winctl,
            winobj: winctl,
            mosaic_bg: MosaicSize(0, 0),
            mosaic_obj: MosaicSize(0, 0),
            bldcnt: BlendControl::new(),
            bldalpha: [BlendCoefficient(0), BlendCoefficient(0)],
            bldy: BlendCoefficient(0),
        };
        proof {
            assert(r@.tile_mode_bg_order =~= seq![0usize, 1, 2, 3]);
            assert(r@.vram =~= Seq::new(VRAM_LEN as nat, |i: int| 0u8));
            assert(r@.palette =~= Seq::new(0x400, |i: int| 0u8));
            assert(r@.bgcnt =~= Seq::new(4, |i: int| BackgroundControl::reset()));
            assert(r@.bgofs =~= Seq::new(4, |i: int| BackgroundOffset(0, 0)));
            assert(r@.bgref =~= Seq::new(2, |i: int| ReferencePoint { external: (0, 0), internal: (0, 0) }));
            assert(r@.bgp =~= Seq::new(2, |i: int| BackgroundAffine { a: 0x100, b: 0, c: 0, d: 0x100 }));
            assert(r@.win =~= Seq::new(2, |i: int| WindowDimensions { horiz: (0, 0), vert: (0, 0) }));
            assert(r@.winin =~= Seq::new(2, |i: int| WindowControl::reset()));
            assert forall|i: int| 0 <= i < 4 implies (r@.tile_mode_bg_order.contains(i as usize) <==> mode_has_bg(0, i)) by {
                assert(r@.tile_mode_bg_order[i] == i as usize);
            }
        }
        r
    }
}

/// The VRAM offset that `addr` (an offset in the VRAM region, below 128KiB) maps to: the
/// region's last 32KiB fold onto VRAM by clearing address bits 12 to 15.
pub open spec fn vram_offset(addr: u32) -> int {
    if addr < 0x1_8000 {
        addr as int
    } else {
        (addr & 0x1_0fff) as int
    }
}

fn vram_offset_exec(addr: u32) -> (r: usize)
    requires
        addr < 0x2_0000,
    ensures
        r == vram_offset(addr),
        r < VRAM_LEN,
{
    if addr < 0x1_8000 {
        addr as usize
    } else {
        proof {
            lemma_and_le(addr, 0x1_0fff);
        }
        (addr & 0x1_0fff) as usize
    }
}

fn store_hword_vec(bytes: &mut Vec<u8>, addr: usize, value: u16)
    ensures
        final(bytes)@ == hword_stored(old(bytes)@, addr as int, value),
{
    if addr < bytes.len() {
        bytes.set(addr, (value % 256) as u8);
    }
    if addr < usize::MAX && addr + 1 < bytes.len() {
        bytes.set(addr + 1, (value / 256) as u8);
    }
    assert(bytes@ =~= hword_stored(old(bytes)@, addr as int, value));
}

impl Video {
    /// Reads the VRAM byte at `addr` (an offset in the VRAM region).
    pub fn vram_read_byte(&self, addr: u32) -> (r: u8)
        requires
            self.wf(),
            addr < 0x2_0000,
        ensures
            r == self@.vram[vram_offset(addr)],
    {
        self.vram[vram_offset_exec(addr)]
    }

    /// Writes a byte to VRAM at `addr`: in background data it is stored as a half-word holding
    /// it twice; in object data it is ignored.
    pub fn vram_write_byte(&mut self, addr: u32, value: u8)
        requires
            old(self).wf(),
            addr < 0x2_0000,
        ensures
            final(self).wf(),
            final(self)@ == (VideoModel {
                vram: if vram_offset(addr) < (if background_mode(old(self)@.dispcnt.mode)
                    == BackgroundMode::Tile {
                    0x1_0000int
                } else {
                    0x1_4000int
                }) {
                    hword_stored(old(self)@.vram, vram_offset(addr), doubled(value))
                } else {
                    old(self)@.vram
                },
                ..old(self)@
            }),
    {
        let offset = vram_offset_exec(addr);
        if offset < self.dispcnt.obj_vram_offset() {
            store_hword_vec(&mut self.vram, offset, value as u16 + 256 * value as u16);
        }
    }

    /// Writes a half-word to VRAM at `addr`.
    pub fn vram_write_hword(&mut self, addr: u32, value: u16)
        requires
            old(self).wf(),
            addr < 0x2_0000,
        ensures
            final(self).wf(),
            final(self)@ == (VideoModel {
                vram: hword_stored(old(self)@.vram, vram_offset(addr), value),
                ..old(self)@
            }),
    {
        store_hword_vec(&mut self.vram, vram_offset_exec(addr), value);
    }
}

/// A reference point moved by one scanline of its affine matrix: by (b, d).
pub open spec fn ref_advanced(p: ReferencePoint, m: BackgroundAffine) -> ReferencePoint {
    ReferencePoint {
        internal: ((p.internal.0 + m.b) as i32, (p.internal.1 + m.d) as i32),
        ..p
    }
}

/// A reference point reloaded from its written value.
pub open spec fn ref_reloaded(p: ReferencePoint) -> ReferencePoint {
    ReferencePoint { internal: p.external, ..p }
}

/// The video unit, interrupt controller and DMA channels after one dot. The position moves
/// on. Entering the horizontal blank requests its interrupt (when enabled), tells DMA of it on
/// a drawn line, and before the last drawn line moves the affine reference points by a line.
/// At the end of a line the next one begins (after the last, the first); entering the vertical
/// blank requests its interrupt (when enabled), tells DMA, and reloads the reference points;
/// a new line equal to the V-count target requests its interrupt (when enabled).
pub open spec fn dot_advanced(m: VideoModel, irq: IrqModel, dma: Seq<Channel>) -> (
    VideoModel,
    IrqModel,
    Seq<Channel>,
) {
    let x = m.x + 1;
    let hblank = x == HBLANK_DOT;
    let irq1 = if hblank && m.dispstat.hblank_irq_enabled {
        irq_requested(irq, Interrupt::HBlank)
    } else {
        irq
    };
    let dma1 = if hblank && m.y < VBLANK_DOT {
        notified(dma, Event::HBlank)
    } else {
        dma
    };
    let bgref1 = if hblank && m.y < VBLANK_DOT - 1 {
        Seq::new(2, |i: int| ref_advanced(m.bgref[i], m.bgp[i]))
    } else {
        m.bgref
    };
    if x >= HORIZ_DOTS {
        let next = m.y + 1;
        let y: int = if next >= VERT_DOTS {
            0
        } else {
            next
        };
        let vblank = next < VERT_DOTS && next == VBLANK_DOT;
        let irq2 = if vblank && m.dispstat.vblank_irq_enabled {
            irq_requested(irq1, Interrupt::VBlank)
        } else {
            irq1
        };
        let dma2 = if vblank {
            notified(dma1, Event::VBlank)
        } else {
            dma1
        };
        let bgref2 = if vblank {
            Seq::new(2, |i: int| ref_reloaded(bgref1[i]))
        } else {
            bgref1
        };
        let irq3 = if m.dispstat.vcount_irq_enabled && y == m.dispstat.vcount_target {
            irq_requested(irq2, Interrupt::VCount)
        } else {
            irq2
        };
        (VideoModel { x: 0, y: y as u8, bgref: bgref2, ..m }, irq3, dma2)
    } else {
        (VideoModel { x: x as u16, bgref: bgref1, ..m }, irq1, dma1)
    }
}

/// Whether the dot after state `m` ends a frame (entering the horizontal blank of the last drawn
/// line), and if so the green swap setting (bit 0 of GREENSWP) it ends with.
pub open spec fn frame_end(m: VideoModel) -> Option<bool> {
    if m.x + 1 == HBLANK_DOT && m.y == VBLANK_DOT - 1 {
        Some(m.greenswp & 1 == 1)
    } else {
        None
    }
}

/// The state after `n` dots.
pub open spec fn dots_advanced(m: VideoModel, irq: IrqModel, dma: Seq<Channel>, n: nat) -> (
    VideoModel,
    IrqModel,
    Seq<Channel>,
)
    decreases n,
{
    if n == 0 {
        (m, irq, dma)
    } else {
        let (m1, irq1, dma1) = dot_advanced(m, irq, dma);
        dots_advanced(m1, irq1, dma1, (n - 1) as nat)
    }
}

/// The state after running for `cycles` cycles: a dot every 4 cycles, the remainder kept.
pub open spec fn video_stepped(m: VideoModel, irq: IrqModel, dma: Seq<Channel>, cycles: u8) -> (
    VideoModel,
    IrqModel,
    Seq<Channel>,
) {
    let total = m.cycle_accum + cycles;
    let (m1, irq1, dma1) = dots_advanced(m, irq, dma, (total / 4) as nat);
    (VideoModel { cycle_accum: (total % 4) as u16, ..m1 }, irq1, dma1)
}

/// The model as the video unit reaches dot `i` of a `step` of `cycles` cycles from `m`.
pub open spec fn stepping_model(
    m: VideoModel,
    irq: IrqModel,
    dma: Seq<Channel>,
    cycles: u8,
    i: nat,
) -> VideoModel {
    let total = m.cycle_accum + cycles;
    VideoModel { cycle_accum: (total % 4) as u16, ..dots_advanced(m, irq, dma, i).0 }
}

/// Whether callback state `b` follows `a` at dot `m`: the dot is handed over when it lies on
/// the screen and `a` does not skip frames.
pub open spec fn dot_handed<C: Callback>(m: VideoModel, a: C, b: C) -> bool {
    if m.x < HBLANK_DOT && m.y < VBLANK_DOT && !a.frame_skipping() {
        C::dot_taken(a, b, m.x as u8, m.y as u8, m.composed_dot())
    } else {
        b == a
    }
}

/// Whether callback state `b` follows `a` as the video unit leaves dot `m`: the end of a
/// frame is reported.
pub open spec fn frame_end_handed<C: Callback>(m: VideoModel, a: C, b: C) -> bool {
    match frame_end(m) {
        Some(green_swap) => C::frame_ended(a, b, green_swap),
        None => b == a,
    }
}

/// Whether the callback states `cbs[2 * i]`, `cbs[2 * i + 1]`, `cbs[2 * i + 2]` follow one
/// another at dot `i` of a `step` of `cycles` cycles from `m`.
pub open spec fn dot_step_handed<C: Callback>(
    m: VideoModel,
    irq: IrqModel,
    dma: Seq<Channel>,
    cycles: u8,
    cbs: Seq<C>,
    i: int,
) -> bool {
    let mi = stepping_model(m, irq, dma, cycles, i as nat);
    &&& dot_handed(mi, cbs[2 * i], cbs[2 * i + 1])
    &&& frame_end_handed(mi, cbs[2 * i + 1], cbs[2 * i + 2])
}

/// Whether `cbs` is the succession of a callback's states through a `step` of `cycles` cycles
/// from `m`: two for each dot, after the dot and after the end of a frame.
pub open spec fn callback_trace<C: Callback>(
    m: VideoModel,
    irq: IrqModel,
    dma: Seq<Channel>,
    cycles: u8,
    cbs: Seq<C>,
) -> bool {
    let n = (m.cycle_accum + cycles) / 4;
    &&& cbs.len() == 2 * n + 1
    &&& forall|i: int| 0 <= i < n ==> #[trigger] dot_step_handed(m, irq, dma, cycles, cbs, i)
}

proof fn lemma_ref_advanced_bounded(p: ReferencePoint, a: BackgroundAffine, y: u8)
    requires
        y < VBLANK_DOT - 1,
        p.bounded((HBLANK_DOT - 1) as u16, y),
    ensures
        ref_advanced(p, a).bounded(HBLANK_DOT as u16, y),
        -0x8000_0000 <= p.internal.0 + a.b < 0x8000_0000,
        -0x8000_0000 <= p.internal.1 + a.d < 0x8000_0000,
{
    assert(0x8000 * (y as int) <= 0x8000 * 158) by (nonlinear_arith)
        requires
            y <= 158,
    ;
}

impl Video {
    /// Moves on by one dot, requesting interrupts and telling DMA of the blanks; returns the
    /// green swap setting when the dot ends a frame.
    #[verifier::rlimit(40)]
    pub fn advance_dot(&mut self, irq: &mut Irq, dma: &mut Dma) -> (r: Option<bool>)
        requires
            old(self).wf(),
        ensures
            final(self).wf(),
            (final(self)@, final(irq)@, final(dma)@) == dot_advanced(old(self)@, old(irq)@, old(dma)@),
            r == frame_end(old(self)@),
    {
        let ghost before = self@;
        let ghost irq0 = irq@;
        let ghost dma0 = dma@;
        let mut end: Option<bool> = None;
        self.x = self.x + 1;
        if self.x == HBLANK_DOT as u16 {
            if self.dispstat.hblank_irq_enabled {
                irq.request(Interrupt::HBlank);
            }
            if self.y < VBLANK_DOT {
                dma.notify(Event::HBlank);
            }
            if self.y < VBLANK_DOT - 1 {
                proof {
                    assert(before.bgref[0].bounded(before.x, before.y));
                    assert(before.bgref[1].bounded(before.x, before.y));
                    lemma_ref_advanced_bounded(before.bgref[0], before.bgp[0], before.y);
                    lemma_ref_advanced_bounded(before.bgref[1], before.bgp[1], before.y);
                }
                let mut p0 = self.bgref[0];
                p0.internal = (p0.internal.0 + self.bgp[0].b as i32, p0.internal.1 + self.bgp[0].d as i32);
                self.bgref[0] = p0;
                let mut p1 = self.bgref[1];
                p1.internal = (p1.internal.0 + self.bgp[1].b as i32, p1.internal.1 + self.bgp[1].d as i32);
                self.bgref[1] = p1;
                assert(self@.bgref =~= Seq::new(2, |i: int| ref_advanced(before.bgref[i], before.bgp[i])));
            }
            if self.y == VBLANK_DOT - 1 {
                end = Some(self.greenswp & 1 == 1);
            }
        }
        let ghost bgref1 = self@.bgref;
        let ghost irq1 = irq@;
        let ghost dma1 = dma@;
        if self.x >= HORIZ_DOTS {
            self.x = 0;
            self.y = self.y + 1;
            if self.y >= VERT_DOTS {
                self.y = 0;
            } else if self.y == VBLANK_DOT {
                if self.dispstat.vblank_irq_enabled {
                    irq.request(Interrupt::VBlank);
                }
                dma.notify(Event::VBlank);
                let mut p0 = self.bgref[0];
                p0.internal = p0.external;
                self.bgref[0] = p0;
                let mut p1 = self.bgref[1];
                p1.internal = p1.external;
                self.bgref[1] = p1;
                assert(self@.bgref =~= Seq::new(2, |i: int| ref_reloaded(bgref1[i])));
            }
            if self.dispstat.vcount_irq_enabled && self.y == self.dispstat.vcount_target {
                irq.request(Interrupt::VCount);
            }
        }
        assert forall|i: int| 0 <= i < 2 implies #[trigger] self@.bgref[i].bounded(self.x, self.y) by {
            assert(before.bgref[i].bounded(before.x, before.y));
        }
        end
    }

    /// Runs the video unit for `cycles` cycles: a dot every 4 cycles. Each dot on the screen is
    /// handed to `cb` unless it skips the frame; the end of each frame is reported to it;
    /// interrupts are requested of `irq` and the blanks are reported to `dma`.
    pub fn step<C: Callback>(&mut self, cb: &mut C, irq: &mut Irq, dma: &mut Dma, cycles: u8)
        requires
            old(self).wf(),
            old(self)@.obj_mosaic_ok(),
        ensures
            final(self).wf(),
            (final(self)@, final(irq)@, final(dma)@) == video_stepped(old(self)@, old(irq)@, old(dma)@, cycles),
            exists|cbs: Seq<C>|
                #[trigger] callback_trace(old(self)@, old(irq)@, old(dma)@, cycles, cbs) && cbs[0]
                    == *old(cb) && cbs.last() == *final(cb),
    {
        let ghost m0 = self@;
        let ghost irq0 = irq@;
        let ghost dma0 = dma@;
        let ghost mut cbs: Seq<C> = seq![*cb];
        let total = self.cycle_accum + cycles as u16;
        let mut n: u16 = 0;
        self.cycle_accum = total % 4;
        let ghost start = self@;
        while n < total / 4
            invariant
                self.wf(),
                self@.obj_mosaic_ok(),
                n <= total / 4,
                total == m0.cycle_accum + cycles,
                start == (VideoModel { cycle_accum: (total % 4) as u16, ..m0 }),
                self@.cycle_accum == total % 4,
                ({
                    let (m1, irq1, dma1) = dots_advanced(m0, irq0, dma0, n as nat);
                    self@ == (VideoModel { cycle_accum: (total % 4) as u16, ..m1 }) && irq@ == irq1
                        && dma@ == dma1
                }),
                cbs.len() == 2 * n + 1,
                cbs[0] == *old(cb),
                cbs.last() == *cb,
                forall|i: int|
                    0 <= i < n ==> #[trigger] dot_step_handed(m0, irq0, dma0, cycles, cbs, i),
            decreases total / 4 - n,
        {
            let ghost mi = self@;
            let ghost c_start = *cb;
            if self.x < HBLANK_DOT as u16 && self.y < VBLANK_DOT && !cb.is_frame_skipping() {
                let dot = self.compute_dot();
                cb.put_dot(self.x as u8, self.y, dot);
            }
            let ghost c_dot = *cb;
            let ghost pre = self@;
            let ghost pre_irq = irq@;
            let ghost pre_dma = dma@;
            let end = self.advance_dot(irq, dma);
            proof {
                lemma_dots_advanced_step(m0, irq0, dma0, n as nat, (total % 4) as u16);
            }
            if let Some(green_swap) = end {
                cb.end_frame(green_swap);
            }
            proof {
                let old_cbs = cbs;
                cbs = cbs.push(c_dot).push(*cb);
                assert(mi == stepping_model(m0, irq0, dma0, cycles, n as nat));
                assert forall|i: int| 0 <= i < n + 1 implies #[trigger] dot_step_handed(
                    m0,
                    irq0,
                    dma0,
                    cycles,
                    cbs,
                    i,
                ) by {
                    if i < n {
                        assert(dot_step_handed(m0, irq0, dma0, cycles, old_cbs, i));
                        assert(cbs[2 * i] == old_cbs[2 * i]);
                        assert(cbs[2 * i + 1] == old_cbs[2 * i + 1]);
                        assert(cbs[2 * i + 2] == old_cbs[2 * i + 2]);
                    } else {
                        assert(cbs[2 * i] == c_start);
                        assert(cbs[2 * i + 1] == c_dot);
                        assert(cbs[2 * i + 2] == *cb);
                    }
                }
            }
            n += 1;
        }
        proof {
            assert(callback_trace(m0, irq0, dma0, cycles, cbs));
        }
    }
}

proof fn lemma_dots_advanced_step(m: VideoModel, irq: IrqModel, dma: Seq<Channel>, n: nat, acc: u16)
    ensures
        ({
            let (m1, irq1, dma1) = dots_advanced(m, irq, dma, n);
            let (m2, irq2, dma2) = dot_advanced(VideoModel { cycle_accum: acc, ..m1 }, irq1, dma1);
            let (m3, irq3, dma3) = dots_advanced(m, irq, dma, n + 1);
            m2 == VideoModel { cycle_accum: acc, ..m3 } && irq2 == irq3 && dma2 == dma3
        }),
    decreases n,
{
    let (m1, irq1, dma1) = dot_advanced(m, irq, dma);
    if n == 0 {
        assert(dots_advanced(m1, irq1, dma1, 0) == (m1, irq1, dma1));
        assert(dots_advanced(m, irq, dma, 1) == dots_advanced(m1, irq1, dma1, 0));
        let (m2, irq2, dma2) = dot_advanced(VideoModel { cycle_accum: acc, ..m }, irq, dma);
        assert(m2 =~= VideoModel { cycle_accum: acc, ..m1 });
    } else {
        lemma_dots_advanced_step(m1, irq1, dma1, (n - 1) as nat, acc);
        assert(dots_advanced(m, irq, dma, n) == dots_advanced(m1, irq1, dma1, (n - 1) as nat));
        assert(dots_advanced(m, irq, dma, n + 1) == dots_advanced(m1, irq1, dma1, n));
    }
}

impl Video {
    /// Reads the palette RAM byte at `addr`.
    pub fn palette_read_byte(&self, addr: u32) -> (r: u8)
        requires
            self.wf(),
            addr < 0x400,
        ensures
            r == self@.palette[addr as int],
    {
        self.palette_ram.read_byte(addr)
    }

    /// Writes a byte to palette RAM, stored as a half-word holding it twice.
    pub fn palette_write_byte(&mut self, addr: u32, value: u8)
        requires
            old(self).wf(),
        ensures
            final(self).wf(),
            final(self)@ == (VideoModel {
                palette: hword_stored(old(self)@.palette, addr as int, doubled(value)),
                ..old(self)@
            }),
    {
        self.palette_ram.write_byte(addr, value);
    }

    /// Writes a half-word to palette RAM.
    pub fn palette_write_hword(&mut self, addr: u32, value: u16)
        requires
            old(self).wf(),
        ensures
            final(self).wf(),
            final(self)@ == (VideoModel {
                palette: hword_stored(old(self)@.palette, addr as int, value),
                ..old(self)@
            }),
    {
        self.palette_ram.write_hword(addr, value);
    }

    /// Reads the OAM byte at `addr`.
    pub fn oam_read_byte(&self, addr: u32) -> (r: u8)
        requires
            self.wf(),
            addr < 0x400,
        ensures
            r == self@.oam[addr as int],
    {
        self.oam.read_byte(addr)
    }

    /// Writes a half-word to OAM.
    pub fn oam_write_hword(&mut self, addr: u32, value: u16)
        requires
            old(self).wf(),
            addr < 0x400,
        ensures
            final(self).wf(),
            final(self)@ == (VideoModel {
                oam: hword_stored(old(self)@.oam, addr as int, value),
                ..old(self)@
            }),
    {
        self.oam.write_hword(addr, value);
    }
}

} // verus!

verus! {

/// Video RAM, reached through the video unit that owns it (whose display mode decides which
/// part of it holds background data).
pub struct Vram<'a>(pub &'a mut Video);

impl<'a> Vram<'a> {
    /// The byte at `addr`.
    pub fn read_byte(&self, addr: u32) -> (r: u8)
        requires
            self.0.wf(),
            addr < 0x2_0000,
        ensures
            r == old(self.0)@.vram[vram_offset(addr)],
    {
        self.0.vram_read_byte(addr)
    }

    /// Writes a byte at `addr`, as `Video::vram_write_byte` does.
    pub fn write_byte(&mut self, addr: u32, value: u8)
        requires
            old(self).0.wf(),
            addr < 0x2_0000,
        ensures
            final(self).0.wf(),
            *final(final(self).0) == *final(old(self).0),
            final(self).0@ == (VideoModel {
                vram: if vram_offset(addr) < (if background_mode(old(self).0@.dispcnt.mode)
                    == BackgroundMode::Tile {
                    0x1_0000int
                } else {
                    0x1_4000int
                }) {
                    hword_stored(old(self).0@.vram, vram_offset(addr), doubled(value))
                } else {
                    old(self).0@.vram
                },
                ..old(self).0@
            }),
    {
        self.0.vram_write_byte(addr, value);
    }

    /// Writes a half-word at `addr`.
    pub fn write_hword(&mut self, addr: u32, value: u16)
        requires
            old(self).0.wf(),
            addr < 0x2_0000,
        ensures
            final(self).0.wf(),
            *final(final(self).0) == *final(old(self).0),
            final(self).0@ == (VideoModel {
                vram: hword_stored(old(self).0@.vram, vram_offset(addr), value),
                ..old(self).0@
            }),
    {
        self.0.vram_write_hword(addr, value);
    }
}

impl Video {
    /// Access to video RAM; what is done through it is done to this video unit.
    pub fn vram(&mut self) -> (r: Vram)
        ensures
            *r.0 == *old(self),
            *final(r.0) == *final(self),
    {
        Vram(self)
    }
}

} // verus!
