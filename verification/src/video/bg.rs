use vstd::prelude::*;

use super::reg::{screen_tile_len_of, BackgroundControl, ScreenAreas, WindowControl};
use crate::arm7tdmi::isa::lemma_and_le16;
use crate::bits::lemma_u8_fields;
use vstd::arithmetic::power2::lemma2_to64;
use vstd::bits::lemma_u16_shr_is_div;
use super::{
    bg_key, hword_at, load_hword, Video, VideoModel, HBLANK_DOT, TILE_DOT_LEN, VBLANK_DOT,
};

verus! {

/// Where a dot's colour comes from in palette RAM: a 16-colour palette and an index in it,
/// or (without a palette) an index among 256 colours.
#[derive(Debug, Copy, Clone)]
pub struct DotPaletteInfo {
    pub idx: Option<u16>,
    pub color_idx: u32,
}

impl DotPaletteInfo {
    /// The offset of the colour in its half of palette RAM.
    pub open spec fn spec_ram_offset(self) -> int {
        match self.idx {
            Some(p) => 2 * (16 * p + self.color_idx),
            None => 2 * self.color_idx,
        }
    }

    /// The colour index and the palette are in range.
    pub open spec fn valid(self) -> bool {
        self.color_idx < 256 && (self.idx matches Some(p) ==> p < 16)
    }

    pub fn ram_offset(self) -> (r: u32)
        requires
            self.valid(),
        ensures
            r == self.spec_ram_offset(),
    {
        let color_idx = match self.idx {
            Some(palette_idx) => 16 * palette_idx as u32 + self.color_idx,
            None => self.color_idx,
        };
        2 * color_idx
    }
}

/// What a background dot is drawn from.
#[derive(Debug, Copy, Clone)]
pub enum BgDotInfo {
    /// A tile of background `idx`.
    TileMode { idx: usize, palette: DotPaletteInfo },
    /// A 15-bit colour of the mode 3 bitmap at `pos`.
    Mode3 { pos: (u32, u32) },
    /// A palette colour of the mode 4 bitmap.
    Mode4 { color_idx: u8 },
    /// A 15-bit colour of the mode 5 bitmap at `pos`.
    Mode5 { pos: (u32, u32) },
}

/// The background the bitmap modes draw.
pub const BITMAP_MODE_INDEX: usize = 2;

impl BgDotInfo {
    pub open spec fn spec_index(self) -> usize {
        match self {
            BgDotInfo::TileMode { idx, .. } => idx,
            _ => BITMAP_MODE_INDEX,
        }
    }

    /// The position or colour is in range.
    pub open spec fn valid(self) -> bool {
        match self {
            BgDotInfo::TileMode { palette, .. } => palette.valid(),
            BgDotInfo::Mode3 { pos } => pos.0 < 240 && pos.1 < 160,
            BgDotInfo::Mode4 { .. } => true,
            BgDotInfo::Mode5 { pos } => pos.0 < 160 && pos.1 < 128,
        }
    }

    /// The background the dot belongs to.
    pub fn index(self) -> (r: usize)
        ensures
            r == self.spec_index(),
    {
        match self {
            BgDotInfo::TileMode { idx, .. } => idx,
            _ => BITMAP_MODE_INDEX,
        }
    }
}

/// Whether background `bg_idx` is a text (scrolled) background in display mode `mode`: all of
/// them in mode 0, backgrounds 0 and 1 in mode 1, none in mode 2.
pub open spec fn uses_text_mode(mode: u8, bg_idx: int) -> bool {
    mode == 0 || (mode == 1 && bg_idx < 2)
}

/// A position moved by an affine transformation: `pos` is the position relative to the
/// origin, `d` the change per unit of x and `dm` per unit of y, `origin` the transformed
/// origin; all in 8.8 fixed point, and the result in whole units.
pub open spec fn affine_transformed(
    origin: (i32, i32),
    dm: (i32, i32),
    d: (i32, i32),
    pos: (i32, i32),
) -> (i32, i32) {
    (
        (origin.0.wrapping_add((pos.1 * dm.0) as i32).wrapping_add((pos.0 * d.0) as i32)) >> 8i32,
        (origin.1.wrapping_add((pos.1 * dm.1) as i32).wrapping_add((pos.0 * d.1) as i32)) >> 8i32,
    )
}

/// The bound on the values of an affine transformation that keeps its products in range.
pub open spec fn affine_args_ok(dm: (i32, i32), d: (i32, i32), pos: (i32, i32)) -> bool {
    &&& -0x8000 <= dm.0 <= 0x7fff
    &&& -0x8000 <= dm.1 <= 0x7fff
    &&& -0x8000 <= d.0 <= 0x7fff
    &&& -0x8000 <= d.1 <= 0x7fff
    &&& -0x1000 <= pos.0 <= 0x1000
    &&& -0x1000 <= pos.1 <= 0x1000
}

pub fn affine_transform_pos(
    origin: (i32, i32),
    dm: (i32, i32),
    d: (i32, i32),
    pos: (i32, i32),
) -> (r: (i32, i32))
    requires
        affine_args_ok(dm, d, pos),
    ensures
        r == affine_transformed(origin, dm, d, pos),
{
    assert(-0x1000 * 0x8000 <= pos.1 * dm.0 <= 0x1000 * 0x8000) by (nonlinear_arith)
        requires
            -0x8000 <= dm.0 <= 0x7fff,
            -0x1000 <= pos.1 <= 0x1000,
    ;
    assert(-0x1000 * 0x8000 <= pos.0 * d.0 <= 0x1000 * 0x8000) by (nonlinear_arith)
        requires
            -0x8000 <= d.0 <= 0x7fff,
            -0x1000 <= pos.0 <= 0x1000,
    ;
    assert(-0x1000 * 0x8000 <= pos.1 * dm.1 <= 0x1000 * 0x8000) by (nonlinear_arith)
        requires
            -0x8000 <= dm.1 <= 0x7fff,
            -0x1000 <= pos.1 <= 0x1000,
    ;
    assert(-0x1000 * 0x8000 <= pos.0 * d.1 <= 0x1000 * 0x8000) by (nonlinear_arith)
        requires
            -0x8000 <= d.1 <= 0x7fff,
            -0x1000 <= pos.0 <= 0x1000,
    ;
    (
        origin.0.wrapping_add(pos.1 * dm.0).wrapping_add(pos.0 * d.0) >> 8i32,
        origin.1.wrapping_add(pos.1 * dm.1).wrapping_add(pos.0 * d.1) >> 8i32,
    )
}

/// A dot position within a tile of `size` tiles, mirrored along the axes that are flipped.
pub open spec fn flipped(flip: (bool, bool), size: (u8, u8), pos: (u8, u8)) -> (u8, u8) {
    (
        if flip.0 {
            (size.0 * TILE_DOT_LEN - 1 - pos.0) as u8
        } else {
            pos.0
        },
        if flip.1 {
            (size.1 * TILE_DOT_LEN - 1 - pos.1) as u8
        } else {
            pos.1
        },
    )
}

pub fn flip_tile_dot_pos(flip: (bool, bool), size: (u8, u8), pos: (u8, u8)) -> (r: (u8, u8))
    requires
        size.0 <= 8,
        size.1 <= 8,
        pos.0 < size.0 * TILE_DOT_LEN,
        pos.1 < size.1 * TILE_DOT_LEN,
    ensures
        r == flipped(flip, size, pos),
{
    let (mut dot_x, mut dot_y) = pos;
    if flip.0 {
        dot_x = size.0 * TILE_DOT_LEN - 1 - dot_x;
    }
    if flip.1 {
        dot_y = size.1 * TILE_DOT_LEN - 1 - dot_y;
    }
    (dot_x, dot_y)
}

impl VideoModel {
    /// The colour index of the tile dot at `dot_offset` of VRAM: the low or high nibble (by the
    /// parity of `dot_x`) with a 16-colour palette, else the byte; 0 is transparent. Offsets
    /// past VRAM draw nothing.
    pub open spec fn tile_dot_palette(
        self,
        palette_idx: Option<u16>,
        dot_offset: int,
        dot_x: u8,
    ) -> Option<DotPaletteInfo> {
        if dot_offset >= self.vram.len() {
            None
        } else {
            let byte = self.vram[dot_offset];
            let color_idx: u32 = if palette_idx is Some {
                ((byte >> (4 * (dot_x % 2)) as u8) & 0xf) as u32
            } else {
                byte as u32
            };
            if color_idx != 0 {
                Some(DotPaletteInfo { idx: palette_idx, color_idx })
            } else {
                None
            }
        }
    }

    /// Where an affine background (2 or 3) samples for dot `x` of the current line.
    pub open spec fn bg_affine_pos(self, bg_idx: int, x: i32) -> (i32, i32) {
        let params = self.bgp[bg_idx - 2];
        affine_transformed(
            self.bgref[bg_idx - 2].internal,
            (0, 0),
            (params.a as i32, params.c as i32),
            (x, 0),
        )
    }

    /// The side of background `bg_idx` in tiles.
    pub open spec fn screen_tile_len(self, bg_idx: int, text_mode: bool) -> u32 {
        screen_tile_len_of(self.bgcnt[bg_idx].screen_config, text_mode) as u32
    }

    /// The tile-mode dot of background `bg_idx` at the current position, if it is not
    /// transparent: a text background scrolls by its offsets and reads its tile map entry (tile
    /// number, flips and palette); an affine background transforms the position and reads a
    /// tile number byte, outside its area drawing nothing unless it wraps around.
    pub open spec fn bg_tile_mode_dot(self, bg_idx: int) -> Option<BgDotInfo> {
        let text_mode = uses_text_mode(self.dispcnt.mode, bg_idx);
        let bgcnt = self.bgcnt[bg_idx];
        let affine = self.bg_affine_pos(bg_idx, self.x as i32);
        if !text_mode && (affine.0 < 0 || affine.1 < 0) {
            None
        } else {
            let x: int = if text_mode {
                self.bgofs[bg_idx].0 + self.x
            } else {
                affine.0 as int
            };
            let y: int = if text_mode {
                self.bgofs[bg_idx].1 + self.y
            } else {
                affine.1 as int
            };
            let (tile_x, tile_y) = (x / 8, y / 8);
            let len = self.screen_tile_len(bg_idx, text_mode) as int;
            let screen_idx: int = if text_mode {
                let sx = (tile_x / len) % 2;
                let sy = (tile_y / len) % 2;
                match bgcnt.screen_config {
                    ScreenAreas::One => 0,
                    ScreenAreas::TwoHorizontal => sx,
                    ScreenAreas::TwoVertical => sy,
                    ScreenAreas::Four => 2 * sy + sx,
                }
            } else {
                0
            };
            let screen_base = 0x800 * (bgcnt.screen_base_block + screen_idx);
            let wrap = text_mode || bgcnt.wraparound;
            let stx = if wrap {
                tile_x % len
            } else {
                tile_x
            };
            let sty = if wrap {
                tile_y % len
            } else {
                tile_y
            };
            if stx >= len || sty >= len {
                None
            } else {
                let tile_idx = sty * len + stx;
                let (dot_x, dot_y) = ((x % 8) as u8, (y % 8) as u8);
                let tile_info = hword_at(self.vram, screen_base + 2 * tile_idx);
                let flips = self.dispcnt.mode == 0 || (self.dispcnt.mode == 1 && bg_idx < 2);
                let (dx, dy) = if text_mode && flips {
                    flipped(
                        ((tile_info >> 10u16) & 1 == 1, (tile_info >> 11u16) & 1 == 1),
                        (1, 1),
                        (dot_x, dot_y),
                    )
                } else {
                    (dot_x, dot_y)
                };
                let map_offset = screen_base + tile_idx;
                if !text_mode && map_offset >= self.vram.len() {
                    None
                } else {
                    let color256 = !text_mode || bgcnt.color256 || (self.dispcnt.mode == 1 && bg_idx
                        == 2) || self.dispcnt.mode == 2;
                    let palette_idx = if color256 {
                        None
                    } else {
                        Some(tile_info >> 12u16)
                    };
                    let dots_idx: int = if text_mode {
                        (tile_info & 0x3ff) as int
                    } else {
                        self.vram[map_offset] as int
                    };
                    let size_div: int = if color256 {
                        1
                    } else {
                        2
                    };
                    let dot_offset = 0x4000 * bgcnt.dots_base_block + (64int / size_div) * dots_idx + (
                    8 * dy + dx) / size_div;
                    match self.tile_dot_palette(palette_idx, dot_offset, dx) {
                        Some(palette) => Some(BgDotInfo::TileMode { idx: bg_idx as usize, palette }),
                        None => None,
                    }
                }
            }
        }
    }
}

impl Video {
    pub(crate) fn read_tile_dot_palette(&self, palette_idx: Option<u16>, dot_offset: usize, dot_x: u8) -> (r:
        Option<DotPaletteInfo>)
        requires
            self.wf(),
        ensures
            r == self@.tile_dot_palette(palette_idx, dot_offset as int, dot_x),
            r matches Some(p) ==> p.color_idx < 256 && p.idx == palette_idx,
    {
        if dot_offset >= self.vram.len() {
            return None;
        }
        let byte = self.vram[dot_offset];
        let color_idx: u32 = if palette_idx.is_some() {
            ((byte >> (4 * (dot_x % 2))) & 0xf) as u32
        } else {
            byte as u32
        };
        if color_idx != 0 {
            Some(DotPaletteInfo { idx: palette_idx, color_idx })
        } else {
            None
        }
    }

    fn bg_affine_transform_pos(&self, bg_idx: usize, x: i32) -> (r: (i32, i32))
        requires
            self.wf(),
            2 <= bg_idx < 4,
            -0x1000 <= x <= 0x1000,
        ensures
            r == self@.bg_affine_pos(bg_idx as int, x),
    {
        let params = self.bgp[bg_idx - 2];
        affine_transform_pos(
            self.bgref[bg_idx - 2].internal,
            (0, 0),
            (params.a as i32, params.c as i32),
            (x, 0),
        )
    }

    /// The tile-mode dot of background `bg_idx` at the current position.
    #[verifier::spinoff_prover]
    #[verifier::rlimit(80)]
    pub fn compute_bg_tile_mode_dot(&self, bg_idx: usize) -> (r: Option<BgDotInfo>)
        requires
            self.wf(),
            bg_idx < 4,
            uses_text_mode(self@.dispcnt.mode, bg_idx as int) || bg_idx >= 2,
        ensures
            r == self@.bg_tile_mode_dot(bg_idx as int),
            r matches Some(d) ==> d.valid() && d.spec_index() == bg_idx,
    {
        let mode = self.dispcnt.mode;
        let text_mode = mode == 0 || (mode == 1 && bg_idx < 2);
        let bgcnt = self.bgcnt[bg_idx];
        let (x, y): (u32, u32) = if text_mode {
            let (scroll_x, scroll_y) = self.bgofs[bg_idx].get();
            (scroll_x as u32 + self.x as u32, scroll_y as u32 + self.y as u32)
        } else {
            let (ax, ay) = self.bg_affine_transform_pos(bg_idx, self.x as i32);
            if ax < 0 || ay < 0 {
                return None;
            }
            (ax as u32, ay as u32)
        };
        let (tile_x, tile_y) = (x / TILE_DOT_LEN as u32, y / TILE_DOT_LEN as u32);
        let len = bgcnt.screen_tile_len(text_mode) as u32;
        let screen_idx: u8 = if text_mode {
            bgcnt.text_mode_screen_index(((tile_x / len) as i32, (tile_y / len) as i32))
        } else {
            0
        };
        let screen_base = bgcnt.screen_vram_offset(screen_idx);
        let wrap = text_mode || bgcnt.wraparound;
        let (stx, sty) = if wrap {
            (tile_x % len, tile_y % len)
        } else {
            (tile_x, tile_y)
        };
        if stx >= len || sty >= len {
            return None;
        }
        assert(sty * len + stx < 128 * 128) by (nonlinear_arith)
            requires
                sty < len,
                stx < len,
                len <= 128,
        ;
        let tile_idx = sty * len + stx;
        let (dot_x, dot_y) = ((x % 8) as u8, (y % 8) as u8);
        let mut dx = dot_x;
        let mut dy = dot_y;
        let mut palette_idx: Option<u16> = None;
        let dots_idx: usize;
        let color256: bool;
        if text_mode {
            let tile_info = load_hword(&self.vram, screen_base + 2 * tile_idx as usize);
            if mode == 0 || (mode == 1 && bg_idx < 2) {
                let flipped = flip_tile_dot_pos(
                    ((tile_info >> 10u16) & 1 == 1, (tile_info >> 11u16) & 1 == 1),
                    (1, 1),
                    (dot_x, dot_y),
                );
                dx = flipped.0;
                dy = flipped.1;
            }
            color256 = bgcnt.color256 || (mode == 1 && bg_idx == 2) || mode == 2;
            if !color256 {
                proof {
                    lemma_u16_shr_is_div(tile_info, 12);
                    lemma2_to64();
                }
                palette_idx = Some(tile_info >> 12u16);
            }
            proof {
                lemma_and_le16(tile_info, 0x3ff);
            }
            dots_idx = (tile_info & 0x3ff) as usize;
        } else {
            let map_offset = screen_base + tile_idx as usize;
            if map_offset >= self.vram.len() {
                return None;
            }
            color256 = true;
            dots_idx = self.vram[map_offset] as usize;
        }
        let size_div: usize = if color256 {
            1
        } else {
            2
        };
        assert((64usize / size_div) * dots_idx <= 64 * 1023) by (nonlinear_arith)
            requires
                1 <= size_div <= 2,
                dots_idx <= 1023,
        ;
        let dot_offset = bgcnt.dots_vram_offset() + (64 / size_div) * dots_idx + (8 * dy as usize
            + dx as usize) / size_div;
        match self.read_tile_dot_palette(palette_idx, dot_offset, dx) {
            Some(palette) => Some(BgDotInfo::TileMode { idx: bg_idx, palette }),
            None => None,
        }
    }

    /// The bitmap-mode dot at the current position, if the bitmap background shows there: mode
    /// 3 a 240x160 15-bit bitmap, mode 4 a 240x160 bitmap of palette indices (0 transparent) in
    /// the selected frame, mode 5 a 160x128 15-bit bitmap in the selected frame.
    pub fn compute_bg_bitmap_mode_dot(&self, win: Option<WindowControl>) -> (r: Option<BgDotInfo>)
        requires
            self.wf(),
            self@.dispcnt.mode == 3 || self@.dispcnt.mode == 4 || self@.dispcnt.mode == 5,
        ensures
            r == self@.bg_bitmap_mode_dot(win),
            r matches Some(d) ==> d.valid() && d.spec_index() == BITMAP_MODE_INDEX,
    {
        if !self.dispcnt.display_bg[BITMAP_MODE_INDEX] {
            return None;
        }
        if let Some(w) = win {
            if !w.display_bg[BITMAP_MODE_INDEX] {
                return None;
            }
        }
        let (ax, ay) = self.bg_affine_transform_pos(BITMAP_MODE_INDEX, self.x as i32);
        if ax < 0 || ay < 0 {
            return None;
        }
        let (x, y) = (ax as u32, ay as u32);
        if x >= HBLANK_DOT as u32 || y >= VBLANK_DOT as u32 {
            return None;
        }
        let mode = self.dispcnt.mode;
        if mode == 3 {
            Some(BgDotInfo::Mode3 { pos: (x, y) })
        } else if mode == 4 {
            let frame_offset = self.dispcnt.frame_vram_offset();
            let color_idx = self.vram[frame_offset + y as usize * HBLANK_DOT as usize + x as usize];
            if color_idx > 0 {
                Some(BgDotInfo::Mode4 { color_idx })
            } else {
                None
            }
        } else if x >= 160 || y >= 128 {
            None
        } else {
            Some(BgDotInfo::Mode5 { pos: (x, y) })
        }
    }
}

impl VideoModel {
    pub open spec fn bg_bitmap_mode_dot(self, win: Option<WindowControl>) -> Option<BgDotInfo> {
        let pos = self.bg_affine_pos(BITMAP_MODE_INDEX as int, self.x as i32);
        if !self.dispcnt.display_bg@[BITMAP_MODE_INDEX as int] || (win matches Some(w)
            && !w.display_bg@[BITMAP_MODE_INDEX as int]) {
            None
        } else if pos.0 < 0 || pos.1 < 0 || pos.0 >= HBLANK_DOT || pos.1 >= VBLANK_DOT {
            None
        } else if self.dispcnt.mode == 3 {
            Some(BgDotInfo::Mode3 { pos: (pos.0 as u32, pos.1 as u32) })
        } else if self.dispcnt.mode == 4 {
            let color_idx = self.vram[0xa000 * self.dispcnt.frame_select + pos.1 * HBLANK_DOT
                + pos.0];
            if color_idx > 0 {
                Some(BgDotInfo::Mode4 { color_idx })
            } else {
                None
            }
        } else if pos.0 >= 160 || pos.1 >= 128 {
            None
        } else {
            Some(BgDotInfo::Mode5 { pos: (pos.0 as u32, pos.1 as u32) })
        }
    }
}

/// Of the first `k` keys (priority times 4 plus index), those of the backgrounds that
/// `members` marks, in order.
pub open spec fn sorted_bgs_upto(bgcnt: Seq<BackgroundControl>, members: Seq<bool>, k: int) -> Seq<
    usize,
>
    decreases k,
{
    if k <= 0 {
        seq![]
    } else {
        let prev = sorted_bgs_upto(bgcnt, members, k - 1);
        let i = (k - 1) % 4;
        if members[i] && bgcnt[i].priority == (k - 1) / 4 {
            prev.push(i as usize)
        } else {
            prev
        }
    }
}

/// The backgrounds that `members` marks, ordered by priority and then by index.
pub open spec fn sorted_bgs(bgcnt: Seq<BackgroundControl>, members: Seq<bool>) -> Seq<usize> {
    sorted_bgs_upto(bgcnt, members, 16)
}

/// Which of the four backgrounds `order` holds.
pub open spec fn members_of(order: Seq<usize>) -> Seq<bool> {
    Seq::new(4, |i: int| order.contains(i as usize))
}

proof fn lemma_sorted_bgs_upto(bgcnt: Seq<BackgroundControl>, members: Seq<bool>, k: int)
    requires
        0 <= k <= 16,
        bgcnt.len() == 4,
        members.len() == 4,
        forall|i: int| 0 <= i < 4 ==> #[trigger] bgcnt[i].priority <= 3,
    ensures
        ({
            let r = sorted_bgs_upto(bgcnt, members, k);
            &&& forall|a: int, b: int| 0 <= a < b < r.len() ==> bg_key(bgcnt, r[a]) < bg_key(bgcnt, r[b])
            &&& forall|j: int| 0 <= j < r.len() ==> #[trigger] r[j] < 4 && bg_key(bgcnt, r[j]) < k
            &&& forall|i: int| 0 <= i < 4 ==> (#[trigger] r.contains(i as usize) <==> (members[i]
                && bg_key(bgcnt, i as usize) < k))
        }),
    decreases k,
{
    if k > 0 {
        lemma_sorted_bgs_upto(bgcnt, members, k - 1);
        let prev = sorted_bgs_upto(bgcnt, members, k - 1);
        let i = (k - 1) % 4;
        let pushed = members[i] && bgcnt[i].priority == (k - 1) / 4;
        let r = sorted_bgs_upto(bgcnt, members, k);
        assert forall|m: int| 0 <= m < 4 implies (bg_key(bgcnt, m as usize) == k - 1 <==> (m == i
            && bgcnt[m].priority == (k - 1) / 4)) by {
            assert(bgcnt[m].priority <= 3);
        }
        assert forall|m: int| 0 <= m < 4 implies (#[trigger] r.contains(m as usize) <==> (
        members[m] && bg_key(bgcnt, m as usize) < k)) by {
            if pushed {
                assert(r == prev.push(i as usize));
                if r.contains(m as usize) && m != i {
                    let j = choose|j: int| 0 <= j < r.len() && r[j] == m as usize;
                    assert(prev[j] == m as usize);
                    assert(prev.contains(m as usize));
                }
                if members[m] && bg_key(bgcnt, m as usize) < k - 1 {
                    assert(prev.contains(m as usize));
                    let j = choose|j: int| 0 <= j < prev.len() && prev[j] == m as usize;
                    assert(r[j] == m as usize);
                }
                if m == i {
                    assert(r[prev.len() as int] == m as usize);
                }
            } else {
                assert(r == prev);
                if prev.contains(m as usize) {
                    assert(bg_key(bgcnt, m as usize) < k - 1);
                }
            }
        }
        if pushed {
            assert(bg_key(bgcnt, i as usize) == k - 1);
        }
    }
}

/// Sorting gives the marked backgrounds, each once, in increasing order of priority and then
/// index.
pub proof fn lemma_sorted_bgs(bgcnt: Seq<BackgroundControl>, members: Seq<bool>)
    requires
        bgcnt.len() == 4,
        members.len() == 4,
        forall|i: int| 0 <= i < 4 ==> #[trigger] bgcnt[i].priority <= 3,
    ensures
        ({
            let r = sorted_bgs(bgcnt, members);
            &&& forall|a: int, b: int| 0 <= a < b < r.len() ==> bg_key(bgcnt, r[a]) < bg_key(bgcnt, r[b])
            &&& forall|j: int| 0 <= j < r.len() ==> #[trigger] r[j] < 4
            &&& forall|i: int| 0 <= i < 4 ==> (#[trigger] r.contains(i as usize) <==> members[i])
            &&& r.no_duplicates()
        }),
{
    lemma_sorted_bgs_upto(bgcnt, members, 16);
    let r = sorted_bgs(bgcnt, members);
    assert forall|i: int| 0 <= i < 4 implies #[trigger] bg_key(bgcnt, i as usize) < 16 by {
        assert(bgcnt[i].priority <= 3);
    }
    assert forall|a: int, b: int| 0 <= a < r.len() && 0 <= b < r.len() && a != b implies r[a]
        != r[b] by {
        if a < b {
            assert(bg_key(bgcnt, r[a]) < bg_key(bgcnt, r[b]));
        } else {
            assert(bg_key(bgcnt, r[b]) < bg_key(bgcnt, r[a]));
        }
    }
}

pub(super) fn sorted_bg_order(bgcnt: &[BackgroundControl; 4], members: [bool; 4]) -> (r: Vec<usize>)
    ensures
        r@ == sorted_bgs(bgcnt@, members@),
{
    let mut r: Vec<usize> = Vec::new();
    let mut k: usize = 0;
    while k < 16
        invariant
            k <= 16,
            r@ == sorted_bgs_upto(bgcnt@, members@, k as int),
        decreases 16 - k,
    {
        let i = k % 4;
        if members[i] && bgcnt[i].priority as usize == k / 4 {
            r.push(i);
        }
        k += 1;
    }
    r
}

fn order_contains(order: &Vec<usize>, i: usize) -> (r: bool)
    ensures
        r == order@.contains(i),
{
    let mut j: usize = 0;
    while j < order.len()
        invariant
            j <= order.len(),
            forall|m: int| 0 <= m < j ==> order@[m] != i,
        decreases order.len() - j,
    {
        if order[j] == i {
            assert(order@[j as int] == i);
            return true;
        }
        j += 1;
    }
    false
}

impl Video {
    /// Sorts the drawing order by priority and then index.
    pub(super) fn priority_sort_tile_mode_bgs(&mut self)
        ensures
            final(self)@ == (VideoModel {
                tile_mode_bg_order: sorted_bgs(old(self)@.bgcnt, members_of(old(self)@.tile_mode_bg_order)),
                ..old(self)@
            }),
            final(self).oam == old(self).oam,
    {
        let members = [
            order_contains(&self.tile_mode_bg_order, 0),
            order_contains(&self.tile_mode_bg_order, 1),
            order_contains(&self.tile_mode_bg_order, 2),
            order_contains(&self.tile_mode_bg_order, 3),
        ];
        assert(members@ =~= members_of(self.tile_mode_bg_order@));
        self.tile_mode_bg_order = sorted_bg_order(&self.bgcnt, members);
    }
}

impl VideoModel {
    /// The unit with the low byte of BGxCNT `i` written; when the background's priority
    /// changes, the drawing order is sorted again.
    pub open spec fn bgcnt_lo_written(self, i: int, bits: u8) -> VideoModel {
        let bgcnt = self.bgcnt.update(i, self.bgcnt[i].lo_written(bits));
        VideoModel {
            bgcnt,
            tile_mode_bg_order: if bgcnt[i].priority != self.bgcnt[i].priority {
                sorted_bgs(bgcnt, members_of(self.tile_mode_bg_order))
            } else {
                self.tile_mode_bg_order
            },
            ..self
        }
    }

    /// The unit with the high byte of BGxCNT `i` written.
    pub open spec fn bgcnt_hi_written(self, i: int, bits: u8) -> VideoModel {
        VideoModel { bgcnt: self.bgcnt.update(i, self.bgcnt[i].hi_written(bits)), ..self }
    }
}

impl Video {
    /// Writes the low byte of BGxCNT `bg_idx`, keeping the drawing order sorted.
    pub fn set_bgcnt_lo_bits(&mut self, bg_idx: usize, bits: u8)
        requires
            old(self).wf(),
            bg_idx < 4,
        ensures
            final(self).wf(),
            final(self)@ == old(self)@.bgcnt_lo_written(bg_idx as int, bits),
    {
        let ghost before = self@;
        proof {
            lemma_u8_fields(bits);
        }
        let old_priority = self.bgcnt[bg_idx].priority;
        let mut bgcnt = self.bgcnt[bg_idx];
        bgcnt.set_lo_bits(bits);
        self.bgcnt[bg_idx] = bgcnt;
        if old_priority != self.bgcnt[bg_idx].priority {
            self.priority_sort_tile_mode_bgs();
            proof {
                lemma_sorted_bgs(self@.bgcnt, members_of(before.tile_mode_bg_order));
                assert forall|i: int| 0 <= i < 4 implies (#[trigger] members_of(
                    before.tile_mode_bg_order,
                )[i] == before.tile_mode_bg_order.contains(i as usize)) by {}
            }
        } else {
            proof {
                assert forall|e: usize| e < 4 implies #[trigger] bg_key(self@.bgcnt, e) == bg_key(
                    before.bgcnt,
                    e,
                ) by {}
                let order = self@.tile_mode_bg_order;
                assert forall|a: int, b: int| 0 <= a < b < order.len() implies bg_key(
                    self@.bgcnt,
                    order[a],
                ) < bg_key(self@.bgcnt, order[b]) by {
                    assert(bg_key(self@.bgcnt, order[a]) == bg_key(before.bgcnt, order[a]));
                    assert(bg_key(self@.bgcnt, order[b]) == bg_key(before.bgcnt, order[b]));
                }
            }
        }
        assert(self@.bgcnt == before.bgcnt.update(
            bg_idx as int,
            before.bgcnt[bg_idx as int].lo_written(bits),
        ));
    }

    /// Writes the high byte of BGxCNT `bg_idx`.
    pub fn set_bgcnt_hi_bits(&mut self, bg_idx: usize, bits: u8)
        requires
            old(self).wf(),
            bg_idx < 4,
        ensures
            final(self).wf(),
            final(self)@ == old(self)@.bgcnt_hi_written(bg_idx as int, bits),
    {
        let ghost before = self@;
        proof {
            lemma_u8_fields(bits);
        }
        let mut bgcnt = self.bgcnt[bg_idx];
        bgcnt.set_hi_bits(bits);
        self.bgcnt[bg_idx] = bgcnt;
        proof {
            assert forall|e: usize| e < 4 implies #[trigger] bg_key(self@.bgcnt, e) == bg_key(
                before.bgcnt,
                e,
            ) by {}
            let order = self@.tile_mode_bg_order;
            assert forall|a: int, b: int| 0 <= a < b < order.len() implies bg_key(
                self@.bgcnt,
                order[a],
            ) < bg_key(self@.bgcnt, order[b]) by {
                assert(bg_key(self@.bgcnt, order[a]) == bg_key(before.bgcnt, order[a]));
                assert(bg_key(self@.bgcnt, order[b]) == bg_key(before.bgcnt, order[b]));
            }
        }
    }

    /// The background control registers.
    pub fn bgcnt(&self) -> (r: &[BackgroundControl; 4])
        ensures
            r@ == self@.bgcnt,
    {
        &self.bgcnt
    }
}

/// The backgrounds are drawn in order of priority and, among equal priorities, of index:
/// every operation keeps the drawing order so.
pub proof fn lemma_drawing_order(m: VideoModel, a: int, b: int)
    requires
        m.wf(),
        0 <= a < b < m.tile_mode_bg_order.len(),
    ensures
        ({
            let (i, j) = (m.tile_mode_bg_order[a], m.tile_mode_bg_order[b]);
            m.bgcnt[i as int].priority < m.bgcnt[j as int].priority || (m.bgcnt[i as int].priority
                == m.bgcnt[j as int].priority && i < j)
        }),
{
    let (i, j) = (m.tile_mode_bg_order[a], m.tile_mode_bg_order[b]);
    assert(bg_key(m.bgcnt, i) < bg_key(m.bgcnt, j));
    assert(i < 4 && j < 4);
}

} // verus!

verus! {

impl VideoModel {
    /// The VRAM offset of the tile-map entry that text background `bg_idx` shows at the
    /// current dot: the scrolled position's tile in one of the 32x32-entry screen blocks that
    /// follow the background's screen base block, chosen by its screen layout.
    pub open spec fn text_entry_offset(self, bg_idx: int) -> int {
        let x: int = self.bgofs[bg_idx].0 + self.x;
        let y: int = self.bgofs[bg_idx].1 + self.y;
        let (tile_x, tile_y) = (x / 8, y / 8);
        let (sx, sy) = ((tile_x / 32) % 2, (tile_y / 32) % 2);
        let block: int = match self.bgcnt[bg_idx].screen_config {
            ScreenAreas::One => 0,
            ScreenAreas::TwoHorizontal => sx,
            ScreenAreas::TwoVertical => sy,
            ScreenAreas::Four => 2 * sy + sx,
        };
        0x800 * (self.bgcnt[bg_idx].screen_base_block + block) + 2 * ((tile_y % 32) * 32 + tile_x
            % 32)
    }

    /// Dot (`tx`, `ty`) of the tile that tile-map `entry` names (its low 10 bits), for text
    /// background `bg_idx`: with 16 colours the nibble of the entry's palette (its top 4
    /// bits), else the byte; nothing where it is transparent (colour 0).
    pub open spec fn text_tile_dot(self, bg_idx: int, entry: u16, tx: u8, ty: u8) -> Option<
        BgDotInfo,
    > {
        let bgcnt = self.bgcnt[bg_idx];
        let tile: int = (entry & 0x3ff) as int;
        let (palette_idx, offset) = if bgcnt.color256 {
            (None, 0x4000 * bgcnt.dots_base_block + 64 * tile + 8 * ty + tx)
        } else {
            (Some(entry >> 12u16), 0x4000 * bgcnt.dots_base_block + 32 * tile + (8 * ty + tx) / 2)
        };
        match self.tile_dot_palette(palette_idx, offset, tx) {
            Some(palette) => Some(BgDotInfo::TileMode { idx: bg_idx as usize, palette }),
            None => None,
        }
    }
}

/// In a text background, bit 10 of a tile-map entry mirrors its tile horizontally and bit 11
/// vertically: at position (`x`, `y`) within the tile, the dot drawn is the tile's dot
/// (7 - `x`, `y`) with bit 10 alone, (`x`, 7 - `y`) with bit 11 alone, both mirrored with both.
pub proof fn lemma_text_tile_flips(m: VideoModel, bg_idx: int)
    requires
        0 <= bg_idx < 4,
        uses_text_mode(m.dispcnt.mode, bg_idx),
    ensures
        ({
            let entry = hword_at(m.vram, m.text_entry_offset(bg_idx));
            let x: int = m.bgofs[bg_idx].0 + m.x;
            let y: int = m.bgofs[bg_idx].1 + m.y;
            let (tx, ty) = ((x % 8) as u8, (y % 8) as u8);
            let h_flip = (entry >> 10u16) & 1 == 1;
            let v_flip = (entry >> 11u16) & 1 == 1;
            m.bg_tile_mode_dot(bg_idx) == m.text_tile_dot(
                bg_idx,
                entry,
                if h_flip {
                    (7 - tx) as u8
                } else {
                    tx
                },
                if v_flip {
                    (7 - ty) as u8
                } else {
                    ty
                },
            )
        }),
{
}

} // verus!
