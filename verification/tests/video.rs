use libmemetendo::dma::Dma;
use libmemetendo::irq::Irq;
use libmemetendo::util::video::FrameBuffer as DotBuffer;
use libmemetendo::video::screen::{FrameBuffer, Rgb};
use libmemetendo::video::{Callback, Dot, Video};

#[derive(Default)]
struct Recorder {
    dots: Vec<(u8, u8, (u8, u8, u8))>,
    frames: Vec<bool>,
    skipping: bool,
}

impl Callback for Recorder {
    fn put_dot(&mut self, x: u8, y: u8, dot: Dot) {
        self.dots.push((x, y, (dot.red(), dot.green(), dot.blue())));
    }

    fn end_frame(&mut self, green_swap: bool) {
        self.frames.push(green_swap);
    }

    fn is_frame_skipping(&self) -> bool {
        self.skipping
    }
}

fn run(video: &mut Video, cb: &mut Recorder, irq: &mut Irq, dma: &mut Dma, mut cycles: u32) {
    while cycles > 0 {
        let n = cycles.min(252);
        video.step(cb, irq, dma, n as u8);
        cycles -= n;
    }
}

fn first_dot(video: &mut Video) -> (u8, u8, u8) {
    let mut cb = Recorder::default();
    let mut irq = Irq::new();
    let mut dma = Dma::new();
    video.step(&mut cb, &mut irq, &mut dma, 4);
    assert_eq!(cb.dots.len(), 1);
    assert_eq!((cb.dots[0].0, cb.dots[0].1), (0, 0));
    cb.dots[0].2
}

/// Mode 3 with background 2 shown, and a green dot at (0, 0).
fn mode3_green() -> Video {
    let mut video = Video::new();
    video.write_byte(0x00, 0x03);
    video.write_byte(0x01, 0x04);
    video.vram_write_hword(0, 0x03e0);
    video
}

#[test]
fn video_starts_at_line_zero_with_clear_registers() {
    let video = Video::new();
    assert_eq!(video.read_byte(0x00), 0);
    assert_eq!(video.read_byte(0x01), 0);
    assert_eq!(video.read_byte(0x06), 0);
    // The V-count target is 0, so the V-count match flag is set on line 0.
    assert_eq!(video.read_byte(0x04), 0x04);
}

#[test]
fn video_registers_read_back() {
    let mut video = Video::new();
    video.write_byte(0x00, 0x45);
    video.write_byte(0x01, 0x9f);
    video.write_byte(0x0c, 0x8d);
    video.write_byte(0x0d, 0x1f);
    video.write_byte(0x48, 0x3f);
    video.write_byte(0x4b, 0x21);
    video.write_byte(0x50, 0x44);
    video.write_byte(0x53, 0x10);
    assert_eq!(video.read_byte(0x00), 0x45);
    assert_eq!(video.read_byte(0x01), 0x9f);
    assert_eq!(video.read_byte(0x0c), 0x8d);
    assert_eq!(video.read_byte(0x0d), 0x1f);
    assert_eq!(video.read_byte(0x48), 0x3f);
    assert_eq!(video.read_byte(0x4b), 0x21);
    assert_eq!(video.read_byte(0x50), 0x44);
    assert_eq!(video.read_byte(0x53), 0x10);
    // Write-only registers read as 0.
    video.write_byte(0x54, 0x10);
    assert_eq!(video.read_byte(0x54), 0);
}

#[test]
fn video_dispstat_flags() {
    let mut video = Video::new();
    video.write_byte(0x04, 0x38);
    video.write_byte(0x05, 5);
    assert_eq!(video.read_byte(0x04), 0x38);
    assert_eq!(video.read_byte(0x05), 5);
    let mut cb = Recorder::default();
    let mut irq = Irq::new();
    let mut dma = Dma::new();
    // Into the horizontal blank of line 0.
    run(&mut video, &mut cb, &mut irq, &mut dma, 240 * 4);
    assert_eq!(video.read_byte(0x04), 0x3a);
}

#[test]
fn video_lines_take_308_dots_of_4_cycles() {
    let mut video = Video::new();
    let mut cb = Recorder::default();
    let mut irq = Irq::new();
    let mut dma = Dma::new();
    run(&mut video, &mut cb, &mut irq, &mut dma, 308 * 4 - 1);
    assert_eq!(video.read_byte(0x06), 0);
    run(&mut video, &mut cb, &mut irq, &mut dma, 1);
    assert_eq!(video.read_byte(0x06), 1);
    // A full frame is 228 lines.
    run(&mut video, &mut cb, &mut irq, &mut dma, 227 * 308 * 4);
    assert_eq!(video.read_byte(0x06), 0);
}

#[test]
fn video_draws_each_screen_dot_once_per_frame() {
    let mut video = Video::new();
    let mut cb = Recorder::default();
    let mut irq = Irq::new();
    let mut dma = Dma::new();
    run(&mut video, &mut cb, &mut irq, &mut dma, 228 * 308 * 4);
    assert_eq!(cb.dots.len(), 240 * 160);
    assert_eq!(cb.frames, vec![false]);
    assert_eq!(cb.dots[240 * 160 - 1].0, 239);
    assert_eq!(cb.dots[240 * 160 - 1].1, 159);
}

#[test]
fn video_frame_skipping_draws_nothing() {
    let mut video = Video::new();
    let mut cb = Recorder { skipping: true, ..Recorder::default() };
    let mut irq = Irq::new();
    let mut dma = Dma::new();
    video.write_byte(0x02, 0x01);
    run(&mut video, &mut cb, &mut irq, &mut dma, 228 * 308 * 4);
    assert!(cb.dots.is_empty());
    assert_eq!(cb.frames, vec![true]);
}

#[test]
fn video_blank_interrupts() {
    let mut video = Video::new();
    let mut cb = Recorder::default();
    let mut irq = Irq::new();
    let mut dma = Dma::new();
    // H-blank and V-blank interrupts enabled; V-count target 2.
    video.write_byte(0x04, 0x18);
    video.write_byte(0x05, 2);
    run(&mut video, &mut cb, &mut irq, &mut dma, 240 * 4 - 1);
    assert_eq!(irq.read_byte(0x202), 0);
    run(&mut video, &mut cb, &mut irq, &mut dma, 1);
    assert_eq!(irq.read_byte(0x202), 0x02);
    irq.write_byte(0x202, 0xff);
    run(&mut video, &mut cb, &mut irq, &mut dma, (160 * 308 - 240) * 4);
    assert_eq!(video.read_byte(0x06), 160);
    assert_eq!(irq.read_byte(0x202) & 0x01, 0x01);
    // The V-count interrupt was not enabled.
    assert_eq!(irq.read_byte(0x202) & 0x04, 0);
}

#[test]
fn video_vcount_interrupt() {
    let mut video = Video::new();
    let mut cb = Recorder::default();
    let mut irq = Irq::new();
    let mut dma = Dma::new();
    video.write_byte(0x04, 0x20);
    video.write_byte(0x05, 3);
    run(&mut video, &mut cb, &mut irq, &mut dma, 3 * 308 * 4 - 1);
    assert_eq!(irq.read_byte(0x202), 0);
    run(&mut video, &mut cb, &mut irq, &mut dma, 1);
    assert_eq!(irq.read_byte(0x202), 0x04);
}

#[test]
fn video_forced_blank_is_white() {
    let mut video = Video::new();
    video.write_byte(0x00, 0x80);
    assert_eq!(first_dot(&mut video), (31, 31, 31));
}

#[test]
fn video_backdrop_is_palette_entry_zero() {
    let mut video = Video::new();
    video.palette_ram.write_hword(0, 0x7c1f);
    assert_eq!(first_dot(&mut video), (31, 0, 31));
}

#[test]
fn video_mode3_bitmap() {
    let mut video = mode3_green();
    assert_eq!(first_dot(&mut video), (0, 31, 0));
}

#[test]
fn video_mode4_bitmap_uses_palette() {
    let mut video = Video::new();
    video.write_byte(0x00, 0x04);
    video.write_byte(0x01, 0x04);
    video.vram_write_hword(0, 0x0005);
    video.palette_ram.write_hword(10, 0x001f);
    assert_eq!(first_dot(&mut video), (31, 0, 0));
}

#[test]
fn video_alpha_blend() {
    let mut video = mode3_green();
    // Background 2 as both targets, alpha blending, 4/16 of each.
    video.write_byte(0x50, 0x44);
    video.write_byte(0x51, 0x04);
    video.write_byte(0x52, 4);
    video.write_byte(0x53, 4);
    assert_eq!(first_dot(&mut video), (0, 15, 0));
}

#[test]
fn video_alpha_blend_saturates() {
    let mut video = mode3_green();
    video.write_byte(0x50, 0x44);
    video.write_byte(0x51, 0x04);
    // Weights above 16 count as 16.
    video.write_byte(0x52, 0x1f);
    video.write_byte(0x53, 16);
    assert_eq!(first_dot(&mut video), (0, 31, 0));
}

#[test]
fn video_brighten() {
    let mut video = mode3_green();
    video.write_byte(0x50, 0x84);
    video.write_byte(0x54, 8);
    assert_eq!(first_dot(&mut video), (15, 31, 15));
}

#[test]
fn video_dim() {
    let mut video = mode3_green();
    video.write_byte(0x50, 0xc4);
    video.write_byte(0x54, 8);
    assert_eq!(first_dot(&mut video), (0, 15, 0));
}

#[test]
fn video_effects_need_a_target() {
    let mut video = mode3_green();
    video.write_byte(0x50, 0xc1);
    video.write_byte(0x54, 16);
    assert_eq!(first_dot(&mut video), (0, 31, 0));
}

#[test]
fn video_palette_byte_writes_double() {
    let mut video = Video::new();
    video.palette_ram.write_byte(2, 0x12);
    assert_eq!(video.palette_ram.read_byte(2), 0x12);
    assert_eq!(video.palette_ram.read_byte(3), 0x12);
    video.palette_ram.write_hword(4, 0xbeef);
    assert_eq!(video.palette_ram.read_byte(4), 0xef);
    assert_eq!(video.palette_ram.read_byte(5), 0xbe);
}

#[test]
fn video_vram_byte_writes() {
    let mut video = Video::new();
    video.vram_write_byte(0x100, 0xab);
    assert_eq!(video.vram_read_byte(0x100), 0xab);
    assert_eq!(video.vram_read_byte(0x101), 0xab);
    // Object data ignores byte writes.
    video.vram_write_byte(0x1_0000, 0x01);
    assert_eq!(video.vram_read_byte(0x1_0000), 0);
    // In a bitmap mode the background data reaches further.
    video.write_byte(0x00, 0x03);
    video.vram_write_byte(0x1_0000, 0x01);
    assert_eq!(video.vram_read_byte(0x1_0000), 0x01);
}

#[test]
fn video_vram_mirror() {
    let mut video = Video::new();
    video.vram_write_hword(0x1_0010, 0x1234);
    assert_eq!(video.vram_read_byte(0x1_8010), 0x34);
    assert_eq!(video.vram_read_byte(0x1_8011), 0x12);
}

#[test]
fn video_object_dot() {
    let mut video = Video::new();
    // Every OAM entry is zero: 8x8 16-colour objects at (0, 0) with tile 0 and palette 0.
    video.write_byte(0x01, 0x10);
    video.vram_write_hword(0x1_0000, 0x0001);
    video.palette_ram.write_hword(0x202, 0x001f);
    video.palette_ram.write_hword(0, 0x03e0);
    assert_eq!(first_dot(&mut video), (31, 0, 0));
}

#[test]
fn video_hidden_object_is_not_drawn() {
    let mut video = Video::new();
    video.write_byte(0x01, 0x10);
    video.vram_write_hword(0x1_0000, 0x0001);
    video.palette_ram.write_hword(0x202, 0x001f);
    video.palette_ram.write_hword(0, 0x03e0);
    // Hide every object.
    for i in 0..128 {
        video.oam.write_hword(8 * i, 0x0200);
    }
    assert_eq!(video.oam.read_byte(1), 0x02);
    assert_eq!(first_dot(&mut video), (0, 31, 0));
}

#[test]
fn video_bgcnt_priority_write() {
    let mut video = Video::new();
    video.set_bgcnt_lo_bits(0, 0x03);
    video.set_bgcnt_hi_bits(0, 0x81);
    assert_eq!(video.bgcnt()[0].priority, 3);
    assert_eq!(video.bgcnt()[0].screen_base_block, 1);
    assert_eq!(video.read_byte(0x08), 0x03);
    assert_eq!(video.read_byte(0x09), 0x81);
}

#[test]
fn video_dot_from_bgr555() {
    let dot = Dot::from_bgr555(0x7fff);
    assert_eq!((dot.red(), dot.green(), dot.blue()), (31, 31, 31));
    let dot = Dot::from_bgr555(0x8421);
    assert_eq!((dot.red(), dot.green(), dot.blue()), (1, 1, 1));
    let white = Dot::white();
    assert_eq!((white.red(), white.green(), white.blue()), (31, 31, 31));
}

#[test]
fn vram_accessor_writes_through() {
    let mut video = Video::new();
    {
        let mut vram = video.vram();
        vram.write_hword(0x10, 0x1234);
        assert_eq!(vram.read_byte(0x11), 0x12);
        vram.write_byte(0x200, 0x56);
        assert_eq!(vram.read_byte(0x201), 0x56);
        vram.write_hword(0x1_0010, 0xabcd);
        assert_eq!(vram.read_byte(0x1_8010), 0xcd);
    }
    assert_eq!(video.vram_read_byte(0x10), 0x34);
    assert_eq!(video.vram_read_byte(0x200), 0x56);
    assert_eq!(video.vram_read_byte(0x1_0011), 0xab);
}

#[test]
fn frame_buffer_pixel_reads_back() {
    let mut fb = FrameBuffer::new();
    let left = Rgb { r: 1, g: 2, b: 3 };
    let right = Rgb { r: 4, g: 5, b: 6 };
    fb.set_pixel(10, 7, left, false);
    assert_eq!(fb.pixel(10, 7), left);
    fb.set_pixel(11, 7, right, false);
    assert_eq!(fb.pixel(11, 7), right);
    assert_eq!(fb.pixel(10, 7), left);
    assert_eq!(fb.pixel(12, 7), Rgb { r: 0, g: 0, b: 0 });

    fb.set_pixel(11, 7, right, true);
    assert_eq!(fb.pixel(11, 7), Rgb { r: 4, g: 2, b: 6 });
    assert_eq!(fb.pixel(10, 7), Rgb { r: 1, g: 5, b: 3 });
}

#[test]
fn green_swap_twice_restores_frame() {
    let mut fb = DotBuffer::<3>::new(0);
    for x in 0..8u8 {
        fb.put_dot(x, 3, Dot::from_bgr555(u16::from(x) * 0x0421));
    }
    let before = fb.0.clone();
    fb.green_swap();
    assert_ne!(fb.0, before);
    fb.green_swap();
    assert_eq!(fb.0, before);
}

#[test]
fn green_swap_partial_last_pair() {
    // 11 bytes of 3-byte dots: the last pair is cut short but holds both greens.
    let mut fb = DotBuffer::<3>(vec![0, 1, 2, 3, 4, 5, 6, 7, 8, 9, 10].into_boxed_slice());
    fb.green_swap();
    assert_eq!(&*fb.0, &[0, 4, 2, 3, 1, 5, 6, 10, 8, 9, 7]);
}
