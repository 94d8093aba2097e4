use std::rc::Rc;

use libmemetendo::bios;
use libmemetendo::bus::{Bus, BusExt};
use libmemetendo::cart::{BackupType, Cartridge, Rom};
use libmemetendo::gba::{Gba, State};
use libmemetendo::util::audio::NullCallback as NullAudio;
use libmemetendo::util::video::NullCallback as NullVideo;

fn bios_rom() -> bios::Rom {
    let mut buf = vec![0u8; 0x4000];
    for (i, b) in buf.iter_mut().enumerate().take(8) {
        *b = 0x10 + i as u8;
    }
    bios::Rom::new(Rc::from(buf)).unwrap()
}

fn gba(rom: &[u8]) -> Gba<'_> {
    Gba::new(bios_rom(), Cartridge::new(Rom::new(rom).unwrap(), BackupType::NoBackup))
}

/// A cartridge ROM starting with `mov r0, #5`, then `add r1, r0, #2`.
fn program() -> Vec<u8> {
    let mut rom = vec![0u8; 0x100];
    rom[0..4].copy_from_slice(&0xe3a0_0005u32.to_le_bytes());
    rom[4..8].copy_from_slice(&0xe280_1002u32.to_le_bytes());
    rom
}

#[test]
fn gba_work_ram_is_mirrored() {
    let rom = program();
    let mut gba = gba(&rom);
    gba.bus.write_byte(0x0200_0010, 0xab);
    assert_eq!(gba.bus.read_byte(0x0200_0010), 0xab);
    assert_eq!(gba.bus.read_byte(0x0204_0010), 0xab);
    gba.bus.write_byte(0x0300_8020, 0xcd);
    assert_eq!(gba.bus.read_byte(0x0300_0020), 0xcd);
    gba.bus.write_word(0x0300_0100, 0x1234_5678);
    assert_eq!(gba.bus.read_word(0x0300_0100), 0x1234_5678);
}

#[test]
fn gba_io_registers_reach_devices() {
    let rom = program();
    let mut gba = gba(&rom);
    // DISPCNT
    gba.bus.write_byte(0x0400_0000, 0x03);
    assert_eq!(gba.bus.read_byte(0x0400_0000), 0x03);
    assert_eq!(gba.bus.video.read_byte(0x00), 0x03);
    // IE
    gba.bus.write_byte(0x0400_0200, 0x01);
    assert_eq!(gba.bus.read_byte(0x0400_0200), 0x01);
    // A register no device implements holds what was written.
    gba.bus.write_byte(0x0400_0134, 0x77);
    assert_eq!(gba.bus.read_byte(0x0400_0134), 0x77);
    // HALTCNT stops the processor with bit 7.
    gba.bus.write_byte(0x0400_0301, 0x80);
    assert_eq!(gba.bus.haltcnt.0, State::Stopped);
    assert_eq!(gba.bus.read_byte(0x0400_0301), 0);
}

#[test]
fn gba_video_memory_writes() {
    let rom = program();
    let mut gba = gba(&rom);
    // A byte written to palette RAM is stored twice.
    gba.bus.write_byte(0x0500_0002, 0x12);
    assert_eq!(gba.bus.read_byte(0x0500_0002), 0x12);
    assert_eq!(gba.bus.read_byte(0x0500_0003), 0x12);
    // Palette RAM is mirrored every 1KiB.
    assert_eq!(gba.bus.read_byte(0x0500_0402), 0x12);
    // Byte writes to OAM are ignored; half-word writes are not.
    gba.bus.write_byte(0x0700_0000, 0x55);
    assert_eq!(gba.bus.read_byte(0x0700_0000), 0);
    gba.bus.write_hword(0x0700_0000, 0xbeef);
    assert_eq!(gba.bus.read_hword(0x0700_0000), 0xbeef);
    // VRAM takes half-words, and bytes in background data as two copies.
    gba.bus.write_hword(0x0600_0010, 0x1234);
    assert_eq!(gba.bus.read_hword(0x0600_0010), 0x1234);
    gba.bus.write_byte(0x0600_0020, 0x9a);
    assert_eq!(gba.bus.read_hword(0x0600_0020), 0x9a9a);
}

#[test]
fn gba_cartridge_and_unmapped_reads() {
    let rom = program();
    let mut gba = gba(&rom);
    assert_eq!(gba.bus.read_word(0x0800_0000), 0xe3a0_0005);
    // The ROM is seen in every wait-state region.
    assert_eq!(gba.bus.read_word(0x0a00_0000), 0xe3a0_0005);
    // Without save memory, its region reads 0xff.
    assert_eq!(gba.bus.read_byte(0x0e00_0000), 0xff);
    assert_eq!(gba.bus.read_byte(0x1000_0000), 0xff);
}

#[test]
fn gba_bios_is_protected_until_executed() {
    let rom = program();
    let mut gba = gba(&rom);
    // Not executing from the BIOS: reads give the last fetched BIOS word (at 0).
    assert_eq!(gba.bus.read_byte(0x0000_0005), 0x11);
    gba.bus.prefetch_instr(0x0000_0000);
    assert_eq!(gba.bus.read_byte(0x0000_0005), 0x15);
}

#[test]
fn gba_runs_the_cartridge_after_skipping_the_bios() {
    let rom = program();
    let mut gba = gba(&rom);
    gba.bus.write_byte(0x0300_7f00, 0x12);
    gba.reset(true);
    assert_eq!(gba.bus.read_byte(0x0300_7f00), 0);
    let (mut video_cb, mut audio_cb) = (NullVideo, NullAudio);
    gba.step(&mut video_cb, &mut audio_cb).unwrap();
    assert_eq!(gba.cpu.reg.r[0], 5);
    gba.step(&mut video_cb, &mut audio_cb).unwrap();
    assert_eq!(gba.cpu.reg.r[1], 7);
}

#[test]
fn gba_devices_run_three_cycles_per_step() {
    let rom = program();
    let mut gba = gba(&rom);
    gba.reset(true);
    let (mut video_cb, mut audio_cb) = (NullVideo, NullAudio);
    // A scanline is 308 dots of 4 cycles: 1232 cycles.
    for _ in 0..410 {
        gba.step(&mut video_cb, &mut audio_cb).unwrap();
    }
    assert_eq!(gba.bus.read_byte(0x0400_0006), 0);
    gba.step(&mut video_cb, &mut audio_cb).unwrap();
    assert_eq!(gba.bus.read_byte(0x0400_0006), 1);
}

#[test]
fn gba_stopped_console_does_not_run() {
    let rom = program();
    let mut gba = gba(&rom);
    gba.reset(true);
    gba.bus.write_byte(0x0400_0301, 0x80);
    let (mut video_cb, mut audio_cb) = (NullVideo, NullAudio);
    for _ in 0..500 {
        gba.step(&mut video_cb, &mut audio_cb).unwrap();
    }
    assert_eq!(gba.cpu.reg.r[0], 0);
    assert_eq!(gba.bus.read_byte(0x0400_0006), 0);
}

#[test]
fn gba_mosaic_object_before_mosaic_size_is_a_fault() {
    let rom = program();
    let mut gba = gba(&rom);
    gba.reset(true);
    // Objects shown; object 0 (all of OAM is zero) with mosaic.
    gba.bus.write_byte(0x0400_0001, 0x10);
    gba.bus.write_hword(0x0700_0000, 0x1000);
    let (mut video_cb, mut audio_cb) = (NullVideo, NullAudio);
    assert!(gba.step(&mut video_cb, &mut audio_cb).is_err());
    // Once MOSAIC is written, the object can be drawn.
    gba.bus.write_byte(0x0400_004d, 0x00);
    assert!(gba.step(&mut video_cb, &mut audio_cb).is_ok());
}
