use vstd::prelude::*;

use crate::bus::{hword_read, hword_write, word_read, word_write, Bus, BusAlignedExt};
use crate::cart::{Cartridge, CartridgeModel};
use crate::irq::{irq_requested, Interrupt, Irq, IrqModel};

verus! {

/// An event that can start a DMA transfer.
#[derive(Debug, Copy, Clone, Eq, PartialEq, Structural)]
pub enum Event {
    VBlank,
    HBlank,
    AudioFifoA,
    AudioFifoB,
}

/// Where a channel stands with its transfer.
#[derive(Debug, Copy, Clone, Eq, PartialEq, Structural)]
pub enum TransferState {
    Idle,
    StartingTransfer,
    Transferring,
}

/// How an address moves after each unit transferred.
#[derive(Debug, Copy, Clone, Eq, PartialEq, Structural)]
pub enum AddressControl {
    Increment,
    Decrement,
    Fixed,
    /// Increments, and a repeating transfer starts again from the initial address.
    IncrementAndReload,
}

/// When a channel's transfer starts.
#[derive(Debug, Copy, Clone, Eq, PartialEq, Structural)]
pub enum TimingMode {
    Immediate,
    VBlank,
    HBlank,
    /// For channels 1 and 2: whenever an audio FIFO asks for more samples.
    Special,
}

/// One of the four DMA channels: the registers written by the CPU (`initial_*`, the address
/// controls and the flags of DMAxCNT_H) and the state of the transfer under way.
#[derive(Debug, Copy, Clone)]
pub struct Channel {
    pub initial_src_addr: u32,
    pub initial_dst_addr: u32,
    pub initial_blocks: u32,
    pub src_addr_ctrl: AddressControl,
    pub dst_addr_ctrl: AddressControl,
    pub repeat: bool,
    pub transfer_word: bool,
    pub cart_drq: bool,
    pub timing_mode: TimingMode,
    pub irq_enabled: bool,
    pub enabled: bool,
    pub cached_dmacnt_hi_bits: u16,
    pub src_addr: u32,
    pub dst_addr: u32,
    pub rem_blocks: u32,
    pub state: TransferState,
}

/// The four DMA channels.
#[derive(Debug)]
pub struct Dma {
    chans: [Channel; 4],
}

impl View for Dma {
    type V = Seq<Channel>;

    closed spec fn view(&self) -> Seq<Channel> {
        self.chans@
    }
}

pub open spec fn address_control_of(bits: u16) -> AddressControl {
    if bits == 0 {
        AddressControl::Increment
    } else if bits == 1 {
        AddressControl::Decrement
    } else if bits == 2 {
        AddressControl::Fixed
    } else {
        AddressControl::IncrementAndReload
    }
}

pub open spec fn timing_mode_of(bits: u8) -> TimingMode {
    if bits == 0 {
        TimingMode::Immediate
    } else if bits == 1 {
        TimingMode::VBlank
    } else if bits == 2 {
        TimingMode::HBlank
    } else {
        TimingMode::Special
    }
}

/// The timing mode whose transfers `event` starts.
pub open spec fn event_timing_mode(event: Event) -> TimingMode {
    match event {
        Event::VBlank => TimingMode::VBlank,
        Event::HBlank => TimingMode::HBlank,
        Event::AudioFifoA | Event::AudioFifoB => TimingMode::Special,
    }
}

/// Channel `idx` feeds an audio FIFO: channels 1 and 2 in the special timing mode.
pub open spec fn in_audio_fifo_mode(chan: Channel, idx: int) -> bool {
    (idx == 1 || idx == 2) && chan.timing_mode == TimingMode::Special
}

/// The most units that channel `idx` moves in one transfer; a count of 0 means this many.
pub open spec fn max_blocks(idx: int) -> u32 {
    if idx == 3 {
        0x1_0000
    } else {
        0x4000
    }
}

/// Starting a transfer on channel `idx`: an enabled, idle channel moves to the starting state
/// with 4 words to move in audio FIFO mode, else its count, where 0 or a count beyond the
/// channel's maximum means the maximum. Any other channel stays as it is.
pub open spec fn started(chan: Channel, idx: int) -> Channel {
    if !chan.enabled || chan.state != TransferState::Idle {
        chan
    } else {
        let rem_blocks = if in_audio_fifo_mode(chan, idx) {
            4u32
        } else if chan.rem_blocks == 0 || chan.rem_blocks > max_blocks(idx) {
            max_blocks(idx)
        } else {
            chan.rem_blocks
        };
        Channel { rem_blocks, state: TransferState::StartingTransfer, ..chan }
    }
}

/// The FIFO register that an audio event concerns.
pub open spec fn fifo_addr_of(event: Event) -> Option<u32> {
    match event {
        Event::AudioFifoA => Some(0x0400_00a0u32),
        Event::AudioFifoB => Some(0x0400_00a4u32),
        _ => None,
    }
}

/// Whether `event` starts channel `idx`: it is enabled with the event's timing mode, and for
/// an audio FIFO event, it is in audio FIFO mode with that FIFO as its destination.
pub open spec fn triggered_by(chan: Channel, idx: int, event: Event) -> bool {
    &&& chan.enabled
    &&& chan.timing_mode == event_timing_mode(event)
    &&& match fifo_addr_of(event) {
        Some(addr) => in_audio_fifo_mode(chan, idx) && chan.initial_dst_addr == addr,
        None => true,
    }
}

/// The channels after `event`: each channel that it triggers starts its transfer.
pub open spec fn notified(chans: Seq<Channel>, event: Event) -> Seq<Channel> {
    Seq::new(
        chans.len(),
        |i: int|
            if triggered_by(chans[i], i, event) {
                started(chans[i], i)
            } else {
                chans[i]
            },
    )
}

/// Byte `i` of a source or destination address register written: bytes 0-2 are stored as
/// they are, and the top byte keeps 3 bits on channel 0 and 4 on the others.
pub open spec fn with_addr_byte(addr: u32, chan_idx: int, i: int, value: u8) -> u32 {
    if i < 3 {
        (addr & !(0xffu32 << (8 * i) as u32)) | ((value as u32) << (8 * i) as u32)
    } else if chan_idx == 0 {
        (addr & 0x00ff_ffffu32) | (((value & 0x7) as u32) << 24u32)
    } else {
        (addr & 0x00ff_ffffu32) | (((value & 0xf) as u32) << 24u32)
    }
}

/// Channel `chan_idx` after `value` is written to byte `offset` of its registers.
pub open spec fn chan_written(chan: Channel, chan_idx: int, offset: int, value: u8) -> Channel {
    if offset < 4 {
        Channel {
            initial_src_addr: with_addr_byte(chan.initial_src_addr, chan_idx, offset, value),
            ..chan
        }
    } else if offset < 8 {
        Channel {
            initial_dst_addr: with_addr_byte(chan.initial_dst_addr, chan_idx, offset - 4, value),
            ..chan
        }
    } else if offset == 8 {
        Channel { initial_blocks: (chan.initial_blocks & !0xffu32) | (value as u32), ..chan }
    } else if offset == 9 {
        Channel { initial_blocks: (chan.initial_blocks & 0xff) | ((value as u32) << 8u32), ..chan }
    } else if offset == 10 {
        let hi = (chan.cached_dmacnt_hi_bits & 0xff00) | (value as u16);
        Channel {
            cached_dmacnt_hi_bits: hi,
            dst_addr_ctrl: address_control_of(((value >> 5u8) & 3) as u16),
            src_addr_ctrl: address_control_of((hi >> 7u16) & 3),
            ..chan
        }
    } else {
        let hi = (chan.cached_dmacnt_hi_bits & 0xff) | ((value as u16) << 8u16);
        let c = Channel {
            cached_dmacnt_hi_bits: hi,
            src_addr_ctrl: address_control_of((hi >> 7u16) & 3),
            repeat: value & 0x02 != 0,
            transfer_word: value & 0x04 != 0,
            cart_drq: value & 0x08 != 0,
            timing_mode: timing_mode_of((value >> 4u8) & 3),
            irq_enabled: value & 0x40 != 0,
            enabled: value & 0x80 != 0,
            ..chan
        };
        if !chan.enabled && c.enabled {
            let c = Channel {
                src_addr: c.initial_src_addr,
                dst_addr: c.initial_dst_addr,
                rem_blocks: c.initial_blocks,
                ..c
            };
            if c.timing_mode == TimingMode::Immediate {
                started(c, chan_idx)
            } else {
                c
            }
        } else {
            c
        }
    }
}

/// DMAxCNT_H read back: as written, with bit 15 telling whether the channel is enabled.
pub open spec fn dmacnt_hi_read(chan: Channel) -> u16 {
    if chan.enabled {
        chan.cached_dmacnt_hi_bits | 0x8000
    } else {
        chan.cached_dmacnt_hi_bits & 0x7fff
    }
}

/// The byte read at `addr` (0xb0 to 0xdf): the control register's high half-word; the other
/// registers read as 0.
pub open spec fn dma_read_value(chans: Seq<Channel>, addr: u32) -> u8 {
    let chan = chans[(addr - 0xb0) / 12];
    let offset = (addr - 0xb0) % 12;
    if offset == 10 {
        (chan.cached_dmacnt_hi_bits & 0xff) as u8
    } else if offset == 11 {
        (dmacnt_hi_read(chan) >> 8u16) as u8
    } else {
        0
    }
}

/// A transfer that a channel makes: `blocks` half-words or words from `src_addr` to
/// `dst_addr`, the addresses moving after each unit as their controls say.
#[derive(Debug, Copy, Clone)]
pub struct Transfer {
    pub src_addr: u32,
    pub dst_addr: u32,
    pub blocks: u32,
    pub transfer_word: bool,
    pub src_addr_ctrl: AddressControl,
    pub dst_addr_ctrl: AddressControl,
}

/// `addr` moved by `offset` as `ctrl` says (wrapping around).
pub open spec fn moved(addr: u32, ctrl: AddressControl, offset: u32) -> u32 {
    match ctrl {
        AddressControl::Increment | AddressControl::IncrementAndReload => addr.wrapping_add(offset),
        AddressControl::Decrement => addr.wrapping_sub(offset),
        AddressControl::Fixed => addr,
    }
}

fn move_addr(addr: u32, ctrl: AddressControl, offset: u32) -> (r: u32)
    ensures
        r == moved(addr, ctrl, offset),
{
    match ctrl {
        AddressControl::Increment | AddressControl::IncrementAndReload => addr.wrapping_add(offset),
        AddressControl::Decrement => addr.wrapping_sub(offset),
        AddressControl::Fixed => addr,
    }
}

/// The bus after `n` units are copied from `src` to `dst` (each aligned to the unit's size),
/// the addresses moving after each.
pub open spec fn copied<B: Bus>(
    bus: B::V,
    src: u32,
    dst: u32,
    n: nat,
    word: bool,
    src_ctrl: AddressControl,
    dst_ctrl: AddressControl,
) -> B::V
    decreases n,
{
    if n == 0 {
        bus
    } else {
        let after = if word {
            let (b, v) = word_read::<B>(bus, src & !3u32);
            word_write::<B>(b, dst & !3u32, v)
        } else {
            let (b, v) = hword_read::<B>(bus, src & !1u32);
            hword_write::<B>(b, dst & !1u32, v)
        };
        let stride: u32 = if word {
            4
        } else {
            2
        };
        copied::<B>(
            after,
            moved(src, src_ctrl, stride),
            moved(dst, dst_ctrl, stride),
            (n - 1) as nat,
            word,
            src_ctrl,
            dst_ctrl,
        )
    }
}

impl Transfer {
    /// Copies the units of the transfer on `bus`.
    pub fn run<B: Bus>(&self, bus: &mut B)
        requires
            old(bus).ready(),
        ensures
            final(bus).ready(),
            final(bus)@ == copied::<B>(
                old(bus)@,
                self.src_addr,
                self.dst_addr,
                self.blocks as nat,
                self.transfer_word,
                self.src_addr_ctrl,
                self.dst_addr_ctrl,
            ),
    {
        let stride: u32 = if self.transfer_word {
            4
        } else {
            2
        };
        let mut src_addr = self.src_addr;
        let mut dst_addr = self.dst_addr;
        let mut i: u32 = 0;
        while i < self.blocks
            invariant
                bus.ready(),
                i <= self.blocks,
                stride == (if self.transfer_word {
                    4u32
                } else {
                    2u32
                }),
                copied::<B>(
                    bus@,
                    src_addr,
                    dst_addr,
                    (self.blocks - i) as nat,
                    self.transfer_word,
                    self.src_addr_ctrl,
                    self.dst_addr_ctrl,
                ) == copied::<B>(
                    old(bus)@,
                    self.src_addr,
                    self.dst_addr,
                    self.blocks as nat,
                    self.transfer_word,
                    self.src_addr_ctrl,
                    self.dst_addr_ctrl,
                ),
            decreases self.blocks - i,
        {
            if self.transfer_word {
                let value = bus.read_word_aligned(src_addr);
                bus.write_word_aligned(dst_addr, value);
            } else {
                let value = bus.read_hword_aligned(src_addr);
                bus.write_hword_aligned(dst_addr, value);
            }
            src_addr = move_addr(src_addr, self.src_addr_ctrl, stride);
            dst_addr = move_addr(dst_addr, self.dst_addr_ctrl, stride);
            i = i + 1;
        }
    }
}

/// A channel that has a transfer starting or under way.
pub open spec fn active(chan: Channel) -> bool {
    chan.enabled && chan.state != TransferState::Idle
}

/// The first active channel from `from` on.
pub open spec fn first_active(chans: Seq<Channel>, from: int) -> Option<int>
    decreases 4 - from,
{
    if from >= 4 {
        None
    } else if active(chans[from]) {
        Some(from)
    } else {
        first_active(chans, from + 1)
    }
}

/// The interrupt that channel `idx` requests when its transfer ends.
pub open spec fn dma_interrupt(idx: int) -> Interrupt {
    if idx == 0 {
        Interrupt::Dma0
    } else if idx == 1 {
        Interrupt::Dma1
    } else if idx == 2 {
        Interrupt::Dma2
    } else {
        Interrupt::Dma3
    }
}

/// The address control that the destination uses: fixed in audio FIFO mode.
pub open spec fn dst_ctrl_of(chan: Channel, idx: int) -> AddressControl {
    if in_audio_fifo_mode(chan, idx) {
        AddressControl::Fixed
    } else {
        chan.dst_addr_ctrl
    }
}

/// The units that channel `idx` moves in `cycles` cycles (one per cycle), their kind, and
/// the transfer.
pub open spec fn transfer_of(chan: Channel, idx: int, cycles: u8) -> Transfer {
    Transfer {
        src_addr: chan.src_addr,
        dst_addr: chan.dst_addr,
        blocks: if chan.rem_blocks < cycles {
            chan.rem_blocks
        } else {
            cycles as u32
        },
        transfer_word: in_audio_fifo_mode(chan, idx) || chan.transfer_word,
        src_addr_ctrl: chan.src_addr_ctrl,
        dst_addr_ctrl: dst_ctrl_of(chan, idx),
    }
}

/// Channel `idx` after moving its units for `cycles` cycles: its addresses move past them,
/// and when none remain it goes idle, stays enabled only if it repeats, and a repeating one
/// reloads its count (and its destination with increment-and-reload).
pub open spec fn chan_stepped(chan: Channel, idx: int, cycles: u8) -> Channel {
    let t = transfer_of(chan, idx, cycles);
    let stride: u32 = if t.transfer_word {
        4
    } else {
        2
    };
    let c = Channel {
        state: TransferState::Transferring,
        src_addr: moved(chan.src_addr, chan.src_addr_ctrl, (stride * t.blocks) as u32),
        dst_addr: moved(chan.dst_addr, t.dst_addr_ctrl, (stride * t.blocks) as u32),
        rem_blocks: (chan.rem_blocks - t.blocks) as u32,
        ..chan
    };
    if c.rem_blocks == 0 {
        Channel {
            state: TransferState::Idle,
            enabled: chan.repeat,
            dst_addr: if chan.repeat && chan.dst_addr_ctrl == AddressControl::IncrementAndReload {
                chan.initial_dst_addr
            } else {
                c.dst_addr
            },
            rem_blocks: if chan.repeat {
                chan.initial_blocks
            } else {
                0
            },
            ..c
        }
    } else {
        c
    }
}

/// Whether stepping channel `idx` tells an EEPROM of unknown size the transfer's length: the
/// transfer is starting and its destination is the EEPROM.
pub open spec fn tells_eeprom(chan: Channel, cart: CartridgeModel) -> bool {
    chan.state == TransferState::StartingTransfer && chan.dst_addr >= 0x0800_0000
        && cart.is_eeprom_offset((chan.dst_addr - 0x0800_0000) as u32)
}

/// Whether stepping channel `idx` ends its transfer with an interrupt request: no units
/// remain and its interrupt is enabled.
pub open spec fn requests_irq(chan: Channel, idx: int, cycles: u8) -> bool {
    chan.rem_blocks == transfer_of(chan, idx, cycles).blocks && chan.irq_enabled
}

/// The low byte of DMAxCNT_H reads back as written.
pub proof fn lemma_dmacnt_lo_read_back(chans: Seq<Channel>, addr: u32, value: u8)
    requires
        chans.len() == 4,
        0xb0 <= addr < 0xe0,
        (addr - 0xb0) % 12 == 10,
    ensures
        dma_read_value(
            chans.update(
                ((addr - 0xb0) / 12) as int,
                chan_written(chans[((addr - 0xb0) / 12) as int], ((addr - 0xb0) / 12) as int, 10, value),
            ),
            addr,
        ) == value,
{
    let hi = chans[((addr - 0xb0) / 12) as int].cached_dmacnt_hi_bits;
    assert((((hi & 0xff00) | (value as u16)) & 0xff) as u8 == value) by (bit_vector);
}

impl Channel {
    /// A disabled, idle channel with every register 0.
    pub open spec fn zeroed() -> Channel {
        Channel {
            initial_src_addr: 0,
            initial_dst_addr: 0,
            initial_blocks: 0,
            src_addr_ctrl: AddressControl::Increment,
            dst_addr_ctrl: AddressControl::Increment,
            repeat: false,
            transfer_word: false,
            cart_drq: false,
            timing_mode: TimingMode::Immediate,
            irq_enabled: false,
            enabled: false,
            cached_dmacnt_hi_bits: 0,
            src_addr: 0,
            dst_addr: 0,
            rem_blocks: 0,
            state: TransferState::Idle,
        }
    }

    fn new() -> (r: Channel)
        ensures
            r == Channel::zeroed(),
    {
        Channel {
            initial_src_addr: 0,
            initial_dst_addr: 0,
            initial_blocks: 0,
            src_addr_ctrl: AddressControl::Increment,
            dst_addr_ctrl: AddressControl::Increment,
            repeat: false,
            transfer_word: false,
            cart_drq: false,
            timing_mode: TimingMode::Immediate,
            irq_enabled: false,
            enabled: false,
            cached_dmacnt_hi_bits: 0,
            src_addr: 0,
            dst_addr: 0,
            rem_blocks: 0,
            state: TransferState::Idle,
        }
    }
}

fn address_control_from_bits(bits: u16) -> (r: AddressControl)
    ensures
        r == address_control_of(bits),
{
    if bits == 0 {
        AddressControl::Increment
    } else if bits == 1 {
        AddressControl::Decrement
    } else if bits == 2 {
        AddressControl::Fixed
    } else {
        AddressControl::IncrementAndReload
    }
}

fn timing_mode_from_bits(bits: u8) -> (r: TimingMode)
    ensures
        r == timing_mode_of(bits),
{
    if bits == 0 {
        TimingMode::Immediate
    } else if bits == 1 {
        TimingMode::VBlank
    } else if bits == 2 {
        TimingMode::HBlank
    } else {
        TimingMode::Special
    }
}

fn set_addr_byte(addr: u32, chan_idx: usize, i: usize, value: u8) -> (r: u32)
    requires
        i < 4,
    ensures
        r == with_addr_byte(addr, chan_idx as int, i as int, value),
{
    if i < 3 {
        let shift = (8 * i) as u32;
        (addr & !(0xffu32 << shift)) | ((value as u32) << shift)
    } else if chan_idx == 0 {
        (addr & 0x00ff_ffffu32) | (((value & 0x7) as u32) << 24u32)
    } else {
        (addr & 0x00ff_ffffu32) | (((value & 0xf) as u32) << 24u32)
    }
}

impl Dma {
    /// Four disabled, idle channels.
    pub fn new() -> (r: Dma)
        ensures
            r@ == Seq::new(4, |i: int| Channel::zeroed()),
    {
        let r = Dma { chans: [Channel::new(), Channel::new(), Channel::new(), Channel::new()] };
        assert(r@ =~= Seq::new(4, |i: int| Channel::zeroed()));
        r
    }

    fn start_transfer(&mut self, chan_idx: usize)
        requires
            chan_idx < 4,
        ensures
            final(self)@ == old(self)@.update(
                chan_idx as int,
                started(old(self)@[chan_idx as int], chan_idx as int),
            ),
    {
        let mut chan = self.chans[chan_idx];
        if !chan.enabled || chan.state != TransferState::Idle {
            assert(self@ =~= old(self)@.update(chan_idx as int, chan));
            return;
        }
        if (chan_idx == 1 || chan_idx == 2) && chan.timing_mode == TimingMode::Special {
            chan.rem_blocks = 4;
        } else {
            let max_blocks: u32 = if chan_idx == 3 {
                0x1_0000
            } else {
                0x4000
            };
            if chan.rem_blocks == 0 || chan.rem_blocks > max_blocks {
                chan.rem_blocks = max_blocks;
            }
        }
        chan.state = TransferState::StartingTransfer;
        self.chans[chan_idx] = chan;
    }

    /// Starts the transfers that `event` triggers.
    pub fn notify(&mut self, event: Event)
        ensures
            final(self)@ == notified(old(self)@, event),
    {
        let fifo_addr: Option<u32> = match event {
            Event::AudioFifoA => Some(0x0400_00a0u32),
            Event::AudioFifoB => Some(0x0400_00a4u32),
            _ => None,
        };
        let timing = match event {
            Event::VBlank => TimingMode::VBlank,
            Event::HBlank => TimingMode::HBlank,
            Event::AudioFifoA | Event::AudioFifoB => TimingMode::Special,
        };
        let mut chan_idx: usize = 0;
        while chan_idx < 4
            invariant
                chan_idx <= 4,
                fifo_addr == fifo_addr_of(event),
                timing == event_timing_mode(event),
                self@.len() == 4,
                forall|i: int|
                    0 <= i < chan_idx ==> self@[i] == notified(old(self)@, event)[i],
                forall|i: int| chan_idx <= i < 4 ==> self@[i] == old(self)@[i],
            decreases 4 - chan_idx,
        {
            let chan = self.chans[chan_idx];
            let mut triggered = chan.enabled && chan.timing_mode == timing;
            if let Some(addr) = fifo_addr {
                let fifo_mode = (chan_idx == 1 || chan_idx == 2) && chan.timing_mode
                    == TimingMode::Special;
                if !fifo_mode || chan.initial_dst_addr != addr {
                    triggered = false;
                }
            }
            if triggered {
                self.start_transfer(chan_idx);
            }
            chan_idx = chan_idx + 1;
        }
        assert(self@ =~= notified(old(self)@, event));
    }

    /// Moves the units that the first active channel moves in `cycles` cycles (one unit per
    /// cycle) and returns that transfer, which the caller runs on the bus; with no active
    /// channel, nothing changes. A transfer starting toward an EEPROM of unknown size tells it
    /// the length, and a transfer that ends requests the channel's interrupt if enabled.
    pub fn step(&mut self, irq: &mut Irq, cart: &mut Cartridge, cycles: u8) -> (r: Option<
        Transfer,
    >)
        ensures
            match first_active(old(self)@, 0) {
                None => {
                    &&& r is None
                    &&& final(self)@ == old(self)@
                    &&& final(irq)@ == old(irq)@
                    &&& final(cart)@ == old(cart)@
                },
                Some(i) => {
                    let chan = old(self)@[i];
                    &&& r == Some(transfer_of(chan, i, cycles))
                    &&& final(self)@ == old(self)@.update(i, chan_stepped(chan, i, cycles))
                    &&& final(cart)@ == if tells_eeprom(chan, old(cart)@) {
                        old(cart)@.eeprom_dma_notified(chan.rem_blocks)
                    } else {
                        old(cart)@
                    }
                    &&& final(irq)@ == if requests_irq(chan, i, cycles) {
                        irq_requested(old(irq)@, dma_interrupt(i))
                    } else {
                        old(irq)@
                    }
                },
            },
    {
        let mut chan_idx: usize = 0;
        while chan_idx < 4
            invariant
                chan_idx <= 4,
                self@ == old(self)@,
                irq@ == old(irq)@,
                cart@ == old(cart)@,
                first_active(old(self)@, 0) == first_active(old(self)@, chan_idx as int),
            decreases 4 - chan_idx,
        {
            let chan = self.chans[chan_idx];
            if !chan.enabled || chan.state == TransferState::Idle {
                chan_idx = chan_idx + 1;
                continue;
            }
            let audio_fifo = (chan_idx == 1 || chan_idx == 2) && chan.timing_mode
                == TimingMode::Special;
            let dst_addr = chan.dst_addr;
            if chan.state == TransferState::StartingTransfer && dst_addr >= 0x0800_0000
                && cart.is_eeprom_offset(dst_addr - 0x0800_0000) {
                cart.notify_eeprom_dma(chan.rem_blocks);
            }
            let src_addr = chan.src_addr;
            let src_addr_ctrl = chan.src_addr_ctrl;
            let dst_addr_ctrl = if audio_fifo {
                AddressControl::Fixed
            } else {
                chan.dst_addr_ctrl
            };
            let blocks: u32 = if chan.rem_blocks < cycles as u32 {
                chan.rem_blocks
            } else {
                cycles as u32
            };
            let transfer_word = audio_fifo || chan.transfer_word;
            let stride: u32 = if transfer_word {
                4
            } else {
                2
            };
            let mut c = chan;
            c.state = TransferState::Transferring;
            c.src_addr = move_addr(c.src_addr, src_addr_ctrl, stride * blocks);
            c.dst_addr = move_addr(c.dst_addr, dst_addr_ctrl, stride * blocks);
            c.rem_blocks = c.rem_blocks - blocks;
            if c.rem_blocks == 0 {
                c.state = TransferState::Idle;
                c.enabled = c.repeat;
                if c.repeat {
                    if c.dst_addr_ctrl == AddressControl::IncrementAndReload {
                        c.dst_addr = c.initial_dst_addr;
                    }
                    c.rem_blocks = c.initial_blocks;
                }
                if c.irq_enabled {
                    let interrupt = if chan_idx == 0 {
                        Interrupt::Dma0
                    } else if chan_idx == 1 {
                        Interrupt::Dma1
                    } else if chan_idx == 2 {
                        Interrupt::Dma2
                    } else {
                        Interrupt::Dma3
                    };
                    irq.request(interrupt);
                }
            }
            self.chans[chan_idx] = c;
            return Some(
                Transfer {
                    src_addr,
                    dst_addr,
                    blocks,
                    transfer_word,
                    src_addr_ctrl,
                    dst_addr_ctrl,
                },
            );
        }
        None
    }

    /// Whether any channel has a transfer starting or under way.
    pub fn transfer_in_progress(&self) -> (r: bool)
        ensures
            r == exists|i: int| 0 <= i < 4 && self@[i].state != TransferState::Idle,
    {
        let mut i: usize = 0;
        while i < 4
            invariant
                i <= 4,
                forall|j: int| 0 <= j < i ==> self@[j].state == TransferState::Idle,
            decreases 4 - i,
        {
            if self.chans[i].state != TransferState::Idle {
                return true;
            }
            i = i + 1;
        }
        false
    }

    /// Reads the I/O register byte at `addr` (0xb0 to 0xdf).
    pub fn read_byte(&mut self, addr: u32) -> (r: u8)
        requires
            0xb0 <= addr < 0xe0,
        ensures
            r == dma_read_value(old(self)@, addr),
            final(self)@ == old(self)@,
    {
        let chan = self.chans[((addr - 0xb0) / 12) as usize];
        let offset = (addr - 0xb0) % 12;
        if offset == 10 {
            (chan.cached_dmacnt_hi_bits & 0xff) as u8
        } else if offset == 11 {
            let hi = if chan.enabled {
                chan.cached_dmacnt_hi_bits | 0x8000
            } else {
                chan.cached_dmacnt_hi_bits & 0x7fff
            };
            (hi >> 8u16) as u8
        } else {
            0
        }
    }

    /// Writes the I/O register byte at `addr` (0xb0 to 0xdf). Enabling a channel loads its
    /// transfer from the registers, and starts it at once in the immediate timing mode.
    pub fn write_byte(&mut self, addr: u32, value: u8)
        requires
            0xb0 <= addr < 0xe0,
        ensures
            final(self)@ == old(self)@.update(
                ((addr - 0xb0) / 12) as int,
                chan_written(
                    old(self)@[((addr - 0xb0) / 12) as int],
                    ((addr - 0xb0) / 12) as int,
                    ((addr - 0xb0) % 12) as int,
                    value,
                ),
            ),
    {
        let chan_idx = ((addr - 0xb0) / 12) as usize;
        let offset = ((addr - 0xb0) % 12) as usize;
        let mut chan = self.chans[chan_idx];
        if offset < 4 {
            chan.initial_src_addr = set_addr_byte(chan.initial_src_addr, chan_idx, offset, value);
        } else if offset < 8 {
            chan.initial_dst_addr = set_addr_byte(
                chan.initial_dst_addr,
                chan_idx,
                offset - 4,
                value,
            );
        } else if offset == 8 {
            chan.initial_blocks = (chan.initial_blocks & !0xffu32) | (value as u32);
        } else if offset == 9 {
            chan.initial_blocks = (chan.initial_blocks & 0xff) | ((value as u32) << 8u32);
        } else if offset == 10 {
            chan.cached_dmacnt_hi_bits = (chan.cached_dmacnt_hi_bits & 0xff00) | (value as u16);
            chan.dst_addr_ctrl = address_control_from_bits(((value >> 5u8) & 3) as u16);
            chan.src_addr_ctrl = address_control_from_bits((chan.cached_dmacnt_hi_bits >> 7u16) & 3);
        } else {
            chan.cached_dmacnt_hi_bits = (chan.cached_dmacnt_hi_bits & 0xff) | ((value as u16)
                << 8u16);
            chan.src_addr_ctrl = address_control_from_bits((chan.cached_dmacnt_hi_bits >> 7u16) & 3);
            chan.repeat = value & 0x02 != 0;
            chan.transfer_word = value & 0x04 != 0;
            chan.cart_drq = value & 0x08 != 0;
            chan.timing_mode = timing_mode_from_bits((value >> 4u8) & 3);
            chan.irq_enabled = value & 0x40 != 0;
            let was_enabled = chan.enabled;
            chan.enabled = value & 0x80 != 0;
            if !was_enabled && chan.enabled {
                chan.src_addr = chan.initial_src_addr;
                chan.dst_addr = chan.initial_dst_addr;
                chan.rem_blocks = chan.initial_blocks;
                self.chans[chan_idx] = chan;
                if chan.timing_mode == TimingMode::Immediate {
                    self.start_transfer(chan_idx);
                }
                return;
            }
        }
        self.chans[chan_idx] = chan;
    }
}

} // verus!

verus! {

/// When a channel moves its last unit, it goes idle; a channel with the repeat bit stays
/// enabled and gets its whole count back, for the next start; one without becomes disabled
/// with nothing left to move. A transfer that does not end keeps the channel enabled.
pub proof fn lemma_transfer_end(chan: Channel, idx: int, cycles: u8)
    ensures
        ({
            let after = chan_stepped(chan, idx, cycles);
            if chan.rem_blocks <= cycles {
                &&& after.state == TransferState::Idle
                &&& chan.repeat ==> after.enabled && after.rem_blocks == chan.initial_blocks
                &&& !chan.repeat ==> !after.enabled && after.rem_blocks == 0
            } else {
                &&& after.enabled == chan.enabled
                &&& after.rem_blocks == chan.rem_blocks - cycles
            }
        }),
{
}

} // verus!
