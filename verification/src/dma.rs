//! Direct Memory Access (DMA): channel configuration and control.
//!
//! [`Dma::cfg_channel`] is what the peripheral drivers call to set up and
//! start a transfer.

use crate::barrier::Barrier;
use crate::layout::control_word;
use crate::layout::decode;
use crate::layout::flag_mask;
use crate::layout::lemma_arm_base;
use crate::layout::lemma_clear_flag;
use crate::layout::lemma_mux_field;
use crate::layout::lemma_select_field;
use crate::layout::select_mask;
use crate::layout::lemma_control_word_fields;
use crate::layout::lemma_count_fits;
use crate::layout::lemma_disable;
use crate::layout::lemma_interrupt_cycle;
use crate::layout::make_control_word;
use crate::layout::mux_word;
use crate::layout::select_word;
use crate::layout::MUX_REQ_ID;
use crate::layout::ControlFields;
use crate::layout::CCR_EN;
use crate::layout::CCR_HTIE;
use crate::layout::CCR_MEM2MEM;
use crate::layout::CCR_TCIE;
use crate::layout::CCR_TEIE;
use crate::rcc::Bus;
use crate::rcc::ClockedPeriph;
use crate::rcc::en_reset_sequence;
use crate::rcc::Rcc;
use crate::regs::BusOp;
use crate::regs::ChannelRegisters;
use crate::regs::DmaMux;
use crate::regs::MuxWrite;
use crate::regs::RegFile;
use crate::regs::Register;
use crate::regs::RegisterBlock;
use crate::regs::RegisterBlockView;
use vstd::prelude::*;

verus! {

/// A DMA channel of the controller.
#[derive(Clone, Copy, Debug, PartialEq, Eq, Structural)]
pub enum DmaChannel {
    C1,
    C2,
    C3,
    C4,
    C5,
    C6,
    C7,
    C8,
}

impl DmaChannel {
    /// The position of the channel among the controller's channels, counted
    /// from zero.
    pub open spec fn spec_index(self) -> int {
        match self {
            DmaChannel::C1 => 0,
            DmaChannel::C2 => 1,
            DmaChannel::C3 => 2,
            DmaChannel::C4 => 3,
            DmaChannel::C5 => 4,
            DmaChannel::C6 => 5,
            DmaChannel::C7 => 6,
            DmaChannel::C8 => 7,
        }
    }

    /// The position of the channel among the controller's channels, counted
    /// from zero.
    pub fn index(self) -> (i: usize)
        ensures
            i == self.spec_index(),
            i < 8,
    {
        match self {
            DmaChannel::C1 => 0,
            DmaChannel::C2 => 1,
            DmaChannel::C3 => 2,
            DmaChannel::C4 => 3,
            DmaChannel::C5 => 4,
            DmaChannel::C6 => 5,
            DmaChannel::C7 => 6,
            DmaChannel::C8 => 7,
        }
    }

    /// The index of a channel lies within the eight channels.
    pub proof fn lemma_index_in_range(self)
        ensures
            0 <= self.spec_index() < 8,
    {
    }

    /// The registers of this channel.
    pub fn registers(self) -> (regs: ChannelRegisters)
        ensures
            regs == (ChannelRegisters {
                peripheral_addr: Register::Cpar(self),
                memory_addr: Register::Cmar(self),
                count: Register::Cndtr(self),
                control: Register::Ccr(self),
            }),
    {
        ChannelRegisters {
            peripheral_addr: Register::Cpar(self),
            memory_addr: Register::Cmar(self),
            count: Register::Cndtr(self),
            control: Register::Ccr(self),
        }
    }
}

/// The sources of DMA requests. Each has the identity under which the request
/// multiplexer knows it.
#[derive(Clone, Copy, Debug, PartialEq, Eq, Structural)]
pub enum DmaInput {
    Adc1,
    Dac1Ch1,
    Dac1Ch2,
    Tim6Up,
    Tim7Up,
    Spi1Rx,
    Spi1Tx,
    Spi2Rx,
    Spi2Tx,
    Spi3Rx,
    Spi3Tx,
    I2c1Rx,
    I2c1Tx,
    I2c2Rx,
    I2c2Tx,
    I2c3Rx,
    I2c3Tx,
    I2c4Rx,
    I2c4Tx,
    Usart1Rx,
    Usart1Tx,
    Usart2Rx,
    Usart2Tx,
    Usart3Rx,
    Usart3Tx,
    Uart4Rx,
    Uart4Tx,
    Uart5Rx,
    Uart5Tx,
    Lpuart1Rx,
    Lpuart1Tx,
    Adc2,
    Adc3,
    Adc4,
    Adc5,
}

impl DmaInput {
    /// The identity of the source in the request multiplexer.
    pub open spec fn spec_request_id(self) -> u8 {
        match self {
            DmaInput::Adc1 => 5,
            DmaInput::Dac1Ch1 => 6,
            DmaInput::Dac1Ch2 => 7,
            DmaInput::Tim6Up => 8,
            DmaInput::Tim7Up => 9,
            DmaInput::Spi1Rx => 10,
            DmaInput::Spi1Tx => 11,
            DmaInput::Spi2Rx => 12,
            DmaInput::Spi2Tx => 13,
            DmaInput::Spi3Rx => 14,
            DmaInput::Spi3Tx => 15,
            DmaInput::I2c1Rx => 16,
            DmaInput::I2c1Tx => 17,
            DmaInput::I2c2Rx => 18,
            DmaInput::I2c2Tx => 19,
            DmaInput::I2c3Rx => 20,
            DmaInput::I2c3Tx => 21,
            DmaInput::I2c4Rx => 22,
            DmaInput::I2c4Tx => 23,
            DmaInput::Usart1Rx => 24,
            DmaInput::Usart1Tx => 25,
            DmaInput::Usart2Rx => 26,
            DmaInput::Usart2Tx => 27,
            DmaInput::Usart3Rx => 28,
            DmaInput::Usart3Tx => 29,
            DmaInput::Uart4Rx => 30,
            DmaInput::Uart4Tx => 31,
            DmaInput::Uart5Rx => 32,
            DmaInput::Uart5Tx => 33,
            DmaInput::Lpuart1Rx => 34,
            DmaInput::Lpuart1Tx => 35,
            DmaInput::Adc2 => 36,
            DmaInput::Adc3 => 37,
            DmaInput::Adc4 => 38,
            DmaInput::Adc5 => 39,
        }
    }

    /// The identity of the source in the request multiplexer.
    pub fn request_id(&self) -> (id: u8)
        ensures
            id == self.spec_request_id(),
            5 <= id <= 39,
    {
        match self {
            DmaInput::Adc1 => 5,
            DmaInput::Dac1Ch1 => 6,
            DmaInput::Dac1Ch2 => 7,
            DmaInput::Tim6Up => 8,
            DmaInput::Tim7Up => 9,
            DmaInput::Spi1Rx => 10,
            DmaInput::Spi1Tx => 11,
            DmaInput::Spi2Rx => 12,
            DmaInput::Spi2Tx => 13,
            DmaInput::Spi3Rx => 14,
            DmaInput::Spi3Tx => 15,
            DmaInput::I2c1Rx => 16,
            DmaInput::I2c1Tx => 17,
            DmaInput::I2c2Rx => 18,
            DmaInput::I2c2Tx => 19,
            DmaInput::I2c3Rx => 20,
            DmaInput::I2c3Tx => 21,
            DmaInput::I2c4Rx => 22,
            DmaInput::I2c4Tx => 23,
            DmaInput::Usart1Rx => 24,
            DmaInput::Usart1Tx => 25,
            DmaInput::Usart2Rx => 26,
            DmaInput::Usart2Tx => 27,
            DmaInput::Usart3Rx => 28,
            DmaInput::Usart3Tx => 29,
            DmaInput::Uart4Rx => 30,
            DmaInput::Uart4Tx => 31,
            DmaInput::Uart5Rx => 32,
            DmaInput::Uart5Tx => 33,
            DmaInput::Lpuart1Rx => 34,
            DmaInput::Lpuart1Tx => 35,
            DmaInput::Adc2 => 36,
            DmaInput::Adc3 => 37,
            DmaInput::Adc4 => 38,
            DmaInput::Adc5 => 39,
        }
    }

    /// The channel that the source is wired to on controllers without a
    /// request multiplexer, for the sources that have one.
    pub open spec fn spec_dma1_channel(self) -> Option<DmaChannel> {
        match self {
            DmaInput::Adc1 => Some(DmaChannel::C1),
            DmaInput::Spi1Rx => Some(DmaChannel::C2),
            DmaInput::Spi1Tx => Some(DmaChannel::C3),
            DmaInput::Spi2Rx => Some(DmaChannel::C4),
            DmaInput::Spi2Tx => Some(DmaChannel::C5),
            DmaInput::I2c1Rx => Some(DmaChannel::C7),
            DmaInput::I2c1Tx => Some(DmaChannel::C6),
            DmaInput::I2c2Rx => Some(DmaChannel::C5),
            DmaInput::I2c2Tx => Some(DmaChannel::C4),
            DmaInput::I2c3Rx => Some(DmaChannel::C3),
            DmaInput::Usart1Rx => Some(DmaChannel::C5),
            DmaInput::Usart1Tx => Some(DmaChannel::C4),
            DmaInput::Usart2Rx => Some(DmaChannel::C6),
            DmaInput::Usart2Tx => Some(DmaChannel::C7),
            DmaInput::Usart3Rx => Some(DmaChannel::C3),
            DmaInput::Usart3Tx => Some(DmaChannel::C2),
            DmaInput::Adc2 => Some(DmaChannel::C2),
            _ => None,
        }
    }

    /// The value that selects the source on its channel, for the sources
    /// that are wired to a channel.
    pub open spec fn spec_dma1_channel_select(self) -> Option<u8> {
        match self {
            DmaInput::Adc1 => Some(0u8),
            DmaInput::Spi1Rx => Some(1u8),
            DmaInput::Spi1Tx => Some(1u8),
            DmaInput::Spi2Rx => Some(1u8),
            DmaInput::Spi2Tx => Some(1u8),
            DmaInput::I2c1Rx => Some(3u8),
            DmaInput::I2c1Tx => Some(3u8),
            DmaInput::I2c2Rx => Some(3u8),
            DmaInput::I2c2Tx => Some(3u8),
            DmaInput::I2c3Rx => Some(3u8),
            DmaInput::Usart1Rx => Some(2u8),
            DmaInput::Usart1Tx => Some(2u8),
            DmaInput::Usart2Rx => Some(2u8),
            DmaInput::Usart2Tx => Some(2u8),
            DmaInput::Usart3Rx => Some(2u8),
            DmaInput::Usart3Tx => Some(2u8),
            DmaInput::Adc2 => Some(0u8),
            _ => None,
        }
    }

    /// Whether the source is wired to a channel, so that
    /// [`DmaInput::dma1_channel`] and [`DmaInput::dma1_channel_select`] have an
    /// answer for it.
    pub fn has_dma1_channel(&self) -> (wired: bool)
        ensures
            wired == (self.spec_dma1_channel() is Some),
            wired == (self.spec_dma1_channel_select() is Some),
    {
        match self {
            DmaInput::Adc1 => true,
            DmaInput::Spi1Rx => true,
            DmaInput::Spi1Tx => true,
            DmaInput::Spi2Rx => true,
            DmaInput::Spi2Tx => true,
            DmaInput::I2c1Rx => true,
            DmaInput::I2c1Tx => true,
            DmaInput::I2c2Rx => true,
            DmaInput::I2c2Tx => true,
            DmaInput::I2c3Rx => true,
            DmaInput::Usart1Rx => true,
            DmaInput::Usart1Tx => true,
            DmaInput::Usart2Rx => true,
            DmaInput::Usart2Tx => true,
            DmaInput::Usart3Rx => true,
            DmaInput::Usart3Tx => true,
            DmaInput::Adc2 => true,
            _ => false,
        }
    }

    /// Select the hard set channel associated with a given input source.
    pub fn dma1_channel(&self) -> (channel: DmaChannel)
        requires
            self.spec_dma1_channel() is Some,
        ensures
            Some(channel) == self.spec_dma1_channel(),
            channel != DmaChannel::C8,
    {
        match self {
            DmaInput::Adc1 => DmaChannel::C1,
            DmaInput::Spi1Rx => DmaChannel::C2,
            DmaInput::Spi1Tx => DmaChannel::C3,
            DmaInput::Spi2Rx => DmaChannel::C4,
            DmaInput::Spi2Tx => DmaChannel::C5,
            DmaInput::I2c1Rx => DmaChannel::C7,
            DmaInput::I2c1Tx => DmaChannel::C6,
            DmaInput::I2c2Rx => DmaChannel::C5,
            DmaInput::I2c2Tx => DmaChannel::C4,
            DmaInput::I2c3Rx => DmaChannel::C3,
            DmaInput::Usart1Rx => DmaChannel::C5,
            DmaInput::Usart1Tx => DmaChannel::C4,
            DmaInput::Usart2Rx => DmaChannel::C6,
            DmaInput::Usart2Tx => DmaChannel::C7,
            DmaInput::Usart3Rx => DmaChannel::C3,
            DmaInput::Usart3Tx => DmaChannel::C2,
            DmaInput::Adc2 => DmaChannel::C2,
            _ => unreached(),
        }
    }

    /// Find the channel select value for a given DMA input.
    pub fn dma1_channel_select(&self) -> (select: u8)
        requires
            self.spec_dma1_channel_select() is Some,
        ensures
            Some(select) == self.spec_dma1_channel_select(),
            select <= 3,
    {
        match self {
            DmaInput::Adc1 => 0,
            DmaInput::Spi1Rx => 1,
            DmaInput::Spi1Tx => 1,
            DmaInput::Spi2Rx => 1,
            DmaInput::Spi2Tx => 1,
            DmaInput::I2c1Rx => 3,
            DmaInput::I2c1Tx => 3,
            DmaInput::I2c2Rx => 3,
            DmaInput::I2c2Tx => 3,
            DmaInput::I2c3Rx => 3,
            DmaInput::Usart1Rx => 2,
            DmaInput::Usart1Tx => 2,
            DmaInput::Usart2Rx => 2,
            DmaInput::Usart2Tx => 2,
            DmaInput::Usart3Rx => 2,
            DmaInput::Usart3Tx => 2,
            DmaInput::Adc2 => 0,
            _ => unreached(),
        }
    }
}

/// Software priority of a channel. Among channels of one priority the
/// hardware serves the one with the lowest index first.
#[derive(Clone, Copy, Debug, PartialEq, Eq, Structural)]
pub enum Priority {
    Low,
    Medium,
    High,
    VeryHigh,
}

impl Priority {
    /// The value of the PL field.
    pub open spec fn spec_bits(self) -> u8 {
        match self {
            Priority::Low => 0,
            Priority::Medium => 1,
            Priority::High => 2,
            Priority::VeryHigh => 3,
        }
    }

    /// The value of the PL field.
    pub fn bits(self) -> (b: u8)
        ensures
            b == self.spec_bits(),
            b <= 3,
    {
        match self {
            Priority::Low => 0,
            Priority::Medium => 1,
            Priority::High => 2,
            Priority::VeryHigh => 3,
        }
    }
}

/// Direction of a transfer.
#[derive(Clone, Copy, Debug, PartialEq, Eq, Structural)]
pub enum Direction {
    /// Peripheral to memory (DIR = 0).
    ReadFromPeriph,
    /// Memory to peripheral (DIR = 1).
    ReadFromMem,
}

impl Direction {
    /// The value of the DIR bit.
    pub open spec fn spec_bits(self) -> u8 {
        match self {
            Direction::ReadFromPeriph => 0,
            Direction::ReadFromMem => 1,
        }
    }

    /// The value of the DIR bit.
    pub fn bits(self) -> (b: u8)
        ensures
            b == self.spec_bits(),
    {
        match self {
            Direction::ReadFromPeriph => 0,
            Direction::ReadFromMem => 1,
        }
    }
}

/// Circular mode: the count reloads when it reaches zero.
#[derive(Clone, Copy, Debug, PartialEq, Eq, Structural)]
pub enum Circular {
    Disabled,
    Enabled,
}

impl Circular {
    /// The value of the CIRC bit.
    pub open spec fn spec_bits(self) -> u8 {
        match self {
            Circular::Disabled => 0,
            Circular::Enabled => 1,
        }
    }

    /// The value of the CIRC bit.
    pub fn bits(self) -> (b: u8)
        ensures
            b == self.spec_bits(),
    {
        match self {
            Circular::Disabled => 0,
            Circular::Enabled => 1,
        }
    }
}

/// Address increment mode, of the peripheral or of the memory side.
#[derive(Clone, Copy, Debug, PartialEq, Eq, Structural)]
pub enum IncrMode {
    Disabled,
    Enabled,
}

impl IncrMode {
    /// The value of the PINC or MINC bit.
    pub open spec fn spec_bits(self) -> u8 {
        match self {
            IncrMode::Disabled => 0,
            IncrMode::Enabled => 1,
        }
    }

    /// The value of the PINC or MINC bit.
    pub fn bits(self) -> (b: u8)
        ensures
            b == self.spec_bits(),
    {
        match self {
            IncrMode::Disabled => 0,
            IncrMode::Enabled => 1,
        }
    }
}

/// Width of one data unit, of the peripheral or of the memory side.
#[derive(Clone, Copy, Debug, PartialEq, Eq, Structural)]
pub enum DataSize {
    S8,
    S16,
    S32,
}

impl DataSize {
    /// The value of the PSIZE or MSIZE field.
    pub open spec fn spec_bits(self) -> u8 {
        match self {
            DataSize::S8 => 0,
            DataSize::S16 => 1,
            DataSize::S32 => 2,
        }
    }

    /// The value of the PSIZE or MSIZE field.
    pub fn bits(self) -> (b: u8)
        ensures
            b == self.spec_bits(),
            b <= 2,
    {
        match self {
            DataSize::S8 => 0,
            DataSize::S16 => 1,
            DataSize::S32 => 2,
        }
    }
}

/// The events that a channel signals.
#[derive(Clone, Copy, Debug, PartialEq, Eq, Structural)]
pub enum DmaInterrupt {
    TransferError,
    HalfTransfer,
    TransferComplete,
}

impl DmaInterrupt {
    /// The position of the event's flag within a channel's group of four
    /// status bits; its enable bit has the same position in the control
    /// register.
    pub open spec fn spec_position(self) -> u32 {
        match self {
            DmaInterrupt::TransferComplete => 1,
            DmaInterrupt::HalfTransfer => 2,
            DmaInterrupt::TransferError => 3,
        }
    }

    /// The position of the event's flag within a channel's group of four
    /// status bits.
    pub fn position(self) -> (p: u32)
        ensures
            p == self.spec_position(),
    {
        match self {
            DmaInterrupt::TransferComplete => 1,
            DmaInterrupt::HalfTransfer => 2,
            DmaInterrupt::TransferError => 3,
        }
    }

    /// The event's interrupt-enable bit in a control register.
    pub open spec fn spec_enable_bit(self) -> u32 {
        match self {
            DmaInterrupt::TransferComplete => CCR_TCIE,
            DmaInterrupt::HalfTransfer => CCR_HTIE,
            DmaInterrupt::TransferError => CCR_TEIE,
        }
    }

    /// The event's interrupt-enable bit in a control register.
    pub fn enable_bit(self) -> (b: u32)
        ensures
            b == self.spec_enable_bit(),
    {
        match self {
            DmaInterrupt::TransferComplete => CCR_TCIE,
            DmaInterrupt::HalfTransfer => CCR_HTIE,
            DmaInterrupt::TransferError => CCR_TEIE,
        }
    }
}

/// The settings of a channel that do not depend on the peripheral or on the
/// single transfer.
#[derive(Clone, Copy, Debug, PartialEq, Eq, Structural)]
pub struct ChannelCfg {
    pub priority: Priority,
    pub circular: Circular,
    pub periph_incr: IncrMode,
    pub mem_incr: IncrMode,
}

impl Default for ChannelCfg {
    /// Medium priority, no circular mode, and the memory address incremented
    /// while the peripheral address stays.
    fn default() -> (cfg: ChannelCfg)
        ensures
            cfg == (ChannelCfg {
                priority: Priority::Medium,
                circular: Circular::Disabled,
                periph_incr: IncrMode::Disabled,
                mem_incr: IncrMode::Enabled,
            }),
    {
        ChannelCfg {
            priority: Priority::Medium,
            circular: Circular::Disabled,
            periph_incr: IncrMode::Disabled,
            mem_incr: IncrMode::Enabled,
        }
    }
}

/// `file` with the control register of `channel` holding `word`.
pub open spec fn with_ccr(file: RegFile, channel: DmaChannel, word: u32) -> RegFile {
    RegFile { ccr: file.ccr.update(channel.spec_index(), word), ..file }
}

/// The operations that disable `channel`: the write that clears its enable
/// bit, and the poll for the hardware to confirm it.
pub open spec fn disable_sequence(file: RegFile, channel: DmaChannel) -> Seq<BusOp> {
    seq![
        BusOp::Write {
            reg: Register::Ccr(channel),
            value: file.ccr[channel.spec_index()] & !CCR_EN,
        },
        BusOp::AwaitEnable { channel, level: false },
    ]
}

/// The control word that arms a channel whose control register holds
/// `current`. Circular mode clears MEM2MEM; HTIE, TEIE and the reserved bits
/// stay.
pub open spec fn armed_word(
    current: u32,
    direction: Direction,
    periph_size: DataSize,
    mem_size: DataSize,
    cfg: ChannelCfg,
) -> u32 {
    control_word(
        if cfg.circular == Circular::Enabled {
            current & !CCR_MEM2MEM
        } else {
            current
        },
        cfg.priority.spec_bits() as u32,
        direction == Direction::ReadFromMem,
        cfg.circular == Circular::Enabled,
        cfg.periph_incr == IncrMode::Enabled,
        cfg.mem_incr == IncrMode::Enabled,
        periph_size.spec_bits() as u32,
        mem_size.spec_bits() as u32,
    )
}

/// The operations that load a transfer: the two addresses and the count,
/// then the release barrier.
pub open spec fn transfer_sequence(
    channel: DmaChannel,
    periph_addr: u32,
    mem_addr: u32,
    num_data: u16,
) -> Seq<BusOp> {
    seq![
        BusOp::Write { reg: Register::Cpar(channel), value: periph_addr },
        BusOp::Write { reg: Register::Cmar(channel), value: mem_addr },
        BusOp::Write { reg: Register::Cndtr(channel), value: num_data as u32 },
        BusOp::Fence(Barrier::Release),
    ]
}

/// The control word of a channel once it is open for configuration:
/// `current` with the enable bit clear and, for circular mode, MEM2MEM clear.
pub open spec fn configuration_base(current: u32, circular: Circular) -> u32 {
    if circular == Circular::Enabled {
        (current & !CCR_EN) & !CCR_MEM2MEM
    } else {
        current & !CCR_EN
    }
}

/// The operations that open a channel for configuration: the disabling of
/// the channel if it is enabled, then the write that clears MEM2MEM if
/// circular mode is asked for.
pub open spec fn opening_sequence(
    file: RegFile,
    channel: DmaChannel,
    circular: Circular,
) -> Seq<BusOp> {
    (if file.enabled(channel) {
        disable_sequence(file, channel)
    } else {
        Seq::<BusOp>::empty()
    }) + (if circular == Circular::Enabled {
        seq![
            BusOp::Write {
                reg: Register::Ccr(channel),
                value: configuration_base(file.ccr[channel.spec_index()], circular),
            },
        ]
    } else {
        Seq::<BusOp>::empty()
    })
}

/// The bus operations of [`Dma::cfg_channel`], in the order in which they
/// are issued: the two addresses and the count, the release barrier, the
/// disabling of the channel if it is enabled, the clearing of MEM2MEM if
/// circular mode is asked for, and last the one write that configures and
/// enables the channel.
pub open spec fn arm_sequence(
    file: RegFile,
    channel: DmaChannel,
    periph_addr: u32,
    mem_addr: u32,
    num_data: u16,
    direction: Direction,
    periph_size: DataSize,
    mem_size: DataSize,
    cfg: ChannelCfg,
) -> Seq<BusOp> {
    transfer_sequence(channel, periph_addr, mem_addr, num_data) + opening_sequence(
        file,
        channel,
        cfg.circular,
    ) + seq![
        BusOp::Write {
            reg: Register::Ccr(channel),
            value: armed_word(
                file.ccr[channel.spec_index()],
                direction,
                periph_size,
                mem_size,
                cfg,
            ),
        },
    ]
}

/// The register file after [`Dma::cfg_channel`]: the channel's addresses,
/// count and control word are replaced, and no other register changes.
pub open spec fn after_arm(
    file: RegFile,
    channel: DmaChannel,
    periph_addr: u32,
    mem_addr: u32,
    num_data: u16,
    direction: Direction,
    periph_size: DataSize,
    mem_size: DataSize,
    cfg: ChannelCfg,
) -> RegFile {
    let i = channel.spec_index();
    RegFile {
        par: file.par.update(i, periph_addr),
        mar: file.mar.update(i, mem_addr),
        ndtr: file.ndtr.update(i, num_data as u32),
        ccr: file.ccr.update(i, armed_word(file.ccr[i], direction, periph_size, mem_size, cfg)),
        ..file
    }
}

/// The bus operations of [`Dma::stop`].
pub open spec fn stop_sequence(file: RegFile, channel: DmaChannel) -> Seq<BusOp> {
    disable_sequence(file, channel).push(BusOp::Fence(Barrier::Full))
}

/// The register file after [`Dma::stop`]: the enable bit of `channel` is
/// clear, and nothing else has changed.
pub open spec fn after_stop(file: RegFile, channel: DmaChannel) -> RegFile {
    with_ccr(file, channel, file.ccr[channel.spec_index()] & !CCR_EN)
}

/// Whether the transfer-complete flag of `channel` is set.
pub open spec fn transfer_complete(file: RegFile, channel: DmaChannel) -> bool {
    file.isr & flag_mask(channel.spec_index() as u32, 1) != 0
}

/// The bus operations of [`Dma::enable_interrupt`]: on a disabled channel
/// the one write that sets the enable bit of the interrupt; on an enabled
/// one the same write between the disabling of the channel and the write
/// and poll that enable it again.
pub open spec fn interrupt_sequence(
    file: RegFile,
    channel: DmaChannel,
    interrupt: DmaInterrupt,
) -> Seq<BusOp> {
    let current = file.ccr[channel.spec_index()];
    let bit = interrupt.spec_enable_bit();
    if file.enabled(channel) {
        disable_sequence(file, channel) + seq![
            BusOp::Write { reg: Register::Ccr(channel), value: (current & !CCR_EN) | bit },
            BusOp::Write {
                reg: Register::Ccr(channel),
                value: ((current & !CCR_EN) | bit) | CCR_EN,
            },
            BusOp::AwaitEnable { channel, level: true },
        ]
    } else {
        seq![BusOp::Write { reg: Register::Ccr(channel), value: current | bit }]
    }
}

/// The register file after [`Dma::enable_interrupt`]: the enable bit of the
/// interrupt is set in the control register of `channel`, and nothing else
/// has changed.
pub open spec fn after_enable_interrupt(
    file: RegFile,
    channel: DmaChannel,
    interrupt: DmaInterrupt,
) -> RegFile {
    with_ccr(
        file,
        channel,
        file.ccr[channel.spec_index()] | interrupt.spec_enable_bit(),
    )
}

/// The clear-flag bit of `interrupt` on `channel`.
pub open spec fn clear_mask(channel: DmaChannel, interrupt: DmaInterrupt) -> u32 {
    flag_mask(channel.spec_index() as u32, interrupt.spec_position())
}

/// The register file after [`Dma::clear_interrupt`]: the flag of `interrupt`
/// on `channel` is clear, and nothing else has changed.
pub open spec fn after_clear_interrupt(
    file: RegFile,
    channel: DmaChannel,
    interrupt: DmaInterrupt,
) -> RegFile {
    RegFile { isr: file.isr & !clear_mask(channel, interrupt), ..file }
}

/// The request-selection register after `input` is selected on the channel
/// that it is wired to.
pub open spec fn selected_word(current: u32, input: DmaInput) -> u32 {
    select_word(
        current,
        input.spec_dma1_channel().unwrap().spec_index() as u32,
        input.spec_dma1_channel_select().unwrap() as u32,
    )
}

/// The registers and the journal after [`Dma::channel_select`]: one write
/// to the request-selection register, which then holds [`selected_word`].
pub open spec fn after_channel_select(
    before: RegisterBlockView,
    input: DmaInput,
) -> RegisterBlockView {
    let word = selected_word(before.file.cselr, input);
    RegisterBlockView {
        file: RegFile { cselr: word, ..before.file },
        journal: before.journal.push(BusOp::Write { reg: Register::Cselr, value: word }),
    }
}

/// Represents a Direct Memory Access (DMA) controller.
pub struct Dma {
    regs: RegisterBlock,
}

impl View for Dma {
    type V = RegisterBlockView;

    closed spec fn view(&self) -> RegisterBlockView {
        self.regs@
    }
}

impl Dma {
    /// Takes over the register block `regs`, after enabling the controller's
    /// clock and pulsing its reset on `rcc`.
    pub fn new(regs: RegisterBlock, rcc: &mut Rcc) -> (dma: Dma)
        ensures
            dma@ == regs@,
            final(rcc)@ == old(rcc)@ + en_reset_sequence(Bus::Ahb1, ClockedPeriph::Dma1),
    {
        rcc.en_reset(Bus::Ahb1, ClockedPeriph::Dma1);
        Dma { regs }
    }

    /// The register contents are well formed in every state.
    pub proof fn lemma_wf(&self)
        ensures
            self@.file.wf(),
    {
        self.regs.lemma_wf();
    }

    /// The register block, for reading registers and the journal.
    pub fn registers(&self) -> (regs: &RegisterBlock)
        ensures
            regs@ == self@,
    {
        &self.regs
    }

    /// Takes over `value` as what the controller now reports for `reg`; see
    /// [`RegisterBlock::refresh`].
    pub fn refresh(&mut self, reg: Register, value: u32)
        ensures
            final(self)@.file == old(self)@.file.with(reg, value),
            final(self)@.journal == old(self)@.journal,
    {
        self.regs.refresh(reg, value);
    }

    /// Hands out the bus operations issued so far, oldest first, and starts
    /// the journal anew; see [`RegisterBlock::take_journal`].
    pub fn take_journal(&mut self) -> (ops: Vec<BusOp>)
        ensures
            ops@ == old(self)@.journal,
            final(self)@.file == old(self)@.file,
            final(self)@.journal == Seq::<BusOp>::empty(),
    {
        self.regs.take_journal()
    }

    /// Gives the register block back.
    pub fn free(self) -> (regs: RegisterBlock)
        ensures
            regs@ == self@,
    {
        self.regs
    }

    /// Clears the enable bit of `channel` and polls until it reads clear.
    fn disable_and_wait(&mut self, channel: DmaChannel)
        ensures
            final(self)@.file == after_stop(old(self)@.file, channel),
            !final(self)@.file.enabled(channel),
            final(self)@.journal == old(self)@.journal + disable_sequence(
                old(self)@.file,
                channel,
            ),
    {
        proof {
            self.regs.lemma_wf();
            channel.lemma_index_in_range();
        }
        let ccr = channel.registers().control;
        let current: u32 = self.regs.read(ccr);
        proof {
            lemma_disable(current);
        }
        self.regs.write(ccr, current & !CCR_EN);
        self.regs.await_enable(channel, false);
        assert(self.regs@.journal =~= old(self)@.journal + disable_sequence(
            old(self)@.file,
            channel,
        ));
    }

    /// Writes the two addresses and the count of a transfer, then places the
    /// release barrier.
    fn load_transfer(
        &mut self,
        channel: DmaChannel,
        periph_addr: u32,
        mem_addr: u32,
        num_data: u16,
    )
        ensures
            final(self)@.file == (RegFile {
                par: old(self)@.file.par.update(channel.spec_index(), periph_addr),
                mar: old(self)@.file.mar.update(channel.spec_index(), mem_addr),
                ndtr: old(self)@.file.ndtr.update(channel.spec_index(), num_data as u32),
                ..old(self)@.file
            }),
            final(self)@.journal == old(self)@.journal + transfer_sequence(
                channel,
                periph_addr,
                mem_addr,
                num_data,
            ),
    {
        let regs = channel.registers();
        self.regs.write(regs.peripheral_addr, periph_addr);
        self.regs.write(regs.memory_addr, mem_addr);
        proof {
            lemma_count_fits(num_data);
        }
        self.regs.write(regs.count, num_data as u32);
        self.regs.fence(Barrier::Release);
        assert(self.regs@.journal =~= old(self)@.journal + transfer_sequence(
            channel,
            periph_addr,
            mem_addr,
            num_data,
        ));
    }

    /// Disables `channel` if it is enabled, then clears MEM2MEM if circular
    /// mode is asked for. Gives back the control word that the register
    /// holds afterwards.
    fn open_for_configuration(&mut self, channel: DmaChannel, circular: Circular) -> (base: u32)
        ensures
            base == configuration_base(old(self)@.file.ccr[channel.spec_index()], circular),
            base & CCR_EN == 0,
            final(self)@.file == with_ccr(old(self)@.file, channel, base),
            final(self)@.journal == old(self)@.journal + opening_sequence(
                old(self)@.file,
                channel,
                circular,
            ),
    {
        proof {
            self.regs.lemma_wf();
            channel.lemma_index_in_range();
        }
        let ccr = channel.registers().control;
        let ghost current0 = self.regs@.file.ccr[channel.spec_index()];
        proof {
            lemma_disable(current0);
            lemma_arm_base(current0, 0, false, false, false, false, 0, 0);
        }
        if self.regs.read(ccr) & CCR_EN != 0 {
            self.disable_and_wait(channel);
        }
        let current: u32 = self.regs.read(ccr);
        assert(current == current0 & !CCR_EN);
        let ghost journal1 = self.regs@.journal;
        let ghost file1 = self.regs@.file;
        assert(file1.ccr =~= with_ccr(old(self)@.file, channel, current).ccr);
        match circular {
            Circular::Enabled => {
                let base: u32 = current & !CCR_MEM2MEM;
                self.regs.write(ccr, base);
                assert(self.regs@.file.ccr =~= with_ccr(old(self)@.file, channel, base).ccr);
                assert(self.regs@.journal =~= old(self)@.journal + opening_sequence(
                    old(self)@.file,
                    channel,
                    circular,
                ));
                base
            },
            Circular::Disabled => {
                assert(self.regs@.journal =~= old(self)@.journal + opening_sequence(
                    old(self)@.file,
                    channel,
                    circular,
                ));
                current
            },
        }
    }

    /// Configures `channel` for one transfer and arms it. The
    /// transfer-complete interrupt is enabled with it.
    ///
    /// The operations are issued in the order of [`arm_sequence`]. The
    /// control register then holds the requested configuration, field by
    /// field, with the channel enabled; the half-transfer and
    /// transfer-error enables are as before, and so is MEM2MEM unless
    /// circular mode clears it.
    pub fn cfg_channel(
        &mut self,
        channel: DmaChannel,
        periph_addr: u32,
        mem_addr: u32,
        num_data: u16,
        direction: Direction,
        periph_size: DataSize,
        mem_size: DataSize,
        cfg: ChannelCfg,
    )
        ensures
            final(self)@.journal == old(self)@.journal + arm_sequence(
                old(self)@.file,
                channel,
                periph_addr,
                mem_addr,
                num_data,
                direction,
                periph_size,
                mem_size,
                cfg,
            ),
            final(self)@.file == after_arm(
                old(self)@.file,
                channel,
                periph_addr,
                mem_addr,
                num_data,
                direction,
                periph_size,
                mem_size,
                cfg,
            ),
            decode(final(self)@.file.ccr[channel.spec_index()]) == (ControlFields {
                enabled: true,
                complete_irq: true,
                half_irq: decode(old(self)@.file.ccr[channel.spec_index()]).half_irq,
                error_irq: decode(old(self)@.file.ccr[channel.spec_index()]).error_irq,
                from_memory: direction == Direction::ReadFromMem,
                circular: cfg.circular == Circular::Enabled,
                periph_incr: cfg.periph_incr == IncrMode::Enabled,
                mem_incr: cfg.mem_incr == IncrMode::Enabled,
                periph_size: periph_size.spec_bits() as u32,
                mem_size: mem_size.spec_bits() as u32,
                priority: cfg.priority.spec_bits() as u32,
                mem2mem: decode(old(self)@.file.ccr[channel.spec_index()]).mem2mem
                    && cfg.circular != Circular::Enabled,
            }),
    {
        proof {
            self.regs.lemma_wf();
            channel.lemma_index_in_range();
        }
        let ghost file0 = self.regs@.file;
        let ghost current0 = file0.ccr[channel.spec_index()];
        let ghost circ = cfg.circular == Circular::Enabled;
        self.load_transfer(channel, periph_addr, mem_addr, num_data);
        let base: u32 = self.open_for_configuration(channel, cfg.circular);
        let word: u32 = make_control_word(
            base,
            cfg.priority.bits() as u32,
            direction.bits() != 0,
            cfg.circular.bits() != 0,
            cfg.periph_incr.bits() != 0,
            cfg.mem_incr.bits() != 0,
            periph_size.bits() as u32,
            mem_size.bits() as u32,
        );
        proof {
            lemma_arm_base(
                current0,
                cfg.priority.spec_bits() as u32,
                direction == Direction::ReadFromMem,
                circ,
                cfg.periph_incr == IncrMode::Enabled,
                cfg.mem_incr == IncrMode::Enabled,
                periph_size.spec_bits() as u32,
                mem_size.spec_bits() as u32,
            );
            lemma_control_word_fields(
                if circ {
                    current0 & !CCR_MEM2MEM
                } else {
                    current0
                },
                cfg.priority.spec_bits() as u32,
                direction == Direction::ReadFromMem,
                circ,
                cfg.periph_incr == IncrMode::Enabled,
                cfg.mem_incr == IncrMode::Enabled,
                periph_size.spec_bits() as u32,
                mem_size.spec_bits() as u32,
            );
        }
        assert(word == armed_word(current0, direction, periph_size, mem_size, cfg));
        self.regs.write(channel.registers().control, word);
        proof {
            assert(self.regs@.file.ccr =~= after_arm(
                file0,
                channel,
                periph_addr,
                mem_addr,
                num_data,
                direction,
                periph_size,
                mem_size,
                cfg,
            ).ccr);
            assert(self.regs@.journal =~= old(self)@.journal + arm_sequence(
                file0,
                channel,
                periph_addr,
                mem_addr,
                num_data,
                direction,
                periph_size,
                mem_size,
                cfg,
            ));
        }
    }
    /// Stops `channel`: clears its enable bit, polls until the hardware
    /// confirms it, and places a full barrier. Status flags are left as they
    /// are; a pending transfer-error flag has to be cleared by the caller
    /// before the hardware lets the channel be armed again.
    pub fn stop(&mut self, channel: DmaChannel)
        ensures
            final(self)@.file == after_stop(old(self)@.file, channel),
            !final(self)@.file.enabled(channel),
            final(self)@.journal == old(self)@.journal + stop_sequence(old(self)@.file, channel),
    {
        self.disable_and_wait(channel);
        self.regs.fence(Barrier::Full);
        assert(self.regs@.journal =~= old(self)@.journal + stop_sequence(
            old(self)@.file,
            channel,
        ));
    }

    /// Whether the transfer-complete flag of `channel` is set. A plain read
    /// of the status register: nothing changes and nothing is recorded.
    pub fn transfer_is_complete(&mut self, channel: DmaChannel) -> (complete: bool)
        ensures
            complete == transfer_complete(old(self)@.file, channel),
            final(self)@ == old(self)@,
    {
        let isr: u32 = self.regs.read(Register::Isr);
        let index: u32 = channel.index() as u32;
        isr & (1u32 << (4 * index + 1)) != 0
    }

    /// Select which peripheral on a given channel we're using: writes the
    /// select value of `input` into the field of the channel that `input` is
    /// wired to, and leaves the fields of the other channels as they are.
    pub fn channel_select(&mut self, input: DmaInput)
        requires
            input.spec_dma1_channel() is Some,
        ensures
            final(self)@ == after_channel_select(old(self)@, input),
            (final(self)@.file.cselr >> (4 * input.spec_dma1_channel().unwrap().spec_index()
                as u32)) & 0xf == input.spec_dma1_channel_select().unwrap(),
            final(self)@.file.cselr & !select_mask(
                input.spec_dma1_channel().unwrap().spec_index() as u32,
            ) == old(self)@.file.cselr & !select_mask(
                input.spec_dma1_channel().unwrap().spec_index() as u32,
            ),
    {
        let value: u32 = input.dma1_channel_select() as u32;
        let index: u32 = input.dma1_channel().index() as u32;
        let current: u32 = self.regs.read(Register::Cselr);
        let shift: u32 = 4 * index;
        proof {
            lemma_select_field(current, index, value);
        }
        self.regs.write(Register::Cselr, (current & !(0xfu32 << shift)) | (value << shift));
    }

    /// Enable a specific type of interrupt. The `TransferComplete` interrupt
    /// is enabled already by [`Dma::cfg_channel`].
    ///
    /// An enabled channel is disabled for the write and enabled again after
    /// it, so that the enable bit is afterwards as it was before.
    pub fn enable_interrupt(&mut self, channel: DmaChannel, interrupt: DmaInterrupt)
        ensures
            final(self)@.file == after_enable_interrupt(old(self)@.file, channel, interrupt),
            final(self)@.file.enabled(channel) == old(self)@.file.enabled(channel),
            final(self)@.file.ccr[channel.spec_index()] & interrupt.spec_enable_bit() != 0,
            final(self)@.journal == old(self)@.journal + interrupt_sequence(
                old(self)@.file,
                channel,
                interrupt,
            ),
    {
        proof {
            self.regs.lemma_wf();
            channel.lemma_index_in_range();
        }
        let ccr = channel.registers().control;
        let bit: u32 = interrupt.enable_bit();
        let ghost current0 = self.regs@.file.ccr[channel.spec_index()];
        proof {
            lemma_disable(current0);
            lemma_interrupt_cycle(current0, bit);
        }
        let was_enabled = self.regs.read(ccr) & CCR_EN != 0;
        if was_enabled {
            self.disable_and_wait(channel);
        }
        let current: u32 = self.regs.read(ccr);
        self.regs.write(ccr, current | bit);
        if was_enabled {
            let current: u32 = self.regs.read(ccr);
            self.regs.write(ccr, current | CCR_EN);
            self.regs.await_enable(channel, true);
        }
        proof {
            assert(self.regs@.file.ccr =~= after_enable_interrupt(
                old(self)@.file,
                channel,
                interrupt,
            ).ccr);
            assert(self.regs@.journal =~= old(self)@.journal + interrupt_sequence(
                old(self)@.file,
                channel,
                interrupt,
            ));
        }
    }

    /// Clears the flag of `interrupt` on `channel`, by writing a one to its
    /// bit in the clear-flag register. The other flags are left as they are.
    pub fn clear_interrupt(&mut self, channel: DmaChannel, interrupt: DmaInterrupt)
        ensures
            final(self)@.file == after_clear_interrupt(old(self)@.file, channel, interrupt),
            final(self)@.journal == old(self)@.journal.push(
                BusOp::Write { reg: Register::Ifcr, value: clear_mask(channel, interrupt) },
            ),
            final(self)@.file.isr & clear_mask(channel, interrupt) == 0,
            forall|c: DmaChannel, i: DmaInterrupt|
                c != channel || i != interrupt ==> final(self)@.file.isr & #[trigger] clear_mask(
                    c,
                    i,
                ) == old(self)@.file.isr & clear_mask(c, i),
    {
        let index: u32 = channel.index() as u32;
        let position: u32 = interrupt.position();
        proof {
            let isr = self.regs@.file.isr;
            channel.lemma_index_in_range();
            lemma_clear_flag(isr, index, position, index, position);
            assert forall|c: DmaChannel, i: DmaInterrupt| c != channel || i != interrupt implies (
            isr & !clear_mask(channel, interrupt)) & #[trigger] clear_mask(c, i) == isr
                & clear_mask(c, i) by {
                c.lemma_index_in_range();
                lemma_clear_flag(
                    isr,
                    index,
                    position,
                    c.spec_index() as u32,
                    i.spec_position(),
                );
            }
        }
        self.regs.write(Register::Ifcr, 1u32 << (4 * index + position));
    }
}

/// Configure a specific DMA channel to work with a specific peripheral:
/// writes the identity of `input` into the request-identity field of the
/// multiplexer register of `channel`, and leaves the register's other bits
/// as they are.
pub fn mux(channel: DmaChannel, input: DmaInput, mux: &mut DmaMux)
    ensures
        final(mux)@.cr == old(mux)@.cr.update(
            channel.spec_index(),
            mux_word(old(mux)@.cr[channel.spec_index()], input.spec_request_id() as u32),
        ),
        final(mux)@.journal == old(mux)@.journal.push(
            MuxWrite {
                channel,
                value: mux_word(
                    old(mux)@.cr[channel.spec_index()],
                    input.spec_request_id() as u32,
                ),
            },
        ),
        final(mux)@.cr[channel.spec_index()] & MUX_REQ_ID == input.spec_request_id(),
        final(mux)@.cr[channel.spec_index()] & !MUX_REQ_ID == old(mux)@.cr[channel.spec_index()]
            & !MUX_REQ_ID,
{
    proof {
        mux.lemma_wf();
        channel.lemma_index_in_range();
    }
    let current: u32 = mux.read(channel);
    let id: u32 = input.request_id() as u32;
    proof {
        lemma_mux_field(current, id);
    }
    mux.write(channel, (current & !MUX_REQ_ID) | id);
}

} // verus!
