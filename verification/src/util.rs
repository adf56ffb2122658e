//! What the drivers need to know of each peripheral: the bus that clocks
//! it, how its clock is enabled, and the DMA channel that it is wired to.

use crate::clocks::Clocks;
use crate::dma::after_channel_select;
use crate::dma::Dma;
use crate::dma::DmaChannel;
use crate::dma::DmaInput;
use crate::rcc::en_reset_sequence;
use crate::rcc::Bus;
use crate::rcc::ClockedPeriph;
use crate::rcc::Rcc;
use vstd::prelude::*;

verus! {

/// Basic timer TIM6.
pub struct Tim6;

/// Basic timer TIM7.
pub struct Tim7;

/// I2C interface I2C1.
pub struct I2c1;

/// I2C interface I2C2.
pub struct I2c2;

/// I2C interface I2C3.
pub struct I2c3;

/// SPI interface SPI1.
pub struct Spi1;

/// SPI interface SPI2.
pub struct Spi2;

/// SPI interface SPI3.
pub struct Spi3;

/// SPI interface SPI4.
pub struct Spi4;

/// Serial audio interface SAI1.
pub struct Sai1;

/// Serial audio interface SAI2.
pub struct Sai2;

/// Serial audio interface SAI3.
pub struct Sai3;

/// Serial audio interface SAI4.
pub struct Sai4;

/// Serial interface USART1.
pub struct Usart1;

/// Serial interface USART2.
pub struct Usart2;

/// Serial interface USART3.
pub struct Usart3;

/// Digital-to-analog converter DAC1.
pub struct Dac1;

/// Analog-to-digital converter ADC1.
pub struct Adc1;

/// Analog-to-digital converter ADC2.
pub struct Adc2;

/// Analog-to-digital converter ADC3.
pub struct Adc3;

/// Analog-to-digital converter ADC4.
pub struct Adc4;

/// Analog-to-digital converter ADC5.
pub struct Adc5;

/// A peripheral whose baud rate derives from a bus clock.
pub trait BaudPeriph {
    /// The frequency that the baud rate derives from.
    spec fn spec_baud(clock_cfg: &Clocks) -> u32;

    /// The frequency that the baud rate derives from.
    fn baud(clock_cfg: &Clocks) -> (hz: u32)
        ensures
            hz == Self::spec_baud(clock_cfg),
    ;
}

impl BaudPeriph for Usart1 {
    open spec fn spec_baud(clock_cfg: &Clocks) -> u32 {
        clock_cfg.spec_apb2()
    }

    fn baud(clock_cfg: &Clocks) -> (hz: u32) {
        clock_cfg.apb2()
    }
}

impl BaudPeriph for Usart2 {
    open spec fn spec_baud(clock_cfg: &Clocks) -> u32 {
        clock_cfg.spec_apb1()
    }

    fn baud(clock_cfg: &Clocks) -> (hz: u32) {
        clock_cfg.apb1()
    }
}

impl BaudPeriph for Usart3 {
    open spec fn spec_baud(clock_cfg: &Clocks) -> u32 {
        clock_cfg.spec_apb1()
    }

    fn baud(clock_cfg: &Clocks) -> (hz: u32) {
        clock_cfg.apb1()
    }
}

/// A peripheral whose reference derives from a bus clock.
pub trait VrefPeriph {
    /// The frequency that the reference derives from.
    spec fn spec_vref(clock_cfg: &Clocks) -> u32;

    /// The frequency that the reference derives from.
    fn vref(clock_cfg: &Clocks) -> (hz: u32)
        ensures
            hz == Self::spec_vref(clock_cfg),
    ;
}

impl VrefPeriph for Adc1 {
    open spec fn spec_vref(clock_cfg: &Clocks) -> u32 {
        clock_cfg.spec_apb2()
    }

    fn vref(clock_cfg: &Clocks) -> (hz: u32) {
        clock_cfg.apb2()
    }
}

impl VrefPeriph for Adc2 {
    open spec fn spec_vref(clock_cfg: &Clocks) -> u32 {
        clock_cfg.spec_apb1()
    }

    fn vref(clock_cfg: &Clocks) -> (hz: u32) {
        clock_cfg.apb1()
    }
}

impl VrefPeriph for Adc3 {
    open spec fn spec_vref(clock_cfg: &Clocks) -> u32 {
        clock_cfg.spec_apb1()
    }

    fn vref(clock_cfg: &Clocks) -> (hz: u32) {
        clock_cfg.apb1()
    }
}

impl VrefPeriph for Adc4 {
    open spec fn spec_vref(clock_cfg: &Clocks) -> u32 {
        clock_cfg.spec_apb1()
    }

    fn vref(clock_cfg: &Clocks) -> (hz: u32) {
        clock_cfg.apb1()
    }
}

impl VrefPeriph for Adc5 {
    open spec fn spec_vref(clock_cfg: &Clocks) -> u32 {
        clock_cfg.spec_apb1()
    }

    fn vref(clock_cfg: &Clocks) -> (hz: u32) {
        clock_cfg.apb1()
    }
}

/// A peripheral with a clock-enable and a reset line.
pub trait RccPeriph {
    /// The bus that the peripheral's lines hang on, and the peripheral as
    /// the clock control block knows it.
    spec fn line() -> (Bus, ClockedPeriph);

    /// Enables the peripheral's clock, then asserts and releases its reset.
    fn en_reset(rcc: &mut Rcc)
        ensures
            final(rcc)@ == old(rcc)@ + en_reset_sequence(Self::line().0, Self::line().1),
    ;
}

impl RccPeriph for Tim6 {
    open spec fn line() -> (Bus, ClockedPeriph) {
        (Bus::Apb1, ClockedPeriph::Tim6)
    }

    fn en_reset(rcc: &mut Rcc) {
        rcc.en_reset(Bus::Apb1, ClockedPeriph::Tim6);
    }
}

impl RccPeriph for Tim7 {
    open spec fn line() -> (Bus, ClockedPeriph) {
        (Bus::Apb1, ClockedPeriph::Tim7)
    }

    fn en_reset(rcc: &mut Rcc) {
        rcc.en_reset(Bus::Apb1, ClockedPeriph::Tim7);
    }
}

impl RccPeriph for I2c1 {
    open spec fn line() -> (Bus, ClockedPeriph) {
        (Bus::Apb1, ClockedPeriph::I2c1)
    }

    fn en_reset(rcc: &mut Rcc) {
        rcc.en_reset(Bus::Apb1, ClockedPeriph::I2c1);
    }
}

impl RccPeriph for I2c2 {
    open spec fn line() -> (Bus, ClockedPeriph) {
        (Bus::Apb1, ClockedPeriph::I2c2)
    }

    fn en_reset(rcc: &mut Rcc) {
        rcc.en_reset(Bus::Apb1, ClockedPeriph::I2c2);
    }
}

impl RccPeriph for I2c3 {
    open spec fn line() -> (Bus, ClockedPeriph) {
        (Bus::Apb1, ClockedPeriph::I2c3)
    }

    fn en_reset(rcc: &mut Rcc) {
        rcc.en_reset(Bus::Apb1, ClockedPeriph::I2c3);
    }
}

impl RccPeriph for Spi1 {
    open spec fn line() -> (Bus, ClockedPeriph) {
        (Bus::Apb2, ClockedPeriph::Spi1)
    }

    fn en_reset(rcc: &mut Rcc) {
        rcc.en_reset(Bus::Apb2, ClockedPeriph::Spi1);
    }
}

impl RccPeriph for Spi2 {
    open spec fn line() -> (Bus, ClockedPeriph) {
        (Bus::Apb1, ClockedPeriph::Spi2)
    }

    fn en_reset(rcc: &mut Rcc) {
        rcc.en_reset(Bus::Apb1, ClockedPeriph::Spi2);
    }
}

impl RccPeriph for Spi3 {
    open spec fn line() -> (Bus, ClockedPeriph) {
        (Bus::Apb1, ClockedPeriph::Spi3)
    }

    fn en_reset(rcc: &mut Rcc) {
        rcc.en_reset(Bus::Apb1, ClockedPeriph::Spi3);
    }
}

impl RccPeriph for Spi4 {
    open spec fn line() -> (Bus, ClockedPeriph) {
        (Bus::Apb2, ClockedPeriph::Spi4)
    }

    fn en_reset(rcc: &mut Rcc) {
        rcc.en_reset(Bus::Apb2, ClockedPeriph::Spi4);
    }
}

impl RccPeriph for Sai1 {
    open spec fn line() -> (Bus, ClockedPeriph) {
        (Bus::Apb2, ClockedPeriph::Sai1)
    }

    fn en_reset(rcc: &mut Rcc) {
        rcc.en_reset(Bus::Apb2, ClockedPeriph::Sai1);
    }
}

impl RccPeriph for Sai2 {
    open spec fn line() -> (Bus, ClockedPeriph) {
        (Bus::Apb2, ClockedPeriph::Sai2)
    }

    fn en_reset(rcc: &mut Rcc) {
        rcc.en_reset(Bus::Apb2, ClockedPeriph::Sai2);
    }
}

impl RccPeriph for Sai3 {
    open spec fn line() -> (Bus, ClockedPeriph) {
        (Bus::Apb2, ClockedPeriph::Sai3)
    }

    fn en_reset(rcc: &mut Rcc) {
        rcc.en_reset(Bus::Apb2, ClockedPeriph::Sai3);
    }
}

impl RccPeriph for Sai4 {
    open spec fn line() -> (Bus, ClockedPeriph) {
        (Bus::Apb4, ClockedPeriph::Sai4)
    }

    fn en_reset(rcc: &mut Rcc) {
        rcc.en_reset(Bus::Apb4, ClockedPeriph::Sai4);
    }
}

impl RccPeriph for Usart1 {
    open spec fn line() -> (Bus, ClockedPeriph) {
        (Bus::Apb2, ClockedPeriph::Usart1)
    }

    fn en_reset(rcc: &mut Rcc) {
        rcc.en_reset(Bus::Apb2, ClockedPeriph::Usart1);
    }
}

impl RccPeriph for Usart2 {
    open spec fn line() -> (Bus, ClockedPeriph) {
        (Bus::Apb1, ClockedPeriph::Usart2)
    }

    fn en_reset(rcc: &mut Rcc) {
        rcc.en_reset(Bus::Apb1, ClockedPeriph::Usart2);
    }
}

impl RccPeriph for Usart3 {
    open spec fn line() -> (Bus, ClockedPeriph) {
        (Bus::Apb1, ClockedPeriph::Usart3)
    }

    fn en_reset(rcc: &mut Rcc) {
        rcc.en_reset(Bus::Apb1, ClockedPeriph::Usart3);
    }
}

impl RccPeriph for Dac1 {
    open spec fn line() -> (Bus, ClockedPeriph) {
        (Bus::Apb1, ClockedPeriph::Dac1)
    }

    fn en_reset(rcc: &mut Rcc) {
        rcc.en_reset(Bus::Apb1, ClockedPeriph::Dac1);
    }
}

/// Whether `input` names a source that is wired to a channel.
pub open spec fn wired(input: Option<DmaInput>) -> bool {
    input is Some && input.unwrap().spec_dma1_channel() is Some
}

/// A peripheral that is served by DMA. A peripheral names the sources of its
/// requests; its channels and their selection follow from them. Where a
/// direction has no source, or its source is wired to no channel, the
/// functions of that direction cannot be called.
pub trait DmaPeriph {
    /// The source of the requests that read from the peripheral.
    spec fn read_input() -> Option<DmaInput>;

    /// The source of the requests that write to the peripheral.
    spec fn write_input() -> Option<DmaInput>;

    /// The source of the requests that read from the peripheral.
    fn read_source() -> (input: Option<DmaInput>)
        ensures
            input == Self::read_input(),
    ;

    /// The source of the requests that write to the peripheral.
    fn write_source() -> (input: Option<DmaInput>)
        ensures
            input == Self::write_input(),
    ;

    /// The channel that reads from the peripheral.
    fn read_chan() -> (channel: DmaChannel)
        requires
            wired(Self::read_input()),
        ensures
            Some(channel) == Self::read_input().unwrap().spec_dma1_channel(),
    {
        match Self::read_source() {
            Some(input) => input.dma1_channel(),
            None => unreached(),
        }
    }

    /// The channel that writes to the peripheral.
    fn write_chan() -> (channel: DmaChannel)
        requires
            wired(Self::write_input()),
        ensures
            Some(channel) == Self::write_input().unwrap().spec_dma1_channel(),
    {
        match Self::write_source() {
            Some(input) => input.dma1_channel(),
            None => unreached(),
        }
    }

    /// Selects the peripheral on the channel that reads from it.
    fn read_sel(dma: &mut Dma)
        requires
            wired(Self::read_input()),
        ensures
            final(dma)@ == after_channel_select(old(dma)@, Self::read_input().unwrap()),
    {
        match Self::read_source() {
            Some(input) => dma.channel_select(input),
            None => unreached(),
        }
    }

    /// Selects the peripheral on the channel that writes to it.
    fn write_sel(dma: &mut Dma)
        requires
            wired(Self::write_input()),
        ensures
            final(dma)@ == after_channel_select(old(dma)@, Self::write_input().unwrap()),
    {
        match Self::write_source() {
            Some(input) => dma.channel_select(input),
            None => unreached(),
        }
    }
}

impl DmaPeriph for I2c1 {
    open spec fn read_input() -> Option<DmaInput> {
        Some(DmaInput::I2c1Rx)
    }

    open spec fn write_input() -> Option<DmaInput> {
        Some(DmaInput::I2c1Tx)
    }

    fn read_source() -> (input: Option<DmaInput>) {
        Some(DmaInput::I2c1Rx)
    }

    fn write_source() -> (input: Option<DmaInput>) {
        Some(DmaInput::I2c1Tx)
    }
}

impl DmaPeriph for I2c2 {
    open spec fn read_input() -> Option<DmaInput> {
        Some(DmaInput::I2c2Rx)
    }

    open spec fn write_input() -> Option<DmaInput> {
        Some(DmaInput::I2c2Tx)
    }

    fn read_source() -> (input: Option<DmaInput>) {
        Some(DmaInput::I2c2Rx)
    }

    fn write_source() -> (input: Option<DmaInput>) {
        Some(DmaInput::I2c2Tx)
    }
}

impl DmaPeriph for Spi1 {
    open spec fn read_input() -> Option<DmaInput> {
        Some(DmaInput::Spi1Rx)
    }

    open spec fn write_input() -> Option<DmaInput> {
        Some(DmaInput::Spi1Tx)
    }

    fn read_source() -> (input: Option<DmaInput>) {
        Some(DmaInput::Spi1Rx)
    }

    fn write_source() -> (input: Option<DmaInput>) {
        Some(DmaInput::Spi1Tx)
    }
}

impl DmaPeriph for Spi2 {
    open spec fn read_input() -> Option<DmaInput> {
        Some(DmaInput::Spi2Rx)
    }

    open spec fn write_input() -> Option<DmaInput> {
        Some(DmaInput::Spi2Tx)
    }

    fn read_source() -> (input: Option<DmaInput>) {
        Some(DmaInput::Spi2Rx)
    }

    fn write_source() -> (input: Option<DmaInput>) {
        Some(DmaInput::Spi2Tx)
    }
}

impl DmaPeriph for Spi3 {
    open spec fn read_input() -> Option<DmaInput> {
        Some(DmaInput::Spi3Rx)
    }

    open spec fn write_input() -> Option<DmaInput> {
        Some(DmaInput::Spi3Tx)
    }

    fn read_source() -> (input: Option<DmaInput>) {
        Some(DmaInput::Spi3Rx)
    }

    fn write_source() -> (input: Option<DmaInput>) {
        Some(DmaInput::Spi3Tx)
    }
}

impl DmaPeriph for Usart1 {
    open spec fn read_input() -> Option<DmaInput> {
        Some(DmaInput::Usart1Rx)
    }

    open spec fn write_input() -> Option<DmaInput> {
        Some(DmaInput::Usart1Tx)
    }

    fn read_source() -> (input: Option<DmaInput>) {
        Some(DmaInput::Usart1Rx)
    }

    fn write_source() -> (input: Option<DmaInput>) {
        Some(DmaInput::Usart1Tx)
    }
}

impl DmaPeriph for Usart2 {
    open spec fn read_input() -> Option<DmaInput> {
        Some(DmaInput::Usart2Rx)
    }

    open spec fn write_input() -> Option<DmaInput> {
        Some(DmaInput::Usart2Tx)
    }

    fn read_source() -> (input: Option<DmaInput>) {
        Some(DmaInput::Usart2Rx)
    }

    fn write_source() -> (input: Option<DmaInput>) {
        Some(DmaInput::Usart2Tx)
    }
}

impl DmaPeriph for Usart3 {
    open spec fn read_input() -> Option<DmaInput> {
        Some(DmaInput::Usart3Rx)
    }

    open spec fn write_input() -> Option<DmaInput> {
        Some(DmaInput::Usart3Tx)
    }

    fn read_source() -> (input: Option<DmaInput>) {
        Some(DmaInput::Usart3Rx)
    }

    fn write_source() -> (input: Option<DmaInput>) {
        Some(DmaInput::Usart3Tx)
    }
}

impl DmaPeriph for Adc1 {
    open spec fn read_input() -> Option<DmaInput> {
        Some(DmaInput::Adc1)
    }

    open spec fn write_input() -> Option<DmaInput> {
        None
    }

    fn read_source() -> (input: Option<DmaInput>) {
        Some(DmaInput::Adc1)
    }

    fn write_source() -> (input: Option<DmaInput>) {
        None
    }
}

impl DmaPeriph for Adc2 {
    open spec fn read_input() -> Option<DmaInput> {
        Some(DmaInput::Adc2)
    }

    open spec fn write_input() -> Option<DmaInput> {
        None
    }

    fn read_source() -> (input: Option<DmaInput>) {
        Some(DmaInput::Adc2)
    }

    fn write_source() -> (input: Option<DmaInput>) {
        None
    }
}

} // verus!
