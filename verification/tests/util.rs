use stm32_dma::clocks::Clocks;
use stm32_dma::dma::Dma;
use stm32_dma::dma::DmaChannel;
use stm32_dma::dma::DmaInput;
use stm32_dma::rcc::Bus;
use stm32_dma::rcc::ClockedPeriph;
use stm32_dma::rcc::Rcc;
use stm32_dma::rcc::RccOp;
use stm32_dma::regs::Register;
use stm32_dma::regs::RegisterBlock;
use stm32_dma::util::Adc1;
use stm32_dma::util::Adc2;
use stm32_dma::util::Adc3;
use stm32_dma::util::Adc4;
use stm32_dma::util::Adc5;
use stm32_dma::util::BaudPeriph;
use stm32_dma::util::Dac1;
use stm32_dma::util::DmaPeriph;
use stm32_dma::util::I2c1;
use stm32_dma::util::I2c2;
use stm32_dma::util::I2c3;
use stm32_dma::util::RccPeriph;
use stm32_dma::util::Sai1;
use stm32_dma::util::Sai2;
use stm32_dma::util::Sai3;
use stm32_dma::util::Sai4;
use stm32_dma::util::Spi1;
use stm32_dma::util::Spi2;
use stm32_dma::util::Spi3;
use stm32_dma::util::Spi4;
use stm32_dma::util::Tim6;
use stm32_dma::util::Tim7;
use stm32_dma::util::Usart1;
use stm32_dma::util::Usart2;
use stm32_dma::util::Usart3;
use stm32_dma::util::VrefPeriph;

fn bring_up<P: RccPeriph>() -> Vec<RccOp> {
    let mut rcc = Rcc::new();
    P::en_reset(&mut rcc);
    rcc.journal().clone()
}

fn expected(bus: Bus, periph: ClockedPeriph) -> Vec<RccOp> {
    vec![
        RccOp::EnableClock { bus, periph },
        RccOp::AssertReset { bus, periph },
        RccOp::ReleaseReset { bus, periph },
    ]
}

fn select<P: DmaPeriph>() -> (u32, u32) {
    let mut rcc = Rcc::new();
    let mut dma = Dma::new(RegisterBlock::new(), &mut rcc);
    P::read_sel(&mut dma);
    let read = dma.registers().read(Register::Cselr);
    let mut dma = Dma::new(RegisterBlock::new(), &mut rcc);
    P::write_sel(&mut dma);
    (read, dma.registers().read(Register::Cselr))
}

#[test]
fn baud_clock_of_each_usart() {
    let clocks = Clocks { apb1_hz: 40_000_000, apb2_hz: 80_000_000 };
    assert_eq!(Usart1::baud(&clocks), 80_000_000);
    assert_eq!(Usart2::baud(&clocks), 40_000_000);
    assert_eq!(Usart3::baud(&clocks), 40_000_000);
    assert_eq!(clocks.apb1(), 40_000_000);
    assert_eq!(clocks.apb2(), 80_000_000);
}

#[test]
fn reference_clock_of_each_adc() {
    let clocks = Clocks { apb1_hz: 1, apb2_hz: 2 };
    assert_eq!(Adc1::vref(&clocks), 2);
    assert_eq!(Adc2::vref(&clocks), 1);
    assert_eq!(Adc3::vref(&clocks), 1);
    assert_eq!(Adc4::vref(&clocks), 1);
    assert_eq!(Adc5::vref(&clocks), 1);
}

#[test]
fn each_peripheral_comes_up_on_its_bus() {
    assert_eq!(bring_up::<Tim6>(), expected(Bus::Apb1, ClockedPeriph::Tim6));
    assert_eq!(bring_up::<Tim7>(), expected(Bus::Apb1, ClockedPeriph::Tim7));
    assert_eq!(bring_up::<I2c1>(), expected(Bus::Apb1, ClockedPeriph::I2c1));
    assert_eq!(bring_up::<I2c2>(), expected(Bus::Apb1, ClockedPeriph::I2c2));
    assert_eq!(bring_up::<I2c3>(), expected(Bus::Apb1, ClockedPeriph::I2c3));
    assert_eq!(bring_up::<Spi1>(), expected(Bus::Apb2, ClockedPeriph::Spi1));
    assert_eq!(bring_up::<Spi2>(), expected(Bus::Apb1, ClockedPeriph::Spi2));
    assert_eq!(bring_up::<Spi3>(), expected(Bus::Apb1, ClockedPeriph::Spi3));
    assert_eq!(bring_up::<Spi4>(), expected(Bus::Apb2, ClockedPeriph::Spi4));
    assert_eq!(bring_up::<Sai1>(), expected(Bus::Apb2, ClockedPeriph::Sai1));
    assert_eq!(bring_up::<Sai2>(), expected(Bus::Apb2, ClockedPeriph::Sai2));
    assert_eq!(bring_up::<Sai3>(), expected(Bus::Apb2, ClockedPeriph::Sai3));
    assert_eq!(bring_up::<Sai4>(), expected(Bus::Apb4, ClockedPeriph::Sai4));
    assert_eq!(bring_up::<Usart1>(), expected(Bus::Apb2, ClockedPeriph::Usart1));
    assert_eq!(bring_up::<Usart2>(), expected(Bus::Apb1, ClockedPeriph::Usart2));
    assert_eq!(bring_up::<Usart3>(), expected(Bus::Apb1, ClockedPeriph::Usart3));
    assert_eq!(bring_up::<Dac1>(), expected(Bus::Apb1, ClockedPeriph::Dac1));
}

#[test]
fn en_reset_appends_to_earlier_operations() {
    let mut rcc = Rcc::new();
    rcc.en_reset(Bus::Ahb2, ClockedPeriph::Dac1);
    Usart1::en_reset(&mut rcc);
    let mut all = expected(Bus::Ahb2, ClockedPeriph::Dac1);
    all.extend(expected(Bus::Apb2, ClockedPeriph::Usart1));
    assert_eq!(rcc.journal(), &all);
}

#[test]
fn dma_channels_of_each_peripheral() {
    assert_eq!(I2c1::read_chan(), DmaChannel::C7);
    assert_eq!(I2c1::write_chan(), DmaChannel::C6);
    assert_eq!(I2c2::read_chan(), DmaChannel::C5);
    assert_eq!(I2c2::write_chan(), DmaChannel::C4);
    assert_eq!(Spi1::read_chan(), DmaChannel::C2);
    assert_eq!(Spi1::write_chan(), DmaChannel::C3);
    assert_eq!(Spi2::read_chan(), DmaChannel::C4);
    assert_eq!(Spi2::write_chan(), DmaChannel::C5);
    assert_eq!(Usart1::read_chan(), DmaChannel::C5);
    assert_eq!(Usart1::write_chan(), DmaChannel::C4);
    assert_eq!(Usart2::read_chan(), DmaChannel::C6);
    assert_eq!(Usart2::write_chan(), DmaChannel::C7);
    assert_eq!(Usart3::read_chan(), DmaChannel::C3);
    assert_eq!(Usart3::write_chan(), DmaChannel::C2);
    assert_eq!(Adc1::read_chan(), DmaChannel::C1);
    assert_eq!(Adc2::read_chan(), DmaChannel::C2);
}

#[test]
fn dma_selection_of_each_peripheral() {
    assert_eq!(select::<I2c1>(), (0x0300_0000, 0x0030_0000));
    assert_eq!(select::<I2c2>(), (0x0003_0000, 0x0000_3000));
    assert_eq!(select::<Spi1>(), (0x0000_0010, 0x0000_0100));
    assert_eq!(select::<Spi2>(), (0x0000_1000, 0x0001_0000));
    assert_eq!(select::<Usart1>(), (0x0002_0000, 0x0000_2000));
    assert_eq!(select::<Usart2>(), (0x0020_0000, 0x0200_0000));
    assert_eq!(select::<Usart3>(), (0x0000_0200, 0x0000_0020));
    let mut rcc = Rcc::new();
    let mut dma = Dma::new(RegisterBlock::new(), &mut rcc);
    dma.registers();
    Adc2::read_sel(&mut dma);
    Adc1::read_sel(&mut dma);
    assert_eq!(dma.registers().read(Register::Cselr), 0);
    assert_eq!(dma.registers().journal().len(), 2);
}

#[test]
fn request_sources_of_each_peripheral() {
    assert_eq!(I2c1::read_source(), Some(DmaInput::I2c1Rx));
    assert_eq!(I2c1::write_source(), Some(DmaInput::I2c1Tx));
    assert_eq!(I2c2::read_source(), Some(DmaInput::I2c2Rx));
    assert_eq!(I2c2::write_source(), Some(DmaInput::I2c2Tx));
    assert_eq!(Spi1::read_source(), Some(DmaInput::Spi1Rx));
    assert_eq!(Spi1::write_source(), Some(DmaInput::Spi1Tx));
    assert_eq!(Spi2::read_source(), Some(DmaInput::Spi2Rx));
    assert_eq!(Spi2::write_source(), Some(DmaInput::Spi2Tx));
    assert_eq!(Usart1::read_source(), Some(DmaInput::Usart1Rx));
    assert_eq!(Usart1::write_source(), Some(DmaInput::Usart1Tx));
    assert_eq!(Usart2::read_source(), Some(DmaInput::Usart2Rx));
    assert_eq!(Usart2::write_source(), Some(DmaInput::Usart2Tx));
    assert_eq!(Usart3::read_source(), Some(DmaInput::Usart3Rx));
    assert_eq!(Usart3::write_source(), Some(DmaInput::Usart3Tx));
    assert_eq!(Adc1::read_source(), Some(DmaInput::Adc1));
    assert_eq!(Adc1::write_source(), None);
    assert_eq!(Adc2::read_source(), Some(DmaInput::Adc2));
    assert_eq!(Adc2::write_source(), None);
}

#[test]
fn sources_of_spi3_are_wired_to_no_channel() {
    let read = Spi3::read_source().unwrap();
    let write = Spi3::write_source().unwrap();
    assert_eq!(read, DmaInput::Spi3Rx);
    assert_eq!(write, DmaInput::Spi3Tx);
    assert!(!read.has_dma1_channel());
    assert!(!write.has_dma1_channel());
}
