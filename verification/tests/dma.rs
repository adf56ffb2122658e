use stm32_dma::barrier::Barrier;
use stm32_dma::dma::mux;
use stm32_dma::dma::ChannelCfg;
use stm32_dma::dma::Circular;
use stm32_dma::dma::DataSize;
use stm32_dma::dma::Direction;
use stm32_dma::dma::Dma;
use stm32_dma::dma::DmaChannel;
use stm32_dma::dma::DmaInput;
use stm32_dma::dma::DmaInterrupt;
use stm32_dma::dma::IncrMode;
use stm32_dma::dma::Priority;
use stm32_dma::layout::make_control_word;
use stm32_dma::rcc::Bus;
use stm32_dma::rcc::ClockedPeriph;
use stm32_dma::rcc::Rcc;
use stm32_dma::rcc::RccOp;
use stm32_dma::regs::BusOp;
use stm32_dma::regs::DmaMux;
use stm32_dma::regs::MuxWrite;
use stm32_dma::regs::Register;
use stm32_dma::regs::RegisterBlock;

const ALL_CHANNELS: [DmaChannel; 8] = [
    DmaChannel::C1,
    DmaChannel::C2,
    DmaChannel::C3,
    DmaChannel::C4,
    DmaChannel::C5,
    DmaChannel::C6,
    DmaChannel::C7,
    DmaChannel::C8,
];

const ALL_INTERRUPTS: [DmaInterrupt; 3] = [
    DmaInterrupt::TransferError,
    DmaInterrupt::HalfTransfer,
    DmaInterrupt::TransferComplete,
];

fn fresh() -> Dma {
    let mut rcc = Rcc::new();
    Dma::new(RegisterBlock::new(), &mut rcc)
}

fn with_registers(regs: RegisterBlock) -> Dma {
    let mut rcc = Rcc::new();
    Dma::new(regs, &mut rcc)
}

fn writes(ops: &[BusOp]) -> Vec<(Register, u32)> {
    let mut found = Vec::new();
    for op in ops {
        if let BusOp::Write { reg, value } = op {
            found.push((*reg, *value));
        }
    }
    found
}

fn snapshot(dma: &Dma) -> Vec<u32> {
    let regs = dma.registers();
    let mut all = vec![regs.read(Register::Isr), regs.read(Register::Cselr)];
    for ch in ALL_CHANNELS {
        all.push(regs.read(Register::Cpar(ch)));
        all.push(regs.read(Register::Cmar(ch)));
        all.push(regs.read(Register::Cndtr(ch)));
        all.push(regs.read(Register::Ccr(ch)));
    }
    all
}

#[test]
fn new_enables_and_resets_the_controller_clock() {
    let mut rcc = Rcc::new();
    let dma = Dma::new(RegisterBlock::new(), &mut rcc);
    assert_eq!(
        rcc.journal().as_slice(),
        &[
            RccOp::EnableClock { bus: Bus::Ahb1, periph: ClockedPeriph::Dma1 },
            RccOp::AssertReset { bus: Bus::Ahb1, periph: ClockedPeriph::Dma1 },
            RccOp::ReleaseReset { bus: Bus::Ahb1, periph: ClockedPeriph::Dma1 },
        ]
    );
    assert!(dma.registers().journal().is_empty());
    assert!(snapshot(&dma).iter().all(|v| *v == 0));
}

#[test]
fn default_channel_configuration() {
    let cfg = ChannelCfg::default();
    assert_eq!(cfg.priority, Priority::Medium);
    assert_eq!(cfg.circular, Circular::Disabled);
    assert_eq!(cfg.periph_incr, IncrMode::Disabled);
    assert_eq!(cfg.mem_incr, IncrMode::Enabled);
}

#[test]
fn arm_channel_three_issues_four_writes() {
    let buffer = [0u16; 16];
    let mem_addr = buffer.as_ptr() as usize as u32;
    let mut dma = fresh();
    dma.cfg_channel(
        DmaChannel::C3,
        0x4001_0000,
        mem_addr,
        buffer.len() as u16,
        Direction::ReadFromPeriph,
        DataSize::S16,
        DataSize::S16,
        ChannelCfg {
            priority: Priority::Medium,
            circular: Circular::Disabled,
            periph_incr: IncrMode::Disabled,
            mem_incr: IncrMode::Enabled,
        },
    );
    let journal = dma.registers().journal().clone();
    let written = writes(&journal);
    assert_eq!(written.len(), 4);
    assert_eq!(written[0], (Register::Cpar(DmaChannel::C3), 0x4001_0000));
    assert_eq!(written[1], (Register::Cmar(DmaChannel::C3), mem_addr));
    assert_eq!(written[2], (Register::Cndtr(DmaChannel::C3), 16));
    let (reg, word) = written[3];
    assert_eq!(reg, Register::Ccr(DmaChannel::C3));
    assert_eq!(word, 0x1583);
    assert_eq!(word & 0x10, 0);
    assert_eq!((word >> 8) & 3, 0b01);
    assert_eq!((word >> 10) & 3, 0b01);
    assert_eq!(word & 1, 1);
    assert_eq!(journal.last(), Some(&BusOp::Write { reg, value: word }));
    assert_eq!(
        journal,
        vec![
            BusOp::Write { reg: Register::Cpar(DmaChannel::C3), value: 0x4001_0000 },
            BusOp::Write { reg: Register::Cmar(DmaChannel::C3), value: mem_addr },
            BusOp::Write { reg: Register::Cndtr(DmaChannel::C3), value: 16 },
            BusOp::Fence(Barrier::Release),
            BusOp::Write { reg: Register::Ccr(DmaChannel::C3), value: 0x1583 },
        ]
    );
    let regs = dma.registers();
    assert_eq!(regs.read(Register::Cpar(DmaChannel::C3)), 0x4001_0000);
    assert_eq!(regs.read(Register::Cmar(DmaChannel::C3)), mem_addr);
    assert_eq!(regs.read(Register::Cndtr(DmaChannel::C3)), 16);
    assert_eq!(regs.read(Register::Ccr(DmaChannel::C3)), 0x1583);
}

#[test]
fn arm_leaves_other_channels_alone() {
    let mut dma = fresh();
    dma.cfg_channel(
        DmaChannel::C5,
        1,
        2,
        3,
        Direction::ReadFromMem,
        DataSize::S8,
        DataSize::S32,
        ChannelCfg::default(),
    );
    for ch in ALL_CHANNELS {
        if ch != DmaChannel::C5 {
            let regs = dma.registers();
            assert_eq!(regs.read(Register::Cpar(ch)), 0);
            assert_eq!(regs.read(Register::Cmar(ch)), 0);
            assert_eq!(regs.read(Register::Cndtr(ch)), 0);
            assert_eq!(regs.read(Register::Ccr(ch)), 0);
        }
    }
    assert_eq!(dma.registers().read(Register::Isr), 0);
    assert_eq!(dma.registers().read(Register::Cselr), 0);
}

#[test]
fn arm_writes_the_requested_pattern_for_every_combination() {
    let priorities = [
        (Priority::Low, 0u32),
        (Priority::Medium, 1),
        (Priority::High, 2),
        (Priority::VeryHigh, 3),
    ];
    let directions = [(Direction::ReadFromPeriph, 0u32), (Direction::ReadFromMem, 1)];
    let circulars = [(Circular::Disabled, 0u32), (Circular::Enabled, 1)];
    let incrs = [(IncrMode::Disabled, 0u32), (IncrMode::Enabled, 1)];
    let sizes = [(DataSize::S8, 0u32), (DataSize::S16, 1), (DataSize::S32, 2)];
    for (priority, pl) in priorities {
        for (direction, dir) in directions {
            for (circular, circ) in circulars {
                for (periph_incr, pinc) in incrs {
                    for (mem_incr, minc) in incrs {
                        for (periph_size, psize) in sizes {
                            for (mem_size, msize) in sizes {
                                let mut dma = fresh();
                                dma.cfg_channel(
                                    DmaChannel::C2,
                                    0x4000_4404,
                                    0x2000_0000,
                                    8,
                                    direction,
                                    periph_size,
                                    mem_size,
                                    ChannelCfg { priority, circular, periph_incr, mem_incr },
                                );
                                let expected = (pl << 12)
                                    | (msize << 10)
                                    | (psize << 8)
                                    | (minc << 7)
                                    | (pinc << 6)
                                    | (circ << 5)
                                    | (dir << 4)
                                    | 0b11;
                                let regs = dma.registers();
                                assert_eq!(regs.read(Register::Ccr(DmaChannel::C2)), expected);
                                let journal = regs.journal();
                                assert_eq!(
                                    journal.last(),
                                    Some(&BusOp::Write {
                                        reg: Register::Ccr(DmaChannel::C2),
                                        value: expected,
                                    })
                                );
                                for op in &journal[..journal.len() - 1] {
                                    if let BusOp::Write { reg: Register::Ccr(_), value } = op {
                                        assert_eq!(value & 1, 0);
                                    }
                                }
                            }
                        }
                    }
                }
            }
        }
    }
}

#[test]
fn control_word_keeps_bits_outside_the_configuration() {
    let word = make_control_word(0xffff_ffff, 0, false, false, false, false, 0, 0);
    assert_eq!(word, 0xffff_c00f);
    let word = make_control_word(0, 3, true, true, true, true, 2, 2);
    assert_eq!(word, 0x3af3);
}

#[test]
fn arm_on_enabled_channel_disables_and_polls_first() {
    let mut regs = RegisterBlock::new();
    regs.write(Register::Ccr(DmaChannel::C4), 0x0000_300d);
    let before = regs.journal().len();
    let mut dma = with_registers(regs);
    dma.cfg_channel(
        DmaChannel::C4,
        0x4001_3004,
        0x2000_1000,
        32,
        Direction::ReadFromMem,
        DataSize::S8,
        DataSize::S8,
        ChannelCfg {
            priority: Priority::Low,
            circular: Circular::Disabled,
            periph_incr: IncrMode::Disabled,
            mem_incr: IncrMode::Enabled,
        },
    );
    let journal = &dma.registers().journal()[before..];
    assert_eq!(
        journal,
        &[
            BusOp::Write { reg: Register::Cpar(DmaChannel::C4), value: 0x4001_3004 },
            BusOp::Write { reg: Register::Cmar(DmaChannel::C4), value: 0x2000_1000 },
            BusOp::Write { reg: Register::Cndtr(DmaChannel::C4), value: 32 },
            BusOp::Fence(Barrier::Release),
            BusOp::Write { reg: Register::Ccr(DmaChannel::C4), value: 0x0000_300c },
            BusOp::AwaitEnable { channel: DmaChannel::C4, level: false },
            BusOp::Write { reg: Register::Ccr(DmaChannel::C4), value: 0x0000_009f },
        ]
    );
    assert_eq!(dma.registers().read(Register::Ccr(DmaChannel::C4)), 0x0000_009f);
}

#[test]
fn arm_in_circular_mode_clears_mem2mem_before_enabling() {
    for initial in [0x0000_4000u32, 0x0000_4001, 0x0000_0000, 0x0000_7fff] {
        let mut regs = RegisterBlock::new();
        regs.write(Register::Ccr(DmaChannel::C1), initial);
        let before = regs.journal().len();
        let mut dma = with_registers(regs);
        dma.cfg_channel(
            DmaChannel::C1,
            0x4002_0000,
            0x2000_2000,
            4,
            Direction::ReadFromPeriph,
            DataSize::S32,
            DataSize::S32,
            ChannelCfg {
                priority: Priority::High,
                circular: Circular::Enabled,
                periph_incr: IncrMode::Disabled,
                mem_incr: IncrMode::Enabled,
            },
        );
        let journal = &dma.registers().journal()[before..];
        let control: Vec<u32> = writes(journal)
            .into_iter()
            .filter(|(reg, _)| *reg == Register::Ccr(DmaChannel::C1))
            .map(|(_, value)| value)
            .collect();
        let (last, earlier) = control.split_last().unwrap();
        assert_eq!(last & 1, 1);
        assert_eq!(last & 0x4000, 0);
        assert_eq!(last & 0x20, 0x20);
        let clearing = earlier.last().unwrap();
        assert_eq!(clearing & 0x4000, 0);
        assert_eq!(*clearing, initial & !0x4001);
        assert!(earlier.iter().all(|value| value & 1 == 0));
        assert_eq!(dma.registers().read(Register::Ccr(DmaChannel::C1)) & 0x4000, 0);
    }
}

#[test]
fn arm_keeps_mem2mem_without_circular_mode() {
    let mut regs = RegisterBlock::new();
    regs.write(Register::Ccr(DmaChannel::C1), 0x4000);
    let mut dma = with_registers(regs);
    dma.cfg_channel(
        DmaChannel::C1,
        0,
        0,
        1,
        Direction::ReadFromPeriph,
        DataSize::S8,
        DataSize::S8,
        ChannelCfg::default(),
    );
    assert_eq!(dma.registers().read(Register::Ccr(DmaChannel::C1)), 0x5083);
}

#[test]
fn arm_keeps_half_and_error_interrupt_enables() {
    let mut dma = fresh();
    dma.enable_interrupt(DmaChannel::C6, DmaInterrupt::HalfTransfer);
    dma.enable_interrupt(DmaChannel::C6, DmaInterrupt::TransferError);
    dma.cfg_channel(
        DmaChannel::C6,
        0x10,
        0x20,
        0xffff,
        Direction::ReadFromMem,
        DataSize::S16,
        DataSize::S32,
        ChannelCfg {
            priority: Priority::VeryHigh,
            circular: Circular::Disabled,
            periph_incr: IncrMode::Enabled,
            mem_incr: IncrMode::Disabled,
        },
    );
    assert_eq!(dma.registers().read(Register::Ccr(DmaChannel::C6)), 0x395f);
    assert_eq!(dma.registers().read(Register::Cndtr(DmaChannel::C6)), 0xffff);
}

#[test]
fn enabled_channel_ignores_configuration_writes() {
    let mut regs = RegisterBlock::new();
    regs.write(Register::Ccr(DmaChannel::C2), 0x0081);
    regs.write(Register::Ccr(DmaChannel::C2), 0x3ff3);
    assert_eq!(regs.read(Register::Ccr(DmaChannel::C2)), 0x0081);
    regs.write(Register::Ccr(DmaChannel::C2), 0x3ff2);
    assert_eq!(regs.read(Register::Ccr(DmaChannel::C2)), 0x0080);
    regs.write(Register::Ccr(DmaChannel::C2), 0x3ff2);
    assert_eq!(regs.read(Register::Ccr(DmaChannel::C2)), 0x3ff2);
}

#[test]
fn register_file_write_rules() {
    let mut regs = RegisterBlock::new();
    regs.write(Register::Cndtr(DmaChannel::C8), 0x0012_3456);
    assert_eq!(regs.read(Register::Cndtr(DmaChannel::C8)), 0x3456);
    regs.write(Register::Isr, 0xffff_ffff);
    assert_eq!(regs.read(Register::Isr), 0);
    regs.refresh(Register::Isr, 0x0000_0f0f);
    regs.write(Register::Ifcr, 0x0000_0101);
    assert_eq!(regs.read(Register::Isr), 0x0000_0e0e);
    assert_eq!(regs.read(Register::Ifcr), 0);
    regs.write(Register::Cselr, 0x0123_4567);
    assert_eq!(regs.read(Register::Cselr), 0x0123_4567);
    regs.write(Register::Cpar(DmaChannel::C1), 0xdead_beef);
    regs.write(Register::Cmar(DmaChannel::C1), 0xcafe_f00d);
    assert_eq!(regs.read(Register::Cpar(DmaChannel::C1)), 0xdead_beef);
    assert_eq!(regs.read(Register::Cmar(DmaChannel::C1)), 0xcafe_f00d);
    assert_eq!(regs.journal().len(), 6);
}

#[test]
fn refresh_stores_the_value_without_a_journal_entry() {
    let mut dma = fresh();
    dma.refresh(Register::Ccr(DmaChannel::C2), 0x0001);
    dma.refresh(Register::Ccr(DmaChannel::C2), 0x3000);
    dma.refresh(Register::Cndtr(DmaChannel::C2), 7);
    dma.refresh(Register::Cpar(DmaChannel::C2), 8);
    dma.refresh(Register::Cmar(DmaChannel::C2), 9);
    dma.refresh(Register::Cselr, 10);
    dma.refresh(Register::Isr, 11);
    dma.refresh(Register::Ifcr, 12);
    let regs = dma.registers();
    assert_eq!(regs.read(Register::Ccr(DmaChannel::C2)), 0x3000);
    assert_eq!(regs.read(Register::Cndtr(DmaChannel::C2)), 7);
    assert_eq!(regs.read(Register::Cpar(DmaChannel::C2)), 8);
    assert_eq!(regs.read(Register::Cmar(DmaChannel::C2)), 9);
    assert_eq!(regs.read(Register::Cselr), 10);
    assert_eq!(regs.read(Register::Isr), 11);
    assert_eq!(regs.read(Register::Ifcr), 0);
    assert!(regs.journal().is_empty());
}

#[test]
fn fence_and_poll_are_journaled() {
    let mut regs = RegisterBlock::new();
    regs.fence(Barrier::Full);
    regs.await_enable(DmaChannel::C1, false);
    regs.write(Register::Ccr(DmaChannel::C1), 1);
    regs.await_enable(DmaChannel::C1, true);
    assert_eq!(
        regs.journal().as_slice(),
        &[
            BusOp::Fence(Barrier::Full),
            BusOp::AwaitEnable { channel: DmaChannel::C1, level: false },
            BusOp::Write { reg: Register::Ccr(DmaChannel::C1), value: 1 },
            BusOp::AwaitEnable { channel: DmaChannel::C1, level: true },
        ]
    );
}

#[test]
fn channel_registers_name_the_channel() {
    for ch in ALL_CHANNELS {
        let regs = ch.registers();
        assert_eq!(regs.peripheral_addr, Register::Cpar(ch));
        assert_eq!(regs.memory_addr, Register::Cmar(ch));
        assert_eq!(regs.count, Register::Cndtr(ch));
        assert_eq!(regs.control, Register::Ccr(ch));
    }
    let indices: Vec<usize> = ALL_CHANNELS.iter().map(|ch| ch.index()).collect();
    assert_eq!(indices, vec![0, 1, 2, 3, 4, 5, 6, 7]);
}

#[test]
fn stop_clears_enable_polls_and_fences() {
    let mut dma = fresh();
    dma.cfg_channel(
        DmaChannel::C7,
        0x100,
        0x200,
        5,
        Direction::ReadFromPeriph,
        DataSize::S8,
        DataSize::S8,
        ChannelCfg::default(),
    );
    let armed = dma.registers().read(Register::Ccr(DmaChannel::C7));
    assert_eq!(armed, 0x1083);
    let before = dma.registers().journal().len();
    dma.stop(DmaChannel::C7);
    assert_eq!(dma.registers().read(Register::Ccr(DmaChannel::C7)), 0x1082);
    assert_eq!(
        &dma.registers().journal()[before..],
        &[
            BusOp::Write { reg: Register::Ccr(DmaChannel::C7), value: 0x1082 },
            BusOp::AwaitEnable { channel: DmaChannel::C7, level: false },
            BusOp::Fence(Barrier::Full),
        ]
    );
    assert_eq!(dma.registers().read(Register::Cpar(DmaChannel::C7)), 0x100);
    assert_eq!(dma.registers().read(Register::Cmar(DmaChannel::C7)), 0x200);
    assert_eq!(dma.registers().read(Register::Cndtr(DmaChannel::C7)), 5);
}

#[test]
fn stop_leaves_the_complete_flag_as_it_was() {
    for ch in ALL_CHANNELS {
        for isr in [0u32, 0xffff_ffff, 0x2222_2222, 0x0000_0200, 0xdddd_dddd] {
            let mut regs = RegisterBlock::new();
            regs.write(Register::Ccr(ch), 0x0001);
            regs.refresh(Register::Isr, isr);
            let mut dma = with_registers(regs);
            let before = dma.transfer_is_complete(ch);
            dma.stop(ch);
            assert_eq!(dma.transfer_is_complete(ch), before);
            assert_eq!(dma.registers().read(Register::Isr), isr);
        }
    }
}

#[test]
fn stop_twice_changes_nothing_more() {
    for ch in ALL_CHANNELS {
        for initial in [0u32, 1, 0x3fff, 0x7ffe] {
            let mut regs = RegisterBlock::new();
            regs.write(Register::Ccr(ch), initial);
            regs.refresh(Register::Isr, 0x1234_5678);
            let mut dma = with_registers(regs);
            dma.stop(ch);
            let once = snapshot(&dma);
            dma.stop(ch);
            assert_eq!(snapshot(&dma), once);
            assert_eq!(dma.registers().read(Register::Ccr(ch)), initial & !1);
        }
    }
}

#[test]
fn transfer_complete_reads_the_flag_of_the_channel() {
    let positions = [1u32, 5, 9, 13, 17, 21, 25, 29];
    for (i, ch) in ALL_CHANNELS.iter().enumerate() {
        let mut regs = RegisterBlock::new();
        regs.refresh(Register::Isr, 1 << positions[i]);
        let mut dma = with_registers(regs);
        for other in ALL_CHANNELS {
            assert_eq!(dma.transfer_is_complete(other), other == *ch);
        }
        assert!(dma.registers().journal().is_empty());
        assert_eq!(dma.registers().read(Register::Isr), 1 << positions[i]);
    }
    let mut regs = RegisterBlock::new();
    regs.refresh(Register::Isr, 0xdddd_dddd);
    let mut dma = with_registers(regs);
    for ch in ALL_CHANNELS {
        assert!(!dma.transfer_is_complete(ch));
    }
}

#[test]
fn enable_interrupt_on_disabled_channel_is_one_write() {
    let bits = [0x8u32, 0x4, 0x2];
    for (i, interrupt) in ALL_INTERRUPTS.iter().enumerate() {
        let mut regs = RegisterBlock::new();
        regs.write(Register::Ccr(DmaChannel::C2), 0x0500);
        let before = regs.journal().len();
        let mut dma = with_registers(regs);
        dma.enable_interrupt(DmaChannel::C2, *interrupt);
        assert_eq!(dma.registers().read(Register::Ccr(DmaChannel::C2)), 0x0500 | bits[i]);
        assert_eq!(
            &dma.registers().journal()[before..],
            &[BusOp::Write { reg: Register::Ccr(DmaChannel::C2), value: 0x0500 | bits[i] }]
        );
    }
}

#[test]
fn enable_interrupt_on_armed_channel_cycles_the_enable_bit_once() {
    let mut dma = fresh();
    dma.cfg_channel(
        DmaChannel::C3,
        0x4001_0000,
        0x2000_0000,
        16,
        Direction::ReadFromPeriph,
        DataSize::S16,
        DataSize::S16,
        ChannelCfg::default(),
    );
    let before = dma.registers().journal().len();
    dma.enable_interrupt(DmaChannel::C3, DmaInterrupt::HalfTransfer);
    let journal = &dma.registers().journal()[before..];
    assert_eq!(
        journal,
        &[
            BusOp::Write { reg: Register::Ccr(DmaChannel::C3), value: 0x1582 },
            BusOp::AwaitEnable { channel: DmaChannel::C3, level: false },
            BusOp::Write { reg: Register::Ccr(DmaChannel::C3), value: 0x1586 },
            BusOp::Write { reg: Register::Ccr(DmaChannel::C3), value: 0x1587 },
            BusOp::AwaitEnable { channel: DmaChannel::C3, level: true },
        ]
    );
    let disables = writes(journal).iter().filter(|(_, value)| value & 1 == 0).count();
    let enables = writes(journal).iter().filter(|(_, value)| value & 1 == 1).count();
    assert_eq!(disables, 2);
    assert_eq!(enables, 1);
    assert_eq!(dma.registers().read(Register::Ccr(DmaChannel::C3)), 0x1587);
}

#[test]
fn clear_interrupt_writes_one_bit_and_clears_one_flag() {
    let offsets = [3u32, 2, 1];
    for (c, ch) in ALL_CHANNELS.iter().enumerate() {
        for (k, interrupt) in ALL_INTERRUPTS.iter().enumerate() {
            let mut regs = RegisterBlock::new();
            regs.refresh(Register::Isr, 0xffff_ffff);
            let mut dma = with_registers(regs);
            dma.clear_interrupt(*ch, *interrupt);
            let bit = 1u32 << (4 * c as u32 + offsets[k]);
            assert_eq!(dma.registers().read(Register::Isr), !bit);
            assert_eq!(
                dma.registers().journal().as_slice(),
                &[BusOp::Write { reg: Register::Ifcr, value: bit }]
            );
        }
    }
}

#[test]
fn clear_interrupt_lets_complete_flag_read_clear() {
    let mut regs = RegisterBlock::new();
    regs.refresh(Register::Isr, 0x0000_0220);
    let mut dma = with_registers(regs);
    assert!(dma.transfer_is_complete(DmaChannel::C2));
    assert!(dma.transfer_is_complete(DmaChannel::C3));
    dma.clear_interrupt(DmaChannel::C3, DmaInterrupt::TransferComplete);
    assert!(dma.transfer_is_complete(DmaChannel::C2));
    assert!(!dma.transfer_is_complete(DmaChannel::C3));
}

#[test]
fn wired_inputs_have_their_channel_and_select_value() {
    let table = [
        (DmaInput::Adc1, DmaChannel::C1, 0u8),
        (DmaInput::Spi1Rx, DmaChannel::C2, 1),
        (DmaInput::Spi1Tx, DmaChannel::C3, 1),
        (DmaInput::Spi2Rx, DmaChannel::C4, 1),
        (DmaInput::Spi2Tx, DmaChannel::C5, 1),
        (DmaInput::I2c1Rx, DmaChannel::C7, 3),
        (DmaInput::I2c1Tx, DmaChannel::C6, 3),
        (DmaInput::I2c2Rx, DmaChannel::C5, 3),
        (DmaInput::I2c2Tx, DmaChannel::C4, 3),
        (DmaInput::I2c3Rx, DmaChannel::C3, 3),
        (DmaInput::Usart1Rx, DmaChannel::C5, 2),
        (DmaInput::Usart1Tx, DmaChannel::C4, 2),
        (DmaInput::Usart2Rx, DmaChannel::C6, 2),
        (DmaInput::Usart2Tx, DmaChannel::C7, 2),
        (DmaInput::Usart3Rx, DmaChannel::C3, 2),
        (DmaInput::Usart3Tx, DmaChannel::C2, 2),
        (DmaInput::Adc2, DmaChannel::C2, 0),
    ];
    for (input, channel, select) in table {
        assert!(input.has_dma1_channel());
        assert_eq!(input.dma1_channel(), channel);
        assert_eq!(input.dma1_channel_select(), select);
    }
    let unwired = [
        DmaInput::Dac1Ch1,
        DmaInput::Dac1Ch2,
        DmaInput::Tim6Up,
        DmaInput::Tim7Up,
        DmaInput::Spi3Rx,
        DmaInput::Spi3Tx,
        DmaInput::I2c3Tx,
        DmaInput::I2c4Rx,
        DmaInput::I2c4Tx,
        DmaInput::Uart4Rx,
        DmaInput::Uart4Tx,
        DmaInput::Uart5Rx,
        DmaInput::Uart5Tx,
        DmaInput::Lpuart1Rx,
        DmaInput::Lpuart1Tx,
        DmaInput::Adc3,
        DmaInput::Adc4,
        DmaInput::Adc5,
    ];
    for input in unwired {
        assert!(!input.has_dma1_channel());
    }
}

#[test]
fn request_identities() {
    assert_eq!(DmaInput::Adc1.request_id(), 5);
    assert_eq!(DmaInput::Dac1Ch1.request_id(), 6);
    assert_eq!(DmaInput::Tim7Up.request_id(), 9);
    assert_eq!(DmaInput::Spi1Rx.request_id(), 10);
    assert_eq!(DmaInput::I2c4Tx.request_id(), 23);
    assert_eq!(DmaInput::Usart1Rx.request_id(), 24);
    assert_eq!(DmaInput::Lpuart1Tx.request_id(), 35);
    assert_eq!(DmaInput::Adc2.request_id(), 36);
    assert_eq!(DmaInput::Adc5.request_id(), 39);
}

#[test]
fn field_values_of_the_settings() {
    assert_eq!(Priority::Low.bits(), 0b00);
    assert_eq!(Priority::Medium.bits(), 0b01);
    assert_eq!(Priority::High.bits(), 0b10);
    assert_eq!(Priority::VeryHigh.bits(), 0b11);
    assert_eq!(Direction::ReadFromPeriph.bits(), 0);
    assert_eq!(Direction::ReadFromMem.bits(), 1);
    assert_eq!(Circular::Disabled.bits(), 0);
    assert_eq!(Circular::Enabled.bits(), 1);
    assert_eq!(IncrMode::Disabled.bits(), 0);
    assert_eq!(IncrMode::Enabled.bits(), 1);
    assert_eq!(DataSize::S8.bits(), 0b00);
    assert_eq!(DataSize::S16.bits(), 0b01);
    assert_eq!(DataSize::S32.bits(), 0b10);
    assert_eq!(DmaInterrupt::TransferComplete.position(), 1);
    assert_eq!(DmaInterrupt::HalfTransfer.position(), 2);
    assert_eq!(DmaInterrupt::TransferError.position(), 3);
    assert_eq!(DmaInterrupt::TransferComplete.enable_bit(), 0x2);
    assert_eq!(DmaInterrupt::HalfTransfer.enable_bit(), 0x4);
    assert_eq!(DmaInterrupt::TransferError.enable_bit(), 0x8);
}

#[test]
fn channel_select_sets_one_field() {
    let mut regs = RegisterBlock::new();
    regs.write(Register::Cselr, 0x0fff_ffff);
    let mut dma = with_registers(regs);
    dma.channel_select(DmaInput::Usart2Rx);
    assert_eq!(dma.registers().read(Register::Cselr), 0x0f2f_ffff);
    dma.channel_select(DmaInput::Adc1);
    assert_eq!(dma.registers().read(Register::Cselr), 0x0f2f_fff0);
    dma.channel_select(DmaInput::I2c1Rx);
    assert_eq!(dma.registers().read(Register::Cselr), 0x032f_fff0);
    assert_eq!(
        dma.registers().journal().last(),
        Some(&BusOp::Write { reg: Register::Cselr, value: 0x032f_fff0 })
    );
    let mut dma = fresh();
    dma.channel_select(DmaInput::Spi1Tx);
    assert_eq!(dma.registers().read(Register::Cselr), 0x0000_0100);
}

#[test]
fn mux_binds_the_request_to_the_channel() {
    let mut block = DmaMux::new();
    mux(DmaChannel::C1, DmaInput::Usart1Tx, &mut block);
    assert_eq!(block.read(DmaChannel::C1), 25);
    block.write(DmaChannel::C8, 0x1f01_037f);
    mux(DmaChannel::C8, DmaInput::Adc5, &mut block);
    assert_eq!(block.read(DmaChannel::C8), 0x1f01_0327);
    assert_eq!(block.read(DmaChannel::C2), 0);
    block.refresh(DmaChannel::C2, 0x0000_0380);
    mux(DmaChannel::C2, DmaInput::Adc1, &mut block);
    assert_eq!(block.read(DmaChannel::C2), 0x0000_0385);
    block.refresh(DmaChannel::C2, 0);
    assert_eq!(block.read(DmaChannel::C2), 0);
    assert_eq!(block.journal().len(), 4);
    assert_eq!(
        &block.journal()[..3],
        &[
            MuxWrite { channel: DmaChannel::C1, value: 25 },
            MuxWrite { channel: DmaChannel::C8, value: 0x1f01_037f },
            MuxWrite { channel: DmaChannel::C8, value: 0x1f01_0327 },
        ]
    );
}

#[test]
fn take_journal_hands_out_and_empties() {
    let mut dma = fresh();
    dma.stop(DmaChannel::C2);
    let first = dma.take_journal();
    assert_eq!(
        first,
        vec![
            BusOp::Write { reg: Register::Ccr(DmaChannel::C2), value: 0 },
            BusOp::AwaitEnable { channel: DmaChannel::C2, level: false },
            BusOp::Fence(Barrier::Full),
        ]
    );
    assert!(dma.registers().journal().is_empty());
    dma.clear_interrupt(DmaChannel::C1, DmaInterrupt::HalfTransfer);
    let mut regs = dma.free();
    assert_eq!(regs.take_journal(), vec![BusOp::Write { reg: Register::Ifcr, value: 0x4 }]);
    assert!(regs.take_journal().is_empty());
}

#[test]
fn free_gives_the_register_block_back() {
    let mut dma = fresh();
    dma.clear_interrupt(DmaChannel::C1, DmaInterrupt::TransferComplete);
    let regs = dma.free();
    assert_eq!(regs.journal().len(), 1);
}
