//! What holds of the driver's operations across calls, and of the order in
//! which they touch the control register.

use crate::barrier::Barrier;
use crate::dma::after_arm;
use crate::dma::after_channel_select;
use crate::dma::after_clear_interrupt;
use crate::dma::after_enable_interrupt;
use crate::dma::after_stop;
use crate::dma::arm_sequence;
use crate::dma::armed_word;
use crate::dma::clear_mask;
use crate::dma::configuration_base;
use crate::dma::disable_sequence;
use crate::dma::interrupt_sequence;
use crate::dma::opening_sequence;
use crate::dma::stop_sequence;
use crate::dma::transfer_complete;
use crate::dma::transfer_sequence;
use crate::dma::with_ccr;
use crate::dma::ChannelCfg;
use crate::dma::Circular;
use crate::dma::DataSize;
use crate::dma::Direction;
use crate::dma::DmaChannel;
use crate::dma::DmaInput;
use crate::dma::DmaInterrupt;
use crate::dma::IncrMode;
use crate::layout::lemma_arm_base;
use crate::layout::lemma_control_word_fields;
use crate::layout::lemma_count_fits;
use crate::layout::lemma_disable;
use crate::layout::lemma_interrupt_cycle;
use crate::layout::CCR_EN;
use crate::layout::CCR_MEM2MEM;
use crate::regs::BusOp;
use crate::regs::RegFile;
use crate::regs::Register;
use crate::regs::RegisterBlockView;
use vstd::prelude::*;

verus! {

/// Whether `op` writes the control register of `channel`.
pub open spec fn writes_control(op: BusOp, channel: DmaChannel) -> bool {
    match op {
        BusOp::Write { reg, value } => reg == Register::Ccr(channel),
        _ => false,
    }
}

/// Whether `op` writes the control register of `channel` with the enable
/// bit set.
pub open spec fn sets_enable(op: BusOp, channel: DmaChannel) -> bool {
    match op {
        BusOp::Write { reg, value } => reg == Register::Ccr(channel) && value & CCR_EN != 0,
        _ => false,
    }
}

/// Stopping a channel leaves the status register, and with it the
/// transfer-complete flag of every channel, as it was.
pub proof fn lemma_stop_keeps_status(file: RegFile, stopped: DmaChannel, asked: DmaChannel)
    ensures
        after_stop(file, stopped).isr == file.isr,
        transfer_complete(after_stop(file, stopped), asked) == transfer_complete(file, asked),
{
}

/// Stopping a channel a second time changes no register.
pub proof fn lemma_stop_idempotent(file: RegFile, channel: DmaChannel)
    requires
        file.wf(),
    ensures
        after_stop(after_stop(file, channel), channel) == after_stop(file, channel),
{
    channel.lemma_index_in_range();
    lemma_disable(file.ccr[channel.spec_index()]);
    assert(after_stop(after_stop(file, channel), channel).ccr =~= after_stop(file, channel).ccr);
}

/// Arming a channel sets its enable bit with the last operation and with no
/// earlier one: every write to the channel's control register before the
/// last has the enable bit clear.
pub proof fn lemma_enable_comes_last(
    file: RegFile,
    channel: DmaChannel,
    periph_addr: u32,
    mem_addr: u32,
    num_data: u16,
    direction: Direction,
    periph_size: DataSize,
    mem_size: DataSize,
    cfg: ChannelCfg,
)
    requires
        file.wf(),
    ensures
        ({
            let ops = arm_sequence(
                file,
                channel,
                periph_addr,
                mem_addr,
                num_data,
                direction,
                periph_size,
                mem_size,
                cfg,
            );
            &&& ops.len() >= 5
            &&& ops.last() == BusOp::Write {
                reg: Register::Ccr(channel),
                value: armed_word(
                    file.ccr[channel.spec_index()],
                    direction,
                    periph_size,
                    mem_size,
                    cfg,
                ),
            }
            &&& sets_enable(ops.last(), channel)
            &&& forall|k: int| 0 <= k < ops.len() - 1 ==> !sets_enable(#[trigger] ops[k], channel)
        }),
{
    let current = file.ccr[channel.spec_index()];
    let head = transfer_sequence(channel, periph_addr, mem_addr, num_data);
    let opening = opening_sequence(file, channel, cfg.circular);
    let ops = arm_sequence(
        file,
        channel,
        periph_addr,
        mem_addr,
        num_data,
        direction,
        periph_size,
        mem_size,
        cfg,
    );
    lemma_disable(current);
    lemma_arm_base(current, 0, false, false, false, false, 0, 0);
    lemma_control_word_fields(
        if cfg.circular == Circular::Enabled {
            current & !CCR_MEM2MEM
        } else {
            current
        },
        cfg.priority.spec_bits() as u32,
        direction == Direction::ReadFromMem,
        cfg.circular == Circular::Enabled,
        cfg.periph_incr == IncrMode::Enabled,
        cfg.mem_incr == IncrMode::Enabled,
        periph_size.spec_bits() as u32,
        mem_size.spec_bits() as u32,
    );
    assert(forall|k: int| 0 <= k < opening.len() ==> !sets_enable(#[trigger] opening[k], channel));
    assert forall|k: int| 0 <= k < ops.len() - 1 implies !sets_enable(
        #[trigger] ops[k],
        channel,
    ) by {
        if k >= 4 {
            assert(ops[k] == opening[k - 4]);
        } else {
            assert(ops[k] == head[k]);
        }
    }
}

/// Arming an enabled channel disables it first: the first operation on the
/// channel's control register is the write that clears the enable bit and
/// nothing else, and the poll for the hardware to confirm it follows at
/// once. Every write of priority, direction, circular mode, increment modes
/// or sizes comes after both.
pub proof fn lemma_disable_precedes_configuration(
    file: RegFile,
    channel: DmaChannel,
    periph_addr: u32,
    mem_addr: u32,
    num_data: u16,
    direction: Direction,
    periph_size: DataSize,
    mem_size: DataSize,
    cfg: ChannelCfg,
)
    requires
        file.wf(),
        file.enabled(channel),
    ensures
        ({
            let ops = arm_sequence(
                file,
                channel,
                periph_addr,
                mem_addr,
                num_data,
                direction,
                periph_size,
                mem_size,
                cfg,
            );
            let current = file.ccr[channel.spec_index()];
            &&& ops.len() >= 7
            &&& forall|k: int| 0 <= k < 4 ==> !writes_control(#[trigger] ops[k], channel)
            &&& ops[4] == BusOp::Write { reg: Register::Ccr(channel), value: current & !CCR_EN }
            &&& (current & !CCR_EN) & !CCR_EN == current & !CCR_EN
            &&& ops[5] == BusOp::AwaitEnable { channel, level: false }
        }),
{
    let current = file.ccr[channel.spec_index()];
    let head = transfer_sequence(channel, periph_addr, mem_addr, num_data);
    let opening = opening_sequence(file, channel, cfg.circular);
    let ops = arm_sequence(
        file,
        channel,
        periph_addr,
        mem_addr,
        num_data,
        direction,
        periph_size,
        mem_size,
        cfg,
    );
    lemma_disable(current);
    assert(opening[0] == disable_sequence(file, channel)[0]);
    assert(opening[1] == disable_sequence(file, channel)[1]);
    assert(ops[4] == opening[0]);
    assert(ops[5] == opening[1]);
    assert forall|k: int| 0 <= k < 4 implies !writes_control(#[trigger] ops[k], channel) by {
        assert(ops[k] == head[k]);
    }
}

/// Arming a channel in circular mode clears MEM2MEM first: the operation
/// just before the enabling write is a write to the channel's control
/// register with MEM2MEM and the enable bit both clear, and the enabling
/// write leaves MEM2MEM clear.
pub proof fn lemma_circular_clears_mem2mem_first(
    file: RegFile,
    channel: DmaChannel,
    periph_addr: u32,
    mem_addr: u32,
    num_data: u16,
    direction: Direction,
    periph_size: DataSize,
    mem_size: DataSize,
    cfg: ChannelCfg,
)
    requires
        file.wf(),
        cfg.circular == Circular::Enabled,
    ensures
        ({
            let ops = arm_sequence(
                file,
                channel,
                periph_addr,
                mem_addr,
                num_data,
                direction,
                periph_size,
                mem_size,
                cfg,
            );
            let current = file.ccr[channel.spec_index()];
            let base = configuration_base(current, cfg.circular);
            let word = armed_word(current, direction, periph_size, mem_size, cfg);
            &&& ops.len() >= 6
            &&& ops[ops.len() - 2] == BusOp::Write { reg: Register::Ccr(channel), value: base }
            &&& base & CCR_MEM2MEM == 0
            &&& base & CCR_EN == 0
            &&& ops[ops.len() - 1] == BusOp::Write { reg: Register::Ccr(channel), value: word }
            &&& word & CCR_MEM2MEM == 0
            &&& word & CCR_EN != 0
            &&& after_arm(
                file,
                channel,
                periph_addr,
                mem_addr,
                num_data,
                direction,
                periph_size,
                mem_size,
                cfg,
            ).ccr[channel.spec_index()] & CCR_MEM2MEM == 0
        }),
{
    channel.lemma_index_in_range();
    let current = file.ccr[channel.spec_index()];
    let opening = opening_sequence(file, channel, cfg.circular);
    let ops = arm_sequence(
        file,
        channel,
        periph_addr,
        mem_addr,
        num_data,
        direction,
        periph_size,
        mem_size,
        cfg,
    );
    lemma_arm_base(current, 0, false, false, false, false, 0, 0);
    lemma_control_word_fields(
        current & !CCR_MEM2MEM,
        cfg.priority.spec_bits() as u32,
        direction == Direction::ReadFromMem,
        true,
        cfg.periph_incr == IncrMode::Enabled,
        cfg.mem_incr == IncrMode::Enabled,
        periph_size.spec_bits() as u32,
        mem_size.spec_bits() as u32,
    );
    assert(ops[ops.len() - 2] == opening[opening.len() - 1]);
}

/// Enabling an interrupt on an enabled channel takes exactly one cycle of
/// disabling, modifying and enabling again: five operations, of which the
/// first clears the enable bit, the third sets the interrupt's enable bit
/// while the channel is disabled, and the fourth sets the enable bit again.
/// Afterwards the channel is enabled as before.
pub proof fn lemma_interrupt_cycle_on_armed_channel(
    file: RegFile,
    channel: DmaChannel,
    interrupt: DmaInterrupt,
)
    requires
        file.wf(),
        file.enabled(channel),
    ensures
        ({
            let ops = interrupt_sequence(file, channel, interrupt);
            let current = file.ccr[channel.spec_index()];
            &&& ops.len() == 5
            &&& writes_control(ops[0], channel) && !sets_enable(ops[0], channel)
            &&& ops[1] == BusOp::AwaitEnable { channel, level: false }
            &&& writes_control(ops[2], channel) && !sets_enable(ops[2], channel)
            &&& sets_enable(ops[3], channel)
            &&& ops[4] == BusOp::AwaitEnable { channel, level: true }
            &&& after_enable_interrupt(file, channel, interrupt).enabled(channel)
        }),
{
    channel.lemma_index_in_range();
    let current = file.ccr[channel.spec_index()];
    lemma_disable(current);
    lemma_interrupt_cycle(current, interrupt.spec_enable_bit());
    assert((current | interrupt.spec_enable_bit()) & CCR_EN != 0) by {
        let bit = interrupt.spec_enable_bit();
        assert(current & 1u32 != 0 ==> (current | bit) & 1u32 != 0) by (bit_vector);
    }
}

/// Carrying out a sequence with one more operation at its end is carrying
/// out the sequence and then the operation.
pub proof fn lemma_run_push(file: RegFile, ops: Seq<BusOp>, op: BusOp)
    ensures
        file.run(ops.push(op)) == file.run(ops).apply(op),
        file.run(Seq::<BusOp>::empty()) == file,
{
    assert(ops.push(op).drop_last() =~= ops);
}

/// Carrying out two sequences one after the other is carrying out their
/// concatenation.
pub proof fn lemma_run_concat(file: RegFile, first: Seq<BusOp>, second: Seq<BusOp>)
    ensures
        file.run(first + second) == file.run(first).run(second),
    decreases second.len(),
{
    if second.len() == 0 {
        assert(first + second =~= first);
    } else {
        lemma_run_concat(file, first, second.drop_last());
        assert((first + second).drop_last() =~= first + second.drop_last());
    }
}

/// What the disabling of a channel does to the register file.
pub proof fn lemma_disable_replays(file: RegFile, channel: DmaChannel)
    requires
        file.wf(),
    ensures
        file.run(disable_sequence(file, channel)) == after_stop(file, channel),
{
    channel.lemma_index_in_range();
    let current = file.ccr[channel.spec_index()];
    let write = BusOp::Write { reg: Register::Ccr(channel), value: current & !CCR_EN };
    let poll = BusOp::AwaitEnable { channel, level: false };
    lemma_disable(current);
    lemma_run_push(file, Seq::<BusOp>::empty(), write);
    lemma_run_push(file, Seq::<BusOp>::empty().push(write), poll);
    assert(disable_sequence(file, channel) =~= Seq::<BusOp>::empty().push(write).push(poll));
    assert(file.write(Register::Ccr(channel), current & !CCR_EN).ccr =~= after_stop(
        file,
        channel,
    ).ccr);
}

/// The journal of a stop tells the whole of it: carrying out
/// [`stop_sequence`] on a controller that holds `file` leaves it holding
/// [`after_stop`].
pub proof fn lemma_stop_replays(file: RegFile, channel: DmaChannel)
    requires
        file.wf(),
    ensures
        file.run(stop_sequence(file, channel)) == after_stop(file, channel),
{
    lemma_disable_replays(file, channel);
    lemma_run_push(file, disable_sequence(file, channel), BusOp::Fence(Barrier::Full));
}

/// The journal of an arming tells the whole of it: carrying out
/// [`arm_sequence`] on a controller that holds `file` leaves it holding
/// [`after_arm`]. So every write of the sequence takes effect: none falls
/// on a field that the enable bit holds read-only.
pub proof fn lemma_arm_replays(
    file: RegFile,
    channel: DmaChannel,
    periph_addr: u32,
    mem_addr: u32,
    num_data: u16,
    direction: Direction,
    periph_size: DataSize,
    mem_size: DataSize,
    cfg: ChannelCfg,
)
    requires
        file.wf(),
    ensures
        file.run(
            arm_sequence(
                file,
                channel,
                periph_addr,
                mem_addr,
                num_data,
                direction,
                periph_size,
                mem_size,
                cfg,
            ),
        ) == after_arm(
            file,
            channel,
            periph_addr,
            mem_addr,
            num_data,
            direction,
            periph_size,
            mem_size,
            cfg,
        ),
{
    channel.lemma_index_in_range();
    let i = channel.spec_index();
    let current = file.ccr[i];
    let circular = cfg.circular == Circular::Enabled;
    let empty = Seq::<BusOp>::empty();
    lemma_disable(current);
    lemma_count_fits(num_data);
    lemma_arm_base(
        current,
        cfg.priority.spec_bits() as u32,
        direction == Direction::ReadFromMem,
        circular,
        cfg.periph_incr == IncrMode::Enabled,
        cfg.mem_incr == IncrMode::Enabled,
        periph_size.spec_bits() as u32,
        mem_size.spec_bits() as u32,
    );

    // The addresses, the count and the barrier.
    let w0 = BusOp::Write { reg: Register::Cpar(channel), value: periph_addr };
    let w1 = BusOp::Write { reg: Register::Cmar(channel), value: mem_addr };
    let w2 = BusOp::Write { reg: Register::Cndtr(channel), value: num_data as u32 };
    let w3 = BusOp::Fence(Barrier::Release);
    let head = transfer_sequence(channel, periph_addr, mem_addr, num_data);
    lemma_run_push(file, empty, w0);
    lemma_run_push(file, empty.push(w0), w1);
    lemma_run_push(file, empty.push(w0).push(w1), w2);
    lemma_run_push(file, empty.push(w0).push(w1).push(w2), w3);
    assert(head =~= empty.push(w0).push(w1).push(w2).push(w3));
    let loaded = file.run(head);
    assert(loaded == (RegFile {
        par: file.par.update(i, periph_addr),
        mar: file.mar.update(i, mem_addr),
        ndtr: file.ndtr.update(i, num_data as u32),
        ..file
    }));
    assert(loaded.wf());

    // The disabling of the channel, where it is enabled.
    let disabling = if file.enabled(channel) {
        disable_sequence(file, channel)
    } else {
        empty
    };
    let disabled = loaded.run(disabling);
    assert(disabled == with_ccr(loaded, channel, current & !CCR_EN)) by {
        if file.enabled(channel) {
            lemma_disable_replays(loaded, channel);
            assert(disable_sequence(loaded, channel) == disable_sequence(file, channel));
        } else {
            assert(loaded.ccr =~= with_ccr(loaded, channel, current & !CCR_EN).ccr);
        }
    }

    // The clearing of MEM2MEM, where circular mode is asked for.
    let base = configuration_base(current, cfg.circular);
    let clearing = if circular {
        seq![BusOp::Write { reg: Register::Ccr(channel), value: base }]
    } else {
        empty
    };
    let opened = disabled.run(clearing);
    assert(opened == with_ccr(loaded, channel, base)) by {
        if circular {
            let w = BusOp::Write { reg: Register::Ccr(channel), value: base };
            lemma_run_push(disabled, empty, w);
            assert(clearing =~= empty.push(w));
            assert(disabled.write(Register::Ccr(channel), base).ccr =~= with_ccr(
                loaded,
                channel,
                base,
            ).ccr);
        }
    }

    // The write that configures and enables.
    let word = armed_word(current, direction, periph_size, mem_size, cfg);
    let last = BusOp::Write { reg: Register::Ccr(channel), value: word };
    lemma_run_push(opened, empty, last);
    assert(seq![last] =~= empty.push(last));
    assert(opened.write(Register::Ccr(channel), word).ccr =~= after_arm(
        file,
        channel,
        periph_addr,
        mem_addr,
        num_data,
        direction,
        periph_size,
        mem_size,
        cfg,
    ).ccr);

    let opening = opening_sequence(file, channel, cfg.circular);
    assert(opening =~= disabling + clearing);
    lemma_run_concat(loaded, disabling, clearing);
    lemma_run_concat(file, head, opening);
    lemma_run_concat(file, head + opening, seq![last]);
}

/// The journal of [`crate::dma::Dma::enable_interrupt`] tells the whole of
/// it: carrying out [`interrupt_sequence`] on a controller that holds
/// `file` leaves it holding [`after_enable_interrupt`].
pub proof fn lemma_interrupt_replays(file: RegFile, channel: DmaChannel, interrupt: DmaInterrupt)
    requires
        file.wf(),
    ensures
        file.run(interrupt_sequence(file, channel, interrupt)) == after_enable_interrupt(
            file,
            channel,
            interrupt,
        ),
{
    channel.lemma_index_in_range();
    let current = file.ccr[channel.spec_index()];
    let bit = interrupt.spec_enable_bit();
    let empty = Seq::<BusOp>::empty();
    lemma_disable(current);
    lemma_interrupt_cycle(current, bit);
    if file.enabled(channel) {
        let disabled = after_stop(file, channel);
        lemma_disable_replays(file, channel);
        let w0 = BusOp::Write { reg: Register::Ccr(channel), value: (current & !CCR_EN) | bit };
        let w1 = BusOp::Write {
            reg: Register::Ccr(channel),
            value: ((current & !CCR_EN) | bit) | CCR_EN,
        };
        let poll = BusOp::AwaitEnable { channel, level: true };
        let tail = empty.push(w0).push(w1).push(poll);
        lemma_run_push(disabled, empty, w0);
        lemma_run_push(disabled, empty.push(w0), w1);
        lemma_run_push(disabled, empty.push(w0).push(w1), poll);
        assert(interrupt_sequence(file, channel, interrupt) =~= disable_sequence(file, channel)
            + tail);
        lemma_run_concat(file, disable_sequence(file, channel), tail);
        assert(disabled.run(tail).ccr =~= after_enable_interrupt(file, channel, interrupt).ccr);
    } else {
        let w = BusOp::Write { reg: Register::Ccr(channel), value: current | bit };
        lemma_run_push(file, empty, w);
        assert(interrupt_sequence(file, channel, interrupt) =~= empty.push(w));
    }
}

/// The journal of [`crate::dma::Dma::clear_interrupt`] tells the whole of
/// it: carrying out its one write on a controller that holds `file` leaves
/// it holding [`after_clear_interrupt`].
pub proof fn lemma_clear_replays(file: RegFile, channel: DmaChannel, interrupt: DmaInterrupt)
    ensures
        file.run(
            seq![BusOp::Write { reg: Register::Ifcr, value: clear_mask(channel, interrupt) }],
        ) == after_clear_interrupt(file, channel, interrupt),
{
    let write = BusOp::Write { reg: Register::Ifcr, value: clear_mask(channel, interrupt) };
    lemma_run_push(file, Seq::<BusOp>::empty(), write);
    assert(seq![write] =~= Seq::<BusOp>::empty().push(write));
}

/// The journal of [`crate::dma::Dma::channel_select`] tells the whole of
/// it: carrying out the one write that the call appends to the journal
/// leaves the controller holding the registers of [`after_channel_select`].
pub proof fn lemma_select_replays(before: RegisterBlockView, input: DmaInput)
    requires
        input.spec_dma1_channel() is Some,
    ensures
        ({
            let after = after_channel_select(before, input);
            &&& after.journal.len() == before.journal.len() + 1
            &&& after.file == before.file.run(after.journal.skip(before.journal.len() as int))
        }),
{
    let after = after_channel_select(before, input);
    let write = after.journal.last();
    lemma_run_push(before.file, Seq::<BusOp>::empty(), write);
    assert(after.journal.skip(before.journal.len() as int) =~= Seq::<BusOp>::empty().push(write));
}

/// The release barrier of an arming stands before every access to the
/// channel's control register: it is the fourth operation, after the two
/// addresses and the count, and no write to the control register comes
/// before it.
pub proof fn lemma_release_barrier_precedes_control(
    file: RegFile,
    channel: DmaChannel,
    periph_addr: u32,
    mem_addr: u32,
    num_data: u16,
    direction: Direction,
    periph_size: DataSize,
    mem_size: DataSize,
    cfg: ChannelCfg,
)
    ensures
        ({
            let ops = arm_sequence(
                file,
                channel,
                periph_addr,
                mem_addr,
                num_data,
                direction,
                periph_size,
                mem_size,
                cfg,
            );
            &&& ops.len() >= 5
            &&& ops[3] == BusOp::Fence(Barrier::Release)
            &&& forall|k: int|
                0 <= k < ops.len() && writes_control(#[trigger] ops[k], channel) ==> k > 3
        }),
{
    let head = transfer_sequence(channel, periph_addr, mem_addr, num_data);
    let ops = arm_sequence(
        file,
        channel,
        periph_addr,
        mem_addr,
        num_data,
        direction,
        periph_size,
        mem_size,
        cfg,
    );
    assert(ops[3] == head[3]);
    assert forall|k: int| 0 <= k < ops.len() && writes_control(
        #[trigger] ops[k],
        channel,
    ) implies k > 3 by {
        if k <= 3 {
            assert(ops[k] == head[k]);
        }
    }
}

/// The full barrier of a stop stands after the channel is disabled: it is
/// the last operation, and the write that clears the enable bit and the
/// poll that confirms it come before it.
pub proof fn lemma_full_barrier_ends_stop(file: RegFile, channel: DmaChannel)
    ensures
        ({
            let ops = stop_sequence(file, channel);
            &&& ops.len() == 3
            &&& writes_control(ops[0], channel) && !sets_enable(ops[0], channel)
            &&& ops[1] == BusOp::AwaitEnable { channel, level: false }
            &&& ops[2] == BusOp::Fence(Barrier::Full)
        }),
{
    lemma_disable(file.ccr[channel.spec_index()]);
}

} // verus!
