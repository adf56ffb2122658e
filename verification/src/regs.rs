//! The register file that mirrors the controller, and the journal of bus
//! operations issued on it.

use crate::barrier::compiler_fence;
use crate::barrier::Barrier;
use crate::dma::DmaChannel;
use crate::layout::ccr_after_write;
use crate::layout::CCR_EN;
use vstd::prelude::*;

verus! {

/// A register of the controller.
#[derive(Clone, Copy, Debug, PartialEq, Eq, Structural)]
pub enum Register {
    /// Interrupt status (read-only).
    Isr,
    /// Interrupt flag clear (write one to clear; reads as zero).
    Ifcr,
    /// Peripheral address of a channel.
    Cpar(DmaChannel),
    /// Memory address of a channel.
    Cmar(DmaChannel),
    /// Number of data units left to transfer on a channel.
    Cndtr(DmaChannel),
    /// Control register of a channel.
    Ccr(DmaChannel),
    /// Request selection, one field per channel.
    Cselr,
}

/// The four registers of one channel.
#[derive(Clone, Copy, Debug, PartialEq, Eq, Structural)]
pub struct ChannelRegisters {
    pub peripheral_addr: Register,
    pub memory_addr: Register,
    pub count: Register,
    pub control: Register,
}

/// One operation on the bus, as the driver issued it.
#[derive(Clone, Copy, Debug, PartialEq, Eq, Structural)]
pub enum BusOp {
    /// `value` was written to `reg`.
    Write { reg: Register, value: u32 },
    /// A compiler barrier was placed.
    Fence(Barrier),
    /// The control register of `channel` was polled until its enable bit
    /// read as `level`.
    AwaitEnable { channel: DmaChannel, level: bool },
}

/// The contents of the controller's registers. The per-channel sequences are
/// indexed by [`DmaChannel::spec_index`].
pub struct RegFile {
    pub par: Seq<u32>,
    pub mar: Seq<u32>,
    pub ndtr: Seq<u32>,
    pub ccr: Seq<u32>,
    pub isr: u32,
    pub cselr: u32,
}

impl RegFile {
    /// Every per-channel sequence has one entry for each of the eight channels.
    pub open spec fn wf(self) -> bool {
        &&& self.par.len() == 8
        &&& self.mar.len() == 8
        &&& self.ndtr.len() == 8
        &&& self.ccr.len() == 8
    }

    /// The register file after reset: every register reads zero.
    pub open spec fn reset() -> RegFile {
        RegFile {
            par: Seq::new(8, |i: int| 0u32),
            mar: Seq::new(8, |i: int| 0u32),
            ndtr: Seq::new(8, |i: int| 0u32),
            ccr: Seq::new(8, |i: int| 0u32),
            isr: 0,
            cselr: 0,
        }
    }

    /// What a read of `reg` returns.
    pub open spec fn read(self, reg: Register) -> u32 {
        match reg {
            Register::Isr => self.isr,
            Register::Ifcr => 0,
            Register::Cpar(c) => self.par[c.spec_index()],
            Register::Cmar(c) => self.mar[c.spec_index()],
            Register::Cndtr(c) => self.ndtr[c.spec_index()],
            Register::Ccr(c) => self.ccr[c.spec_index()],
            Register::Cselr => self.cselr,
        }
    }

    /// The register file after `value` is written to `reg`. The status
    /// register ignores writes; a one written to the clear-flag register
    /// clears the status flag at the same position; the count register keeps
    /// sixteen bits; a control register follows [`ccr_after_write`]; the
    /// others take the value as it is.
    pub open spec fn write(self, reg: Register, value: u32) -> RegFile {
        match reg {
            Register::Isr => self,
            Register::Ifcr => RegFile { isr: self.isr & !value, ..self },
            Register::Cpar(c) => RegFile { par: self.par.update(c.spec_index(), value), ..self },
            Register::Cmar(c) => RegFile { mar: self.mar.update(c.spec_index(), value), ..self },
            Register::Cndtr(c) => RegFile {
                ndtr: self.ndtr.update(c.spec_index(), value & 0xffff),
                ..self
            },
            Register::Ccr(c) => RegFile {
                ccr: self.ccr.update(
                    c.spec_index(),
                    ccr_after_write(self.ccr[c.spec_index()], value),
                ),
                ..self
            },
            Register::Cselr => RegFile { cselr: value, ..self },
        }
    }

    /// The register file with `reg` holding `value`. The clear-flag register
    /// holds nothing, so for it the file is unchanged.
    pub open spec fn with(self, reg: Register, value: u32) -> RegFile {
        match reg {
            Register::Isr => RegFile { isr: value, ..self },
            Register::Ifcr => self,
            Register::Cpar(c) => RegFile { par: self.par.update(c.spec_index(), value), ..self },
            Register::Cmar(c) => RegFile { mar: self.mar.update(c.spec_index(), value), ..self },
            Register::Cndtr(c) => RegFile { ndtr: self.ndtr.update(c.spec_index(), value), ..self },
            Register::Ccr(c) => RegFile { ccr: self.ccr.update(c.spec_index(), value), ..self },
            Register::Cselr => RegFile { cselr: value, ..self },
        }
    }

    /// The register file after `op` is carried out on the bus. Only a write
    /// changes a register.
    pub open spec fn apply(self, op: BusOp) -> RegFile {
        match op {
            BusOp::Write { reg, value } => self.write(reg, value),
            BusOp::Fence(_) => self,
            BusOp::AwaitEnable { .. } => self,
        }
    }

    /// The register file after `ops` are carried out on the bus, in order.
    pub open spec fn run(self, ops: Seq<BusOp>) -> RegFile
        decreases ops.len(),
    {
        if ops.len() == 0 {
            self
        } else {
            self.run(ops.drop_last()).apply(ops.last())
        }
    }

    /// Whether the enable bit of `channel` is set.
    pub open spec fn enabled(self, channel: DmaChannel) -> bool {
        self.ccr[channel.spec_index()] & CCR_EN != 0
    }
}

/// What a [`RegisterBlock`] stands for: the register contents and the bus
/// operations issued so far, oldest first.
pub struct RegisterBlockView {
    pub file: RegFile,
    pub journal: Seq<BusOp>,
}

/// The register block of one controller, with the journal of the operations
/// issued on it.
pub struct RegisterBlock {
    par: [u32; 8],
    mar: [u32; 8],
    ndtr: [u32; 8],
    ccr: [u32; 8],
    isr: u32,
    cselr: u32,
    journal: Vec<BusOp>,
}

impl View for RegisterBlock {
    type V = RegisterBlockView;

    closed spec fn view(&self) -> RegisterBlockView {
        RegisterBlockView {
            file: RegFile {
                par: self.par@,
                mar: self.mar@,
                ndtr: self.ndtr@,
                ccr: self.ccr@,
                isr: self.isr,
                cselr: self.cselr,
            },
            journal: self.journal@,
        }
    }
}

impl RegisterBlock {
    /// A register block in its reset state, with an empty journal.
    pub fn new() -> (block: RegisterBlock)
        ensures
            block@.file == RegFile::reset(),
            block@.journal == Seq::<BusOp>::empty(),
    {
        let block = RegisterBlock {
            par: [0u32; 8],
            mar: [0u32; 8],
            ndtr: [0u32; 8],
            ccr: [0u32; 8],
            isr: 0,
            cselr: 0,
            journal: Vec::new(),
        };
        proof {
            assert(block@.file.par =~= RegFile::reset().par);
            assert(block@.file.mar =~= RegFile::reset().mar);
            assert(block@.file.ndtr =~= RegFile::reset().ndtr);
            assert(block@.file.ccr =~= RegFile::reset().ccr);
        }
        block
    }

    /// The register contents are well formed in every state.
    pub proof fn lemma_wf(&self)
        ensures
            self@.file.wf(),
    {
    }

    /// Reads `reg`. A read leaves no entry in the journal.
    pub fn read(&self, reg: Register) -> (value: u32)
        ensures
            value == self@.file.read(reg),
    {
        match reg {
            Register::Isr => self.isr,
            Register::Ifcr => 0,
            Register::Cpar(c) => self.par[c.index()],
            Register::Cmar(c) => self.mar[c.index()],
            Register::Cndtr(c) => self.ndtr[c.index()],
            Register::Ccr(c) => self.ccr[c.index()],
            Register::Cselr => self.cselr,
        }
    }

    /// Writes `value` to `reg` and records the write.
    pub fn write(&mut self, reg: Register, value: u32)
        ensures
            final(self)@.file == old(self)@.file.write(reg, value),
            final(self)@.journal == old(self)@.journal.push(BusOp::Write { reg, value }),
    {
        match reg {
            Register::Isr => {},
            Register::Ifcr => {
                self.isr = self.isr & !value;
            },
            Register::Cpar(c) => {
                self.par[c.index()] = value;
            },
            Register::Cmar(c) => {
                self.mar[c.index()] = value;
            },
            Register::Cndtr(c) => {
                self.ndtr[c.index()] = value & 0xffff;
            },
            Register::Ccr(c) => {
                let current: u32 = self.ccr[c.index()];
                let next: u32 = if current & CCR_EN != 0 {
                    (current & !CCR_EN) | (value & CCR_EN)
                } else {
                    value
                };
                self.ccr[c.index()] = next;
            },
            Register::Cselr => {
                self.cselr = value;
            },
        }
        self.journal.push(BusOp::Write { reg, value });
    }

    /// Places the compiler barrier `kind` and records it.
    pub fn fence(&mut self, kind: Barrier)
        ensures
            final(self)@.file == old(self)@.file,
            final(self)@.journal == old(self)@.journal.push(BusOp::Fence(kind)),
    {
        compiler_fence(kind);
        self.journal.push(BusOp::Fence(kind));
    }

    /// Records a poll of the enable bit of `channel` for `level`. The mirror
    /// answers a read at once, so the poll ends only where the bit already
    /// reads as `level`.
    pub fn await_enable(&mut self, channel: DmaChannel, level: bool)
        requires
            old(self)@.file.enabled(channel) == level,
        ensures
            final(self)@.file == old(self)@.file,
            final(self)@.journal == old(self)@.journal.push(
                BusOp::AwaitEnable { channel, level },
            ),
    {
        self.journal.push(BusOp::AwaitEnable { channel, level });
    }

    /// Takes over `value` as what the controller now reports for `reg`. The
    /// hardware changes registers on its own (it raises status flags and
    /// counts transfers down); this brings the mirror up to date. It is no
    /// bus write: the write rules do not apply and the journal stays as it is.
    pub fn refresh(&mut self, reg: Register, value: u32)
        ensures
            final(self)@.file == old(self)@.file.with(reg, value),
            final(self)@.journal == old(self)@.journal,
    {
        match reg {
            Register::Isr => {
                self.isr = value;
            },
            Register::Ifcr => {},
            Register::Cpar(c) => {
                self.par[c.index()] = value;
            },
            Register::Cmar(c) => {
                self.mar[c.index()] = value;
            },
            Register::Cndtr(c) => {
                self.ndtr[c.index()] = value;
            },
            Register::Ccr(c) => {
                self.ccr[c.index()] = value;
            },
            Register::Cselr => {
                self.cselr = value;
            },
        }
    }

    /// The bus operations issued so far, oldest first.
    pub fn journal(&self) -> (ops: &Vec<BusOp>)
        ensures
            ops@ == self@.journal,
    {
        &self.journal
    }

    /// Hands out the bus operations issued so far, oldest first, and starts
    /// the journal anew. The registers stay as they are.
    pub fn take_journal(&mut self) -> (ops: Vec<BusOp>)
        ensures
            ops@ == old(self)@.journal,
            final(self)@.file == old(self)@.file,
            final(self)@.journal == Seq::<BusOp>::empty(),
    {
        let mut ops: Vec<BusOp> = Vec::new();
        core::mem::swap(&mut self.journal, &mut ops);
        ops
    }
}

/// One write to a channel register of the request multiplexer.
#[derive(Clone, Copy, Debug, PartialEq, Eq, Structural)]
pub struct MuxWrite {
    pub channel: DmaChannel,
    pub value: u32,
}

/// What a [`DmaMux`] stands for: the channel registers, indexed by
/// [`DmaChannel::spec_index`], and the writes issued so far, oldest first.
pub struct DmaMuxView {
    pub cr: Seq<u32>,
    pub journal: Seq<MuxWrite>,
}

/// The request multiplexer: one register per channel, with the journal of
/// the writes issued on it.
pub struct DmaMux {
    cr: [u32; 8],
    journal: Vec<MuxWrite>,
}

impl View for DmaMux {
    type V = DmaMuxView;

    closed spec fn view(&self) -> DmaMuxView {
        DmaMuxView { cr: self.cr@, journal: self.journal@ }
    }
}

impl DmaMux {
    /// A multiplexer in its reset state, with an empty journal.
    pub fn new() -> (mux: DmaMux)
        ensures
            mux@.cr == Seq::new(8, |i: int| 0u32),
            mux@.journal == Seq::<MuxWrite>::empty(),
    {
        let mux = DmaMux { cr: [0u32; 8], journal: Vec::new() };
        assert(mux@.cr =~= Seq::new(8, |i: int| 0u32));
        mux
    }

    /// There is one register for each of the eight channels, in every state.
    pub proof fn lemma_wf(&self)
        ensures
            self@.cr.len() == 8,
    {
    }

    /// Reads the register of `channel`.
    pub fn read(&self, channel: DmaChannel) -> (value: u32)
        ensures
            value == self@.cr[channel.spec_index()],
    {
        self.cr[channel.index()]
    }

    /// Writes `value` to the register of `channel` and records the write.
    pub fn write(&mut self, channel: DmaChannel, value: u32)
        ensures
            final(self)@.cr == old(self)@.cr.update(channel.spec_index(), value),
            final(self)@.journal == old(self)@.journal.push(MuxWrite { channel, value }),
    {
        self.cr[channel.index()] = value;
        self.journal.push(MuxWrite { channel, value });
    }

    /// Takes over `value` as what the multiplexer now reports for the
    /// register of `channel`. It is no bus write: the journal stays as it is.
    pub fn refresh(&mut self, channel: DmaChannel, value: u32)
        ensures
            final(self)@.cr == old(self)@.cr.update(channel.spec_index(), value),
            final(self)@.journal == old(self)@.journal,
    {
        self.cr[channel.index()] = value;
    }

    /// The writes issued so far, oldest first.
    pub fn journal(&self) -> (ops: &Vec<MuxWrite>)
        ensures
            ops@ == self@.journal,
    {
        &self.journal
    }
}

} // verus!
