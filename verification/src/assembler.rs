//! Reassembly of inbound stream reads into whole messages.
//!
//! The stream carries no framing of its own. A message is everything that
//! the reader of one accepted write request yields up to a read of zero
//! bytes; a read that fails throws away what was gathered so far.

use crate::message::{BleMessage, MessageView};
use vstd::prelude::*;

verus! {

/// How one read on the bound stream ended.
#[derive(Clone, Debug, PartialEq, Eq)]
pub enum ReadOutcome {
    /// The read returned these bytes. None at all marks the end of the
    /// message.
    Bytes(Vec<u8>),
    /// The read failed.
    Failed,
}

/// A read outcome over mathematical sequences.
pub enum ReadOutcomeView {
    Bytes(Seq<u8>),
    Failed,
}

impl View for ReadOutcome {
    type V = ReadOutcomeView;

    open spec fn view(&self) -> ReadOutcomeView {
        match self {
            ReadOutcome::Bytes(chunk) => ReadOutcomeView::Bytes(chunk@),
            ReadOutcome::Failed => ReadOutcomeView::Failed,
        }
    }
}

/// What the assembler made of a read.
#[derive(Clone, Debug, PartialEq, Eq)]
pub enum ReadStep {
    /// No reader is bound: the read was not counted.
    Unbound,
    /// The bytes were added to the message in progress.
    Gathered,
    /// The message is complete; the reader is no longer bound.
    Complete(BleMessage),
    /// The read failed: what was gathered is gone and the reader is no
    /// longer bound.
    Discarded,
}

/// What a read step holds, over mathematical sequences.
pub enum ReadStepView {
    Unbound,
    Gathered,
    Complete(MessageView),
    Discarded,
}

impl View for ReadStep {
    type V = ReadStepView;

    open spec fn view(&self) -> ReadStepView {
        match self {
            ReadStep::Unbound => ReadStepView::Unbound,
            ReadStep::Gathered => ReadStepView::Gathered,
            ReadStep::Complete(msg) => ReadStepView::Complete(msg@),
            ReadStep::Discarded => ReadStepView::Discarded,
        }
    }
}

/// The assembler as a mathematical value.
pub struct AssemblerView {
    /// Whether a reader is bound.
    pub bound: bool,
    /// The largest chunk that one read of the bound reader transfers.
    pub mtu: usize,
    /// The bytes gathered for the message in progress.
    pub gathered: Seq<u8>,
}

impl AssemblerView {
    /// The assembler with no reader and nothing gathered.
    pub open spec fn idle() -> AssemblerView {
        AssemblerView { bound: false, mtu: 0, gathered: Seq::empty() }
    }

    /// The assembler right after a write request with `mtu` was accepted:
    /// whatever was in progress is gone.
    pub open spec fn bind(mtu: usize) -> AssemblerView {
        AssemblerView { bound: true, mtu, gathered: Seq::empty() }
    }

    /// The assembler after a read that ended as `outcome`.
    pub open spec fn after_read(self, outcome: ReadOutcomeView) -> AssemblerView {
        if !self.bound {
            self
        } else {
            match outcome {
                ReadOutcomeView::Bytes(chunk) => if chunk.len() == 0 {
                    AssemblerView::idle()
                } else {
                    AssemblerView { gathered: self.gathered + chunk, ..self }
                },
                ReadOutcomeView::Failed => AssemblerView::idle(),
            }
        }
    }

    /// What a read that ended as `outcome` amounts to.
    pub open spec fn read_step(self, outcome: ReadOutcomeView) -> ReadStepView {
        if !self.bound {
            ReadStepView::Unbound
        } else {
            match outcome {
                ReadOutcomeView::Bytes(chunk) => if chunk.len() == 0 {
                    ReadStepView::Complete(MessageView::Raw(self.gathered))
                } else {
                    ReadStepView::Gathered
                },
                ReadOutcomeView::Failed => ReadStepView::Discarded,
            }
        }
    }

    /// Nothing is gathered unless a reader is bound.
    pub open spec fn wf(self) -> bool {
        !self.bound ==> self == AssemblerView::idle()
    }
}

/// Gathers the reads of the reader that is bound to the latest accepted
/// write request.
pub struct InboundAssembler {
    bound: bool,
    mtu: usize,
    gathered: Vec<u8>,
}

impl View for InboundAssembler {
    type V = AssemblerView;

    closed spec fn view(&self) -> AssemblerView {
        AssemblerView { bound: self.bound, mtu: self.mtu, gathered: self.gathered@ }
    }
}

impl InboundAssembler {
    /// An assembler with no reader bound.
    pub fn new() -> (assembler: InboundAssembler)
        ensures
            assembler@ == AssemblerView::idle(),
    {
        InboundAssembler { bound: false, mtu: 0, gathered: Vec::new() }
    }

    /// Starts a fresh message for the reader of a write request that was
    /// accepted with `mtu`. A message in progress is dropped: none spans two
    /// write requests.
    pub fn bind(&mut self, mtu: usize)
        ensures
            final(self)@ == AssemblerView::bind(mtu),
    {
        self.bound = true;
        self.mtu = mtu;
        self.gathered = Vec::new();
    }

    /// Lets go of the reader and of what was gathered.
    pub fn release(&mut self)
        ensures
            final(self)@ == AssemblerView::idle(),
    {
        self.bound = false;
        self.mtu = 0;
        self.gathered = Vec::new();
    }

    /// Whether a reader is bound.
    pub fn is_bound(&self) -> (bound: bool)
        ensures
            bound == self@.bound,
    {
        self.bound
    }

    /// The size of the buffer that one read of the bound reader needs.
    pub fn read_capacity(&self) -> (capacity: usize)
        ensures
            capacity == self@.mtu,
    {
        self.mtu
    }

    /// Takes in the outcome of one read on the bound reader.
    ///
    /// Bytes are appended to the message in progress. A read of no bytes
    /// completes the message, which is handed out as raw bytes. A failed
    /// read discards the message in progress. Either of the two unbinds the
    /// reader. With no reader bound nothing changes.
    pub fn accept_read(&mut self, outcome: ReadOutcome) -> (step: ReadStep)
        ensures
            final(self)@ == old(self)@.after_read(outcome@),
            step@ == old(self)@.read_step(outcome@),
    {
        if !self.bound {
            return ReadStep::Unbound;
        }
        match outcome {
            ReadOutcome::Bytes(chunk) => {
                if chunk.len() == 0 {
                    let mut whole: Vec<u8> = Vec::new();
                    whole.append(&mut self.gathered);
                    self.release();
                    ReadStep::Complete(BleMessage::from_bytes(whole))
                } else {
                    let mut chunk = chunk;
                    self.gathered.append(&mut chunk);
                    ReadStep::Gathered
                }
            },
            ReadOutcome::Failed => {
                self.release();
                ReadStep::Discarded
            },
        }
    }
}

} // verus!
