//! The engine: one step of the loop that multiplexes control events, inbound
//! reads and outbound drain triggers.
//!
//! The loop itself waits on the BLE stack and performs the reads and writes;
//! that part lives with the caller. What it decides is here: a step takes the
//! state and the event that became ready, and gives the next state and the
//! one action that the caller performs before it waits again. Which of
//! several ready events comes first is up to the caller; a step is defined
//! for every event in every state.

use crate::assembler::{
    AssemblerView,
    InboundAssembler,
    ReadOutcome,
    ReadOutcomeView,
    ReadStep,
    ReadStepView,
};
use crate::message::MessageView;
use crate::queue::MessageQueue;
use crate::subscription::SubscriptionState;
use vstd::prelude::*;

verus! {

/// What the BLE stack reports about the characteristic.
#[derive(Clone, Copy, Debug, PartialEq, Eq, Structural)]
pub enum ControlEvent {
    /// The central started a write; accepting it yields a reader.
    WriteAccepted { mtu: usize },
    /// The central subscribed to notifications; accepting yields a writer.
    NotifySubscribed { mtu: usize },
    /// No further control events will come.
    StreamEnded,
}

/// How a write on the bound notify stream ended.
#[derive(Clone, Copy, Debug, PartialEq, Eq, Structural)]
pub enum WriteOutcome {
    Sent,
    Failed,
}

/// One thing that the loop waited for and that became ready.
#[derive(Clone, Debug, PartialEq, Eq)]
pub enum EngineEvent {
    /// The next control event arrived.
    Control(ControlEvent),
    /// The timer ticked, or the notify stream became available.
    DrainTrigger,
    /// A read on the bound reader completed.
    ReadCompleted(ReadOutcome),
    /// The write that the last step asked for completed.
    WriteCompleted(WriteOutcome),
}

/// An event over mathematical sequences.
pub enum EventView {
    Control(ControlEvent),
    DrainTrigger,
    ReadCompleted(ReadOutcomeView),
    WriteCompleted(WriteOutcome),
}

impl View for EngineEvent {
    type V = EventView;

    open spec fn view(&self) -> EventView {
        match self {
            EngineEvent::Control(control) => EventView::Control(*control),
            EngineEvent::DrainTrigger => EventView::DrainTrigger,
            EngineEvent::ReadCompleted(outcome) => EventView::ReadCompleted(outcome@),
            EngineEvent::WriteCompleted(outcome) => EventView::WriteCompleted(*outcome),
        }
    }
}

/// What the caller of a step performs before it waits for the next event.
#[derive(Clone, Debug, PartialEq, Eq)]
pub enum EngineAction {
    /// Nothing.
    Idle,
    /// Accept the write request and read from its reader from now on, with a
    /// receive buffer of `capacity` bytes. A reader held before is dropped.
    BindReader { capacity: usize },
    /// Write to the stream of this subscription from now on. A writer held
    /// before is dropped.
    BindWriter,
    /// Write all of these bytes to the bound writer in one operation, then
    /// report how it ended.
    Write(Vec<u8>),
    /// Drop the reader. A message was completed: wake one receiver.
    Deliver,
    /// Drop the reader.
    DropReader,
    /// Drop the writer.
    DropWriter,
    /// Leave the loop.
    Terminate,
}

/// An action over mathematical sequences.
pub enum ActionView {
    Idle,
    BindReader { capacity: usize },
    BindWriter,
    Write(Seq<u8>),
    Deliver,
    DropReader,
    DropWriter,
    Terminate,
}

impl View for EngineAction {
    type V = ActionView;

    open spec fn view(&self) -> ActionView {
        match self {
            EngineAction::Idle => ActionView::Idle,
            EngineAction::BindReader { capacity } => ActionView::BindReader {
                capacity: *capacity,
            },
            EngineAction::BindWriter => ActionView::BindWriter,
            EngineAction::Write(bytes) => ActionView::Write(bytes@),
            EngineAction::Deliver => ActionView::Deliver,
            EngineAction::DropReader => ActionView::DropReader,
            EngineAction::DropWriter => ActionView::DropWriter,
            EngineAction::Terminate => ActionView::Terminate,
        }
    }
}

/// The state that the engine shares with the callers of the public API.
pub struct SharedView {
    /// Messages that wait to be written, oldest first.
    pub outbound: Seq<MessageView>,
    /// Messages that wait to be received, oldest first.
    pub inbound: Seq<MessageView>,
    /// Whether a notify subscription is active.
    pub subscribed: bool,
}

/// The state that belongs to the loop alone.
pub struct LoopView {
    /// The reader of the latest accepted write request, and what it has
    /// gathered.
    pub reader: AssemblerView,
    /// The transfer unit of the bound writer, if one is bound.
    pub writer: Option<usize>,
    /// Whether the loop has been told to end.
    pub ended: bool,
}

/// The whole exchange as a mathematical value.
pub struct EngineModel {
    pub engine: LoopView,
    pub shared: SharedView,
}

impl EngineModel {
    /// The exchange right after the engine was started: empty queues, no
    /// subscription, no stream bound.
    pub open spec fn fresh() -> EngineModel {
        EngineModel {
            engine: LoopView { reader: AssemblerView::idle(), writer: None, ended: false },
            shared: SharedView {
                outbound: Seq::empty(),
                inbound: Seq::empty(),
                subscribed: false,
            },
        }
    }

    /// The subscription flag stands exactly while a writer is bound, and
    /// nothing is gathered without a reader.
    pub open spec fn wf(self) -> bool {
        &&& self.engine.reader.wf()
        &&& self.shared.subscribed == (self.engine.writer is Some)
    }

    /// The state after a control event.
    pub open spec fn on_control(self, control: ControlEvent) -> EngineModel {
        match control {
            ControlEvent::WriteAccepted { mtu } => EngineModel {
                engine: LoopView { reader: AssemblerView::bind(mtu), ..self.engine },
                ..self
            },
            ControlEvent::NotifySubscribed { mtu } => EngineModel {
                engine: LoopView { writer: Some(mtu), ..self.engine },
                shared: SharedView { subscribed: true, ..self.shared },
            },
            ControlEvent::StreamEnded => EngineModel {
                engine: LoopView { ended: true, ..self.engine },
                ..self
            },
        }
    }

    /// The action that a control event calls for.
    pub open spec fn control_action(control: ControlEvent) -> ActionView {
        match control {
            ControlEvent::WriteAccepted { mtu } => ActionView::BindReader { capacity: mtu },
            ControlEvent::NotifySubscribed { mtu } => ActionView::BindWriter,
            ControlEvent::StreamEnded => ActionView::Terminate,
        }
    }

    /// Whether a drain trigger finds something to write and a writer for it.
    pub open spec fn can_drain(self) -> bool {
        self.engine.writer is Some && self.shared.outbound.len() > 0
    }

    /// The state after a drain trigger: the head of the outbound queue is
    /// gone if it can be written, and nothing changes otherwise.
    pub open spec fn on_drain(self) -> EngineModel {
        if self.can_drain() {
            EngineModel {
                shared: SharedView { outbound: self.shared.outbound.drop_first(), ..self.shared },
                ..self
            }
        } else {
            self
        }
    }

    /// The action that a drain trigger calls for.
    pub open spec fn drain_action(self) -> ActionView {
        if self.can_drain() {
            ActionView::Write(self.shared.outbound.first().payload())
        } else {
            ActionView::Idle
        }
    }

    /// The state after a read on the bound reader completed.
    pub open spec fn on_read(self, outcome: ReadOutcomeView) -> EngineModel {
        EngineModel {
            engine: LoopView { reader: self.engine.reader.after_read(outcome), ..self.engine },
            shared: match self.engine.reader.read_step(outcome) {
                ReadStepView::Complete(msg) => SharedView {
                    inbound: self.shared.inbound.push(msg),
                    ..self.shared
                },
                _ => self.shared,
            },
        }
    }

    /// The action that a completed read calls for.
    pub open spec fn read_action(self, outcome: ReadOutcomeView) -> ActionView {
        match self.engine.reader.read_step(outcome) {
            ReadStepView::Unbound => ActionView::Idle,
            ReadStepView::Gathered => ActionView::Idle,
            ReadStepView::Complete(_) => ActionView::Deliver,
            ReadStepView::Discarded => ActionView::DropReader,
        }
    }

    /// The state after a write completed. A failure costs the writer and the
    /// subscription; the message that was being written is not queued again.
    pub open spec fn on_write_result(self, outcome: WriteOutcome) -> EngineModel {
        match outcome {
            WriteOutcome::Sent => self,
            WriteOutcome::Failed => EngineModel {
                engine: LoopView { writer: None, ..self.engine },
                shared: SharedView { subscribed: false, ..self.shared },
            },
        }
    }

    /// The action that a completed write calls for.
    pub open spec fn write_result_action(outcome: WriteOutcome) -> ActionView {
        match outcome {
            WriteOutcome::Sent => ActionView::Idle,
            WriteOutcome::Failed => ActionView::DropWriter,
        }
    }

    /// The state after one step on `event`. Once the loop has ended no event
    /// changes anything.
    pub open spec fn step(self, event: EventView) -> EngineModel {
        if self.engine.ended {
            self
        } else {
            match event {
                EventView::Control(control) => self.on_control(control),
                EventView::DrainTrigger => self.on_drain(),
                EventView::ReadCompleted(outcome) => self.on_read(outcome),
                EventView::WriteCompleted(outcome) => self.on_write_result(outcome),
            }
        }
    }

    /// The action of one step on `event`.
    pub open spec fn action(self, event: EventView) -> ActionView {
        if self.engine.ended {
            ActionView::Terminate
        } else {
            match event {
                EventView::Control(control) => EngineModel::control_action(control),
                EventView::DrainTrigger => self.drain_action(),
                EventView::ReadCompleted(outcome) => self.read_action(outcome),
                EventView::WriteCompleted(outcome) => EngineModel::write_result_action(outcome),
            }
        }
    }

    /// The state after the steps on `events`, taken in order.
    pub open spec fn run(self, events: Seq<EventView>) -> EngineModel
        decreases events.len(),
    {
        if events.len() == 0 {
            self
        } else {
            self.run(events.drop_last()).step(events.last())
        }
    }

    /// The actions of the steps on `events`, in order.
    pub open spec fn actions(self, events: Seq<EventView>) -> Seq<ActionView>
        decreases events.len(),
    {
        if events.len() == 0 {
            Seq::empty()
        } else {
            self.actions(events.drop_last()).push(
                self.run(events.drop_last()).action(events.last()),
            )
        }
    }
}

/// The queues and the flag through which the engine and the callers of the
/// public API meet. Neither side touches the other's state.
pub struct SharedState {
    pub outbound: MessageQueue,
    pub inbound: MessageQueue,
    pub subscription: SubscriptionState,
}

impl View for SharedState {
    type V = SharedView;

    open spec fn view(&self) -> SharedView {
        SharedView {
            outbound: self.outbound@,
            inbound: self.inbound@,
            subscribed: self.subscription@,
        }
    }
}

impl SharedState {
    /// Empty queues and no subscription.
    pub fn new() -> (shared: SharedState)
        ensures
            shared@ == EngineModel::fresh().shared,
    {
        SharedState {
            outbound: MessageQueue::new(),
            inbound: MessageQueue::new(),
            subscription: SubscriptionState::new(),
        }
    }
}

/// The loop's own state: which streams are bound, and what the reader has
/// gathered.
pub struct EngineLoop {
    reader: InboundAssembler,
    writer: Option<usize>,
    ended: bool,
}

impl View for EngineLoop {
    type V = LoopView;

    closed spec fn view(&self) -> LoopView {
        LoopView { reader: self.reader@, writer: self.writer, ended: self.ended }
    }
}

impl EngineLoop {
    /// The exchange that this loop and `shared` make up.
    pub open spec fn model(&self, shared: &SharedState) -> EngineModel {
        EngineModel { engine: self@, shared: shared@ }
    }

    /// A loop that has no stream bound and has not ended.
    pub fn new() -> (engine: EngineLoop)
        ensures
            engine@ == EngineModel::fresh().engine,
    {
        EngineLoop { reader: InboundAssembler::new(), writer: None, ended: false }
    }

    /// Whether a reader is bound.
    pub fn has_reader(&self) -> (bound: bool)
        ensures
            bound == self@.reader.bound,
    {
        self.reader.is_bound()
    }

    /// Whether a writer is bound.
    pub fn has_writer(&self) -> (bound: bool)
        ensures
            bound == (self@.writer is Some),
    {
        self.writer.is_some()
    }

    /// Whether the loop has been told to end.
    pub fn has_ended(&self) -> (ended: bool)
        ensures
            ended == self@.ended,
    {
        self.ended
    }

    /// The size of the receive buffer for the bound reader.
    pub fn read_capacity(&self) -> (capacity: usize)
        ensures
            capacity == self@.reader.mtu,
    {
        self.reader.read_capacity()
    }

    /// Takes in a control event.
    ///
    /// An accepted write request replaces the reader and drops a message in
    /// progress. An accepted subscription replaces the writer and sets the
    /// subscription flag. The end of the control events ends the loop.
    pub fn on_control(&mut self, shared: &mut SharedState, control: ControlEvent) -> (action:
        EngineAction)
        ensures
            final(self).model(final(shared)) == old(self).model(old(shared)).on_control(control),
            action@ == EngineModel::control_action(control),
    {
        match control {
            ControlEvent::WriteAccepted { mtu } => {
                self.reader.bind(mtu);
                EngineAction::BindReader { capacity: mtu }
            },
            ControlEvent::NotifySubscribed { mtu } => {
                self.writer = Some(mtu);
                shared.subscription.set_subscribed(true);
                EngineAction::BindWriter
            },
            ControlEvent::StreamEnded => {
                self.ended = true;
                EngineAction::Terminate
            },
        }
    }

    /// Takes in a drain trigger: with a writer bound and a message waiting,
    /// takes exactly one message from the head of the outbound queue and
    /// asks for its whole payload to be written. Otherwise does nothing.
    pub fn on_drain(&mut self, shared: &mut SharedState) -> (action: EngineAction)
        ensures
            final(self).model(final(shared)) == old(self).model(old(shared)).on_drain(),
            action@ == old(self).model(old(shared)).drain_action(),
    {
        if self.writer.is_none() {
            return EngineAction::Idle;
        }
        match shared.outbound.dequeue() {
            Some(msg) => EngineAction::Write(msg.take_bytes()),
            None => EngineAction::Idle,
        }
    }

    /// Takes in the outcome of a read on the bound reader. A message that
    /// the read completes goes to the tail of the inbound queue.
    pub fn on_read(&mut self, shared: &mut SharedState, outcome: ReadOutcome) -> (action:
        EngineAction)
        ensures
            final(self).model(final(shared)) == old(self).model(old(shared)).on_read(outcome@),
            action@ == old(self).model(old(shared)).read_action(outcome@),
    {
        match self.reader.accept_read(outcome) {
            ReadStep::Unbound => EngineAction::Idle,
            ReadStep::Gathered => EngineAction::Idle,
            ReadStep::Complete(msg) => {
                shared.inbound.enqueue(msg);
                EngineAction::Deliver
            },
            ReadStep::Discarded => EngineAction::DropReader,
        }
    }

    /// Takes in the outcome of the write that a drain asked for. A failure
    /// unbinds the writer and clears the subscription flag; the message is
    /// not sent again.
    pub fn on_write_result(&mut self, shared: &mut SharedState, outcome: WriteOutcome) -> (action:
        EngineAction)
        ensures
            final(self).model(final(shared)) == old(self).model(old(shared)).on_write_result(
                outcome,
            ),
            action@ == EngineModel::write_result_action(outcome),
    {
        match outcome {
            WriteOutcome::Sent => EngineAction::Idle,
            WriteOutcome::Failed => {
                self.writer = None;
                shared.subscription.set_subscribed(false);
                EngineAction::DropWriter
            },
        }
    }

    /// One step of the loop: takes in the event that became ready and says
    /// what to perform before waiting again.
    pub fn handle_event(&mut self, shared: &mut SharedState, event: EngineEvent) -> (action:
        EngineAction)
        ensures
            final(self).model(final(shared)) == old(self).model(old(shared)).step(event@),
            action@ == old(self).model(old(shared)).action(event@),
    {
        if self.ended {
            return EngineAction::Terminate;
        }
        match event {
            EngineEvent::Control(control) => self.on_control(shared, control),
            EngineEvent::DrainTrigger => self.on_drain(shared),
            EngineEvent::ReadCompleted(outcome) => self.on_read(shared, outcome),
            EngineEvent::WriteCompleted(outcome) => self.on_write_result(shared, outcome),
        }
    }
}

} // verus!
