//! The peripheral as application code sees it: start and stop, send,
//! receive, and the subscription query.
//!
//! Talking to the BLE stack is the caller's part. The caller registers what
//! [`BlePeripheral::registration_plan`] describes, tells
//! [`BlePeripheral::start_engine`] how that went, and then feeds the events
//! of the stack to [`BlePeripheral::handle_event`], performing the action
//! that each step returns.

use crate::engine::{EngineAction, EngineEvent, EngineLoop, EngineModel, SharedState};
use crate::message::{BleMessage, MessageView};
use vstd::prelude::*;

verus! {

/// The service under which the characteristic is offered:
/// `0000181C-0000-1000-8000-00805F9B34FB`.
pub const SERVICE_UUID: u128 = 0x0000181C_0000_1000_8000_00805F9B34FB;

/// The characteristic that carries the messages:
/// `00002AC4-0000-1000-8000-00805F9B34FB`.
pub const CHARACTERISTIC_UUID: u128 = 0x00002AC4_0000_1000_8000_00805F9B34FB;

/// The period of the timer that triggers a drain, in milliseconds.
pub const DRAIN_PERIOD_MS: u64 = 50;

/// The longest that a waiting receiver goes without looking at the inbound
/// queue again, in milliseconds. A wake-up that fires before the receiver
/// waits for it is lost; looking again after this interval makes up for it.
pub const RECEIVE_RECHECK_MS: u64 = 1000;

/// Where a peripheral stands between creation and shutdown.
#[derive(Clone, Copy, Debug, PartialEq, Eq, Structural)]
pub enum Lifecycle {
    /// Created and never started.
    Uninitialized,
    /// Started and not stopped since.
    Running,
    /// Stopped.
    Stopped,
}

/// A step of the registration with the BLE stack.
#[derive(Clone, Copy, Debug, PartialEq, Eq, Structural)]
pub enum RegistrationStage {
    /// Opening a session with the stack.
    Session,
    /// Finding the adapter.
    Adapter,
    /// Powering the adapter on.
    PowerOn,
    /// Registering the advertisement.
    Advertisement,
    /// Registering the GATT application.
    GattApplication,
}

/// How the registration with the BLE stack went.
#[derive(Clone, Copy, Debug, PartialEq, Eq, Structural)]
pub enum RegistrationOutcome {
    /// Every step succeeded; the advertisement and the application are live.
    Registered,
    /// This step failed, and with it the registration.
    Failed(RegistrationStage),
}

/// Why the engine did not start.
#[derive(Clone, Copy, Debug, PartialEq, Eq, Structural)]
pub enum InitializationError {
    /// The registration with the BLE stack failed at this step.
    Registration(RegistrationStage),
    /// The engine runs already.
    AlreadyRunning,
}

/// An operation needs a running engine, and the peripheral was in this
/// state instead.
#[derive(Clone, Copy, Debug, PartialEq, Eq, Structural)]
pub struct NotRunningError {
    pub lifecycle: Lifecycle,
}

/// What the caller registers with the BLE stack before the engine starts:
/// an advertisement of the service, and a GATT application with one primary
/// service that holds one characteristic for write and notify.
#[derive(Clone, Debug, PartialEq, Eq)]
pub struct RegistrationPlan {
    pub service_uuid: u128,
    pub characteristic_uuid: u128,
    /// The name to advertise, if the peripheral has one.
    pub local_name: Option<String>,
    pub discoverable: bool,
    pub primary: bool,
    pub write: bool,
    pub write_without_response: bool,
    pub notify: bool,
}

/// A name that may be missing, as a mathematical value.
pub open spec fn name_view(name: Option<String>) -> Option<Seq<char>> {
    match name {
        Some(text) => Some(text@),
        None => None,
    }
}

/// The peripheral as a mathematical value.
pub struct PeripheralView {
    /// The name under which the peripheral advertises itself.
    pub alias: Option<Seq<char>>,
    pub lifecycle: Lifecycle,
    pub exchange: EngineModel,
}

impl PeripheralView {
    /// A peripheral that was created and never started.
    pub open spec fn initial(alias: Option<Seq<char>>) -> PeripheralView {
        PeripheralView {
            alias,
            lifecycle: Lifecycle::Uninitialized,
            exchange: EngineModel::fresh(),
        }
    }

    /// Whether the engine runs.
    pub open spec fn running(self) -> bool {
        self.lifecycle == Lifecycle::Running
    }

    /// A peripheral whose engine does not run holds no message, no
    /// subscription and no stream; one whose engine runs holds a well-formed
    /// exchange.
    pub open spec fn wf(self) -> bool {
        if self.running() {
            self.exchange.wf()
        } else {
            self.exchange == EngineModel::fresh()
        }
    }

    /// The peripheral after an attempt to start the engine whose
    /// registration went as `outcome` says.
    pub open spec fn start(self, outcome: RegistrationOutcome) -> PeripheralView {
        if !self.running() && outcome == RegistrationOutcome::Registered {
            PeripheralView {
                lifecycle: Lifecycle::Running,
                exchange: EngineModel::fresh(),
                ..self
            }
        } else {
            self
        }
    }

    /// What an attempt to start the engine returns.
    pub open spec fn start_result(self, outcome: RegistrationOutcome) -> Result<
        (),
        InitializationError,
    > {
        if self.running() {
            Err(InitializationError::AlreadyRunning)
        } else {
            match outcome {
                RegistrationOutcome::Registered => Ok(()),
                RegistrationOutcome::Failed(stage) => Err(InitializationError::Registration(stage)),
            }
        }
    }

    /// The peripheral after the engine was stopped: what waited in the
    /// queues is gone.
    pub open spec fn stop(self) -> PeripheralView {
        if self.running() {
            PeripheralView {
                lifecycle: Lifecycle::Stopped,
                exchange: EngineModel::fresh(),
                ..self
            }
        } else {
            self
        }
    }

    /// The peripheral after `msg` was handed over for sending.
    pub open spec fn send(self, msg: MessageView) -> PeripheralView {
        if self.running() {
            PeripheralView {
                exchange: EngineModel {
                    shared: crate::engine::SharedView {
                        outbound: self.exchange.shared.outbound.push(msg),
                        ..self.exchange.shared
                    },
                    ..self.exchange
                },
                ..self
            }
        } else {
            self
        }
    }

    /// Whether a receiver finds a message.
    pub open spec fn can_receive(self) -> bool {
        self.running() && self.exchange.shared.inbound.len() > 0
    }

    /// The peripheral after a receiver looked for a message.
    pub open spec fn receive(self) -> PeripheralView {
        if self.can_receive() {
            PeripheralView {
                exchange: EngineModel {
                    shared: crate::engine::SharedView {
                        inbound: self.exchange.shared.inbound.drop_first(),
                        ..self.exchange.shared
                    },
                    ..self.exchange
                },
                ..self
            }
        } else {
            self
        }
    }

    /// The message that a receiver finds, if there is one.
    pub open spec fn received(self) -> Option<MessageView> {
        if self.can_receive() {
            Some(self.exchange.shared.inbound.first())
        } else {
            None
        }
    }

    /// Whether a caller that asks is told "subscribed".
    pub open spec fn subscribed(self) -> bool {
        self.running() && self.exchange.shared.subscribed
    }

    /// The peripheral after one step of the engine on `event`.
    pub open spec fn step(self, event: crate::engine::EventView) -> PeripheralView {
        if self.running() {
            PeripheralView { exchange: self.exchange.step(event), ..self }
        } else {
            self
        }
    }

    /// The action of one step of the engine on `event`.
    pub open spec fn action(self, event: crate::engine::EventView) -> crate::engine::ActionView {
        if self.running() {
            self.exchange.action(event)
        } else {
            crate::engine::ActionView::Terminate
        }
    }
}

/// A BLE peripheral that exchanges messages with one connected central.
pub struct BlePeripheral {
    /// The name under which the peripheral advertises itself.
    pub alias: Option<String>,
    lifecycle: Lifecycle,
    shared: SharedState,
    engine: EngineLoop,
}

impl View for BlePeripheral {
    type V = PeripheralView;

    closed spec fn view(&self) -> PeripheralView {
        PeripheralView {
            alias: name_view(self.alias),
            lifecycle: self.lifecycle,
            exchange: self.engine.model(&self.shared),
        }
    }
}

impl BlePeripheral {
    /// A peripheral with the given alias whose engine has not been started.
    pub fn new(alias: Option<String>) -> (peripheral: BlePeripheral)
        ensures
            peripheral@ == PeripheralView::initial(name_view(alias)),
            peripheral@.wf(),
    {
        BlePeripheral {
            alias,
            lifecycle: Lifecycle::Uninitialized,
            shared: SharedState::new(),
            engine: EngineLoop::new(),
        }
    }

    /// Where the peripheral stands.
    pub fn lifecycle(&self) -> (lifecycle: Lifecycle)
        ensures
            lifecycle == self@.lifecycle,
    {
        self.lifecycle
    }

    /// Whether the engine runs.
    pub fn is_running(&self) -> (running: bool)
        ensures
            running == self@.running(),
    {
        match self.lifecycle {
            Lifecycle::Running => true,
            _ => false,
        }
    }

    /// What to register with the BLE stack before the engine is started.
    pub fn registration_plan(&self) -> (plan: RegistrationPlan)
        ensures
            plan.service_uuid == SERVICE_UUID,
            plan.characteristic_uuid == CHARACTERISTIC_UUID,
            name_view(plan.local_name) == self@.alias,
            plan.discoverable,
            plan.primary,
            plan.write,
            plan.write_without_response,
            plan.notify,
    {
        let local_name = match &self.alias {
            Some(name) => Some(name.clone()),
            None => None,
        };
        RegistrationPlan {
            service_uuid: SERVICE_UUID,
            characteristic_uuid: CHARACTERISTIC_UUID,
            local_name,
            discoverable: true,
            primary: true,
            write: true,
            write_without_response: true,
            notify: true,
        }
    }

    /// Starts the engine, given how the registration with the BLE stack
    /// went.
    ///
    /// After a registration that succeeded the engine runs on empty queues,
    /// with no subscription and no stream bound. A registration that failed
    /// aborts the start and leaves the peripheral as it was, and so does a
    /// start while the engine runs.
    pub fn start_engine(&mut self, outcome: RegistrationOutcome) -> (res: Result<
        (),
        InitializationError,
    >)
        ensures
            final(self)@ == old(self)@.start(outcome),
            res == old(self)@.start_result(outcome),
    {
        if self.is_running() {
            return Err(InitializationError::AlreadyRunning);
        }
        match outcome {
            RegistrationOutcome::Registered => {
                self.shared = SharedState::new();
                self.engine = EngineLoop::new();
                self.lifecycle = Lifecycle::Running;
                Ok(())
            },
            RegistrationOutcome::Failed(stage) => Err(InitializationError::Registration(stage)),
        }
    }

    /// Stops the engine and says whether it ran: if it did, the caller
    /// cancels the loop and releases the registrations. Messages that still
    /// waited in either queue are discarded. Without a running engine
    /// nothing happens.
    pub fn stop_engine(&mut self) -> (was_running: bool)
        ensures
            final(self)@ == old(self)@.stop(),
            was_running == old(self)@.running(),
    {
        if !self.is_running() {
            return false;
        }
        self.shared = SharedState::new();
        self.engine = EngineLoop::new();
        self.lifecycle = Lifecycle::Stopped;
        true
    }

    /// Queues `msg` behind the messages that wait to be sent. Fails, and
    /// drops the message, when the engine does not run.
    pub fn send_message(&mut self, msg: BleMessage) -> (res: Result<(), NotRunningError>)
        ensures
            final(self)@ == old(self)@.send(msg@),
            old(self)@.running() ==> res is Ok,
            !old(self)@.running() ==> res == Err::<(), NotRunningError>(
                NotRunningError { lifecycle: old(self)@.lifecycle },
            ),
    {
        if !self.is_running() {
            return Err(NotRunningError { lifecycle: self.lifecycle });
        }
        self.shared.outbound.enqueue(msg);
        Ok(())
    }

    /// Takes the oldest message that was received, if one waits: `Ok(None)`
    /// tells the caller to wait and look again. Fails when the engine does
    /// not run.
    pub fn receive_message(&mut self) -> (res: Result<Option<BleMessage>, NotRunningError>)
        ensures
            final(self)@ == old(self)@.receive(),
            old(self)@.running() ==> res is Ok && match res->Ok_0 {
                Some(msg) => old(self)@.received() == Some(msg@),
                None => old(self)@.received() is None,
            },
            !old(self)@.running() ==> res is Err && res->Err_0 == (NotRunningError {
                lifecycle: old(self)@.lifecycle,
            }),
    {
        if !self.is_running() {
            return Err(NotRunningError { lifecycle: self.lifecycle });
        }
        Ok(self.shared.inbound.dequeue())
    }

    /// Whether the central is subscribed to notifications, as far as the
    /// engine knows. Without a running engine the answer is no.
    pub fn is_subscribed(&self) -> (subscribed: bool)
        ensures
            subscribed == self@.subscribed(),
    {
        self.is_running() && self.shared.subscription.is_subscribed()
    }

    /// The size of the receive buffer for the reader that is bound.
    pub fn read_capacity(&self) -> (capacity: usize)
        ensures
            capacity == self@.exchange.engine.reader.mtu,
    {
        self.engine.read_capacity()
    }

    /// One step of the engine on the event that became ready. Without a
    /// running engine the loop is told to end and nothing changes.
    pub fn handle_event(&mut self, event: EngineEvent) -> (action: EngineAction)
        ensures
            final(self)@ == old(self)@.step(event@),
            action@ == old(self)@.action(event@),
    {
        if !self.is_running() {
            return EngineAction::Terminate;
        }
        self.engine.handle_event(&mut self.shared, event)
    }
}

} // verus!
