//! The message-exchange core of a Bluetooth Low Energy peripheral.
//!
//! One GATT characteristic carries messages in both directions between this
//! peripheral and a single connected central. The crate holds the part of that
//! exchange that can be reasoned about without a radio: the message type, the
//! two FIFO queues, the reassembly of inbound stream reads, the draining of
//! outbound messages, and the state machine that ties them to the control
//! events of the BLE stack.

pub mod assembler;
pub mod engine;
pub mod laws;
pub mod message;
pub mod peripheral;
pub mod queue;
pub mod subscription;
