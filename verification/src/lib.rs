//! Control core of a plant-watering device.
//!
//! The crate holds the decisions of the device and none of its waiting: every
//! component is a state machine that is handed what happened (an event from
//! the mailbox, a sensor reading, an elapsed timer, an edge on a button line)
//! and answers with the next thing to do. The surrounding program performs
//! the waits and the hardware access and feeds the outcome back in.

pub mod controller;
pub mod debouncer;
pub mod event;
pub mod mailbox;
pub mod producer;
pub mod sensor;
pub mod telemetry;

