//! A terminal tool for talking to a serial device: the input editor, the
//! bridge between the session and the device pump, and the page and session
//! state machines.

pub mod input;
pub mod serial;
pub mod keys;
pub mod rxtx;
pub mod layout;
pub mod index;
