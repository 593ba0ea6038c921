//! Bring-up and discovery handshake logic for a small wireless device.
//!
//! Every stage that talks to the outside world (joining the access point,
//! connecting, writing, reading) is modelled as an explicit state machine:
//! the caller performs the action that a manager asks for and hands the
//! outcome back as an event. The managers decide when to retry, when to
//! advance and when to give up, and they are verified to keep the stages in
//! order and the buffers within their declared sizes.

pub mod association;
pub mod config;
pub mod connection;
pub mod discovery;
pub mod fault;
pub mod retry;
