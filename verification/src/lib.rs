//! User-space capability-channel messaging.
//!
//! A process exchanges fixed-layout messages with the kernel and with other
//! processes over channel endpoints. A channel owns one capability
//! identifier; messages are marshaled through a per-execution-context
//! staging buffer and routed by the kernel's capability table, whose
//! behavior is modeled and verified in [`kernel`].

pub mod channel;
pub mod context;
pub mod kernel;
pub mod message;
pub mod result;
pub mod screen;
