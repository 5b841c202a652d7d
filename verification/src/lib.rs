//! A relay that bridges a duplex text-message connection to an external
//! object-detection provider.
//!
//! The library holds the protocol logic: the frame codec that classifies
//! inbound text messages, the JSON writer and reader for detection results,
//! the decision logic of the inference client, and the per-connection
//! session state machine. The surrounding binary performs the actual
//! network I/O and hands plain values in and out.

pub mod text;
pub mod frame;
pub mod detection;
pub mod json;
pub mod provider;
pub mod session;
pub mod status;
