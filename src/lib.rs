//! Mirrors a pushpin reaction onto a chat platform's pinned-message feature.
//!
//! The library holds the whole decision logic of the agent: which reactions
//! count, which channels are eligible, and, for each inbound reaction event,
//! the sequence of platform calls to make. Performing those calls is left to
//! the caller, which feeds each outcome back in.
pub mod channel;
pub mod emoji;
pub mod handler;
pub mod run;
pub mod startup;
