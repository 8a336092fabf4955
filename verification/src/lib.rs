//! A pub/sub stream session manager: the verified core of a client that
//! opens one duplex stream to a remote pub/sub service, sends exactly one
//! request, and drains response frames, translating each frame into typed
//! domain events.
//!
//! The transport itself (channel establishment, the concurrent send and
//! receive halves) is a collaborator outside this crate; the library works
//! on plain request, frame and event values and states exactly which events
//! and which outcome a session produces for a given sequence of inbound
//! frames.

pub mod protocol;
pub mod session;
