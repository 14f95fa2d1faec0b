//! Lifecycle controller for trust-minimized cross-chain atomic swaps.
//!
//! The core is a swap state machine that reacts to asynchronous status
//! signals from the swap provider and drives on-chain actions (lockup,
//! claim, cooperative-then-non-cooperative refund) exactly once per
//! irreversible action, under a strict legal-transition table. The wallet,
//! chain services, swapper, persistence and notification collaborators are
//! constructor-injected capabilities specified by contract.

pub mod collaborators;
pub mod errors;
pub mod handler;
pub mod laws;
pub mod model;
pub mod status;
pub mod transition;
