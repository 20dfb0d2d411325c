//! The lifecycle of an XR session, verified: capability negotiation, the session status
//! machine and its commands, the per-frame call protocol, and the handoff of session
//! resources between the main and the render context.

pub mod features;
pub mod frame;
pub mod handoff;
pub mod negotiate;
pub mod status;
