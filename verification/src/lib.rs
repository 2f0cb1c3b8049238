//! A minimal real-time rendering host, with its lifecycle logic verified.
//!
//! The library models the window/GPU-context lifecycle: a run loop that turns
//! host events into lifecycle actions, a graphics context that owns the
//! presentation configuration, and the fixed per-frame command plan. The
//! platform work itself (window system, GPU negotiation, command submission)
//! is carried out by an unverified shell that follows the actions and plans
//! this library produces.

pub mod control_flow;
pub mod events;
pub mod geometry;
pub mod profile;
pub mod state;
pub mod surface;
