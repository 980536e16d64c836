//! Request-board lifecycle engine for a staff-request triage workflow.
//!
//! Members post requests in a configured channel; the requester or a holder
//! of the board's manager role resolves a request with an approve or reject
//! marker, and the resolution is archived as a structured record in the
//! board's archive channel. This crate holds the decision logic of that
//! workflow: permission checks, the archive-record composer, the channel-pair
//! store semantics, and the planner that turns an incoming event into an
//! ordered list of side effects. An unverified adapter owns the platform
//! connection, performs the effects, and feeds events and fetched data back
//! into these functions.

pub mod admin;
pub mod archive;
pub mod config;
pub mod engine;
pub mod ids;
pub mod permission;
pub mod store;
