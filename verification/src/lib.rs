//! Dining context and aggregation pipeline for a two-venue dining operation.
//!
//! The library answers "what meal is being served, where, and when" from a
//! remote catalog that exposes a company -> location -> menu-group ->
//! menu-item hierarchy.  The temporal policy, the venue matching rules, the
//! aggregation and the rendering are verified here; the HTTP calls themselves
//! are driven by an unverified shell that feeds their outcomes back into the
//! state machines of `menu_flow` and `announce_flow`.

pub mod announce_flow;
pub mod catalog;
pub mod command;
pub mod matching;
pub mod menu_flow;
pub mod render;
pub mod text;
pub mod temporal;
