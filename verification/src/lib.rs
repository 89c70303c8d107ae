//! Scheduling and control of named, repeating task queues that share one
//! automation session, one store and one behaviour profile.
//!
//! A task pairs an action with the time at which it is due and a repetition
//! policy ([`cronueue`]). Tasks are registered under names in a registry,
//! which launches them and sends them control messages ([`read_write_queue`],
//! [`control`]). A launched task is driven by its runner through a run loop,
//! a state machine that says when to wait, when to pause and when to run the
//! action; what holds of every such loop is proved in [`run_laws`].
//!
//! The other modules hold what the actions are made of: the steps of each
//! interaction ([`action`]), search addresses ([`search`]), the reading of
//! recorded posts ([`record_posts`], [`pattern`]), the behaviour profile
//! ([`config`]), cookies ([`cookie`]), the proxy extension ([`proxy`]), and
//! helpers for texts ([`text`]) and names ([`utils`]).

pub mod action;
pub mod config;
pub mod control;
pub mod cookie;
pub mod cronueue;
pub mod pattern;
pub mod proxy;
pub mod read_write_queue;
pub mod record_posts;
pub mod run_laws;
pub mod search;
pub mod text;
pub mod utils;
