//! Coordination and timing engine of a held-button input macro.
//!
//! While a trigger button is held and the host application has the focus,
//! the engine repeats a fixed, timing-critical sequence of key and mouse
//! events; a hotkey starts a short burst of clicks; a second hotkey switches
//! everything off and on.
//!
//! The crate holds the decisions of the engine as verified state machines:
//! what a sample of the input devices does to the shared flags (`poller`),
//! what the focus monitor does on each probe (`focus`), which event a running
//! sequence or burst asks for next (`sequence`, `rapid_click`), when a
//! precise wait is over (`timer`). `engine` puts flags, monitor and poller
//! together and states what holds in every history of the three.
//!
//! Threads, clocks, device queries and input injection belong to the program
//! around the crate: it feeds observations in and performs the actions that
//! come back.

pub mod capture;
pub mod config;
pub mod engine;
pub mod focus;
pub mod host;
pub mod keys;
pub mod plan;
pub mod poller;
pub mod rapid_click;
pub mod sequence;
pub mod shared;
pub mod state;
pub mod table;
pub mod text;
pub mod timer;
