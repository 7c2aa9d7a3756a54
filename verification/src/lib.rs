//! Watches sources for changes and alerts a human about them.
//!
//! A *task* polls one source on its own schedule: a web page, a value inside
//! the JSON of an API, or the trades and positions of an exchange account.
//! This library holds every decision of that work and none of its waiting:
//!
//! - [`monitors`]: one adapter per kind of source. An adapter is told how a
//!   fetch ended and says whether anything changed, keeping what it saw as the
//!   baseline for the next look.
//! - [`notifiers`]: the fan-out of one notification to every key, and what the
//!   outcomes of the deliveries amount to.
//! - [`poll_loop`]: the routine of one running task as a state machine.
//! - [`supervisor`]: the set of tasks, their statuses and the handles of their
//!   loops; what starting, stopping and editing a task takes.
//! - [`events`]: the messages of running tasks, the queue that carries them
//!   and the log kept of them.
//! - [`config`]: what the operator configures.
//! - [`text`], [`decimal`], [`json`], [`utils`]: the texts, numbers and
//!   documents that the above are made of.
//!
//! Requests, sleeps and spawned tasks are the caller's: each operation returns
//! what is to be done, and is told how it went.

pub mod config;
pub mod decimal;
pub mod events;
pub mod json;
pub mod monitors;
pub mod notifiers;
pub mod poll_loop;
pub mod supervisor;
pub mod text;
pub mod utils;
