//! The rules of a service that runs a downloader against a list of remote
//! resources, on a schedule.
//!
//! Everything here is pure: it decides, and leaves the doing to its caller.
//! The caller starts processes, reads their output, touches the file system
//! and talks to the scheduling engine, and tells the state machines of this
//! library what happened.
//!
//! - `settings`: the settings, the flags that a task adds to the command
//!   line, and the reading of a time of day;
//! - `schedule`: from schedule entries to cron expressions;
//! - `signal`: the coalescing run signal and the one-shot stop signal;
//! - `runner`: the supervision of one subprocess, with `runner_laws` for
//!   what holds of every run;
//! - `attributes`: owner and group of the downloaded files;
//! - `batch`: one pass over all tasks;
//! - `watcher`: the life of the service as a whole;
//! - `text`: helpers on characters and strings.

pub mod attributes;
pub mod batch;
pub mod runner;
pub mod runner_laws;
pub mod schedule;
pub mod settings;
pub mod signal;
pub mod text;
pub mod watcher;
