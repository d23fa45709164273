//! Decisions of a poller that copies the latest alarm records of a monitoring
//! service into one page of a spreadsheet: what each reply means, what is
//! asked for next, and what is written.

pub mod bearer;
pub mod config;
pub mod envelope;
pub mod error;
pub mod json;
pub mod pipeline;
pub mod record;
pub mod reply;
pub mod run;
pub mod scheduler;
pub mod sheet;
