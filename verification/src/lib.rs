//! Restarts one service of a compose project with no downtime: the running
//! instances are doubled, the new ones are waited for, and the old ones are
//! retired.
//!
//! The library decides and computes; it runs nothing. `app::App` is the
//! restart itself: it names the one request to the runtime that is
//! outstanding and takes the report of what came of it. `waiter::Waiter`
//! polls a set of instances for health in the same way. `gateway` holds the
//! requests, the command lines they stand for, and the reports; `health`
//! reads the runtime's answers to inspections; `detect` finds the compose
//! tool; `invocation` takes the program's own command line apart. `laws`
//! proves what a restart does to the instances over whole runs.

pub mod app;
pub mod detect;
pub mod gateway;
pub mod health;
pub mod instances;
pub mod invocation;
pub mod laws;
pub mod text;
pub mod waiter;
