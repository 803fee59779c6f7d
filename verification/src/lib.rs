//! Weekly shutdown / activation schedule logic for SleepGuard.
use vstd::prelude::*;

pub mod text;
pub mod clock;
pub mod config;
pub mod schedule;
pub mod shutdown;
pub mod autostart;
pub mod boot_guard;
pub mod monitor;

verus! {

} // verus!
