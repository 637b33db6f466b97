use vstd::prelude::*;

pub mod config;
pub mod controller;
pub mod controller_laws;
pub mod fault;
pub mod outcome;
pub mod pacing;
pub mod pool;
pub mod sampling;
pub mod scheduler;
pub mod scheduler_laws;
pub mod window;

pub use crate::outcome::RunResult;
