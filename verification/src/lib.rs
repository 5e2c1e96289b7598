//! Clock estimation and precision firing: the decisions behind a burst of
//! requests that has to leave at a wall-clock instant, on a machine whose own
//! clock is not trusted.

pub mod activity_log;
pub mod burst;
pub mod calendar;
pub mod clock_cache;
pub mod display;
pub mod estimator;
pub mod instant;
pub mod mission;
pub mod scheduler;
pub mod text;
pub mod time_source;
