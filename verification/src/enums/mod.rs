//! The enumerations that jobs, workers, logs and the core share, with the
//! text each is shown and stored as.
pub mod image_format;
pub mod job;
pub mod output;
pub mod schedule;
pub mod system;
pub mod workers;
pub mod log;
