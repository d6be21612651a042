//! A half-hourly check-in reminder: a clock model, the schedule of trigger
//! minutes, and the reminder state machine that a window drives once per frame.

pub mod clock;
pub mod scheduler;
pub mod config;
pub mod reminder;
pub mod app;
