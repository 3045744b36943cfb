pub mod alerts;
pub mod clock;
pub mod config;
pub mod health;
pub mod laws;
pub mod monitor;
pub mod poll;
pub mod probe;
