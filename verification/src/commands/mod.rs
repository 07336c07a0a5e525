//! What the monitor's commands compute.

pub mod show;

pub use show::show;
