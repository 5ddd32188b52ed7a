//! A minimal PID 1 init for OCI containers: it spawns the workload in its own
//! process group, blocks the signals it handles and reads them from a
//! signalfd, forwards them to the workload's group, reaps zombies, and
//! reports the workload's status.
//!
//! This crate holds the decisions of that init, each with a contract: which
//! signals are blocked, how a received signal is handled, what each wait
//! result leads to, and how the container executor finds the program it
//! launches. The caller makes the system calls and feeds their results back.

pub mod cli;
pub mod descriptors;
pub mod env;
pub mod executor;
pub mod laws;
pub mod signals;
pub mod supervisor;

pub use executor::Crostini;
