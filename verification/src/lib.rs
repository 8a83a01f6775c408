//! Core of a synthetic-load engine.
//!
//! The engine runs up to three workloads side by side: a simulated network
//! flood, a CPU duty-cycle burner and a memory grower. This crate holds the
//! rules of that engine as sequential state machines: which workers a unit
//! asks for, what each worker does on a tick, when a change of the dial
//! forces a restart, what the activity log keeps, and what the registry
//! guarantees about the units it owns. Threads, sockets and files belong to
//! the program around this crate; it performs what the functions here
//! decide and hands back what it observed.

pub mod app_state;
pub mod attacks;
pub mod communication;
pub mod cpu_spike;
pub mod ddos;
pub mod intensity;
pub mod logger;
pub mod memory_leak;
pub mod text;
mod platform;

pub use intensity::Intensity;
