//! Host metrics snapshots, their append-only store with its polling
//! lifecycle, and the derived values that the panels chart and alert on.

pub mod cpu;
pub mod disco;
pub mod historial;
pub mod interfaces;
pub mod memoria;
pub mod metrics;
pub mod paneles;
pub mod procesos;
