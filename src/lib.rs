//! Back-end of a paravirtualized memory-balloon device.
//!
//! The library holds the device's decisions: the configuration window shared
//! with the guest, the statistics bank, the per-queue handling of descriptor
//! chains (expressed as the ordered host actions that a drain requires), the
//! activation layout of the virtqueues, and the persisted device state.
//! Performing those actions against guest memory, the host kernel and the
//! interrupt injector is left to the embedding program.
pub mod config;
pub mod counters;
pub mod device;
pub mod error;
pub mod handler;
pub mod laws;
pub mod le;
pub mod queue;
