//! React to "clicks" of single-button wireless input devices (shutter
//! remotes and the like), identified by hardware address.
//!
//! The crate verifies the decision logic of the listener: which device an
//! enumeration matches, which raw events count as clicks, how many callback
//! dispatches a batch produces and in what order, and how the per-device
//! pipeline moves between locating, watching and backing off.

pub mod event;
pub mod locator;
pub mod manager;
pub mod pipeline;
pub mod watcher;
