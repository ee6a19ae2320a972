//! A cell-grid rendering core: it lets a terminal-style character buffer be
//! drawn onto a host renderer (an entity/component scene or an ASCII-tile
//! engine) instead of a real terminal.
//!
//! The library owns the styled cell buffer, the backend adapter that merges
//! draw calls into it while queueing pending updates, the color and style
//! mapping to host-native colors, the reconciliation of pending updates
//! against persistent per-coordinate visual objects, and the lifecycle state
//! machine that sequences font loading, clearing, cell initialization and
//! steady-state updates.  Host-side work (spawning visual objects, loading
//! assets, window events) stays outside; the core hands it plain values.

pub mod backend;
pub mod buffer;
pub mod cell;
pub mod color;
pub mod components;
pub mod identity;
pub mod laws;
pub mod lifecycle;
pub mod reconcile;
