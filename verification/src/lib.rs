//! A polling state machine for batched asynchronous asset loading.
//!
//! A loader issues a batch of named load requests to an external asset
//! service and records the returned handles as a pending-load set. A gate
//! polls the per-handle load states once per scheduler tick; when every
//! handle in the batch has loaded, the load gate builds the resolved asset
//! bundle, discards the pending set, and moves the application state from
//! `Load` to `Game` in one tick-atomic step. `Game` is terminal.
//!
//! The engine itself (scheduler, asset pipeline, audio mixing, rendering)
//! is an external collaborator: callers perform the actual loads and hand
//! the observed load states to the load gate each tick.

pub mod app_state;
pub mod audio_timer;
pub mod gate;
pub mod load_state;
pub mod scene;
