//! Capture-to-broadcast core of a global input relay: translation of raw
//! keyboard and mouse events into canonical actions, mouse-move throttling,
//! the JSON wire record, and the per-subscriber delivery session.
pub mod event;
pub mod symbols;
pub mod throttle;
pub mod translate;
pub mod wire;
pub mod session;
