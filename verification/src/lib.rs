//! A verified model of a small dashboard application: a host list with
//! togglable entries, demo chart data in fixed-point milli-units, a frame
//! description built anew from the state on every repaint, and a persistence
//! codec that survives a missing or corrupt blob by falling back to defaults.
pub mod charts;
pub mod codec;
pub mod frame;
pub mod labels;
pub mod state;
