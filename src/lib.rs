//! A bridge between a native host and a fixed-dimension global optimizer.
//!
//! The library holds the decisions of the bridge: which problem sizes are
//! served, how the active objective callback is held for one run at a time,
//! how an optimizer result is laid out in flat buffers, and which results are
//! still owned by the host and may be released.
pub mod error;
pub mod dispatch;
pub mod slot;
pub mod layout;
pub mod marshal;
pub mod registry;
