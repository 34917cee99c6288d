//! Follows the attach/detach edges of one USB device and decides when the
//! keyboard layout has to be switched.
//!
//! The library holds the decisions only: the device listing and the layout
//! command are performed by the caller, which hands their outcomes in as plain
//! values.
pub mod device;
pub mod detector;
pub mod controller;
