//! Verified core of a Rust binding to Zephyr's zbus message bus.
//!
//! The crate models the handles that the binding passes to the kernel
//! (channel and observer references), the conversion of timeouts into the
//! kernel's millisecond argument, the interpretation of the kernel's status
//! codes, the claim protocol of a channel and the preparation of log text.
//! The kernel calls themselves are made by the surrounding program.

pub mod messages;
pub mod zephyr;
