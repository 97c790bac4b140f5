//! A minimal real-mode guest bootstrapper, verified.
//!
//! The library holds the logic of a tiny hardware-virtualization test
//! harness: it models the guest memory region and the loading of a raw
//! binary image into it, computes the register and segment state for a
//! virtual CPU entering 16-bit real mode, and decides how each exit the
//! virtual CPU reports is handled. The host-facing work (opening the
//! virtualization device, registering memory, the resume loop itself)
//! lives in the surrounding application, which feeds plain values in and
//! carries the decisions out.

pub mod boot;
pub mod config;
pub mod dispatch;
pub mod mem;
pub mod regs;
