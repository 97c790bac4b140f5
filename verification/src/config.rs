//! The configuration a virtual machine is built from.
//!
//! The harness's fixed numbers — memory size, code segment selector, and
//! the pacing pause after each reported I/O write — are supplied here as
//! an explicit value rather than compiled into the logic.

use vstd::prelude::*;

verus! {

/// The guest memory size the harness uses by default, in bytes.
pub const DEFAULT_MEM_SIZE: usize = 51_200_000;

/// The code segment selector the harness uses by default; the image is
/// then executed at physical address `0x1000 * 16 = 0x10000`.
pub const DEFAULT_CODE_SELECTOR: u16 = 0x1000;

/// The pacing pause after each reported I/O write, by default one
/// second.
pub const DEFAULT_PACE_MILLIS: u64 = 1000;

/// Everything a virtual machine is built from: the guest memory size in
/// bytes, the real-mode code segment selector, and the pacing pause in
/// milliseconds.
#[derive(Clone, Copy, Debug, PartialEq, Eq)]
pub struct VmConfig {
    pub mem_size: usize,
    pub code_selector: u16,
    pub pace_millis: u64,
}

/// The configuration with every knob at its default.
pub fn default_config() -> (c: VmConfig)
    ensures
        c.mem_size == DEFAULT_MEM_SIZE,
        c.code_selector == DEFAULT_CODE_SELECTOR,
        c.pace_millis == DEFAULT_PACE_MILLIS,
{
    VmConfig {
        mem_size: DEFAULT_MEM_SIZE,
        code_selector: DEFAULT_CODE_SELECTOR,
        pace_millis: DEFAULT_PACE_MILLIS,
    }
}

} // verus!
