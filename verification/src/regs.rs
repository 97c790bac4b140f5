//! Register and segment state for a virtual CPU entering 16-bit real mode.
//!
//! Execution is meant to begin at offset 0 of the loaded image, addressed
//! through a code segment whose linear base is its selector value times 16
//! (classic real-mode `segment:offset` addressing). The structures here are
//! plain values; the application copies them into the hardware registers
//! before the first resume.

use vstd::prelude::*;

verus! {

/// Flags-register value for entry: the architectural power-on default
/// (the reserved always-one bit 1) with the interrupts-enabled flag
/// (bit 9) set on top of it.
pub const ENTRY_RFLAGS: u64 = 0x202;

/// Stack-pointer value for entry: the top of the 32-bit address range.
pub const ENTRY_RSP: u64 = 0xFFFF_FFFF;

/// One segment register as the entry configuration sets it: a selector
/// and the linear base address derived from it. Limit and attribute
/// fields are left at their architectural power-on defaults and are not
/// modeled here.
#[derive(Clone, Copy, Debug, PartialEq, Eq)]
pub struct SegmentState {
    pub selector: u16,
    pub base: u64,
}

/// The linear base address that real-mode addressing assigns to a
/// segment selector: the selector value times 16.
pub open spec fn real_mode_base(selector: u16) -> int {
    16 * (selector as int)
}

/// The segment state real-mode entry demands for a selector.
pub open spec fn real_mode_segment(selector: u16) -> SegmentState {
    SegmentState { selector, base: real_mode_base(selector) as u64 }
}

/// A segment is consistent with real-mode addressing: its base reads
/// back as exactly its selector times 16.
pub open spec fn segment_is_real_mode(s: SegmentState) -> bool {
    s.base == real_mode_base(s.selector)
}

/// The six segment registers the entry configuration sets: code, stack,
/// data, and the three extra segments.
#[derive(Clone, Copy, Debug, PartialEq, Eq)]
pub struct SegmentConfig {
    pub cs: SegmentState,
    pub ss: SegmentState,
    pub ds: SegmentState,
    pub es: SegmentState,
    pub fs: SegmentState,
    pub gs: SegmentState,
}

/// All six segments configured for real-mode entry at one selector.
pub open spec fn real_mode_segments(selector: u16) -> SegmentConfig {
    SegmentConfig {
        cs: real_mode_segment(selector),
        ss: real_mode_segment(selector),
        ds: real_mode_segment(selector),
        es: real_mode_segment(selector),
        fs: real_mode_segment(selector),
        gs: real_mode_segment(selector),
    }
}

/// Every segment's base equals its selector times 16.
pub open spec fn segments_well_formed(c: SegmentConfig) -> bool {
    &&& segment_is_real_mode(c.cs)
    &&& segment_is_real_mode(c.ss)
    &&& segment_is_real_mode(c.ds)
    &&& segment_is_real_mode(c.es)
    &&& segment_is_real_mode(c.fs)
    &&& segment_is_real_mode(c.gs)
}

/// Builds the segment configuration for real-mode entry: every selector
/// is `selector`, every base is `selector * 16`.
pub fn configure_segments(selector: u16) -> (c: SegmentConfig)
    ensures
        c == real_mode_segments(selector),
        segments_well_formed(c),
        c.cs.selector == selector,
        c.cs.base == real_mode_base(selector),
{
    let base: u64 = (selector as u64) * 16;
    let seg = SegmentState { selector, base };
    SegmentConfig { cs: seg, ss: seg, ds: seg, es: seg, fs: seg, gs: seg }
}

/// The general-purpose register state the entry configuration sets.
/// Registers it does not touch keep their power-on defaults and are not
/// modeled here.
#[derive(Clone, Copy, Debug, PartialEq, Eq)]
pub struct GeneralRegisters {
    pub rflags: u64,
    pub rip: u64,
    pub rsp: u64,
    pub rbp: u64,
}

/// The general-register state real-mode entry demands: flags at their
/// power-on default with interrupts enabled, instruction pointer 0,
/// stack pointer at the top of the 32-bit range, base pointer 0.
pub open spec fn entry_general_registers() -> GeneralRegisters {
    GeneralRegisters { rflags: ENTRY_RFLAGS, rip: 0, rsp: ENTRY_RSP, rbp: 0 }
}

/// Builds the general-register state for entry. The instruction pointer
/// is 0, so execution begins at the start of the loaded image relative
/// to the code segment base.
pub fn configure_general_registers() -> (r: GeneralRegisters)
    ensures
        r == entry_general_registers(),
        r.rip == 0,
        r.rsp == 0xFFFF_FFFF,
        r.rbp == 0,
        r.rflags == ENTRY_RFLAGS,
{
    GeneralRegisters { rflags: ENTRY_RFLAGS, rip: 0, rsp: ENTRY_RSP, rbp: 0 }
}

/// The whole register file a virtual CPU needs before its first resume:
/// configuring it moves the CPU from *created* to *configured*, the state
/// the dispatcher requires.
#[derive(Clone, Copy, Debug, PartialEq, Eq)]
pub struct VcpuPlan {
    pub segments: SegmentConfig,
    pub general: GeneralRegisters,
}

/// The register file for real-mode entry at `code_selector`.
pub open spec fn vcpu_plan_for(code_selector: u16) -> VcpuPlan {
    VcpuPlan {
        segments: real_mode_segments(code_selector),
        general: entry_general_registers(),
    }
}

/// Builds the complete register file for real-mode entry: segments per
/// `code_selector`, general registers at their entry values.
pub fn plan_vcpu(code_selector: u16) -> (p: VcpuPlan)
    ensures
        p == vcpu_plan_for(code_selector),
        segments_well_formed(p.segments),
{
    VcpuPlan {
        segments: configure_segments(code_selector),
        general: configure_general_registers(),
    }
}

} // verus!
