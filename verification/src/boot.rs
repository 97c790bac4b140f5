//! Building one ready-to-run machine from a configuration and an image.
//!
//! This is the whole setup path in one verified step: allocate the guest
//! memory region, load the image at offset 0 — refusing an image larger
//! than the region before anything could run — and compute the register
//! file and pacing policy. The application then only registers the
//! memory, copies the registers in, and drives the resume loop.

use vstd::prelude::*;

use crate::config::VmConfig;
use crate::dispatch::PacingPolicy;
use crate::mem::{GuestMemory, LoadError};
use crate::regs::{segments_well_formed, vcpu_plan_for, plan_vcpu, VcpuPlan};

verus! {

/// A machine ready for its first resume: the loaded guest memory region,
/// the register file for real-mode entry, and the dispatcher's pacing
/// policy.
pub struct BootPlan {
    pub memory: GuestMemory,
    pub vcpu: VcpuPlan,
    pub policy: PacingPolicy,
}

/// Builds the machine: fresh zeroed guest memory of the configured size
/// with `image` at offset 0, registers per the configured code selector,
/// pacing per the configured pause. Fails, touching nothing, exactly
/// when the image is larger than the configured memory.
pub fn prepare_boot(config: &VmConfig, image: &Vec<u8>) -> (r: Result<BootPlan, LoadError>)
    ensures
        r is Ok <==> image@.len() <= config.mem_size,
        r matches Ok(p) ==> {
            &&& p.memory@.len() == config.mem_size
            &&& forall|i: int| 0 <= i < image@.len() ==> p.memory@[i] == image@[i]
            &&& forall|i: int| image@.len() <= i < config.mem_size ==> p.memory@[i] == 0u8
            &&& p.vcpu == vcpu_plan_for(config.code_selector)
            &&& segments_well_formed(p.vcpu.segments)
            &&& p.policy.delay_millis == config.pace_millis
        },
        r matches Err(e) ==> e == (LoadError::ImageTooLarge {
            image_len: image.len(),
            mem_size: config.mem_size,
        }),
{
    let mut memory = GuestMemory::new(config.mem_size);
    match memory.load_image(image) {
        Ok(()) => Ok(BootPlan {
            memory,
            vcpu: plan_vcpu(config.code_selector),
            policy: PacingPolicy { delay_millis: config.pace_millis },
        }),
        Err(e) => Err(e),
    }
}

} // verus!
