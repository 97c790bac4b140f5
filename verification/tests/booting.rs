use realmode_vm::boot::prepare_boot;
use realmode_vm::config::{default_config, VmConfig};
use realmode_vm::mem::LoadError;

#[test]
fn prepare_builds_memory_registers_and_policy() {
    let config = VmConfig { mem_size: 32, code_selector: 0x1000, pace_millis: 500 };
    let image = vec![0xB0u8, 0x42, 0xE6, 0xF8, 0x03, 0xF4];
    let plan = prepare_boot(&config, &image).unwrap();

    assert_eq!(plan.memory.size(), 32);
    for i in 0..image.len() {
        assert_eq!(plan.memory.read_byte(i), image[i]);
    }
    for i in image.len()..32 {
        assert_eq!(plan.memory.read_byte(i), 0);
    }

    assert_eq!(plan.vcpu.segments.cs.selector, 0x1000);
    assert_eq!(plan.vcpu.segments.cs.base, 0x10000);
    assert_eq!(plan.vcpu.general.rip, 0);
    assert_eq!(plan.vcpu.general.rsp, 0xFFFF_FFFF);
    assert_eq!(plan.vcpu.general.rbp, 0);

    assert_eq!(plan.policy.delay_millis, 500);
}

// An image longer than the configured memory must fail with a
// defined error before any resume could happen.
#[test]
fn oversized_image_fails_before_anything_runs() {
    let config = VmConfig { mem_size: 4, code_selector: 0x1000, pace_millis: 1000 };
    let image = vec![0u8; 5];
    match prepare_boot(&config, &image) {
        Err(e) => assert_eq!(e, LoadError::ImageTooLarge { image_len: 5, mem_size: 4 }),
        Ok(_) => panic!("an image larger than memory must be refused"),
    }
}

#[test]
fn defaults_match_the_harness_constants() {
    let config = default_config();
    assert_eq!(config.mem_size, 51_200_000);
    assert_eq!(config.code_selector, 0x1000);
    assert_eq!(config.pace_millis, 1000);
}

#[test]
fn prepare_at_default_size_loads_the_image() {
    let config = default_config();
    let image = vec![0xF4u8];
    let plan = prepare_boot(&config, &image).unwrap();
    assert_eq!(plan.memory.size(), 51_200_000);
    assert_eq!(plan.memory.read_byte(0), 0xF4);
    assert_eq!(plan.memory.read_byte(51_199_999), 0);
}
