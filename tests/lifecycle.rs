use daxa::device::{Buffer, Device, NativeCall};
use daxa::info::{DeviceInfo, DeviceType, MemoryRequirements, DEVICE_FLAG_BUFFER_DEVICE_ADDRESS_CAPTURE_REPLAY_BIT};
use daxa::status::{classify, Status};

const DEVICE: u64 = 0xD0;

#[test]
fn buffer_destroyed_after_last_clone_then_device() {
    let mut d = Device::new(DEVICE);
    let b1 = d.create_buffer(0, 42).unwrap();
    assert_eq!(b1.id(), 42);
    let b2 = d.clone_buffer(&b1);
    assert_eq!(b2.id(), 42);
    let calls = d.drop_buffer(b1);
    assert!(calls.is_empty());
    let calls = d.drop_buffer(b2);
    assert_eq!(calls, vec![NativeCall::DestroyBuffer { device: DEVICE, id: 42 }]);
    assert!(!d.is_destroyed());
    let calls = d.release();
    assert_eq!(calls, vec![NativeCall::DestroyDevice { device: DEVICE }]);
    assert!(d.is_destroyed());
}

#[test]
fn failed_image_creation_yields_no_image_and_no_destroy() {
    let mut d = Device::new(DEVICE);
    let r = d.create_image(Status::ErrorOutOfDeviceMemory.code(), 9);
    assert!(matches!(r, Err(Status::ErrorOutOfDeviceMemory)));
    assert_eq!(d.live_resources(), 0);
    let calls = d.release();
    assert_eq!(calls, vec![NativeCall::DestroyDevice { device: DEVICE }]);
}

#[test]
fn non_success_positive_code_is_an_error() {
    let mut d = Device::new(DEVICE);
    assert!(matches!(d.create_buffer(1, 3), Err(Status::NotReady)));
    assert!(matches!(d.create_sampler(-4, 3), Err(Status::ErrorDeviceLost)));
    assert!(matches!(d.create_image_view(-13, 3), Err(Status::ErrorUnknown)));
    assert_eq!(d.live_resources(), 0);
}

#[test]
fn device_survives_resources_while_referenced() {
    let mut d = Device::new(DEVICE);
    let b = d.create_buffer(0, 1).unwrap();
    let i = d.create_image(0, 2).unwrap();
    assert_eq!(d.drop_buffer(b), vec![NativeCall::DestroyBuffer { device: DEVICE, id: 1 }]);
    assert_eq!(d.drop_image(i), vec![NativeCall::DestroyImage { device: DEVICE, id: 2 }]);
    assert!(!d.is_destroyed());
    assert_eq!(d.holders(), 1);
}

#[test]
fn last_resource_destroys_device_after_itself() {
    let mut d = Device::new(DEVICE);
    let s = d.create_sampler(0, 5).unwrap();
    assert!(d.release().is_empty());
    assert!(!d.is_destroyed());
    let calls = d.drop_sampler(s);
    assert_eq!(
        calls,
        vec![
            NativeCall::DestroySampler { device: DEVICE, id: 5 },
            NativeCall::DestroyDevice { device: DEVICE },
        ]
    );
    assert!(d.is_destroyed());
}

#[test]
fn device_clones_destroy_once() {
    let mut d = Device::new(DEVICE);
    d.acquire();
    d.acquire();
    assert_eq!(d.holders(), 3);
    assert!(d.release().is_empty());
    assert!(d.release().is_empty());
    assert_eq!(d.release(), vec![NativeCall::DestroyDevice { device: DEVICE }]);
}

fn drop_clones(n: usize) {
    let mut d = Device::new(DEVICE);
    let first = d.create_buffer(0, 77).unwrap();
    let mut handles: Vec<Buffer> = Vec::new();
    for _ in 1..n {
        handles.push(d.clone_buffer(&first));
    }
    handles.push(first);
    let mut destroys = 0;
    let mut left = handles.len();
    while let Some(h) = handles.pop() {
        let calls = d.drop_buffer(h);
        left -= 1;
        if left > 0 {
            assert!(calls.is_empty());
        }
        destroys += calls
            .iter()
            .filter(|c| **c == NativeCall::DestroyBuffer { device: DEVICE, id: 77 })
            .count();
    }
    assert_eq!(destroys, 1);
    assert_eq!(d.live_resources(), 0);
    assert!(!d.is_destroyed());
}

#[test]
fn two_clones_destroy_once() {
    drop_clones(2);
}

#[test]
fn eight_clones_destroy_once() {
    drop_clones(8);
}

#[test]
fn sixty_four_clones_destroy_once() {
    drop_clones(64);
}

#[test]
fn each_kind_uses_its_own_destroy() {
    let mut d = Device::new(DEVICE);
    let v = d.create_image_view(0, 10).unwrap();
    let s = d.create_sampler(0, 11).unwrap();
    let i = d.create_image(0, 12).unwrap();
    assert_eq!(d.drop_image_view(v), vec![NativeCall::DestroyImageView { device: DEVICE, id: 10 }]);
    assert_eq!(d.drop_sampler(s), vec![NativeCall::DestroySampler { device: DEVICE, id: 11 }]);
    let i2 = d.clone_image(&i);
    assert!(d.drop_image(i).is_empty());
    assert_eq!(d.drop_image(i2), vec![NativeCall::DestroyImage { device: DEVICE, id: 12 }]);
}

#[test]
fn clones_share_id() {
    let mut d = Device::new(DEVICE);
    let v = d.create_image_view(0, 31).unwrap();
    let v2 = d.clone_image_view(&v);
    assert_eq!(v.id(), v2.id());
    let s = d.create_sampler(0, 32).unwrap();
    let s2 = d.clone_sampler(&s);
    assert_eq!(s2.id(), 32);
    assert_eq!(d.live_resources(), 2);
}

#[test]
fn memory_block_only_on_success() {
    let d = Device::new(DEVICE);
    let m = d.create_memory(0, 1234).unwrap();
    assert_eq!(m.handle(), 1234);
    assert!(matches!(d.create_memory(-2, 1), Err(Status::ErrorOutOfDeviceMemory)));
}

#[test]
fn classify_known_and_unknown_codes() {
    assert_eq!(classify(0), Some(Status::Success));
    assert_eq!(classify(-1), Some(Status::ErrorOutOfHostMemory));
    assert_eq!(classify(-8), Some(Status::ErrorFeatureNotPresent));
    assert_eq!(classify(-1000069000), Some(Status::ErrorOutOfPoolMemory));
    assert_eq!(classify(1000001003), Some(Status::Suboptimal));
    assert_eq!(classify(6), None);
    assert_eq!(classify(-14), None);
    assert_eq!(classify(i32::MIN), None);
}

#[test]
fn status_code_round_trip() {
    let all = [
        Status::Success,
        Status::Timeout,
        Status::ErrorDeviceLost,
        Status::ErrorFragmentation,
        Status::PipelineCompileRequired,
        Status::ErrorOutOfDate,
    ];
    for s in all {
        assert_eq!(classify(s.code()), Some(s));
    }
    assert_eq!(Status::ErrorDeviceLost.code(), -4);
    assert!(Status::Success.is_success());
    assert!(!Status::Incomplete.is_success());
}

#[test]
fn device_type_codes() {
    assert_eq!(DeviceType::DiscreteGpu.code(), 2);
    assert_eq!(DeviceType::from_code(4), Some(DeviceType::Cpu));
    assert_eq!(DeviceType::from_code(0), Some(DeviceType::Other));
    assert_eq!(DeviceType::from_code(5), None);
    assert_eq!(DeviceType::from_code(-1), None);
}

#[test]
fn device_info_defaults() {
    let info = DeviceInfo::default();
    assert_eq!(info.flags, DEVICE_FLAG_BUFFER_DEVICE_ADDRESS_CAPTURE_REPLAY_BIT);
    assert_eq!(info.max_allowed_images, 10000);
    assert_eq!(info.max_allowed_buffers, 10000);
    assert_eq!(info.max_allowed_samplers, 10000);
    assert!(info.name.is_empty());
}

#[test]
fn memory_requirements_hold_reported_values() {
    let r = MemoryRequirements { size: 4096, alignment: 256, memory_type_bits: 7 };
    let c = r;
    assert_eq!(c, MemoryRequirements { size: 4096, alignment: 256, memory_type_bits: 7 });
}

#[test]
fn reference_counts_follow_clones() {
    let mut d = Device::new(DEVICE);
    let _ = d.create_image(0, 1).unwrap();
    let b = d.create_buffer(0, 2).unwrap();
    assert_eq!(b.slot(), 1);
    assert_eq!(d.refs(b.slot()), 1);
    let b2 = d.clone_buffer(&b);
    assert_eq!(d.refs(b.slot()), 2);
    assert!(d.drop_buffer(b2).is_empty());
    assert_eq!(d.refs(b.slot()), 1);
    assert_eq!(d.handle(), DEVICE);
}

#[test]
fn handles_compare_by_native_id() {
    let mut d = Device::new(DEVICE);
    let a = d.create_buffer(0, 8).unwrap();
    let a2 = d.clone_buffer(&a);
    let b = d.create_buffer(0, 9).unwrap();
    assert!(a == a2);
    assert!(a != b);
}
