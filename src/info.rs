use vstd::prelude::*;

verus! {

pub const DEVICE_FLAG_BUFFER_DEVICE_ADDRESS_CAPTURE_REPLAY_BIT: u64 = 1;
pub const DEVICE_FLAG_CONSERVATIVE_RASTERIZATION: u64 = 2;
pub const DEVICE_FLAG_MESH_SHADER_BIT: u64 = 4;
pub const DEVICE_FLAG_SHADER_ATOMIC64: u64 = 8;
pub const DEVICE_FLAG_IMAGE_ATOMIC64: u64 = 16;
pub const DEVICE_FLAG_VK_MEMORY_MODEL: u64 = 32;

/// The type of a physical device.
#[derive(Clone, Copy, Debug, PartialEq, Eq, Structural)]
pub enum DeviceType {
    Other,
    IntegratedGpu,
    DiscreteGpu,
    VirtualGpu,
    Cpu,
}

/// The native code of each device type.
pub open spec fn device_type_code(t: DeviceType) -> i32 {
    match t {
        DeviceType::Other => 0,
        DeviceType::IntegratedGpu => 1,
        DeviceType::DiscreteGpu => 2,
        DeviceType::VirtualGpu => 3,
        DeviceType::Cpu => 4,
    }
}

impl DeviceType {
    /// The native code of this device type.
    pub fn code(&self) -> (r: i32)
        ensures
            r == device_type_code(*self),
    {
        match self {
            DeviceType::Other => 0,
            DeviceType::IntegratedGpu => 1,
            DeviceType::DiscreteGpu => 2,
            DeviceType::VirtualGpu => 3,
            DeviceType::Cpu => 4,
        }
    }

    /// The device type with native code `code`, if there is one.
    pub fn from_code(code: i32) -> (r: Option<DeviceType>)
        ensures
            r matches Some(t) ==> device_type_code(t) == code,
            r is None <==> !(0 <= code <= 4),
    {
        match code {
            0 => Some(DeviceType::Other),
            1 => Some(DeviceType::IntegratedGpu),
            2 => Some(DeviceType::DiscreteGpu),
            3 => Some(DeviceType::VirtualGpu),
            4 => Some(DeviceType::Cpu),
            _ => None,
        }
    }
}

/// What a device is created with: its feature flags, the capacity of its
/// resource tables, and a debug name.
pub struct DeviceInfo {
    pub flags: u64,
    pub max_allowed_images: u32,
    pub max_allowed_buffers: u32,
    pub max_allowed_samplers: u32,
    pub name: String,
}

impl Default for DeviceInfo {
    /// Buffer device address capture replay on, room for ten thousand of
    /// each resource, no name.
    fn default() -> (r: DeviceInfo)
        ensures
            r.flags == DEVICE_FLAG_BUFFER_DEVICE_ADDRESS_CAPTURE_REPLAY_BIT,
            r.max_allowed_images == 10000,
            r.max_allowed_buffers == 10000,
            r.max_allowed_samplers == 10000,
            r.name@.len() == 0,
    {
        DeviceInfo {
            flags: DEVICE_FLAG_BUFFER_DEVICE_ADDRESS_CAPTURE_REPLAY_BIT,
            max_allowed_images: 10000,
            max_allowed_buffers: 10000,
            max_allowed_samplers: 10000,
            name: String::new(),
        }
    }
}

/// The memory that a buffer or an image needs, as the native layer reports it.
#[derive(Clone, Copy, Debug, PartialEq, Eq, Structural)]
pub struct MemoryRequirements {
    pub size: u64,
    pub alignment: u64,
    pub memory_type_bits: u32,
}

} // verus!
