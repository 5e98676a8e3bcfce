//! The device half of a tensor descriptor: which kind of memory the buffer
//! lives in, and the index of the device of that kind.

use vstd::prelude::*;

verus! {

/// The kind of device a buffer lives on, as the wire format enumerates it.
#[derive(Clone, Copy, Debug, PartialEq, Eq, Structural)]
pub enum DeviceType {
    Cpu,
    Cuda,
    CudaHost,
    OpenCl,
    Vulkan,
    Metal,
    Vpi,
    Rocm,
    RocmHost,
    ExtDev,
    CudaManaged,
    OneApi,
    WebGpu,
    Hexagon,
}

impl DeviceType {
    /// The numeric code the wire format assigns to this device kind.
    pub open spec fn spec_code(&self) -> i32 {
        match self {
            DeviceType::Cpu => 1,
            DeviceType::Cuda => 2,
            DeviceType::CudaHost => 3,
            DeviceType::OpenCl => 4,
            DeviceType::Vulkan => 7,
            DeviceType::Metal => 8,
            DeviceType::Vpi => 9,
            DeviceType::Rocm => 10,
            DeviceType::RocmHost => 11,
            DeviceType::ExtDev => 12,
            DeviceType::CudaManaged => 13,
            DeviceType::OneApi => 14,
            DeviceType::WebGpu => 15,
            DeviceType::Hexagon => 16,
        }
    }

    /// The numeric code the wire format assigns to this device kind.
    pub fn code(&self) -> (r: i32)
        ensures
            r == self.spec_code(),
    {
        match self {
            DeviceType::Cpu => 1,
            DeviceType::Cuda => 2,
            DeviceType::CudaHost => 3,
            DeviceType::OpenCl => 4,
            DeviceType::Vulkan => 7,
            DeviceType::Metal => 8,
            DeviceType::Vpi => 9,
            DeviceType::Rocm => 10,
            DeviceType::RocmHost => 11,
            DeviceType::ExtDev => 12,
            DeviceType::CudaManaged => 13,
            DeviceType::OneApi => 14,
            DeviceType::WebGpu => 15,
            DeviceType::Hexagon => 16,
        }
    }

    /// Decode a wire code; every device kind decodes back to itself, and
    /// codes the format does not define are rejected.
    pub fn from_code(code: i32) -> (r: Option<DeviceType>)
        ensures
            r matches Some(d) ==> d.spec_code() == code,
            r is None <==> !(1 <= code <= 4 || 7 <= code <= 16),
    {
        match code {
            1 => Some(DeviceType::Cpu),
            2 => Some(DeviceType::Cuda),
            3 => Some(DeviceType::CudaHost),
            4 => Some(DeviceType::OpenCl),
            7 => Some(DeviceType::Vulkan),
            8 => Some(DeviceType::Metal),
            9 => Some(DeviceType::Vpi),
            10 => Some(DeviceType::Rocm),
            11 => Some(DeviceType::RocmHost),
            12 => Some(DeviceType::ExtDev),
            13 => Some(DeviceType::CudaManaged),
            14 => Some(DeviceType::OneApi),
            15 => Some(DeviceType::WebGpu),
            16 => Some(DeviceType::Hexagon),
            _ => None,
        }
    }
}

/// A device: its kind and the index of the device of that kind.
#[derive(Clone, Copy, Debug, PartialEq, Eq, Structural)]
pub struct Device {
    pub device_type: DeviceType,
    pub device_id: i32,
}

impl Device {
    /// The host CPU.
    pub fn cpu() -> (r: Self)
        ensures
            r == (Device { device_type: DeviceType::Cpu, device_id: 0 }),
    {
        Self { device_type: DeviceType::Cpu, device_id: 0 }
    }
}

impl Default for Device {
    /// The conventional default device is the host CPU.
    fn default() -> (r: Self)
        ensures
            r == (Device { device_type: DeviceType::Cpu, device_id: 0 }),
    {
        Self { device_type: DeviceType::Cpu, device_id: 0 }
    }
}

} // verus!
