use dlpark::{DataType, DataTypeCode, Device, DeviceType, PackVersion};
use dlpark::pack_version::{DLPACK_MAJOR_VERSION, DLPACK_MINOR_VERSION};

#[test]
fn data_type_codes_round_trip() {
    let codes = [
        DataTypeCode::Int,
        DataTypeCode::UInt,
        DataTypeCode::Float,
        DataTypeCode::OpaqueHandle,
        DataTypeCode::Bfloat,
        DataTypeCode::Complex,
        DataTypeCode::Bool,
    ];
    for c in codes {
        assert_eq!(DataTypeCode::from_code(c.code()), Some(c));
    }
    assert_eq!(DataTypeCode::from_code(7), None);
    assert_eq!(DataTypeCode::Float.code(), 2);
}

#[test]
fn device_codes_round_trip() {
    let kinds = [
        DeviceType::Cpu,
        DeviceType::Cuda,
        DeviceType::CudaHost,
        DeviceType::OpenCl,
        DeviceType::Vulkan,
        DeviceType::Metal,
        DeviceType::Vpi,
        DeviceType::Rocm,
        DeviceType::RocmHost,
        DeviceType::ExtDev,
        DeviceType::CudaManaged,
        DeviceType::OneApi,
        DeviceType::WebGpu,
        DeviceType::Hexagon,
    ];
    for k in kinds {
        assert_eq!(DeviceType::from_code(k.code()), Some(k));
    }
    assert_eq!(DeviceType::from_code(0), None);
    assert_eq!(DeviceType::from_code(5), None);
    assert_eq!(DeviceType::from_code(6), None);
    assert_eq!(DeviceType::from_code(17), None);
    assert_eq!(DeviceType::Cpu.code(), 1);
}

#[test]
fn data_type_construction() {
    let dt = DataType::from((DataTypeCode::UInt, 8, 1));
    assert_eq!(dt, DataType::uint8());
    assert_eq!(dt.size(), 1);
    assert_eq!(DataType::float32().size(), 4);
    assert_eq!(DataType::int64().size(), 8);
    let packed = DataType { code: DataTypeCode::UInt, bits: 1, lanes: 24 };
    assert_eq!(packed.size(), 3);
    assert_eq!(DataType::default(), DataType::float32());
    assert_eq!(DataTypeCode::default(), DataTypeCode::Float);
}

#[test]
fn default_device_is_cpu() {
    assert_eq!(Device::default(), Device::cpu());
    assert_eq!(Device::cpu().device_id, 0);
    assert_eq!(Device::cpu().device_type, DeviceType::Cpu);
}

#[test]
fn pack_version_negotiation() {
    let v = PackVersion::default();
    assert_eq!(v.major, DLPACK_MAJOR_VERSION);
    assert_eq!(v.minor, DLPACK_MINOR_VERSION);
    assert!(v.is_compatible_with(DLPACK_MAJOR_VERSION));

    let old = PackVersion { major: 0, minor: 8 };
    assert!(!old.is_compatible_with(DLPACK_MAJOR_VERSION));
    // A newer minor version of the same major is still accepted.
    let newer_minor = PackVersion { major: DLPACK_MAJOR_VERSION, minor: DLPACK_MINOR_VERSION + 7 };
    assert!(newer_minor.is_compatible_with(DLPACK_MAJOR_VERSION));
}
