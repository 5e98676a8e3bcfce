use dlpark::{
    DataType, DataTypeCode, Descriptor, Device, ManagedTensor, ManagerCtx, ShapeAndStrides,
    ToTensor,
};

struct F32Tensor(Vec<f32>);

impl ToTensor for F32Tensor {
    fn data_ptr(&self) -> usize {
        self.0.as_ptr() as usize
    }

    fn byte_offset(&self) -> u64 {
        0
    }

    fn device(&self) -> Device {
        Device::cpu()
    }

    fn dtype(&self) -> DataType {
        DataType::float32()
    }

    fn shape_and_strides(&self) -> ShapeAndStrides {
        ShapeAndStrides::new_contiguous(&[self.0.len() as i64])
    }
}

#[test]
fn from_vec_f32() {
    let v: Vec<f32> = (0..10).map(|x| x as f32).collect();
    let tensor = ManagerCtx::new(F32Tensor(v));
    assert_eq!(tensor.shape(), &[10]);
    assert_eq!(tensor.ndim(), 1);
    assert_eq!(tensor.device(), Device::cpu());
    assert_eq!(tensor.strides(), None);
    assert_eq!(tensor.byte_offset(), 0);
    assert_eq!(tensor.dtype(), DataType::float32());
}

#[test]
fn round_trip_reproduces_reported_values() {
    let v: Vec<u8> = vec![1, 2, 3, 4];
    let addr = v.as_ptr() as usize;
    let ctx = ManagerCtx::new(v);
    assert_eq!(ctx.data_ptr(), addr, "the buffer must not be copied");

    let triple = ctx.into_dlpack();
    let tensor = ManagedTensor::new(triple);
    assert_eq!(tensor.data_ptr(), addr, "the buffer must not be copied");
    assert_eq!(tensor.shape(), &[4]);
    assert_eq!(tensor.ndim(), 1);
    assert_eq!(tensor.device(), Device::cpu());
    assert_eq!(tensor.dtype(), DataType::uint8());
    assert_eq!(tensor.strides(), None);
    assert_eq!(tensor.byte_offset(), 0);

    let triple = tensor.into_inner();
    assert_eq!(triple.descriptor.data, addr);
    assert!(triple.has_release);
    assert_eq!(triple.value, vec![1, 2, 3, 4]);
}

#[test]
fn vec_i64_reports_itself() {
    let v: Vec<i64> = vec![10, 20, 30];
    let ctx = ManagerCtx::new(v);
    assert_eq!(ctx.shape(), &[3]);
    assert_eq!(ctx.dtype(), DataType::int64());
    assert_eq!(ctx.dtype().code, DataTypeCode::Int);
    assert_eq!(ctx.dtype().bits, 64);
}

#[test]
fn vec_i32_reports_itself() {
    let v: Vec<i32> = vec![10, 20, 30, 40];
    let ctx = ManagerCtx::new(v);
    assert_eq!(ctx.shape(), &[4]);
    assert_eq!(ctx.dtype(), DataType::int32());
    assert_eq!(ctx.device(), Device::cpu());
}

#[test]
fn num_elements_is_the_shape_product() {
    let d = Descriptor {
        data: 0x1000,
        device: Device::cpu(),
        dtype: DataType::uint8(),
        shape_and_strides: ShapeAndStrides::new_contiguous(&[2, 3, 4]),
        byte_offset: 0,
    };
    assert_eq!(d.num_elements(), 24);

    let scalar = Descriptor {
        data: 0x1000,
        device: Device::cpu(),
        dtype: DataType::uint8(),
        shape_and_strides: ShapeAndStrides::new_contiguous(&[]),
        byte_offset: 0,
    };
    assert_eq!(scalar.num_elements(), 1);

    let empty = Descriptor {
        data: 0x1000,
        device: Device::cpu(),
        dtype: DataType::uint8(),
        shape_and_strides: ShapeAndStrides::new_contiguous(&[5, 0, 7]),
        byte_offset: 0,
    };
    assert_eq!(empty.num_elements(), 0);
}

#[test]
fn dl_tensor_exposes_the_descriptor() {
    let ctx = ManagerCtx::new(vec![9u8, 8, 7]);
    let addr = ctx.data_ptr();
    let tensor = ManagedTensor::from_dlpack(ctx.into_dlpack());
    let d = tensor.dl_tensor();
    assert_eq!(d.data, addr);
    assert_eq!(d.dtype, DataType::uint8());
    let d2 = tensor.as_ptr();
    assert_eq!(d2.descriptor.data, addr);
    assert_eq!(tensor.num_elements(), 3);
}
