//! The adapter that exposes an arbitrary native tensor-like value through
//! the exchange triple without copying its buffer.

use vstd::prelude::*;

use crate::data_type::DataType;
use crate::device::Device;
use crate::shape_and_strides::ShapeAndStrides;
use crate::tensor::{Descriptor, ManagedTensor, ManagedTriple};

verus! {

/// A native value that can present itself as a tensor without copying: a
/// data address, a device, an element type, shape-and-stride storage and a
/// byte offset. This is the single extension point for adapting native
/// tensor types into the exchange format; nothing is proved about the
/// reported values themselves, and the library's contracts promise only
/// that whatever was reported at construction is handed through unchanged.
pub trait ToTensor {
    /// The address of the first element of the backing buffer.
    fn data_ptr(&self) -> usize;

    /// The offset in bytes at which the data starts.
    fn byte_offset(&self) -> u64;

    /// The device the buffer lives on.
    fn device(&self) -> Device;

    /// The element type of the buffer.
    fn dtype(&self) -> DataType;

    /// Freshly-built storage describing the value's shape and strides.
    fn shape_and_strides(&self) -> ShapeAndStrides;
}

/// Relies on `Vec::as_ptr` for the address of a vector's first element; its
/// documentation promises the returned pointer is never null.
#[verifier::external_body]
fn vec_data_addr<T>(v: &Vec<T>) -> (r: usize)
    ensures
        r != 0,
{
    v.as_ptr() as usize
}

impl ToTensor for Vec<u8> {
    fn data_ptr(&self) -> usize {
        vec_data_addr(self)
    }

    fn byte_offset(&self) -> u64 {
        0
    }

    fn device(&self) -> Device {
        Device::cpu()
    }

    fn dtype(&self) -> DataType {
        DataType::uint8()
    }

    fn shape_and_strides(&self) -> ShapeAndStrides {
        let mut shape: Vec<i64> = Vec::new();
        shape.push(self.len() as i64);
        ShapeAndStrides::Contiguous(shape)
    }
}

impl ToTensor for Vec<i32> {
    fn data_ptr(&self) -> usize {
        vec_data_addr(self)
    }

    fn byte_offset(&self) -> u64 {
        0
    }

    fn device(&self) -> Device {
        Device::cpu()
    }

    fn dtype(&self) -> DataType {
        DataType::int32()
    }

    fn shape_and_strides(&self) -> ShapeAndStrides {
        let mut shape: Vec<i64> = Vec::new();
        shape.push(self.len() as i64);
        ShapeAndStrides::Contiguous(shape)
    }
}

impl ToTensor for Vec<i64> {
    fn data_ptr(&self) -> usize {
        vec_data_addr(self)
    }

    fn byte_offset(&self) -> u64 {
        0
    }

    fn device(&self) -> Device {
        Device::cpu()
    }

    fn dtype(&self) -> DataType {
        DataType::int64()
    }

    fn shape_and_strides(&self) -> ShapeAndStrides {
        let mut shape: Vec<i64> = Vec::new();
        shape.push(self.len() as i64);
        ShapeAndStrides::Contiguous(shape)
    }
}

/// Owns one native value for the lifetime of an exchange, together with the
/// descriptor fields captured from it at construction. The buffer behind
/// the captured data address belongs to the owned value and is never
/// copied; it stays valid exactly as long as the value itself, which from
/// here on travels inside the triple until the release drops it.
#[derive(Debug)]
pub struct ManagerCtx<T> {
    value: T,
    descriptor: Descriptor,
}

impl<T> ManagerCtx<T> {
    /// The owned native value.
    pub closed spec fn spec_value(&self) -> T {
        self.value
    }

    /// The descriptor captured from the value at construction.
    pub closed spec fn spec_descriptor(&self) -> Descriptor {
        self.descriptor
    }

    /// The triple this adapter produces: its captured descriptor, the owned
    /// value as the context, and a release (the drop of the value).
    pub open spec fn spec_triple(&self) -> ManagedTriple<T> {
        ManagedTriple {
            descriptor: self.spec_descriptor(),
            value: self.spec_value(),
            has_release: true,
        }
    }

    /// Take ownership of `value` and capture the descriptor fields it
    /// reports. The value itself is stored unchanged: its buffer is not
    /// copied, and it is dropped only when the triple derived from this
    /// adapter is finally released.
    pub fn new(value: T) -> (r: Self) where T: ToTensor
        ensures
            r.spec_value() == value,
    {
        let data = value.data_ptr();
        let device = value.device();
        let dtype = value.dtype();
        let byte_offset = value.byte_offset();
        let shape_and_strides = value.shape_and_strides();
        ManagerCtx {
            value,
            descriptor: Descriptor { data, device, dtype, shape_and_strides, byte_offset },
        }
    }

    /// The address of the first element of the adapted buffer.
    pub fn data_ptr(&self) -> (r: usize)
        ensures
            r == self.spec_descriptor().data,
    {
        self.descriptor.data
    }

    /// The offset in bytes at which the data starts.
    pub fn byte_offset(&self) -> (r: u64)
        ensures
            r == self.spec_descriptor().byte_offset,
    {
        self.descriptor.byte_offset
    }

    /// The device the adapted buffer lives on.
    pub fn device(&self) -> (r: Device)
        ensures
            r == self.spec_descriptor().device,
    {
        self.descriptor.device
    }

    /// The element type of the adapted buffer.
    pub fn dtype(&self) -> (r: DataType)
        ensures
            r == self.spec_descriptor().dtype,
    {
        self.descriptor.dtype
    }

    /// Read-only view of the captured shape.
    pub fn shape(&self) -> (r: &[i64])
        ensures
            r@ == self.spec_descriptor().spec_shape(),
    {
        self.descriptor.shape_and_strides.shape()
    }

    /// Read-only view of the captured strides, absent when the layout is
    /// implicitly row-major.
    pub fn strides(&self) -> (r: Option<&[i64]>)
        ensures
            match r {
                Some(s) => self.spec_descriptor().spec_strides() == Some(s@),
                None => self.spec_descriptor().spec_strides() is None,
            },
    {
        self.descriptor.shape_and_strides.strides()
    }

    /// The dimension count of the captured shape.
    pub fn ndim(&self) -> (r: usize)
        ensures
            r as int == self.spec_descriptor().shape_and_strides.spec_len(),
    {
        self.descriptor.shape_and_strides.len()
    }

    /// Materialize the exchange triple: the captured descriptor, the owned
    /// value as the opaque context, and a release. Nothing is copied; the
    /// caller of this method is now solely responsible for the triple's
    /// eventual release.
    pub fn into_dlpack(self) -> (r: ManagedTriple<T>)
        ensures
            r == self.spec_triple(),
    {
        let ManagerCtx { value, descriptor } = self;
        ManagedTriple { descriptor, value, has_release: true }
    }
}

/// Round trip: the triple a `ManagerCtx` hands out carries exactly the
/// descriptor and value captured at construction, so a `ManagedTensor`
/// wrapping that triple reads back the same data address (no copy was
/// made), device, element type, byte offset, shape and strides that the
/// adapter cached, and owns the same native value.
pub proof fn lemma_round_trip_preserves_descriptor<T>(ctx: ManagerCtx<T>, tensor: ManagedTensor<T>)
    requires
        tensor.spec_triple() == ctx.spec_triple(),
    ensures
        tensor.spec_triple().descriptor.data == ctx.spec_descriptor().data,
        tensor.spec_triple().descriptor.device == ctx.spec_descriptor().device,
        tensor.spec_triple().descriptor.dtype == ctx.spec_descriptor().dtype,
        tensor.spec_triple().descriptor.byte_offset == ctx.spec_descriptor().byte_offset,
        tensor.spec_triple().descriptor.spec_shape() == ctx.spec_descriptor().spec_shape(),
        tensor.spec_triple().descriptor.spec_strides() == ctx.spec_descriptor().spec_strides(),
        tensor.spec_triple().value == ctx.spec_value(),
{
}

} // verus!
