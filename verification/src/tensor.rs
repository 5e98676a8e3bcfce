//! The descriptor, the owning triple and the single-owner tensor handle.
//!
//! In the wire format the triple is plain data reached through a raw pointer,
//! and its release callback must fire exactly once. Here the triple is an
//! owned value: moving it is the hand-off, releasing it is dropping it, and
//! Rust's ownership discipline is what makes the release structurally
//! un-duplicable.

use vstd::prelude::*;
use vstd::slice::slice_index_get;

use crate::data_type::DataType;
use crate::device::Device;
use crate::shape_and_strides::{suffix_product, ShapeAndStrides};

verus! {

/// A non-owning view of a tensor buffer: the address of its first element,
/// the device it lives on, its element type, its shape and strides, and the
/// offset in bytes at which the data starts.
///
/// The wire format stores the shape and strides as raw pointers into storage
/// kept alive by the surrounding owner; here the descriptor carries that
/// storage itself.
#[derive(Debug)]
pub struct Descriptor {
    pub data: usize,
    pub device: Device,
    pub dtype: DataType,
    pub shape_and_strides: ShapeAndStrides,
    pub byte_offset: u64,
}

impl Descriptor {
    /// Well-formedness of the backing shape and stride storage.
    pub open spec fn wf(&self) -> bool {
        self.shape_and_strides.wf()
    }

    /// The shape entries seen through this descriptor.
    pub open spec fn spec_shape(&self) -> Seq<i64> {
        self.shape_and_strides.spec_shape()
    }

    /// The stride entries, absent when the layout is implicitly row-major.
    pub open spec fn spec_strides(&self) -> Option<Seq<i64>> {
        self.shape_and_strides.spec_strides()
    }

    /// The number of elements the descriptor spans: the product of all
    /// shape entries. Every suffix product of the shape must be
    /// representable, which also keeps each step of the computation in
    /// bounds.
    pub fn num_elements(&self) -> (r: usize)
        requires
            forall|i: int| 0 <= i <= self.spec_shape().len()
                ==> 0 <= #[trigger] suffix_product(self.spec_shape(), i) <= usize::MAX,
        ensures
            r as int == suffix_product(self.spec_shape(), 0),
    {
        let shape = self.shape_and_strides.shape();
        let n = shape.len();
        proof {
            assert forall|m: int| 0 <= m <= shape@.len()
                implies 0 <= #[trigger] suffix_product(shape@, m) <= usize::MAX by {
                assert(suffix_product(self.spec_shape(), m) == suffix_product(shape@, m));
            }
        }
        let mut acc: usize = 1;
        let mut i: usize = n;
        while i > 0
            invariant
                i <= n,
                n == shape@.len(),
                acc as int == suffix_product(shape@, i as int),
                forall|m: int| 0 <= m <= shape@.len()
                    ==> 0 <= #[trigger] suffix_product(shape@, m) <= usize::MAX,
            decreases i,
        {
            let idx = i - 1;
            let e = *slice_index_get(shape, idx);
            if acc == 0 {
                proof {
                    assert(suffix_product(shape@, idx as int) == e as int * 0);
                }
                acc = 0;
            } else {
                proof {
                    assert(suffix_product(shape@, idx as int) == e as int * acc as int);
                    assert(0 <= suffix_product(shape@, idx as int) <= usize::MAX);
                    assert(0 <= e as int && e as int <= e as int * acc as int)
                        by (nonlinear_arith)
                        requires
                            acc as int >= 1,
                            0 <= e as int * acc as int <= usize::MAX,
                    ;
                }
                let eu = e as usize;
                acc = eu * acc;
            }
            i = idx;
        }
        proof {
            assert(suffix_product(self.spec_shape(), 0) == suffix_product(shape@, 0));
        }
        acc
    }
}

/// The owning exchange unit: a descriptor, the opaque context it points
/// into, and whether a release callback accompanies it.
///
/// The wire format's context is an untyped pointer that the release callback
/// knows how to free; here the context is the owned native value itself, and
/// the release action is its drop. A triple is owned by exactly one place at
/// a time, so that drop — the release — can run only once.
#[derive(Debug)]
pub struct ManagedTriple<T> {
    pub descriptor: Descriptor,
    pub value: T,
    pub has_release: bool,
}

/// Exclusive owner of one triple. Dropping the tensor releases the triple;
/// `into_inner` relinquishes ownership instead, without releasing, and the
/// caller becomes solely responsible for the eventual release.
#[derive(Debug)]
pub struct ManagedTensor<T> {
    triple: ManagedTriple<T>,
}

impl<T> ManagedTensor<T> {
    /// The triple this handle owns.
    pub closed spec fn spec_triple(&self) -> ManagedTriple<T> {
        self.triple
    }

    /// Take ownership of a triple, freshly produced or claimed from a
    /// capsule. From here on this handle alone decides when it is released.
    pub fn new(triple: ManagedTriple<T>) -> (r: Self)
        ensures
            r.spec_triple() == triple,
    {
        ManagedTensor { triple }
    }

    /// Take ownership of a triple that another owner handed off.
    pub fn from_dlpack(triple: ManagedTriple<T>) -> (r: Self)
        ensures
            r.spec_triple() == triple,
    {
        ManagedTensor { triple }
    }

    /// Borrow the owned triple without giving up ownership. The wire-format
    /// analogue hands out the raw triple pointer while the handle stays
    /// responsible for the release.
    pub fn as_ptr(&self) -> (r: &ManagedTriple<T>)
        ensures
            *r == self.spec_triple(),
    {
        &self.triple
    }

    /// Relinquish ownership of the triple without releasing it, for handing
    /// it bodily to another owner such as a capsule. The caller is now
    /// solely responsible for the eventual release.
    pub fn into_inner(self) -> (r: ManagedTriple<T>)
        ensures
            r == self.spec_triple(),
    {
        self.triple
    }

    /// The embedded descriptor.
    pub fn dl_tensor(&self) -> (r: &Descriptor)
        ensures
            *r == self.spec_triple().descriptor,
    {
        &self.triple.descriptor
    }

    /// The address of the buffer's first element.
    pub fn data_ptr(&self) -> (r: usize)
        ensures
            r == self.spec_triple().descriptor.data,
    {
        self.triple.descriptor.data
    }

    /// The offset in bytes at which the data starts.
    pub fn byte_offset(&self) -> (r: u64)
        ensures
            r == self.spec_triple().descriptor.byte_offset,
    {
        self.triple.descriptor.byte_offset
    }

    /// The device the buffer lives on.
    pub fn device(&self) -> (r: Device)
        ensures
            r == self.spec_triple().descriptor.device,
    {
        self.triple.descriptor.device
    }

    /// The element type of the buffer.
    pub fn dtype(&self) -> (r: DataType)
        ensures
            r == self.spec_triple().descriptor.dtype,
    {
        self.triple.descriptor.dtype
    }

    /// Read-only view of the shape.
    pub fn shape(&self) -> (r: &[i64])
        ensures
            r@ == self.spec_triple().descriptor.spec_shape(),
    {
        self.triple.descriptor.shape_and_strides.shape()
    }

    /// Read-only view of the strides, absent when the layout is implicitly
    /// row-major.
    pub fn strides(&self) -> (r: Option<&[i64]>)
        ensures
            match r {
                Some(s) => self.spec_triple().descriptor.spec_strides() == Some(s@),
                None => self.spec_triple().descriptor.spec_strides() is None,
            },
    {
        self.triple.descriptor.shape_and_strides.strides()
    }

    /// The dimension count.
    pub fn ndim(&self) -> (r: usize)
        ensures
            r as int == self.spec_triple().descriptor.shape_and_strides.spec_len(),
    {
        self.triple.descriptor.shape_and_strides.len()
    }

    /// The number of elements the buffer spans: the product of all shape
    /// entries.
    pub fn num_elements(&self) -> (r: usize)
        requires
            forall|i: int| 0 <= i <= self.spec_triple().descriptor.spec_shape().len()
                ==> 0 <= #[trigger] suffix_product(self.spec_triple().descriptor.spec_shape(), i)
                    <= usize::MAX,
        ensures
            r as int == suffix_product(self.spec_triple().descriptor.spec_shape(), 0),
    {
        self.triple.descriptor.num_elements()
    }
}

} // verus!
