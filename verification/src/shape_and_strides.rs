//! Storage for the shape and stride arrays that back a tensor descriptor,
//! together with the row-major contiguity check that consumers rely on to
//! decide whether a buffer can be treated as a flat array.

use vstd::prelude::*;
use vstd::slice::{slice_index_get, slice_subrange, slice_to_vec};

use crate::error::Error;

verus! {

/// Mathematical product of the shape entries from position `i` (inclusive)
/// to the end of the shape. `suffix_product(shape, i + 1)` is the row-major
/// stride that dimension `i` must have in a contiguous layout.
pub open spec fn suffix_product(shape: Seq<i64>, i: int) -> int
    decreases shape.len() - i,
{
    if i < 0 || i >= shape.len() {
        1
    } else {
        shape[i] * suffix_product(shape, i + 1)
    }
}

/// The strides are exactly the row-major strides implied by the shape:
/// `strides[i] == product(shape[i + 1 ..])` for every dimension `i`.
pub open spec fn row_major_matches(shape: Seq<i64>, strides: Seq<i64>) -> bool {
    forall|i: int| 0 <= i < shape.len() ==> strides[i] as int == suffix_product(shape, i + 1)
}

/// Backing storage for a descriptor's shape and strides.
///
/// `Contiguous` owns the shape only; the strides are implicitly row-major and
/// never materialized. `WithStrides` owns one concatenated buffer of length
/// `2 * ndim`: the shape in positions `[0, ndim)` and the strides in
/// `[ndim, 2 * ndim)`. `Borrowed` does not own its arrays at all: it holds
/// caller-supplied slices that must outlive every descriptor derived from
/// them, which is only sound for process-lifetime data.
#[derive(Debug)]
pub enum ShapeAndStrides {
    Contiguous(Vec<i64>),
    WithStrides(Vec<i64>),
    Borrowed { shape: &'static [i64], strides: Option<&'static [i64]> },
}

impl ShapeAndStrides {
    /// Well-formedness: the concatenated buffer splits evenly, and borrowed
    /// strides have the same length as the borrowed shape.
    pub open spec fn wf(&self) -> bool {
        match self {
            ShapeAndStrides::Contiguous(_) => true,
            ShapeAndStrides::WithStrides(v) => v@.len() % 2 == 0,
            ShapeAndStrides::Borrowed { shape, strides } => match strides {
                Some(st) => st@.len() == shape@.len(),
                None => true,
            },
        }
    }

    /// The dimension count this storage describes.
    pub open spec fn spec_len(&self) -> int {
        match self {
            ShapeAndStrides::Contiguous(v) => v@.len() as int,
            ShapeAndStrides::WithStrides(v) => v@.len() as int / 2,
            ShapeAndStrides::Borrowed { shape, .. } => shape@.len() as int,
        }
    }

    /// The shape entries, one per dimension.
    pub open spec fn spec_shape(&self) -> Seq<i64> {
        match self {
            ShapeAndStrides::Contiguous(v) => v@,
            ShapeAndStrides::WithStrides(v) => v@.subrange(0, self.spec_len()),
            ShapeAndStrides::Borrowed { shape, .. } => shape@,
        }
    }

    /// The stride entries, absent exactly when the layout is implicitly
    /// row-major and no strides were materialized.
    pub open spec fn spec_strides(&self) -> Option<Seq<i64>> {
        match self {
            ShapeAndStrides::Contiguous(_) => None,
            ShapeAndStrides::WithStrides(v) => Some(v@.subrange(self.spec_len(), v@.len() as int)),
            ShapeAndStrides::Borrowed { strides, .. } => match strides {
                Some(st) => Some(st@),
                None => None,
            },
        }
    }

    /// A layout is contiguous when its strides, if materialized at all, are
    /// exactly the row-major strides implied by its shape.
    pub open spec fn spec_is_contiguous(&self) -> bool {
        match self.spec_strides() {
            Some(st) => row_major_matches(self.spec_shape(), st),
            None => true,
        }
    }

    /// Own a copy of `shape`; strides stay implicit (row-major).
    pub fn new_contiguous(shape: &[i64]) -> (r: Self)
        ensures
            r.wf(),
            r matches ShapeAndStrides::Contiguous(_),
            r.spec_len() == shape@.len(),
            r.spec_shape() == shape@,
            r.spec_strides() is None,
    {
        ShapeAndStrides::Contiguous(slice_to_vec(shape))
    }

    /// Own copies of `shape` and `strides` in one concatenated buffer.
    /// The two must have the same length.
    pub fn new_with_strides(shape: &[i64], strides: &[i64]) -> (r: Self)
        requires
            shape@.len() == strides@.len(),
        ensures
            r.wf(),
            r matches ShapeAndStrides::WithStrides(_),
            r.spec_len() == shape@.len(),
            r.spec_shape() == shape@,
            r.spec_strides() == Some(strides@),
    {
        let n = shape.len();
        let mut buf: Vec<i64> = Vec::new();
        let mut i: usize = 0;
        while i < n
            invariant
                i <= n,
                n == shape@.len(),
                buf@ == shape@.subrange(0, i as int),
            decreases n - i,
        {
            buf.push(*slice_index_get(shape, i));
            i = i + 1;
        }
        assert(buf@ == shape@);
        let mut j: usize = 0;
        while j < n
            invariant
                j <= n,
                n == strides@.len(),
                buf@ == shape@ + strides@.subrange(0, j as int),
            decreases n - j,
        {
            buf.push(*slice_index_get(strides, j));
            j = j + 1;
        }
        assert(buf@ == shape@ + strides@);
        let r = ShapeAndStrides::WithStrides(buf);
        assert(r.spec_shape() == shape@) by {
            assert((shape@ + strides@).subrange(0, shape@.len() as int) =~= shape@);
        }
        assert(r.spec_strides() == Some(strides@)) by {
            assert((shape@ + strides@).subrange(shape@.len() as int, (shape@ + strides@).len() as int)
                =~= strides@);
        }
        r
    }

    /// Like `new_with_strides`, but mismatched lengths come back as a typed
    /// error instead of being ruled out up front: the construction succeeds
    /// exactly when `shape` and `strides` have the same length.
    pub fn try_new_with_strides(shape: &[i64], strides: &[i64]) -> (r: Result<Self, Error>)
        ensures
            shape@.len() == strides@.len() ==> (r matches Ok(s)
                && s.wf()
                && (s matches ShapeAndStrides::WithStrides(_))
                && s.spec_len() == shape@.len()
                && s.spec_shape() == shape@
                && s.spec_strides() == Some(strides@)),
            shape@.len() != strides@.len()
                ==> r == Err::<ShapeAndStrides, Error>(Error::ShapeStrideMismatch),
    {
        if shape.len() == strides.len() {
            Ok(Self::new_with_strides(shape, strides))
        } else {
            Err(Error::ShapeStrideMismatch)
        }
    }

    /// Own a copy of `shape` together with freshly computed row-major
    /// strides, in one concatenated buffer. Every suffix product of the
    /// shape must fit in an `i64`, since the strides are stored as such.
    pub fn new_contiguous_with_strides(shape: &[i64]) -> (r: Self)
        requires
            forall|i: int| 0 <= i <= shape@.len()
                ==> i64::MIN <= #[trigger] suffix_product(shape@, i) <= i64::MAX,
        ensures
            r.wf(),
            r matches ShapeAndStrides::WithStrides(_),
            r.spec_len() == shape@.len(),
            r.spec_shape() == shape@,
            r.spec_strides() matches Some(st) && row_major_matches(shape@, st),
            r.spec_is_contiguous(),
    {
        let n = shape.len();
        let mut buf: Vec<i64> = Vec::new();
        let mut i: usize = 0;
        while i < n
            invariant
                i <= n,
                n == shape@.len(),
                buf@ == shape@.subrange(0, i as int),
            decreases n - i,
        {
            buf.push(*slice_index_get(shape, i));
            i = i + 1;
        }
        assert(buf@ == shape@);
        let mut j: usize = 0;
        while j < n
            invariant
                j <= n,
                n == shape@.len(),
                buf@.len() == n + j,
                buf@.subrange(0, n as int) == shape@,
            decreases n - j,
        {
            buf.push(0);
            assert(buf@.subrange(0, n as int) =~= shape@);
            j = j + 1;
        }
        let total: usize = buf.len();
        let mut stride: i64 = 1;
        let mut k: usize = n;
        while k > 0
            invariant
                k <= n,
                n == shape@.len(),
                total == buf@.len(),
                buf@.len() == 2 * n,
                buf@.subrange(0, n as int) == shape@,
                stride as int == suffix_product(shape@, k as int),
                forall|m: int| 0 <= m <= shape@.len()
                    ==> i64::MIN <= #[trigger] suffix_product(shape@, m) <= i64::MAX,
                forall|m: int| k <= m < n
                    ==> #[trigger] buf@[n + m] as int == suffix_product(shape@, m + 1),
            decreases k,
        {
            let idx = k - 1;
            assert(n + idx < total);
            buf[n + idx] = stride;
            assert(buf@.subrange(0, n as int) =~= shape@);
            let dim = *slice_index_get(shape, idx);
            assert(dim as int * stride as int == suffix_product(shape@, idx as int));
            stride = dim * stride;
            k = idx;
        }
        let r = ShapeAndStrides::WithStrides(buf);
        proof {
            let whole = r->WithStrides_0@;
            assert(r.spec_shape() =~= shape@);
            let st = r.spec_strides()->Some_0;
            assert(forall|m: int| 0 <= m < n
                ==> st[m] == whole[n + m] && st[m] as int == suffix_product(shape@, m + 1));
        }
        r
    }

    /// Borrow caller-owned shape and stride arrays without copying. The
    /// caller keeps them alive for the whole program, and when strides are
    /// given they must have the same length as the shape. The shape must not
    /// be empty.
    pub fn new_borrowed(shape: &'static [i64], strides: Option<&'static [i64]>) -> (r: Self)
        requires
            shape@.len() >= 1,
            strides matches Some(st) ==> st@.len() == shape@.len(),
        ensures
            r.wf(),
            r matches ShapeAndStrides::Borrowed { .. },
            r.spec_len() == shape@.len(),
            r.spec_shape() == shape@,
            r.spec_strides() == match strides {
                Some(st) => Some(st@),
                None => None::<Seq<i64>>,
            },
    {
        ShapeAndStrides::Borrowed { shape, strides }
    }

    /// The dimension count.
    pub fn len(&self) -> (r: usize)
        ensures
            r as int == self.spec_len(),
    {
        match self {
            ShapeAndStrides::Contiguous(v) => v.len(),
            ShapeAndStrides::WithStrides(v) => v.len() / 2,
            ShapeAndStrides::Borrowed { shape, .. } => shape.len(),
        }
    }

    /// The dimension count as the descriptor format stores it.
    pub fn ndim(&self) -> (r: i32)
        requires
            self.spec_len() <= i32::MAX,
        ensures
            r as int == self.spec_len(),
    {
        self.len() as i32
    }

    /// Whether this describes a rank-0 (scalar) tensor.
    pub fn is_empty(&self) -> (r: bool)
        ensures
            r == (self.spec_len() == 0),
    {
        self.len() == 0
    }

    /// Read-only view of the shape entries.
    pub fn shape(&self) -> (r: &[i64])
        ensures
            r@ == self.spec_shape(),
    {
        match self {
            ShapeAndStrides::Contiguous(v) => v.as_slice(),
            ShapeAndStrides::WithStrides(v) => slice_subrange(v.as_slice(), 0, v.len() / 2),
            ShapeAndStrides::Borrowed { shape, .. } => shape,
        }
    }

    /// Read-only view of the stride entries; `None` exactly when the layout
    /// is known contiguous and no strides were materialized.
    pub fn strides(&self) -> (r: Option<&[i64]>)
        ensures
            match r {
                Some(s) => self.spec_strides() == Some(s@),
                None => self.spec_strides() is None,
            },
    {
        match self {
            ShapeAndStrides::Contiguous(_) => None,
            ShapeAndStrides::WithStrides(v) => Some(slice_subrange(v.as_slice(), v.len() / 2, v.len())),
            ShapeAndStrides::Borrowed { strides, .. } => match strides {
                Some(s) => Some(*s),
                None => None,
            },
        }
    }

    /// Decide contiguity: immediate for layouts without materialized
    /// strides, otherwise an element-wise comparison of the strides against
    /// the row-major strides implied by the shape, innermost dimension first.
    pub fn is_contiguous(&self) -> (r: bool)
        requires
            self.wf(),
        ensures
            r == self.spec_is_contiguous(),
    {
        match self.strides() {
            None => true,
            Some(st) => {
                let sh = self.shape();
                proof {
                    if self matches ShapeAndStrides::WithStrides(v) {
                        assert(sh@.len() == st@.len());
                    }
                }
                is_row_major(sh, st)
            }
        }
    }
}

/// Compare `strides` element-wise against the row-major strides implied by
/// `shape`, walking from the innermost dimension outward. A required stride
/// whose value no longer fits in an `i64` can never be matched by a stored
/// stride, so the walk can stop as soon as the running product overflows.
pub fn is_row_major(shape: &[i64], strides: &[i64]) -> (r: bool)
    requires
        shape@.len() == strides@.len(),
    ensures
        r == row_major_matches(shape@, strides@),
{
    let n = shape.len();
    let mut acc: i64 = 1;
    let mut i: usize = n;
    while i > 0
        invariant
            i <= n,
            n == shape@.len(),
            n == strides@.len(),
            0 < i ==> acc as int == suffix_product(shape@, i as int),
            forall|j: int| i <= j < n ==> strides@[j] as int == suffix_product(shape@, j + 1),
        decreases i,
    {
        let idx = i - 1;
        if *slice_index_get(strides, idx) != acc {
            assert(strides@[idx as int] as int != suffix_product(shape@, idx + 1));
            return false;
        }
        if idx > 0 {
            let dim = *slice_index_get(shape, idx);
            match acc.checked_mul(dim) {
                Some(v) => {
                    assert(v as int == suffix_product(shape@, idx as int)) by {
                        assert(acc as int * dim as int == dim as int * acc as int);
                    }
                    acc = v;
                }
                None => {
                    assert(strides@[idx - 1] as int != suffix_product(shape@, idx as int)) by {
                        assert(acc as int * dim as int == dim as int * acc as int);
                        assert(suffix_product(shape@, idx as int) > i64::MAX
                            || suffix_product(shape@, idx as int) < i64::MIN);
                    }
                    return false;
                }
            }
        }
        i = idx;
    }
    true
}

/// A layout with no materialized strides is contiguous, whatever its shape.
pub proof fn lemma_no_strides_is_contiguous(s: &ShapeAndStrides)
    requires
        s.spec_strides() is None,
    ensures
        s.spec_is_contiguous(),
{
}

/// Any strides that equal the row-major strides of their shape, dimension by
/// dimension, make the layout contiguous.
pub proof fn lemma_row_major_is_contiguous(shape: Seq<i64>, strides: Seq<i64>)
    requires
        strides.len() == shape.len(),
        forall|i: int| 0 <= i < shape.len() ==> strides[i] as int == suffix_product(shape, i + 1),
    ensures
        row_major_matches(shape, strides),
{
}

/// A rank-0 (scalar) layout has an empty shape, empty strides if any were
/// materialized at all, and is always contiguous.
pub proof fn lemma_scalar_is_contiguous(s: &ShapeAndStrides)
    requires
        s.wf(),
        s.spec_len() == 0,
    ensures
        s.spec_shape() == Seq::<i64>::empty(),
        s.spec_strides() matches Some(st) ==> st == Seq::<i64>::empty(),
        s.spec_is_contiguous(),
{
    assert(s.spec_shape() =~= Seq::<i64>::empty());
    match s.spec_strides() {
        Some(st) => {
            assert(st =~= Seq::<i64>::empty());
        }
        None => {}
    }
}

/// The shape and stride views of a concatenated buffer are disjoint,
/// correctly offset halves: the first `ndim` entries are the shape, the last
/// `ndim` entries are the strides, and together they are the whole buffer.
pub proof fn lemma_with_strides_views_partition(s: &ShapeAndStrides)
    requires
        s.wf(),
        s matches ShapeAndStrides::WithStrides(_),
    ensures
        s.spec_shape().len() == s.spec_len(),
        s.spec_strides() matches Some(st) && st.len() == s.spec_len(),
        s.spec_strides() matches Some(st) && s.spec_shape() + st == s->WithStrides_0@,
{
    let whole = s->WithStrides_0@;
    let st = s.spec_strides()->Some_0;
    assert(s.spec_shape() + st =~= whole);
}

} // verus!
