use dlpark::Error;
use dlpark::ShapeAndStrides;

#[test]
fn test_new_contiguous() {
    let shape = vec![1, 2, 3];
    let shape = ShapeAndStrides::new_contiguous(&shape);
    assert_eq!(shape.ndim(), 3);
    assert_eq!(shape.shape(), &[1, 2, 3]);
    assert_eq!(shape.strides(), None);
    assert_eq!(shape.is_contiguous(), true);
}

#[test]
fn test_new_contiguous_with_strides() {
    let shape = vec![1, 2, 3];
    let shape = ShapeAndStrides::new_contiguous_with_strides(&shape);
    assert_eq!(shape.ndim(), 3);
    assert_eq!(shape.shape(), &[1, 2, 3]);
    assert_eq!(shape.strides(), Some([6, 3, 1].as_slice()));
    assert_eq!(shape.is_contiguous(), true);
}

#[test]
fn test_with_strides() {
    let shape = vec![1, 2, 3];
    let strides = vec![6, 3, 1];
    let shape = ShapeAndStrides::new_with_strides(&shape, &strides);
    assert_eq!(shape.ndim(), 3);
    assert_eq!(shape.shape(), &[1, 2, 3]);
    assert_eq!(shape.strides(), Some([6, 3, 1].as_slice()));
    assert_eq!(shape.is_contiguous(), true);

    // Make a not contiguous shape.
    let shape = ShapeAndStrides::new_with_strides(&[1, 2, 3], &[1, 2, 3]);
    assert!(!shape.is_contiguous());
}

#[test]
fn test_new_borrowed() {
    let shape: &'static [i64] = Box::leak(vec![1, 2, 3].into_boxed_slice());
    let strides: &'static [i64] = Box::leak(vec![6, 3, 1].into_boxed_slice());
    let shape = ShapeAndStrides::new_borrowed(shape, Some(strides));
    assert_eq!(shape.ndim(), 3);
    assert_eq!(shape.shape(), &[1, 2, 3]);
    assert_eq!(shape.strides(), Some([6, 3, 1].as_slice()));
    assert_eq!(shape.is_contiguous(), true);
}

#[test]
fn borrowed_without_strides_is_contiguous() {
    let shape: &'static [i64] = Box::leak(vec![4, 5].into_boxed_slice());
    let s = ShapeAndStrides::new_borrowed(shape, None);
    assert_eq!(s.ndim(), 2);
    assert_eq!(s.shape(), &[4, 5]);
    assert_eq!(s.strides(), None);
    assert!(s.is_contiguous());
}

#[test]
fn scalar_shapes_are_contiguous() {
    let empty: Vec<i64> = Vec::new();

    let s = ShapeAndStrides::new_contiguous(&empty);
    assert_eq!(s.ndim(), 0);
    assert!(s.is_empty());
    assert_eq!(s.shape(), &[] as &[i64]);
    assert_eq!(s.strides(), None);
    assert!(s.is_contiguous());

    let s = ShapeAndStrides::new_with_strides(&empty, &empty);
    assert_eq!(s.ndim(), 0);
    assert_eq!(s.shape(), &[] as &[i64]);
    assert_eq!(s.strides(), Some([].as_slice()));
    assert!(s.is_contiguous());

    let s = ShapeAndStrides::new_contiguous_with_strides(&empty);
    assert_eq!(s.ndim(), 0);
    assert!(s.is_contiguous());
}

#[test]
fn with_strides_views_split_the_buffer() {
    // ndim = 1
    let s = ShapeAndStrides::new_with_strides(&[7], &[1]);
    assert_eq!(s.ndim(), 1);
    assert_eq!(s.shape(), &[7]);
    assert_eq!(s.strides(), Some([1].as_slice()));

    // ndim = 4
    let s = ShapeAndStrides::new_with_strides(&[2, 3, 4, 5], &[60, 20, 5, 1]);
    assert_eq!(s.ndim(), 4);
    assert_eq!(s.shape(), &[2, 3, 4, 5]);
    assert_eq!(s.strides(), Some([60, 20, 5, 1].as_slice()));
    assert!(s.is_contiguous());
}

#[test]
fn zero_dimension_makes_later_strides_irrelevant_products() {
    // A zero-sized dimension: row-major strides are [6, 3, 1] for [0, 2, 3].
    let s = ShapeAndStrides::new_contiguous_with_strides(&[0, 2, 3]);
    assert_eq!(s.shape(), &[0, 2, 3]);
    assert_eq!(s.strides(), Some([6, 3, 1].as_slice()));
    assert!(s.is_contiguous());
}

#[test]
fn huge_dimensions_are_never_row_major() {
    // The required outermost stride would be 2^62 * 4 which does not fit in
    // an i64, so no stored strides can be row-major for this shape.
    let big: i64 = 1 << 31;
    let s = ShapeAndStrides::new_with_strides(&[2, big, 4], &[1, 1, 1]);
    assert!(!s.is_contiguous());
    // Every stride matches until the running product 4 * 2^31 * 2^31
    // overflows an i64, at which point the outermost stride cannot match.
    let s = ShapeAndStrides::new_with_strides(&[2, big, big, 4], &[i64::MAX, 1 << 33, 4, 1]);
    assert!(!s.is_contiguous());
}

#[test]
fn mismatched_strides_are_a_typed_error() {
    let r = ShapeAndStrides::try_new_with_strides(&[1, 2, 3], &[6, 3]);
    assert_eq!(r.err(), Some(Error::ShapeStrideMismatch));

    let r = ShapeAndStrides::try_new_with_strides(&[1, 2, 3], &[6, 3, 1]);
    let s = r.ok().unwrap();
    assert_eq!(s.shape(), &[1, 2, 3]);
    assert_eq!(s.strides(), Some([6, 3, 1].as_slice()));
    assert!(s.is_contiguous());
}
