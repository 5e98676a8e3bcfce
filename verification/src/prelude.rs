//! Convenient re-exports of the types a producer or consumer of the
//! exchange format usually needs.

pub use crate::capsule::{Capsule, CapsuleTag, DeleterAction};
pub use crate::error::Error;
pub use crate::data_type::{DataType, DataTypeCode};
pub use crate::device::{Device, DeviceType};
pub use crate::manager_ctx::{ManagerCtx, ToTensor};
pub use crate::pack_version::PackVersion;
pub use crate::shape_and_strides::ShapeAndStrides;
pub use crate::tensor::{Descriptor, ManagedTensor, ManagedTriple};
