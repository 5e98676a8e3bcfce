//! A safe, zero-copy exchange of multi-dimensional array buffers between
//! independent runtimes that agree on a fixed binary descriptor format. A
//! producer describes an existing buffer without copying it; a consumer
//! claims the descriptor through an opaque capsule, and the original owner is
//! released exactly once.

pub mod capsule;
pub mod data_type;
pub mod device;
pub mod error;
pub mod manager_ctx;
pub mod pack_version;
pub mod prelude;
pub mod shape_and_strides;
pub mod tensor;

pub use crate::capsule::{Capsule, CapsuleTag, DeleterAction};
pub use crate::error::Error;
pub use crate::data_type::{DataType, DataTypeCode};
pub use crate::device::{Device, DeviceType};
pub use crate::pack_version::PackVersion;
pub use crate::shape_and_strides::ShapeAndStrides;
pub use crate::manager_ctx::{ManagerCtx, ToTensor};
pub use crate::tensor::{Descriptor, ManagedTensor, ManagedTriple};
