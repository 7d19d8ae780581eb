//! The Swift generator: Swift source over the C ABI for an exported module.

pub mod primitives;
pub mod names;
pub mod types;
pub mod options;
pub mod marshal;
pub mod abi;
pub mod conversion;
pub mod return_kind;
pub mod functions;
pub mod templates;

pub use names::NamingConvention;
pub use types::{SwiftType, TypeMapper};
pub use options::{OptionInfo, OptionView};
pub use marshal::{ParamConversion, SyncCallBuilder};
pub use abi::ReturnAbi;
pub use conversion::{CallbackInfo, ParamInfo, ParamsInfo, ReturnInfo};
pub use return_kind::ReturnKind;
pub use functions::{CallbackTraitTemplate, FunctionTemplate};
