//! The Kotlin generator: Kotlin source over JNI for an exported module.

pub mod names;
pub mod primitives;
pub mod types;
pub mod marshal;
pub mod templates;
pub mod support;
pub mod functions;
pub mod classes;
pub mod generator;
pub mod native;
pub mod callbacks;

pub use names::NamingConvention;
pub use types::TypeMapper;
pub use marshal::ParamConversion;
pub use templates::{
    CStyleEnumTemplate, DataEnumCodecTemplate, PreambleTemplate, RecordReaderTemplate,
    RecordTemplate, RecordWriterTemplate, SealedEnumTemplate,
};
pub use functions::{AsyncFunctionTemplate, ClosureInterfaceTemplate, FunctionTemplate};
pub use classes::ClassTemplate;
pub use generator::{FactoryStyle, Kotlin, KotlinOptions};
pub use native::NativeTemplate;
pub use callbacks::CallbackTraitTemplate;
