//! Binding generators that turn an exported Rust API model into Kotlin,
//! Swift and Java source text.

pub mod case;
pub mod model;
pub mod naming;
pub mod text;
pub mod kotlin;
pub mod swift;
pub mod java;
pub mod plain_swift;
pub mod callback_registry;
pub mod generate;
pub mod ffi_macros;
pub mod class_exports;
pub mod macro_input;
