//! Infers record (struct) type declarations from a sample JSON document.
//!
//! Given a root name and a JSON value, the inference engine walks the value,
//! assigns every node a type expression, synthesizes one record definition per
//! object encountered, and renders the collected definitions as source text.

pub mod codegen;
pub mod emit;
pub mod infer;
pub mod json;
pub mod laws;
pub mod naming;
pub mod types;

pub use codegen::{codegen_from_text, codegen_from_value};
pub use infer::{generate_struct_from_object, generate_type_for_array, generate_type_from_value};
pub use json::{JsonSpec, JsonValue};
pub use naming::{snake_case, type_case};
pub use types::{CodeGenError, Options, RecordDef, RecordSpec, SampleSource, TypeExpr, TypeSpec};
