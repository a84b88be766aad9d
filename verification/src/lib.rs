//! A typed-client generator for an OpenAPI-like schema document, together with
//! the decision logic of the ergonomic client built on the generated code.

pub mod call;
pub mod casing;
pub mod client;
pub mod diagnostics;
pub mod emit;
pub mod error;
pub mod functions;
pub mod generate;
pub mod laws;
pub mod media;
pub mod model;
pub mod parameters;
pub mod raw;
pub mod schema;
pub mod search;
pub mod text;
pub mod types;
pub mod validate;
