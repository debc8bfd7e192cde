//! Declarative scripts: their model, validation, code generation, templates
//! and the decisions of a sequential run.
pub mod codegen;
pub mod execute;
pub mod model;
pub mod templates;
pub mod validate;
