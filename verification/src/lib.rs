//! Extraction of structural code entities (functions, structs, enums and
//! impl-block methods) from source files: each entity carries its exact line
//! span, the text slice it occupies, the remainder of the file around it, and
//! contextual identifiers (module, file path, enclosing type).

pub mod classify;
pub mod context;
pub mod merge;
pub mod model;
pub mod select;
pub mod text;
