//! Binding generator core: renders an exported library surface as native
//! export shims and as managed interop declarations.
pub mod text;
pub mod types;
pub mod naming;
pub mod alias_map;
pub mod options;
pub mod type_mapper;
pub mod doc_comment;
pub mod emitter;
pub mod laws;
