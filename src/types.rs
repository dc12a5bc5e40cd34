//! The exported surface of a native library, as the emitters consume it.
use vstd::prelude::*;

verus! {

/// The shape of a type descriptor.
#[derive(Debug)]
pub enum TypeKind {
    /// A named scalar or user type.
    Normal,
    /// A raw pointer (`true`: mutable) to the pointee.
    Pointer(bool, Box<RustType>),
    /// A fixed-size array: the size as literal digits, and the element type.
    FixedArray(String, Box<RustType>),
    /// A function pointer: its parameters and optional return type.
    Function(Vec<Parameter>, Option<Box<RustType>>),
}

/// A type descriptor: the written name and its shape.
#[derive(Debug)]
pub struct RustType {
    pub name: String,
    pub type_kind: TypeKind,
}

#[derive(Debug)]
pub struct Parameter {
    pub name: String,
    pub rust_type: RustType,
}

/// How the exported symbol of a method is named.
#[derive(Debug)]
pub enum ExportSymbolNaming {
    /// The symbol is the declared name.
    NoMangle,
    /// The symbol is an explicit override.
    ExportName(String),
}

#[derive(Debug)]
pub struct ExternMethod {
    pub method_name: String,
    pub parameters: Vec<Parameter>,
    pub return_type: Option<RustType>,
    pub export_naming: ExportSymbolNaming,
    pub doc_comment: Option<String>,
}

#[derive(Debug)]
pub struct FieldMember {
    pub name: String,
    pub rust_type: RustType,
    pub doc_comment: Option<String>,
}

#[derive(Debug)]
pub struct RustStruct {
    pub struct_name: String,
    pub fields: Vec<FieldMember>,
    pub is_union: bool,
    pub doc_comment: Option<String>,
}

#[derive(Debug)]
pub struct EnumMember {
    pub name: String,
    /// An explicit value, kept as written.
    pub value: Option<String>,
    pub doc_comment: Option<String>,
}

#[derive(Debug)]
pub struct RustEnum {
    pub enum_name: String,
    pub fields: Vec<EnumMember>,
    /// The integer-width token of the representation, if any.
    pub repr: Option<String>,
    pub is_flags: bool,
    pub doc_comment: Option<String>,
}

#[derive(Debug)]
pub struct RustConst {
    pub const_name: String,
    pub rust_type: RustType,
    /// The literal as written; its first character decides how it is emitted.
    pub value: String,
    pub doc_comment: Option<String>,
}

} // verus!
