//! Configuration of both emitters.
use vstd::prelude::*;

verus! {

#[derive(Debug)]
pub struct BindgenOptions {
    /// Path of the module the shims forward to; empty for unqualified calls.
    pub rust_method_type_path: String,
    /// Prefix of every exported shim name.
    pub rust_method_prefix: String,
    /// Text placed under the shim document's preamble.
    pub rust_file_header: String,
    pub csharp_namespace: String,
    pub csharp_class_name: String,
    pub csharp_dll_name: String,
    pub csharp_class_accessibility: String,
    /// Replaces `rust_method_prefix` in entry points when not empty.
    pub csharp_entry_point_prefix: String,
    /// Prefix of every managed method name; when empty, method names are escaped.
    pub csharp_method_prefix: String,
    /// Conditional-compilation symbol that selects `csharp_if_dll_name`.
    pub csharp_if_symbol: String,
    pub csharp_if_dll_name: String,
    pub csharp_disable_emit_dll_name: bool,
    pub csharp_file_header: String,
    pub csharp_file_footer: String,
    pub csharp_imported_namespaces: Vec<String>,
    /// The type rename strategy, as a table from escaped name to managed
    /// name; the latest entry for a name wins and names without an entry are
    /// kept. Only listed names change: a general rule (a prefix on every
    /// name, say) is given by listing each type the surface declares or uses.
    pub csharp_type_rename: Vec<(String, String)>,
}

impl BindgenOptions {
    /// The default configuration.
    pub fn new() -> (r: BindgenOptions)
        ensures
            r.rust_method_type_path@ == ""@,
            r.rust_method_prefix@ == ""@,
            r.rust_file_header@ == ""@,
            r.csharp_namespace@ == "CsBindgen"@,
            r.csharp_class_name@ == "NativeMethods"@,
            r.csharp_dll_name@ == ""@,
            r.csharp_class_accessibility@ == "internal"@,
            r.csharp_entry_point_prefix@ == ""@,
            r.csharp_method_prefix@ == ""@,
            r.csharp_if_symbol@ == ""@,
            r.csharp_if_dll_name@ == ""@,
            !r.csharp_disable_emit_dll_name,
            r.csharp_file_header@ == ""@,
            r.csharp_file_footer@ == ""@,
            r.csharp_imported_namespaces@.len() == 0,
            r.csharp_type_rename@.len() == 0,
    {
        BindgenOptions {
            rust_method_type_path: String::from_str(""),
            rust_method_prefix: String::from_str(""),
            rust_file_header: String::from_str(""),
            csharp_namespace: String::from_str("CsBindgen"),
            csharp_class_name: String::from_str("NativeMethods"),
            csharp_dll_name: String::from_str(""),
            csharp_class_accessibility: String::from_str("internal"),
            csharp_entry_point_prefix: String::from_str(""),
            csharp_method_prefix: String::from_str(""),
            csharp_if_symbol: String::from_str(""),
            csharp_if_dll_name: String::from_str(""),
            csharp_disable_emit_dll_name: false,
            csharp_file_header: String::from_str(""),
            csharp_file_footer: String::from_str(""),
            csharp_imported_namespaces: Vec::new(),
            csharp_type_rename: Vec::new(),
        }
    }
}

} // verus!
