use csbindgen::alias_map::AliasMap;
use csbindgen::emitter::{convert_token_enum_repr, emit_csharp, emit_rust_method};
use csbindgen::options::BindgenOptions;
use csbindgen::types::{
    EnumMember, ExportSymbolNaming, ExternMethod, FieldMember, Parameter, RustConst, RustEnum,
    RustStruct, RustType, TypeKind,
};

fn normal(name: &str) -> RustType {
    RustType { name: name.to_string(), type_kind: TypeKind::Normal }
}

fn pointer(mutable: bool, inner: RustType) -> RustType {
    RustType { name: inner.name.clone(), type_kind: TypeKind::Pointer(mutable, Box::new(inner)) }
}

fn array(size: &str, elem: RustType) -> RustType {
    RustType {
        name: String::new(),
        type_kind: TypeKind::FixedArray(size.to_string(), Box::new(elem)),
    }
}

fn function(params: Vec<Parameter>, ret: Option<RustType>) -> RustType {
    RustType { name: String::new(), type_kind: TypeKind::Function(params, ret.map(Box::new)) }
}

fn param(name: &str, t: RustType) -> Parameter {
    Parameter { name: name.to_string(), rust_type: t }
}

fn method(name: &str, params: Vec<Parameter>, ret: Option<RustType>) -> ExternMethod {
    ExternMethod {
        method_name: name.to_string(),
        parameters: params,
        return_type: ret,
        export_naming: ExportSymbolNaming::NoMangle,
        doc_comment: None,
    }
}

fn field(name: &str, t: RustType) -> FieldMember {
    FieldMember { name: name.to_string(), rust_type: t, doc_comment: None }
}

fn strukt(name: &str, is_union: bool, fields: Vec<FieldMember>) -> RustStruct {
    RustStruct { struct_name: name.to_string(), fields, is_union, doc_comment: None }
}

fn constant(name: &str, t: RustType, value: &str) -> RustConst {
    RustConst { const_name: name.to_string(), rust_type: t, value: value.to_string(), doc_comment: None }
}

fn managed(
    methods: &Vec<ExternMethod>,
    structs: &Vec<RustStruct>,
    enums: &Vec<RustEnum>,
    consts: &Vec<RustConst>,
) -> String {
    emit_csharp(methods, &AliasMap::new(), structs, enums, consts, &BindgenOptions::new())
}

#[test]
fn shim_exact_text() {
    let mut o = BindgenOptions::new();
    o.rust_method_prefix = "csbindgen_".to_string();
    o.rust_method_type_path = "lib".to_string();
    let list = vec![method(
        "add",
        vec![param("a", normal("i32")), param("b", pointer(true, normal("Foo")))],
        Some(normal("bool")),
    )];
    let out = emit_rust_method(&list, &o);
    let expected = "/* automatically generated by csbindgen */\n\n#[allow(unused)]\nuse ::std::os::raw::*;\n\n\n\n\n#[no_mangle]\npub unsafe extern \"C\" fn csbindgen_add(\n    a: i32,\n    b: *mut lib::Foo\n) -> bool\n{\n    lib::add(\n        a,\n        b\n    )\n}\n\n    ";
    assert_eq!(out, expected);
}

#[test]
fn shim_empty_list_with_header() {
    let mut o = BindgenOptions::new();
    o.rust_file_header = "// hdr".to_string();
    let out = emit_rust_method(&vec![], &o);
    assert_eq!(out, "/* automatically generated by csbindgen */\n\n#[allow(unused)]\nuse ::std::os::raw::*;\n\n// hdr\n\n\n    ");
}

#[test]
fn shim_single_void_method_exact() {
    let mut o = BindgenOptions::new();
    o.rust_method_prefix = "p_".to_string();
    let out = emit_rust_method(&vec![method("f", vec![], None)], &o);
    assert_eq!(out, "/* automatically generated by csbindgen */\n\n#[allow(unused)]\nuse ::std::os::raw::*;\n\n\n\n\n#[no_mangle]\npub unsafe extern \"C\" fn p_f(\n\n)\n{\n    f(\n\n    )\n}\n\n    ");
}

#[test]
fn shim_without_path_or_parameters() {
    let list = vec![method("ping", vec![], None)];
    let out = emit_rust_method(&list, &BindgenOptions::new());
    assert!(out.contains("pub unsafe extern \"C\" fn ping(\n\n)\n{\n    ping(\n\n    )\n}\n"));
}

#[test]
fn shim_type_rendering() {
    let mut o = BindgenOptions::new();
    o.rust_method_type_path = "m".to_string();
    let cb = function(vec![param("x", normal("c_int")), param("y", normal("Bar"))], Some(normal("u8")));
    let list = vec![method(
        "f",
        vec![
            param("buf", array("4", normal("u8"))),
            param("p", pointer(false, pointer(true, normal("c_char")))),
            param("cb", cb),
        ],
        None,
    )];
    let out = emit_rust_method(&list, &o);
    assert!(out.contains("    buf: [u8; 4],\n"));
    assert!(out.contains("    p: *const *mut c_char,\n"));
    assert!(out.contains("    cb: extern \"C\" fn(c_int, m::Bar) -> u8\n)\n"));
    assert!(out.contains("    m::f(\n"));
}

#[test]
fn shim_parameter_order_preserved() {
    let names = ["z", "a", "m", "b"];
    let ps = names.iter().map(|n| param(n, normal("u32"))).collect::<Vec<_>>();
    let out = emit_rust_method(&vec![method("g", ps, None)], &BindgenOptions::new());
    assert!(out.contains("(\n    z: u32,\n    a: u32,\n    m: u32,\n    b: u32\n)"));
    assert!(out.contains("g(\n        z,\n        a,\n        m,\n        b\n    )"));
}

#[test]
fn shim_methods_repeat_in_order() {
    let list = vec![method("one", vec![], None), method("two", vec![], None), method("one", vec![], None)];
    let out = emit_rust_method(&list, &BindgenOptions::new());
    assert_eq!(out.matches("fn one(").count(), 2);
    assert!(out.find("fn one(").unwrap() < out.find("fn two(").unwrap());
}

#[test]
fn emission_is_deterministic() {
    let list = vec![method("a", vec![param("x", normal("bool"))], Some(normal("f32")))];
    let structs = vec![strukt("S", false, vec![field("v", normal("i64"))])];
    let consts = vec![constant("K", normal("u8"), "3")];
    let o = BindgenOptions::new();
    assert_eq!(emit_rust_method(&list, &o), emit_rust_method(&list, &o));
    assert_eq!(managed(&list, &structs, &vec![], &consts), managed(&list, &structs, &vec![], &consts));
}

#[test]
fn managed_method_exact_text() {
    let mut o = BindgenOptions::new();
    o.csharp_dll_name = "native".to_string();
    let list = vec![method("add", vec![param("a", normal("i32")), param("b", normal("u64"))], Some(normal("i32")))];
    let out = emit_csharp(&list, &AliasMap::new(), &vec![], &vec![], &vec![], &o);
    let expected = "// <auto-generated>\n// This code is generated by csbindgen.\n// DON'T CHANGE THIS DIRECTLY.\n// </auto-generated>\n#pragma warning disable CS8500\n#pragma warning disable CS8981\nusing System;\nusing System.Runtime.InteropServices;\n\n\nnamespace CsBindgen\n{\n    internal static unsafe partial class NativeMethods\n    {\n        const string __DllName = \"native\";\n\n\n\n        [DllImport(__DllName, EntryPoint = \"add\", CallingConvention = CallingConvention.Cdecl, ExactSpelling = true)]\n        internal static extern int add(int a, ulong b);\n\n\n    }\n\n\n\n}\n";
    assert_eq!(out, expected);
}

#[test]
fn managed_parameter_order_preserved() {
    let ps = vec![param("c", normal("u8")), param("a", normal("i16")), param("b", normal("usize"))];
    let out = managed(&vec![method("h", ps, None)], &vec![], &vec![], &vec![]);
    assert!(out.contains("static extern void h(byte c, short a, nuint b);"));
}

#[test]
fn bool_parameter_and_return_marshaled() {
    let list = vec![method("check", vec![param("flag", normal("bool")), param("n", normal("i32"))], Some(normal("bool")))];
    let out = managed(&list, &vec![], &vec![], &vec![]);
    assert!(out.contains("        [return: MarshalAs(UnmanagedType.U1)]\n        internal static extern bool check([MarshalAs(UnmanagedType.U1)] bool flag, int n);"));
    assert_eq!(out.matches("MarshalAs").count(), 2);
}

#[test]
fn non_bool_never_marshaled() {
    let list = vec![method("f", vec![param("n", normal("i32"))], Some(normal("u8")))];
    let structs = vec![strukt("S", false, vec![field("x", normal("c_int"))])];
    let out = managed(&list, &structs, &vec![], &vec![]);
    assert!(!out.contains("MarshalAs"));
}

#[test]
fn bool_field_marshaled() {
    let structs = vec![strukt("S", false, vec![field("ok", normal("bool")), field("n", normal("u32"))])];
    let out = managed(&vec![], &structs, &vec![], &vec![]);
    assert!(out.contains("        [MarshalAs(UnmanagedType.U1)] public bool ok;\n        public uint n;\n"));
}

#[test]
fn zero_array_floored_to_one() {
    let structs = vec![strukt("S", false, vec![field("empty", array("0", normal("u8"))), field("four", array("4", normal("i32")))])];
    let out = managed(&vec![], &structs, &vec![], &vec![]);
    assert!(out.contains("        public fixed byte empty[1];\n"));
    assert!(out.contains("        public fixed int four[4];\n"));
}

#[test]
fn alias_array_size_used() {
    let mut aliases = AliasMap::new();
    aliases.insert("Zero".to_string(), array("0", normal("u8")));
    aliases.insert("Eight".to_string(), array("8", normal("u16")));
    let structs = vec![strukt("S", false, vec![field("a", normal("Zero")), field("b", normal("Eight"))])];
    let out = emit_csharp(&vec![], &aliases, &structs, &vec![], &vec![], &BindgenOptions::new());
    assert!(out.contains("        public fixed byte a[1];\n"));
    assert!(out.contains("        public fixed ushort b[8];\n"));
}

#[test]
fn alias_lookup_latest_wins() {
    let mut aliases = AliasMap::new();
    aliases.insert("T".to_string(), normal("u8"));
    aliases.insert("T".to_string(), normal("i64"));
    assert_eq!(aliases.get_mapped_value("T").unwrap().name, "i64");
    assert!(aliases.get_mapped_value("U").is_none());
}

#[test]
fn const_classification() {
    let consts = vec![
        constant("GREETING", normal("&str"), "\"hello\""),
        constant("LETTER", normal("char"), "'x'"),
        constant("BYTES", normal("&[u8]"), "[1,2,3]"),
        constant("PI", normal("f32"), "3.14"),
        constant("E", normal("f64"), "2.71"),
    ];
    let out = managed(&vec![], &vec![], &vec![], &consts);
    assert!(out.contains("        internal const string GREETING = \"hello\";\n"));
    assert!(out.contains("        internal const char LETTER = 'x';\n"));
    assert!(out.contains("        internal static ReadOnlySpan<byte> BYTES => new byte[] { 1, 2, 3 };\n"));
    assert!(out.contains("        internal const float PI = 3.14f;\n"));
    assert!(out.contains("        internal const double E = 2.71;\n"));
}

#[test]
fn byte_literal_with_spaces_kept() {
    let consts = vec![constant("B", normal("&[u8]"), "[4, 5]")];
    let out = managed(&vec![], &vec![], &vec![], &consts);
    assert!(out.contains("=> new byte[] { 4, 5 };\n"));
}

#[test]
fn enum_repr_table() {
    assert_eq!(convert_token_enum_repr("u32"), "uint");
    assert_eq!(convert_token_enum_repr("i64"), "long");
    assert_eq!(convert_token_enum_repr("(u8)"), "byte");
    assert_eq!(convert_token_enum_repr("C"), "uint");
    assert_eq!(convert_token_enum_repr("custom_t"), "custom_t");
}

#[test]
fn enum_emission() {
    let e = RustEnum {
        enum_name: "Mode".to_string(),
        fields: vec![
            EnumMember { name: "A".to_string(), value: None, doc_comment: None },
            EnumMember { name: "B".to_string(), value: Some("1 << 3".to_string()), doc_comment: None },
        ],
        repr: Some("i64".to_string()),
        is_flags: true,
        doc_comment: None,
    };
    let c = RustEnum { enum_name: "Kind".to_string(), fields: vec![], repr: Some("custom_t".to_string()), is_flags: false, doc_comment: None };
    let out = managed(&vec![], &vec![], &vec![e, c], &vec![]);
    assert!(out.contains("    [Flags]\n    internal enum Mode : long\n    {\n        A,\n        B = 1 << 3,\n    }\n\n"));
    assert!(out.contains("    internal enum Kind : custom_t\n"));
}

#[test]
fn union_fields_at_offset_zero() {
    let u = strukt("U", true, vec![field("a", normal("i32")), field("b", normal("f64")), field("c", array("2", normal("u8")))]);
    let out = managed(&vec![], &vec![u], &vec![], &vec![]);
    assert!(out.contains("    [StructLayout(LayoutKind.Explicit)]\n    internal unsafe partial struct U\n"));
    assert_eq!(out.matches("        [FieldOffset(0)]\n").count(), 3);
    assert!(!out.contains("FieldOffset(1"));
}

#[test]
fn struct_is_sequential() {
    let s = strukt("P", false, vec![field("x", normal("i32"))]);
    let out = managed(&vec![], &vec![s], &vec![], &vec![]);
    assert!(out.contains("    [StructLayout(LayoutKind.Sequential)]\n    internal unsafe partial struct P\n    {\n        public int x;\n    }\n"));
    assert!(!out.contains("FieldOffset"));
}

#[test]
fn empty_class_suppressed() {
    let s = strukt("P", false, vec![field("x", normal("i32"))]);
    let e = RustEnum { enum_name: "E".to_string(), fields: vec![], repr: None, is_flags: false, doc_comment: None };
    let out = managed(&vec![], &vec![s], &vec![e], &vec![]);
    assert!(!out.contains("partial class"));
    assert!(!out.contains("__DllName"));
    assert!(out.contains("namespace CsBindgen\n{\n    \n\n    [StructLayout(LayoutKind.Sequential)]"));
    assert!(out.contains("    internal enum E\n    {\n    }\n"));
}

#[test]
fn class_present_with_constant_only() {
    let out = managed(&vec![], &vec![], &vec![], &vec![constant("K", normal("i32"), "7")]);
    assert!(out.contains("internal static unsafe partial class NativeMethods"));
    assert!(out.contains("        internal const int K = 7;\n"));
}

#[test]
fn keywords_escaped() {
    let list = vec![method("lock", vec![param("object", normal("i32"))], None)];
    let structs = vec![strukt("event", false, vec![field("string", normal("u8"))])];
    let out = managed(&list, &structs, &vec![], &vec![]);
    assert!(out.contains("static extern void @lock(int @object);"));
    assert!(out.contains("EntryPoint = \"lock\""));
    assert!(out.contains("partial struct @event\n"));
    assert!(out.contains("public byte @string;"));
}

#[test]
fn method_prefix_and_entry_point() {
    let mut o = BindgenOptions::new();
    o.csharp_method_prefix = "cs_".to_string();
    o.csharp_entry_point_prefix = "ep_".to_string();
    let mut m = method("lock", vec![], None);
    m.export_naming = ExportSymbolNaming::ExportName("real_lock".to_string());
    let out = emit_csharp(&vec![m], &AliasMap::new(), &vec![], &vec![], &vec![], &o);
    assert!(out.contains("EntryPoint = \"ep_real_lock\""));
    assert!(out.contains("static extern void cs_lock();"));
}

#[test]
fn entry_point_falls_back_to_method_prefix() {
    let mut o = BindgenOptions::new();
    o.csharp_method_prefix = "cs_".to_string();
    let out = emit_csharp(&vec![method("run", vec![], None)], &AliasMap::new(), &vec![], &vec![], &vec![], &o);
    assert!(out.contains("EntryPoint = \"cs_run\""));
}

#[test]
fn delegates_per_occurrence() {
    let cb = || function(vec![param("v", normal("bool"))], Some(normal("i32")));
    let list = vec![method("on", vec![param("first", cb()), param("second", cb())], Some(cb()))];
    let out = managed(&list, &vec![], &vec![], &vec![]);
    assert_eq!(out.matches("[UnmanagedFunctionPointer(CallingConvention.Cdecl)]").count(), 3);
    assert!(out.contains("        internal delegate int on_return_delegate([MarshalAs(UnmanagedType.U1)] bool v);\n\n"));
    assert!(out.contains("        internal delegate int on_first_delegate([MarshalAs(UnmanagedType.U1)] bool v);\n\n"));
    assert!(out.contains("static extern on_return_delegate on(on_first_delegate first, on_second_delegate second);"));
    assert!(out.find("on_return_delegate(").unwrap() < out.find("on_first_delegate(").unwrap());
    assert!(out.find("on_first_delegate(").unwrap() < out.find("on_second_delegate(").unwrap());
}

#[test]
fn function_pointer_field() {
    let cb = function(vec![param("a", normal("i32")), param("b", pointer(true, normal("u8")))], None);
    let out = managed(&vec![], &vec![strukt("S", false, vec![field("cb", cb)])], &vec![], &vec![]);
    assert!(out.contains("        public delegate* unmanaged[Cdecl]<int, byte*, void> cb;\n"));
}

#[test]
fn pointer_and_array_parameters() {
    let list = vec![method("f", vec![param("p", pointer(true, pointer(false, normal("Foo")))), param("a", array("3", normal("f32")))], None)];
    let out = managed(&list, &vec![], &vec![], &vec![]);
    assert!(out.contains("void f(Foo** p, float* a);"));
}

#[test]
fn rename_table_applies() {
    let mut o = BindgenOptions::new();
    o.csharp_type_rename = vec![("Foo".to_string(), "NativeFoo".to_string())];
    let list = vec![method("f", vec![param("p", pointer(true, normal("Foo")))], None)];
    let structs = vec![strukt("Foo", false, vec![])];
    let out = emit_csharp(&list, &AliasMap::new(), &structs, &vec![], &vec![], &o);
    assert!(out.contains("partial struct NativeFoo\n"));
    assert!(out.contains("void f(NativeFoo* p);"));
}

#[test]
fn doc_comments_reindented() {
    let mut m = method("f", vec![], None);
    m.doc_comment = Some("first\nsecond".to_string());
    let mut s = strukt("S", false, vec![field("x", normal("i32"))]);
    s.doc_comment = Some("a struct".to_string());
    let out = managed(&vec![m], &vec![s], &vec![], &vec![]);
    assert!(out.contains("        /// <summary>\n        /// first\n        /// second\n        /// </summary>\n        [DllImport"));
    assert!(out.contains("    /// <summary>\n    /// a struct\n    /// </summary>\n    [StructLayout"));
    assert_eq!(out.matches("<summary>").count(), 2);
}

#[test]
fn dll_name_conditional() {
    let mut o = BindgenOptions::new();
    o.csharp_dll_name = "lib".to_string();
    o.csharp_if_symbol = "UNITY_IOS".to_string();
    o.csharp_if_dll_name = "__Internal".to_string();
    let out = emit_csharp(&vec![method("f", vec![], None)], &AliasMap::new(), &vec![], &vec![], &vec![], &o);
    assert!(out.contains("#if UNITY_IOS\n        const string __DllName = \"__Internal\";\n#else\n        const string __DllName = \"lib\";\n#endif\n"));
    o.csharp_disable_emit_dll_name = true;
    let out = emit_csharp(&vec![method("f", vec![], None)], &AliasMap::new(), &vec![], &vec![], &vec![], &o);
    assert!(!out.contains("__DllName = "));
}

#[test]
fn headers_footers_namespaces() {
    let mut o = BindgenOptions::new();
    o.csharp_file_header = "// header".to_string();
    o.csharp_file_footer = "// footer".to_string();
    o.csharp_namespace = "My.Space".to_string();
    o.csharp_imported_namespaces = vec!["A.B".to_string(), "C".to_string()];
    let out = emit_csharp(&vec![], &AliasMap::new(), &vec![], &vec![], &vec![], &o);
    assert!(out.starts_with("// header\n// <auto-generated>\n"));
    assert!(out.contains("using System.Runtime.InteropServices;\nusing A.B;\nusing C;\n\n\nnamespace My.Space\n{\n"));
    assert!(out.ends_with("\n\n}\n// footer"));
}
