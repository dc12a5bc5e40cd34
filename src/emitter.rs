//! The two emitters: native export shims, and managed bindings.
use crate::alias_map::AliasMap;
use crate::doc_comment::{doc_text, escape_doc_comment};
use crate::naming::{escape_csharp_name, rename_type, spec_escape_csharp_name, spec_rename};
use crate::options::BindgenOptions;
use crate::text::{
    concat_all, first_char_is, is_empty_str, join, lemma_concat_all_push, lemma_join_push,
    starts_with_char, str_eq,
};
use crate::type_mapper::{cs_type_text, rust_type_text, to_csharp_string, to_rust_string};
use crate::types::{
    EnumMember, ExportSymbolNaming, ExternMethod, FieldMember, Parameter, RustConst, RustEnum, RustStruct,
    RustType, TypeKind,
};
use vstd::prelude::*;

verus! {

/// One parameter of a shim signature.
pub open spec fn rust_param_text(p: Parameter, path: Seq<char>) -> Seq<char> {
    "    "@ + p.name@ + ": "@ + rust_type_text(p.rust_type, path)
}

/// One argument of a shim's forwarding call.
pub open spec fn rust_arg_text(p: Parameter) -> Seq<char> {
    "        "@ + p.name@
}

/// The pieces of a shim signature's parameter list, in declared order.
pub open spec fn rust_param_pieces(ps: Seq<Parameter>, path: Seq<char>) -> Seq<Seq<char>> {
    ps.map_values(|p: Parameter| rust_param_text(p, path))
}

/// The pieces of a forwarding call's argument list, in declared order.
pub open spec fn rust_arg_pieces(ps: Seq<Parameter>) -> Seq<Seq<char>> {
    ps.map_values(|p: Parameter| rust_arg_text(p))
}

pub open spec fn rust_return_text(ret: Option<RustType>, path: Seq<char>) -> Seq<char> {
    match ret {
        None => Seq::empty(),
        Some(t) => " -> "@ + rust_type_text(t, path),
    }
}

/// The qualification of forwarding calls.
pub open spec fn forward_path_text(path: Seq<char>) -> Seq<char> {
    if path.len() == 0 {
        Seq::empty()
    } else {
        path + "::"@
    }
}

/// The export shim of one method.
pub open spec fn rust_method_text(m: ExternMethod, o: BindgenOptions) -> Seq<char> {
    let path = o.rust_method_type_path@;
    "\n#[no_mangle]\npub unsafe extern \"C\" fn "@ + o.rust_method_prefix@ + m.method_name@ + "(\n"@
        + join(rust_param_pieces(m.parameters@, path), ",\n"@) + "\n)"@ + rust_return_text(
        m.return_type,
        path,
    ) + "\n{\n    "@ + forward_path_text(path) + m.method_name@ + "(\n"@ + join(
        rust_arg_pieces(m.parameters@),
        ",\n"@,
    ) + "\n    )\n}\n"@
}

/// The whole shim document.
pub open spec fn rust_document_text(list: Seq<ExternMethod>, o: BindgenOptions) -> Seq<char> {
    "/* automatically generated by csbindgen */\n\n#[allow(unused)]\nuse ::std::os::raw::*;\n\n"@
        + o.rust_file_header@ + "\n\n"@ + concat_all(
        list.map_values(|m: ExternMethod| rust_method_text(m, o)),
    ) + "\n    "@
}

fn rust_params(ps: &Vec<Parameter>, path: &str) -> (r: String)
    ensures
        r@ == join(rust_param_pieces(ps@, path@), ",\n"@),
{
    let mut out = String::new();
    let mut i: usize = 0;
    while i < ps.len()
        invariant
            i <= ps@.len(),
            out@ == join(rust_param_pieces(ps@.subrange(0, i as int), path@), ",\n"@),
        decreases ps@.len() - i,
    {
        let s = to_rust_string(&ps[i].rust_type, path);
        let piece = String::from_str("    ").concat(ps[i].name.as_str()).concat(": ").concat(
            s.as_str(),
        );
        proof {
            let before = rust_param_pieces(ps@.subrange(0, i as int), path@);
            assert(rust_param_pieces(ps@.subrange(0, i + 1), path@) =~= before.push(piece@));
            lemma_join_push(before, ",\n"@, piece@);
        }
        if i > 0 {
            out.append(",\n");
        }
        out.append(piece.as_str());
        i = i + 1;
    }
    assert(ps@.subrange(0, ps@.len() as int) =~= ps@);
    out
}

fn rust_args(ps: &Vec<Parameter>) -> (r: String)
    ensures
        r@ == join(rust_arg_pieces(ps@), ",\n"@),
{
    let mut out = String::new();
    let mut i: usize = 0;
    while i < ps.len()
        invariant
            i <= ps@.len(),
            out@ == join(rust_arg_pieces(ps@.subrange(0, i as int)), ",\n"@),
        decreases ps@.len() - i,
    {
        let piece = String::from_str("        ").concat(ps[i].name.as_str());
        proof {
            let before = rust_arg_pieces(ps@.subrange(0, i as int));
            assert(rust_arg_pieces(ps@.subrange(0, i + 1)) =~= before.push(piece@));
            lemma_join_push(before, ",\n"@, piece@);
        }
        if i > 0 {
            out.append(",\n");
        }
        out.append(piece.as_str());
        i = i + 1;
    }
    assert(ps@.subrange(0, ps@.len() as int) =~= ps@);
    out
}

fn rust_method(m: &ExternMethod, o: &BindgenOptions) -> (r: String)
    ensures
        r@ == rust_method_text(*m, *o),
{
    let path = o.rust_method_type_path.as_str();
    let params = rust_params(&m.parameters, path);
    let args = rust_args(&m.parameters);
    let ret = match &m.return_type {
        None => String::new(),
        Some(t) => String::from_str(" -> ").concat(to_rust_string(t, path).as_str()),
    };
    let fwd = if is_empty_str(path) {
        String::new()
    } else {
        String::from_str(path).concat("::")
    };
    String::from_str("\n#[no_mangle]\npub unsafe extern \"C\" fn ").concat(
        o.rust_method_prefix.as_str(),
    ).concat(m.method_name.as_str()).concat("(\n").concat(params.as_str()).concat("\n)").concat(
        ret.as_str(),
    ).concat("\n{\n    ").concat(fwd.as_str()).concat(m.method_name.as_str()).concat(
        "(\n",
    ).concat(args.as_str()).concat("\n    )\n}\n")
}

/// Emits one export shim per method, in order, each forwarding to the
/// implementation under `rust_method_type_path`.
pub fn emit_rust_method(list: &Vec<ExternMethod>, options: &BindgenOptions) -> (r: String)
    ensures
        r@ == rust_document_text(list@, *options),
{
    let mut methods = String::new();
    let mut i: usize = 0;
    while i < list.len()
        invariant
            i <= list@.len(),
            methods@ == concat_all(
                list@.subrange(0, i as int).map_values(
                    |m: ExternMethod| rust_method_text(m, *options),
                ),
            ),
        decreases list@.len() - i,
    {
        let piece = rust_method(&list[i], options);
        proof {
            let f = |m: ExternMethod| rust_method_text(m, *options);
            let before = list@.subrange(0, i as int).map_values(f);
            assert(list@.subrange(0, i + 1).map_values(f) =~= before.push(piece@));
            lemma_concat_all_push(before, piece@);
        }
        methods.append(piece.as_str());
        i = i + 1;
    }
    assert(list@.subrange(0, list@.len() as int) =~= list@);
    String::from_str(
        "/* automatically generated by csbindgen */\n\n#[allow(unused)]\nuse ::std::os::raw::*;\n\n",
    ).concat(options.rust_file_header.as_str()).concat("\n\n").concat(methods.as_str()).concat(
        "\n    ",
    )
}

/// The one-byte marshaling annotation that booleans carry.
pub open spec fn marshal_text() -> Seq<char> {
    "[MarshalAs(UnmanagedType.U1)] "@
}

/// The return-position form of the one-byte marshaling annotation.
pub open spec fn return_marshal_line() -> Seq<char> {
    "        [return: MarshalAs(UnmanagedType.U1)]\n"@
}

/// A managed parameter type, annotated when it is `bool`.
pub open spec fn marshal_param_type(ty: Seq<char>) -> Seq<char> {
    if ty == "bool"@ {
        marshal_text() + "bool"@
    } else {
        ty
    }
}

/// The return-position annotation, present exactly for a `bool` return.
pub open spec fn return_marshal_text(ty: Seq<char>) -> Seq<char> {
    if ty == "bool"@ {
        return_marshal_line()
    } else {
        Seq::empty()
    }
}

/// One parameter of a managed import or delegate of method `m`.
pub open spec fn cs_param_text(a: AliasMap, o: BindgenOptions, m: Seq<char>, p: Parameter) -> Seq<
    char,
> {
    marshal_param_type(cs_type_text(a, o.csharp_type_rename@, p.rust_type, false, m, p.name@))
        + " "@ + spec_escape_csharp_name(p.name@)
}

pub open spec fn cs_param_pieces(
    a: AliasMap,
    o: BindgenOptions,
    m: Seq<char>,
    ps: Seq<Parameter>,
) -> Seq<Seq<char>> {
    ps.map_values(|p: Parameter| cs_param_text(a, o, m, p))
}

pub open spec fn cs_params_text(
    a: AliasMap,
    o: BindgenOptions,
    m: Seq<char>,
    ps: Seq<Parameter>,
) -> Seq<char> {
    join(cs_param_pieces(a, o, m, ps), ", "@)
}

/// The delegate declaration synthesized for parameter (or return) `p` of
/// method `m` when its type is a function pointer; nothing otherwise.
pub open spec fn delegate_text(
    a: AliasMap,
    o: BindgenOptions,
    m: Seq<char>,
    p: Seq<char>,
    t: RustType,
) -> Seq<char> {
    match a.spec_resolve(t).type_kind {
        TypeKind::Function(ps, ret) => {
            let rt = match ret {
                Some(r) => cs_type_text(a, o.csharp_type_rename@, *r, false, m, p),
                None => "void"@,
            };
            "        [UnmanagedFunctionPointer(CallingConvention.Cdecl)]\n"@ + return_marshal_text(rt)
                + "        "@ + o.csharp_class_accessibility@ + " delegate "@ + rt + " "@ + m + "_"@
                + p + "_delegate("@ + cs_params_text(a, o, m, ps@) + ");\n\n"@
        },
        _ => Seq::empty(),
    }
}

/// The managed name of a method: escaped when no managed prefix is set.
pub open spec fn cs_method_name(o: BindgenOptions, m: ExternMethod) -> Seq<char> {
    if o.csharp_method_prefix@.len() == 0 {
        spec_escape_csharp_name(m.method_name@)
    } else {
        m.method_name@
    }
}

pub open spec fn export_name(m: ExternMethod) -> Seq<char> {
    match m.export_naming {
        ExportSymbolNaming::NoMangle => m.method_name@,
        ExportSymbolNaming::ExportName(x) => x@,
    }
}

/// The entry point: the entry-point prefix if set, else the managed method
/// prefix, then the export name.
pub open spec fn entry_point_text(o: BindgenOptions, m: ExternMethod) -> Seq<char> {
    (if o.csharp_entry_point_prefix@.len() == 0 {
        o.csharp_method_prefix@
    } else {
        o.csharp_entry_point_prefix@
    }) + export_name(m)
}

pub open spec fn cs_return_type_text(
    a: AliasMap,
    o: BindgenOptions,
    m: Seq<char>,
    ret: Option<RustType>,
) -> Seq<char> {
    match ret {
        Some(t) => cs_type_text(a, o.csharp_type_rename@, t, false, m, "return"@),
        None => "void"@,
    }
}

pub open spec fn param_delegate_pieces(
    a: AliasMap,
    o: BindgenOptions,
    m: Seq<char>,
    ps: Seq<Parameter>,
) -> Seq<Seq<char>> {
    ps.map_values(|p: Parameter| delegate_text(a, o, m, p.name@, p.rust_type))
}

/// The delegates of a method: for its return, then for its parameters in order.
pub open spec fn method_delegates_text(
    a: AliasMap,
    o: BindgenOptions,
    m: Seq<char>,
    x: ExternMethod,
) -> Seq<char> {
    (match x.return_type {
        Some(t) => delegate_text(a, o, m, "return"@, t),
        None => Seq::empty(),
    }) + concat_all(param_delegate_pieces(a, o, m, x.parameters@))
}

/// The managed import of one method, preceded by its delegates.
pub open spec fn cs_method_text(a: AliasMap, o: BindgenOptions, x: ExternMethod) -> Seq<char> {
    let m = cs_method_name(o, x);
    let rt = cs_return_type_text(a, o, m, x.return_type);
    method_delegates_text(a, o, m, x) + doc_text(x.doc_comment, "        "@)
        + "        [DllImport(__DllName, EntryPoint = \""@ + entry_point_text(o, x)
        + "\", CallingConvention = CallingConvention.Cdecl, ExactSpelling = true)]\n"@
        + return_marshal_text(rt) + "        "@ + o.csharp_class_accessibility@ + " static extern "@
        + rt + " "@ + o.csharp_method_prefix@ + m + "("@ + cs_params_text(
        a,
        o,
        m,
        x.parameters@,
    ) + ");\n\n"@
}

fn is_bool(s: &String) -> (r: bool)
    ensures
        r == (s@ == "bool"@),
{
    str_eq(s.as_str(), "bool")
}

fn cs_param(a: &AliasMap, o: &BindgenOptions, m: &str, p: &Parameter) -> (r: String)
    ensures
        r@ == cs_param_text(*a, *o, m@, *p),
{
    let ty = to_csharp_string(
        &p.rust_type,
        a,
        &o.csharp_type_rename,
        false,
        m,
        p.name.as_str(),
    );
    let ty = if is_bool(&ty) {
        String::from_str("[MarshalAs(UnmanagedType.U1)] ").concat("bool")
    } else {
        ty
    };
    ty.concat(" ").concat(escape_csharp_name(p.name.as_str()).as_str())
}

fn cs_params(a: &AliasMap, o: &BindgenOptions, m: &str, ps: &Vec<Parameter>) -> (r: String)
    ensures
        r@ == cs_params_text(*a, *o, m@, ps@),
{
    let mut out = String::new();
    let mut i: usize = 0;
    while i < ps.len()
        invariant
            i <= ps@.len(),
            out@ == join(cs_param_pieces(*a, *o, m@, ps@.subrange(0, i as int)), ", "@),
        decreases ps@.len() - i,
    {
        let piece = cs_param(a, o, m, &ps[i]);
        proof {
            let before = cs_param_pieces(*a, *o, m@, ps@.subrange(0, i as int));
            assert(cs_param_pieces(*a, *o, m@, ps@.subrange(0, i + 1)) =~= before.push(piece@));
            lemma_join_push(before, ", "@, piece@);
        }
        if i > 0 {
            out.append(", ");
        }
        out.append(piece.as_str());
        i = i + 1;
    }
    assert(ps@.subrange(0, ps@.len() as int) =~= ps@);
    out
}

fn return_marshal(ty: &String) -> (r: String)
    ensures
        r@ == return_marshal_text(ty@),
{
    if is_bool(ty) {
        String::from_str("        [return: MarshalAs(UnmanagedType.U1)]\n")
    } else {
        String::new()
    }
}

fn delegate(a: &AliasMap, o: &BindgenOptions, m: &str, p: &str, t: &RustType) -> (r: String)
    ensures
        r@ == delegate_text(*a, *o, m@, p@, *t),
{
    let u = a.resolve(t);
    match &u.type_kind {
        TypeKind::Function(ps, ret) => {
            let rt = match ret {
                Some(r) => to_csharp_string(r, a, &o.csharp_type_rename, false, m, p),
                None => String::from_str("void"),
            };
            let params = cs_params(a, o, m, ps);
            String::from_str("        [UnmanagedFunctionPointer(CallingConvention.Cdecl)]\n").concat(
                return_marshal(&rt).as_str(),
            ).concat("        ").concat(o.csharp_class_accessibility.as_str()).concat(
                " delegate ",
            ).concat(rt.as_str()).concat(" ").concat(m).concat("_").concat(p).concat(
                "_delegate(",
            ).concat(params.as_str()).concat(");\n\n")
        },
        _ => String::new(),
    }
}

fn method_delegates(a: &AliasMap, o: &BindgenOptions, m: &str, x: &ExternMethod) -> (r: String)
    ensures
        r@ == method_delegates_text(*a, *o, m@, *x),
{
    let mut out = match &x.return_type {
        Some(t) => delegate(a, o, m, "return", t),
        None => String::new(),
    };
    let ghost head = out@;
    let ps = &x.parameters;
    let mut i: usize = 0;
    assert(param_delegate_pieces(*a, *o, m@, ps@.subrange(0, 0)) =~= Seq::<Seq<char>>::empty());
    assert(head + Seq::<char>::empty() =~= head);
    while i < ps.len()
        invariant
            i <= ps@.len(),
            out@ == head + concat_all(param_delegate_pieces(*a, *o, m@, ps@.subrange(0, i as int))),
        decreases ps@.len() - i,
    {
        let piece = delegate(a, o, m, ps[i].name.as_str(), &ps[i].rust_type);
        proof {
            let before = param_delegate_pieces(*a, *o, m@, ps@.subrange(0, i as int));
            assert(param_delegate_pieces(*a, *o, m@, ps@.subrange(0, i + 1)) =~= before.push(
                piece@,
            ));
            lemma_concat_all_push(before, piece@);
            assert(head + concat_all(before) + piece@ =~= head + (concat_all(before) + piece@));
        }
        out.append(piece.as_str());
        i = i + 1;
    }
    assert(ps@.subrange(0, ps@.len() as int) =~= ps@);
    out
}

fn cs_method(a: &AliasMap, o: &BindgenOptions, x: &ExternMethod) -> (r: String)
    ensures
        r@ == cs_method_text(*a, *o, *x),
{
    let m = if is_empty_str(o.csharp_method_prefix.as_str()) {
        escape_csharp_name(x.method_name.as_str())
    } else {
        x.method_name.clone()
    };
    let m = m.as_str();
    let delegates = method_delegates(a, o, m, x);
    let export = match &x.export_naming {
        ExportSymbolNaming::NoMangle => x.method_name.as_str(),
        ExportSymbolNaming::ExportName(e) => e.as_str(),
    };
    let entry = if is_empty_str(o.csharp_entry_point_prefix.as_str()) {
        o.csharp_method_prefix.clone()
    } else {
        o.csharp_entry_point_prefix.clone()
    }.concat(export);
    let rt = match &x.return_type {
        Some(t) => to_csharp_string(t, a, &o.csharp_type_rename, false, m, "return"),
        None => String::from_str("void"),
    };
    let params = cs_params(a, o, m, &x.parameters);
    let doc = escape_doc_comment(&x.doc_comment, "        ");
    delegates.concat(doc.as_str()).concat("        [DllImport(__DllName, EntryPoint = \"").concat(
        entry.as_str(),
    ).concat("\", CallingConvention = CallingConvention.Cdecl, ExactSpelling = true)]\n").concat(
        return_marshal(&rt).as_str(),
    ).concat("        ").concat(o.csharp_class_accessibility.as_str()).concat(
        " static extern ",
    ).concat(rt.as_str()).concat(" ").concat(o.csharp_method_prefix.as_str()).concat(m).concat(
        "(",
    ).concat(params.as_str()).concat(");\n\n")
}

/// The managed size of a fixed buffer: zero-length buffers are not allowed
/// there, so `0` becomes `1`.
pub open spec fn array_size_text(n: Seq<char>) -> Seq<char> {
    if n == "0"@ {
        "1"@
    } else {
        n
    }
}

/// The buffer-size suffix of a field: from its own fixed-array type, else
/// from the fixed-array type its name is an alias for; nothing otherwise.
pub open spec fn array_suffix_text(a: AliasMap, t: RustType) -> Seq<char> {
    match t.type_kind {
        TypeKind::FixedArray(n, _) => "["@ + array_size_text(n@) + "]"@,
        _ => match a.spec_get(t.name@) {
            Some(u) => match u.type_kind {
                TypeKind::FixedArray(n, _) => "["@ + array_size_text(n@) + "]"@,
                _ => Seq::empty(),
            },
            None => Seq::empty(),
        },
    }
}

/// The annotation a field carries: the one-byte marshaling for `bool`.
pub open spec fn field_marshal_text(ty: Seq<char>) -> Seq<char> {
    if ty == "bool"@ {
        marshal_text()
    } else {
        Seq::empty()
    }
}

/// The offset line of a field: present, at zero, exactly in a union.
pub open spec fn field_offset_text(is_union: bool) -> Seq<char> {
    if is_union {
        "        [FieldOffset(0)]\n"@
    } else {
        Seq::empty()
    }
}

/// The managed field declaration: the annotation, the type, the name and
/// the buffer-size suffix.
pub open spec fn cs_field_decl_text(a: AliasMap, o: BindgenOptions, f: FieldMember) -> Seq<char> {
    let ty = cs_type_text(a, o.csharp_type_rename@, f.rust_type, true, ""@, ""@);
    "        "@ + field_marshal_text(ty) + "public "@ + ty + " "@ + spec_escape_csharp_name(f.name@)
        + array_suffix_text(a, f.rust_type) + ";\n"@
}

pub open spec fn cs_field_text(a: AliasMap, o: BindgenOptions, is_union: bool, f: FieldMember) -> Seq<
    char,
> {
    doc_text(f.doc_comment, "        "@) + field_offset_text(is_union) + cs_field_decl_text(a, o, f)
}

pub open spec fn cs_field_pieces(
    a: AliasMap,
    o: BindgenOptions,
    is_union: bool,
    fs: Seq<FieldMember>,
) -> Seq<Seq<char>> {
    fs.map_values(|f: FieldMember| cs_field_text(a, o, is_union, f))
}

/// The managed name of a declared type: escaped, then renamed.
pub open spec fn cs_decl_name(o: BindgenOptions, n: Seq<char>) -> Seq<char> {
    spec_rename(o.csharp_type_rename@, spec_escape_csharp_name(n))
}

/// The layout-annotated record of a struct or union.
pub open spec fn cs_struct_text(a: AliasMap, o: BindgenOptions, x: RustStruct) -> Seq<char> {
    doc_text(x.doc_comment, "    "@) + "    [StructLayout(LayoutKind."@ + (if x.is_union {
        "Explicit"@
    } else {
        "Sequential"@
    }) + ")]\n"@ + "    "@ + o.csharp_class_accessibility@ + " unsafe partial struct "@
        + cs_decl_name(o, x.struct_name@) + "\n"@ + "    {\n"@ + concat_all(
        cs_field_pieces(a, o, x.is_union, x.fields@),
    ) + "    }\n"@ + "\n"@
}

/// The fixed table of representation tokens to managed backing types; any
/// other token is kept.
pub open spec fn enum_repr_text(r: Seq<char>) -> Seq<char> {
    if r == "(C)"@ || r == "C"@ || r == "(u32)"@ || r == "u32"@ {
        "uint"@
    } else if r == "(u8)"@ || r == "u8"@ {
        "byte"@
    } else if r == "(u16)"@ || r == "u16"@ {
        "ushort"@
    } else if r == "(u64)"@ || r == "u64"@ {
        "ulong"@
    } else if r == "(i8)"@ || r == "i8"@ {
        "sbyte"@
    } else if r == "(i16)"@ || r == "i16"@ {
        "short"@
    } else if r == "(i32)"@ || r == "i32"@ {
        "int"@
    } else if r == "(i64)"@ || r == "i64"@ {
        "long"@
    } else {
        r
    }
}

pub open spec fn cs_enum_member_text(f: EnumMember) -> Seq<char> {
    doc_text(f.doc_comment, "        "@) + "        "@ + f.name@ + match f.value {
        Some(x) => " = "@ + x@ + ","@,
        None => ","@,
    } + "\n"@
}

pub open spec fn cs_enum_member_pieces(fs: Seq<EnumMember>) -> Seq<Seq<char>> {
    fs.map_values(|f: EnumMember| cs_enum_member_text(f))
}

pub open spec fn cs_enum_repr_text(repr: Option<String>) -> Seq<char> {
    match repr {
        Some(x) => " : "@ + enum_repr_text(x@),
        None => Seq::empty(),
    }
}

pub open spec fn cs_enum_text(o: BindgenOptions, x: RustEnum) -> Seq<char> {
    doc_text(x.doc_comment, "    "@) + (if x.is_flags {
        "    [Flags]\n"@
    } else {
        Seq::empty()
    }) + "    "@ + o.csharp_class_accessibility@ + " enum "@ + cs_decl_name(o, x.enum_name@)
        + cs_enum_repr_text(x.repr) + "\n"@ + "    {\n"@ + concat_all(
        cs_enum_member_pieces(x.fields@),
    ) + "    }\n"@ + "\n"@
}

/// One character of an array literal in managed syntax: brackets become
/// braces, and a comma is followed by a space.
pub open spec fn byte_char_text(s: Seq<char>, i: int) -> Seq<char> {
    if s[i] == '[' {
        "{ "@
    } else if s[i] == ']' {
        " }"@
    } else if s[i] == ',' && i + 1 < s.len() && s[i + 1] != ' ' {
        ", "@
    } else {
        seq![s[i]]
    }
}

pub open spec fn byte_literal_text(s: Seq<char>) -> Seq<char> {
    concat_all(Seq::new(s.len(), |i: int| byte_char_text(s, i)))
}

/// The managed type of a constant: by the literal's first character, else
/// by its descriptor.
pub open spec fn const_type_text(a: AliasMap, o: BindgenOptions, c: RustConst) -> Seq<char> {
    if starts_with_char(c.value@, '"') {
        "string"@
    } else if starts_with_char(c.value@, '\'') {
        "char"@
    } else {
        cs_type_text(a, o.csharp_type_rename@, c.rust_type, false, ""@, ""@)
    }
}

/// The literal of a constant, with the single-precision suffix on `float`.
pub open spec fn const_value_text(ty: Seq<char>, v: Seq<char>) -> Seq<char> {
    if ty == "float"@ {
        v + "f"@
    } else {
        v
    }
}

pub open spec fn cs_const_decl_text(a: AliasMap, o: BindgenOptions, c: RustConst) -> Seq<char> {
    if starts_with_char(c.value@, '[') {
        "        "@ + o.csharp_class_accessibility@ + " static ReadOnlySpan<byte> "@
            + spec_escape_csharp_name(c.const_name@) + " => new byte[] "@ + byte_literal_text(
            c.value@,
        ) + ";\n"@
    } else {
        let ty = const_type_text(a, o, c);
        "        "@ + o.csharp_class_accessibility@ + " const "@ + ty + " "@
            + spec_escape_csharp_name(c.const_name@) + " = "@ + const_value_text(ty, c.value@)
            + ";\n"@
    }
}

pub open spec fn cs_const_text(a: AliasMap, o: BindgenOptions, c: RustConst) -> Seq<char> {
    doc_text(c.doc_comment, "        "@) + cs_const_decl_text(a, o, c)
}

fn array_suffix(a: &AliasMap, t: &RustType) -> (r: String)
    ensures
        r@ == array_suffix_text(*a, *t),
{
    let u = match &t.type_kind {
        TypeKind::FixedArray(_, _) => t,
        _ => match a.get_mapped_value(t.name.as_str()) {
            Some(u) => u,
            None => {
                return String::new();
            },
        },
    };
    match &u.type_kind {
        TypeKind::FixedArray(n, _) => {
            let size = if str_eq(n.as_str(), "0") {
                String::from_str("1")
            } else {
                n.clone()
            };
            String::from_str("[").concat(size.as_str()).concat("]")
        },
        _ => String::new(),
    }
}

fn cs_field(a: &AliasMap, o: &BindgenOptions, is_union: bool, f: &FieldMember) -> (r: String)
    ensures
        r@ == cs_field_text(*a, *o, is_union, *f),
{
    let doc = escape_doc_comment(&f.doc_comment, "        ");
    let offset = if is_union {
        String::from_str("        [FieldOffset(0)]\n")
    } else {
        String::new()
    };
    let ty = to_csharp_string(&f.rust_type, a, &o.csharp_type_rename, true, "", "");
    let attr = if is_bool(&ty) {
        String::from_str("[MarshalAs(UnmanagedType.U1)] ")
    } else {
        String::new()
    };
    let decl = String::from_str("        ").concat(attr.as_str()).concat("public ").concat(
        ty.as_str(),
    ).concat(" ").concat(escape_csharp_name(f.name.as_str()).as_str()).concat(
        array_suffix(a, &f.rust_type).as_str(),
    ).concat(";\n");
    doc.concat(offset.as_str()).concat(decl.as_str())
}

fn cs_struct(a: &AliasMap, o: &BindgenOptions, x: &RustStruct) -> (r: String)
    ensures
        r@ == cs_struct_text(*a, *o, *x),
{
    let mut fields = String::new();
    let mut i: usize = 0;
    while i < x.fields.len()
        invariant
            i <= x.fields@.len(),
            fields@ == concat_all(
                cs_field_pieces(*a, *o, x.is_union, x.fields@.subrange(0, i as int)),
            ),
        decreases x.fields@.len() - i,
    {
        let piece = cs_field(a, o, x.is_union, &x.fields[i]);
        proof {
            let before = cs_field_pieces(*a, *o, x.is_union, x.fields@.subrange(0, i as int));
            assert(cs_field_pieces(*a, *o, x.is_union, x.fields@.subrange(0, i + 1))
                =~= before.push(piece@));
            lemma_concat_all_push(before, piece@);
        }
        fields.append(piece.as_str());
        i = i + 1;
    }
    assert(x.fields@.subrange(0, x.fields@.len() as int) =~= x.fields@);
    let layout = if x.is_union {
        "Explicit"
    } else {
        "Sequential"
    };
    let name = rename_decl(o, x.struct_name.as_str());
    escape_doc_comment(&x.doc_comment, "    ").concat("    [StructLayout(LayoutKind.").concat(
        layout,
    ).concat(")]\n").concat("    ").concat(o.csharp_class_accessibility.as_str()).concat(
        " unsafe partial struct ",
    ).concat(name.as_str()).concat("\n").concat("    {\n").concat(fields.as_str()).concat(
        "    }\n",
    ).concat("\n")
}

fn rename_decl(o: &BindgenOptions, n: &str) -> (r: String)
    ensures
        r@ == cs_decl_name(*o, n@),
{
    let e = escape_csharp_name(n);
    rename_type(&o.csharp_type_rename, e.as_str())
}

/// Maps a representation token to the managed backing type; an
/// unrecognized token is returned unchanged.
pub fn convert_token_enum_repr(repr: &str) -> (r: &str)
    ensures
        r@ == enum_repr_text(repr@),
{
    if str_eq(repr, "(C)") || str_eq(repr, "C") || str_eq(repr, "(u32)") || str_eq(repr, "u32") {
        "uint"
    } else if str_eq(repr, "(u8)") || str_eq(repr, "u8") {
        "byte"
    } else if str_eq(repr, "(u16)") || str_eq(repr, "u16") {
        "ushort"
    } else if str_eq(repr, "(u64)") || str_eq(repr, "u64") {
        "ulong"
    } else if str_eq(repr, "(i8)") || str_eq(repr, "i8") {
        "sbyte"
    } else if str_eq(repr, "(i16)") || str_eq(repr, "i16") {
        "short"
    } else if str_eq(repr, "(i32)") || str_eq(repr, "i32") {
        "int"
    } else if str_eq(repr, "(i64)") || str_eq(repr, "i64") {
        "long"
    } else {
        repr
    }
}

fn cs_enum_member(f: &EnumMember) -> (r: String)
    ensures
        r@ == cs_enum_member_text(*f),
{
    let value = match &f.value {
        Some(x) => String::from_str(" = ").concat(x.as_str()).concat(","),
        None => String::from_str(","),
    };
    escape_doc_comment(&f.doc_comment, "        ").concat("        ").concat(f.name.as_str()).concat(
        value.as_str(),
    ).concat("\n")
}

fn cs_enum(o: &BindgenOptions, x: &RustEnum) -> (r: String)
    ensures
        r@ == cs_enum_text(*o, *x),
{
    let mut fields = String::new();
    let mut i: usize = 0;
    while i < x.fields.len()
        invariant
            i <= x.fields@.len(),
            fields@ == concat_all(cs_enum_member_pieces(x.fields@.subrange(0, i as int))),
        decreases x.fields@.len() - i,
    {
        let piece = cs_enum_member(&x.fields[i]);
        proof {
            let before = cs_enum_member_pieces(x.fields@.subrange(0, i as int));
            assert(cs_enum_member_pieces(x.fields@.subrange(0, i + 1)) =~= before.push(piece@));
            lemma_concat_all_push(before, piece@);
        }
        fields.append(piece.as_str());
        i = i + 1;
    }
    assert(x.fields@.subrange(0, x.fields@.len() as int) =~= x.fields@);
    let repr = match &x.repr {
        Some(r) => String::from_str(" : ").concat(convert_token_enum_repr(r.as_str())),
        None => String::new(),
    };
    let flags = if x.is_flags {
        String::from_str("    [Flags]\n")
    } else {
        String::new()
    };
    let name = rename_decl(o, x.enum_name.as_str());
    escape_doc_comment(&x.doc_comment, "    ").concat(flags.as_str()).concat("    ").concat(
        o.csharp_class_accessibility.as_str(),
    ).concat(" enum ").concat(name.as_str()).concat(repr.as_str()).concat("\n").concat(
        "    {\n",
    ).concat(fields.as_str()).concat("    }\n").concat("\n")
}

fn byte_literal(s: &str) -> (r: String)
    ensures
        r@ == byte_literal_text(s@),
{
    let n = s.unicode_len();
    let mut out = String::new();
    let mut i: usize = 0;
    while i < n
        invariant
            n == s@.len(),
            i <= n,
            out@ == concat_all(Seq::new(i as nat, |j: int| byte_char_text(s@, j))),
        decreases n - i,
    {
        let c = s.get_char(i);
        let piece = if c == '[' {
            String::from_str("{ ")
        } else if c == ']' {
            String::from_str(" }")
        } else if c == ',' && i + 1 < n && s.get_char(i + 1) != ' ' {
            String::from_str(", ")
        } else {
            let one = s.substring_char(i, i + 1);
            assert(one@ =~= seq![s@[i as int]]);
            String::from_str(one)
        };
        proof {
            let f = |j: int| byte_char_text(s@, j);
            assert(Seq::new((i + 1) as nat, f) =~= Seq::new(i as nat, f).push(piece@));
            lemma_concat_all_push(Seq::new(i as nat, f), piece@);
        }
        out.append(piece.as_str());
        i = i + 1;
    }
    out
}

fn cs_const(a: &AliasMap, o: &BindgenOptions, c: &RustConst) -> (r: String)
    ensures
        r@ == cs_const_text(*a, *o, *c),
{
    let doc = escape_doc_comment(&c.doc_comment, "        ");
    let v = c.value.as_str();
    let name = escape_csharp_name(c.const_name.as_str());
    let decl = if first_char_is(v, '[') {
        String::from_str("        ").concat(o.csharp_class_accessibility.as_str()).concat(
            " static ReadOnlySpan<byte> ",
        ).concat(name.as_str()).concat(" => new byte[] ").concat(byte_literal(v).as_str()).concat(
            ";\n",
        )
    } else {
        let ty = if first_char_is(v, '"') {
            String::from_str("string")
        } else if first_char_is(v, '\'') {
            String::from_str("char")
        } else {
            to_csharp_string(&c.rust_type, a, &o.csharp_type_rename, false, "", "")
        };
        let value = if str_eq(ty.as_str(), "float") {
            String::from_str(v).concat("f")
        } else {
            String::from_str(v)
        };
        String::from_str("        ").concat(o.csharp_class_accessibility.as_str()).concat(
            " const ",
        ).concat(ty.as_str()).concat(" ").concat(name.as_str()).concat(" = ").concat(
            value.as_str(),
        ).concat(";\n")
    };
    doc.concat(decl.as_str())
}

pub open spec fn cs_methods_text(a: AliasMap, o: BindgenOptions, ms: Seq<ExternMethod>) -> Seq<char> {
    concat_all(ms.map_values(|x: ExternMethod| cs_method_text(a, o, x)))
}

pub open spec fn cs_structs_text(a: AliasMap, o: BindgenOptions, ss: Seq<RustStruct>) -> Seq<char> {
    concat_all(ss.map_values(|x: RustStruct| cs_struct_text(a, o, x)))
}

pub open spec fn cs_enums_text(o: BindgenOptions, es: Seq<RustEnum>) -> Seq<char> {
    concat_all(es.map_values(|x: RustEnum| cs_enum_text(o, x)))
}

pub open spec fn cs_consts_text(a: AliasMap, o: BindgenOptions, cs: Seq<RustConst>) -> Seq<char> {
    concat_all(cs.map_values(|x: RustConst| cs_const_text(a, o, x)))
}

/// The declaration of the library name the imports refer to.
pub open spec fn dll_name_text(o: BindgenOptions) -> Seq<char> {
    if o.csharp_disable_emit_dll_name {
        Seq::empty()
    } else if o.csharp_if_symbol@.len() == 0 {
        "        const string __DllName = \""@ + o.csharp_dll_name@ + "\";"@
    } else {
        "#if "@ + o.csharp_if_symbol@ + "\n        const string __DllName = \""@
            + o.csharp_if_dll_name@ + "\";\n#else\n        const string __DllName = \""@
            + o.csharp_dll_name@ + "\";\n#endif\n        "@
    }
}

/// The class holding constants and imports; nothing when there are neither
/// methods nor constants.
pub open spec fn class_text(
    a: AliasMap,
    o: BindgenOptions,
    ms: Seq<ExternMethod>,
    cs: Seq<RustConst>,
) -> Seq<char> {
    if ms.len() == 0 && cs.len() == 0 {
        Seq::empty()
    } else {
        o.csharp_class_accessibility@ + " static unsafe partial class "@ + o.csharp_class_name@
            + "\n    {\n"@ + dll_name_text(o) + "\n\n"@ + cs_consts_text(a, o, cs) + "\n\n"@
            + cs_methods_text(a, o, ms) + "\n    }"@
    }
}

pub open spec fn cs_banner() -> Seq<char> {
    "// <auto-generated>\n// This code is generated by csbindgen.\n// DON'T CHANGE THIS DIRECTLY.\n// </auto-generated>\n#pragma warning disable CS8500\n#pragma warning disable CS8981"@
}

pub open spec fn cs_file_header_text(o: BindgenOptions) -> Seq<char> {
    (if o.csharp_file_header@.len() == 0 {
        Seq::empty()
    } else {
        o.csharp_file_header@ + "\n"@
    }) + cs_banner()
}

pub open spec fn imports_text(ns: Seq<String>) -> Seq<char> {
    concat_all(ns.map_values(|n: String| "using "@ + n@ + ";\n"@))
}

/// The whole managed binding document.
pub open spec fn cs_document_text(
    ms: Seq<ExternMethod>,
    a: AliasMap,
    ss: Seq<RustStruct>,
    es: Seq<RustEnum>,
    cs: Seq<RustConst>,
    o: BindgenOptions,
) -> Seq<char> {
    cs_file_header_text(o) + "\nusing System;\nusing System.Runtime.InteropServices;\n"@
        + imports_text(o.csharp_imported_namespaces@) + "\n\nnamespace "@ + o.csharp_namespace@
        + "\n{\n    "@ + class_text(a, o, ms, cs) + "\n\n"@ + cs_structs_text(a, o, ss) + "\n"@
        + cs_enums_text(o, es) + "\n}\n"@ + o.csharp_file_footer@
}

fn cs_methods(a: &AliasMap, o: &BindgenOptions, ms: &Vec<ExternMethod>) -> (r: String)
    ensures
        r@ == cs_methods_text(*a, *o, ms@),
{
    let mut out = String::new();
    let mut i: usize = 0;
    while i < ms.len()
        invariant
            i <= ms@.len(),
            out@ == cs_methods_text(*a, *o, ms@.subrange(0, i as int)),
        decreases ms@.len() - i,
    {
        let piece = cs_method(a, o, &ms[i]);
        proof {
            let f = |x: ExternMethod| cs_method_text(*a, *o, x);
            let before = ms@.subrange(0, i as int).map_values(f);
            assert(ms@.subrange(0, i + 1).map_values(f) =~= before.push(piece@));
            lemma_concat_all_push(before, piece@);
        }
        out.append(piece.as_str());
        i = i + 1;
    }
    assert(ms@.subrange(0, ms@.len() as int) =~= ms@);
    out
}

fn cs_structs(a: &AliasMap, o: &BindgenOptions, ss: &Vec<RustStruct>) -> (r: String)
    ensures
        r@ == cs_structs_text(*a, *o, ss@),
{
    let mut out = String::new();
    let mut i: usize = 0;
    while i < ss.len()
        invariant
            i <= ss@.len(),
            out@ == cs_structs_text(*a, *o, ss@.subrange(0, i as int)),
        decreases ss@.len() - i,
    {
        let piece = cs_struct(a, o, &ss[i]);
        proof {
            let f = |x: RustStruct| cs_struct_text(*a, *o, x);
            let before = ss@.subrange(0, i as int).map_values(f);
            assert(ss@.subrange(0, i + 1).map_values(f) =~= before.push(piece@));
            lemma_concat_all_push(before, piece@);
        }
        out.append(piece.as_str());
        i = i + 1;
    }
    assert(ss@.subrange(0, ss@.len() as int) =~= ss@);
    out
}

fn cs_enums(o: &BindgenOptions, es: &Vec<RustEnum>) -> (r: String)
    ensures
        r@ == cs_enums_text(*o, es@),
{
    let mut out = String::new();
    let mut i: usize = 0;
    while i < es.len()
        invariant
            i <= es@.len(),
            out@ == cs_enums_text(*o, es@.subrange(0, i as int)),
        decreases es@.len() - i,
    {
        let piece = cs_enum(o, &es[i]);
        proof {
            let f = |x: RustEnum| cs_enum_text(*o, x);
            let before = es@.subrange(0, i as int).map_values(f);
            assert(es@.subrange(0, i + 1).map_values(f) =~= before.push(piece@));
            lemma_concat_all_push(before, piece@);
        }
        out.append(piece.as_str());
        i = i + 1;
    }
    assert(es@.subrange(0, es@.len() as int) =~= es@);
    out
}

fn cs_consts(a: &AliasMap, o: &BindgenOptions, cs: &Vec<RustConst>) -> (r: String)
    ensures
        r@ == cs_consts_text(*a, *o, cs@),
{
    let mut out = String::new();
    let mut i: usize = 0;
    while i < cs.len()
        invariant
            i <= cs@.len(),
            out@ == cs_consts_text(*a, *o, cs@.subrange(0, i as int)),
        decreases cs@.len() - i,
    {
        let piece = cs_const(a, o, &cs[i]);
        proof {
            let f = |x: RustConst| cs_const_text(*a, *o, x);
            let before = cs@.subrange(0, i as int).map_values(f);
            assert(cs@.subrange(0, i + 1).map_values(f) =~= before.push(piece@));
            lemma_concat_all_push(before, piece@);
        }
        out.append(piece.as_str());
        i = i + 1;
    }
    assert(cs@.subrange(0, cs@.len() as int) =~= cs@);
    out
}

fn imports(ns: &Vec<String>) -> (r: String)
    ensures
        r@ == imports_text(ns@),
{
    let mut out = String::new();
    let mut i: usize = 0;
    while i < ns.len()
        invariant
            i <= ns@.len(),
            out@ == imports_text(ns@.subrange(0, i as int)),
        decreases ns@.len() - i,
    {
        let piece = String::from_str("using ").concat(ns[i].as_str()).concat(";\n");
        proof {
            let f = |n: String| "using "@ + n@ + ";\n"@;
            let before = ns@.subrange(0, i as int).map_values(f);
            assert(ns@.subrange(0, i + 1).map_values(f) =~= before.push(piece@));
            lemma_concat_all_push(before, piece@);
        }
        out.append(piece.as_str());
        i = i + 1;
    }
    assert(ns@.subrange(0, ns@.len() as int) =~= ns@);
    out
}

fn dll_name(o: &BindgenOptions) -> (r: String)
    ensures
        r@ == dll_name_text(*o),
{
    if o.csharp_disable_emit_dll_name {
        String::new()
    } else if is_empty_str(o.csharp_if_symbol.as_str()) {
        String::from_str("        const string __DllName = \"").concat(o.csharp_dll_name.as_str()).concat(
            "\";",
        )
    } else {
        String::from_str("#if ").concat(o.csharp_if_symbol.as_str()).concat(
            "\n        const string __DllName = \"",
        ).concat(o.csharp_if_dll_name.as_str()).concat(
            "\";\n#else\n        const string __DllName = \"",
        ).concat(o.csharp_dll_name.as_str()).concat("\";\n#endif\n        ")
    }
}

/// Emits the managed binding document: imports of every method (with their
/// delegates) and every constant inside one class, then every struct and
/// every enum, each in declared order.
pub fn emit_csharp(
    methods: &Vec<ExternMethod>,
    aliases: &AliasMap,
    structs: &Vec<RustStruct>,
    enums: &Vec<RustEnum>,
    consts: &Vec<RustConst>,
    options: &BindgenOptions,
) -> (r: String)
    ensures
        r@ == cs_document_text(methods@, *aliases, structs@, enums@, consts@, *options),
{
    let o = options;
    let class = if methods.len() == 0 && consts.len() == 0 {
        String::new()
    } else {
        let consts_string = cs_consts(aliases, o, consts);
        let methods_string = cs_methods(aliases, o, methods);
        o.csharp_class_accessibility.clone().concat(" static unsafe partial class ").concat(
            o.csharp_class_name.as_str(),
        ).concat("\n    {\n").concat(dll_name(o).as_str()).concat("\n\n").concat(
            consts_string.as_str(),
        ).concat("\n\n").concat(methods_string.as_str()).concat("\n    }")
    };
    let header = if is_empty_str(o.csharp_file_header.as_str()) {
        String::new()
    } else {
        o.csharp_file_header.clone().concat("\n")
    }.concat(
        "// <auto-generated>\n// This code is generated by csbindgen.\n// DON'T CHANGE THIS DIRECTLY.\n// </auto-generated>\n#pragma warning disable CS8500\n#pragma warning disable CS8981",
    );
    header.concat("\nusing System;\nusing System.Runtime.InteropServices;\n").concat(
        imports(&o.csharp_imported_namespaces).as_str(),
    ).concat("\n\nnamespace ").concat(o.csharp_namespace.as_str()).concat("\n{\n    ").concat(
        class.as_str(),
    ).concat("\n\n").concat(cs_structs(aliases, o, structs).as_str()).concat("\n").concat(
        cs_enums(o, enums).as_str(),
    ).concat("\n}\n").concat(o.csharp_file_footer.as_str())
}

} // verus!
