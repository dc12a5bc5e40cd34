//! Properties of the emitted text, proved over the models that the
//! emitters' contracts use.
use crate::alias_map::AliasMap;
use crate::doc_comment::doc_text;
use crate::emitter::{
    array_suffix_text, class_text, cs_document_text, cs_enums_text, cs_field_decl_text,
    cs_field_pieces, cs_file_header_text, cs_method_name, cs_param_text, cs_return_type_text,
    cs_structs_text, field_marshal_text, imports_text, marshal_text, return_marshal_line,
    return_marshal_text, rust_arg_pieces, rust_arg_text, rust_document_text, rust_param_pieces,
    rust_param_text,
};
use crate::naming::spec_escape_csharp_name;
use crate::options::BindgenOptions;
use crate::text::{join, lemma_join_push};
use crate::type_mapper::{cs_scalar, cs_type_text};
use crate::types::{
    ExternMethod, FieldMember, Parameter, RustConst, RustEnum, RustStruct, RustType,
};
use vstd::prelude::*;

verus! {

/// Emission is a function of its inputs: two results that meet the
/// emitters' contracts on the same inputs are the same text.
pub proof fn lemma_emit_deterministic(
    methods: Seq<ExternMethod>,
    aliases: AliasMap,
    structs: Seq<RustStruct>,
    enums: Seq<RustEnum>,
    consts: Seq<RustConst>,
    options: BindgenOptions,
    shim1: Seq<char>,
    shim2: Seq<char>,
    managed1: Seq<char>,
    managed2: Seq<char>,
)
    requires
        shim1 == rust_document_text(methods, options),
        shim2 == rust_document_text(methods, options),
        managed1 == cs_document_text(methods, aliases, structs, enums, consts, options),
        managed2 == cs_document_text(methods, aliases, structs, enums, consts, options),
    ensures
        shim1 == shim2,
        managed1 == managed2,
{
}

/// Parameters keep their declared order in a shim: the i-th piece of the
/// signature and of the forwarding call is the i-th parameter's, and a
/// parameter declared after the others comes after them in both lists.
pub proof fn lemma_shim_parameter_order(ps: Seq<Parameter>, p: Parameter, path: Seq<char>)
    ensures
        rust_param_pieces(ps, path).len() == ps.len(),
        rust_arg_pieces(ps).len() == ps.len(),
        forall|i: int|
            0 <= i < ps.len() ==> #[trigger] rust_param_pieces(ps, path)[i] == rust_param_text(
                ps[i],
                path,
            ),
        forall|i: int| 0 <= i < ps.len() ==> #[trigger] rust_arg_pieces(ps)[i] == rust_arg_text(ps[i]),
        ps.len() > 0 ==> join(rust_param_pieces(ps.push(p), path), ",\n"@) == join(
            rust_param_pieces(ps, path),
            ",\n"@,
        ) + ",\n"@ + rust_param_text(p, path),
        ps.len() > 0 ==> join(rust_arg_pieces(ps.push(p)), ",\n"@) == join(
            rust_arg_pieces(ps),
            ",\n"@,
        ) + ",\n"@ + rust_arg_text(p),
{
    assert(rust_param_pieces(ps.push(p), path) =~= rust_param_pieces(ps, path).push(
        rust_param_text(p, path),
    ));
    assert(rust_arg_pieces(ps.push(p)) =~= rust_arg_pieces(ps).push(rust_arg_text(p)));
    lemma_join_push(rust_param_pieces(ps, path), ",\n"@, rust_param_text(p, path));
    lemma_join_push(rust_arg_pieces(ps), ",\n"@, rust_arg_text(p));
}

/// A fixed-array field declares its buffer with the array's size, except
/// that a size of `0` is declared as `1`.
pub proof fn lemma_array_floor(a: AliasMap, o: BindgenOptions, f: FieldMember)
    requires
        f.rust_type.type_kind is FixedArray,
    ensures
        ({
            let n = f.rust_type.type_kind->FixedArray_0@;
            let ty = cs_type_text(a, o.csharp_type_rename@, f.rust_type, true, ""@, ""@);
            &&& cs_field_decl_text(a, o, f) == "        "@ + field_marshal_text(ty) + "public "@ + ty
                + " "@ + spec_escape_csharp_name(f.name@) + "["@ + (if n == "0"@ {
                "1"@
            } else {
                n
            }) + "]"@ + ";\n"@
            &&& n == "0"@ ==> array_suffix_text(a, f.rust_type) == "[1]"@
            &&& n != "0"@ ==> array_suffix_text(a, f.rust_type) == "["@ + n + "]"@
        }),
{
    assert("["@ + "1"@ + "]"@ =~= "[1]"@) by {
        reveal_strlit("[");
        reveal_strlit("1");
        reveal_strlit("]");
        reveal_strlit("[1]");
    }
}

/// The same floor holds for a field whose named type is an alias for a
/// fixed array.
pub proof fn lemma_alias_array_floor(a: AliasMap, t: RustType)
    requires
        !(t.type_kind is FixedArray),
        a.spec_get(t.name@) matches Some(u) && u.type_kind is FixedArray,
    ensures
        ({
            let n = a.spec_get(t.name@)->Some_0.type_kind->FixedArray_0@;
            array_suffix_text(a, t) == "["@ + (if n == "0"@ {
                "1"@
            } else {
                n
            }) + "]"@
        }),
{
}

/// A descriptor named `bool` with no alias entry is the managed `bool`.
pub proof fn lemma_bool_renders_bool(
    a: AliasMap,
    rn: Seq<(String, String)>,
    t: RustType,
    in_struct: bool,
    m: Seq<char>,
    p: Seq<char>,
)
    requires
        t.type_kind is Normal,
        t.name@ == "bool"@,
        a.spec_get("bool"@) is None,
    ensures
        cs_type_text(a, rn, t, in_struct, m, p) == "bool"@,
{
    assert(cs_scalar("bool"@) == Some("bool"@)) by {
        reveal_strlit("bool");
        reveal_strlit("c_char");
        reveal_strlit("c_schar");
        reveal_strlit("c_uchar");
        reveal_strlit("c_short");
        reveal_strlit("c_ushort");
        reveal_strlit("c_int");
        reveal_strlit("c_uint");
        reveal_strlit("c_long");
        reveal_strlit("c_ulong");
        reveal_strlit("c_longlong");
        reveal_strlit("c_ulonglong");
        reveal_strlit("c_float");
        reveal_strlit("c_double");
        reveal_strlit("c_void");
        reveal_strlit("i8");
        reveal_strlit("i16");
        reveal_strlit("i32");
        reveal_strlit("i64");
        reveal_strlit("i128");
        reveal_strlit("isize");
        reveal_strlit("u8");
        reveal_strlit("u16");
        reveal_strlit("u32");
        reveal_strlit("u64");
        reveal_strlit("u128");
        reveal_strlit("usize");
        reveal_strlit("f32");
        reveal_strlit("f64");
        assert("c_char"@.len() != "bool"@.len());
        assert("c_schar"@.len() != "bool"@.len());
        assert("c_uchar"@.len() != "bool"@.len());
        assert("c_short"@.len() != "bool"@.len());
        assert("c_ushort"@.len() != "bool"@.len());
        assert("c_int"@.len() != "bool"@.len());
        assert("c_uint"@.len() != "bool"@.len());
        assert("c_long"@.len() != "bool"@.len());
        assert("c_ulong"@.len() != "bool"@.len());
        assert("c_longlong"@.len() != "bool"@.len());
        assert("c_ulonglong"@.len() != "bool"@.len());
        assert("c_float"@.len() != "bool"@.len());
        assert("c_double"@.len() != "bool"@.len());
        assert("c_void"@.len() != "bool"@.len());
        assert("i8"@.len() != "bool"@.len());
        assert("i16"@.len() != "bool"@.len());
        assert("i32"@.len() != "bool"@.len());
        assert("i64"@.len() != "bool"@.len());
        assert("i128"@[0] != "bool"@[0]);
        assert("isize"@.len() != "bool"@.len());
        assert("u8"@.len() != "bool"@.len());
        assert("u16"@.len() != "bool"@.len());
        assert("u32"@.len() != "bool"@.len());
        assert("u64"@.len() != "bool"@.len());
        assert("u128"@[0] != "bool"@[0]);
        assert("usize"@.len() != "bool"@.len());
        assert("f32"@.len() != "bool"@.len());
        assert("f64"@.len() != "bool"@.len());
    }
}

/// Booleans, and only booleans, carry the one-byte marshaling annotation:
/// on parameters, on fields, and on returns.
pub proof fn lemma_bool_marshaling(
    a: AliasMap,
    o: BindgenOptions,
    m: Seq<char>,
    p: Parameter,
    f: FieldMember,
    x: ExternMethod,
)
    ensures
        ({
            let ty = cs_type_text(a, o.csharp_type_rename@, p.rust_type, false, m, p.name@);
            &&& ty == "bool"@ ==> cs_param_text(a, o, m, p) == marshal_text() + "bool"@ + " "@
                + spec_escape_csharp_name(p.name@)
            &&& ty != "bool"@ ==> cs_param_text(a, o, m, p) == ty + " "@ + spec_escape_csharp_name(
                p.name@,
            )
        }),
        ({
            let ty = cs_type_text(a, o.csharp_type_rename@, f.rust_type, true, ""@, ""@);
            &&& ty == "bool"@ ==> cs_field_decl_text(a, o, f) == "        "@ + marshal_text()
                + "public "@ + ty + " "@ + spec_escape_csharp_name(f.name@) + array_suffix_text(
                a,
                f.rust_type,
            ) + ";\n"@
            &&& ty != "bool"@ ==> cs_field_decl_text(a, o, f) == "        "@ + "public "@ + ty
                + " "@ + spec_escape_csharp_name(f.name@) + array_suffix_text(a, f.rust_type)
                + ";\n"@
        }),
        ({
            let rt = cs_return_type_text(a, o, cs_method_name(o, x), x.return_type);
            &&& rt == "bool"@ ==> return_marshal_text(rt) == return_marshal_line()
            &&& rt != "bool"@ ==> return_marshal_text(rt) == Seq::<char>::empty()
        }),
{
    let ty = cs_type_text(a, o.csharp_type_rename@, f.rust_type, true, ""@, ""@);
    assert("        "@ + Seq::<char>::empty() =~= "        "@);
}

/// Every field of a union is declared at offset zero, and no field of a
/// struct carries an offset.
pub proof fn lemma_union_layout(a: AliasMap, o: BindgenOptions, x: RustStruct, i: int)
    requires
        0 <= i < x.fields@.len(),
    ensures
        x.is_union ==> cs_field_pieces(a, o, x.is_union, x.fields@)[i] == doc_text(
            x.fields@[i].doc_comment,
            "        "@,
        ) + "        [FieldOffset(0)]\n"@ + cs_field_decl_text(a, o, x.fields@[i]),
        !x.is_union ==> cs_field_pieces(a, o, x.is_union, x.fields@)[i] == doc_text(
            x.fields@[i].doc_comment,
            "        "@,
        ) + cs_field_decl_text(a, o, x.fields@[i]),
{
    let d = doc_text(x.fields@[i].doc_comment, "        "@);
    assert(d + Seq::<char>::empty() =~= d);
}

/// With no methods and no constants there is no class: the namespace holds
/// the struct and enum declarations alone.
pub proof fn lemma_empty_class_suppressed(
    methods: Seq<ExternMethod>,
    a: AliasMap,
    structs: Seq<RustStruct>,
    enums: Seq<RustEnum>,
    consts: Seq<RustConst>,
    o: BindgenOptions,
)
    requires
        methods.len() == 0,
        consts.len() == 0,
    ensures
        class_text(a, o, methods, consts) == Seq::<char>::empty(),
        cs_document_text(methods, a, structs, enums, consts, o) == cs_file_header_text(o)
            + "\nusing System;\nusing System.Runtime.InteropServices;\n"@ + imports_text(
            o.csharp_imported_namespaces@,
        ) + "\n\nnamespace "@ + o.csharp_namespace@ + "\n{\n    "@ + "\n\n"@ + cs_structs_text(
            a,
            o,
            structs,
        ) + "\n"@ + cs_enums_text(o, enums) + "\n}\n"@ + o.csharp_file_footer@,
{
    let h = cs_file_header_text(o) + "\nusing System;\nusing System.Runtime.InteropServices;\n"@
        + imports_text(o.csharp_imported_namespaces@) + "\n\nnamespace "@ + o.csharp_namespace@
        + "\n{\n    "@;
    assert(h + Seq::<char>::empty() =~= h);
}

} // verus!
