//! Rendering of type descriptors, in the origin language and in the
//! managed language.
use crate::alias_map::AliasMap;
use crate::naming::{escape_csharp_name, rename_type, spec_escape_csharp_name, spec_rename};
use crate::text::str_eq;
use crate::types::{Parameter, RustType, TypeKind};
use vstd::prelude::*;

verus! {

/// A scalar name of the origin language, which needs no module path.
pub open spec fn is_rust_builtin(n: Seq<char>) -> bool {
    n == "i8"@
        || n == "i16"@
        || n == "i32"@
        || n == "i64"@
        || n == "i128"@
        || n == "isize"@
        || n == "u8"@
        || n == "u16"@
        || n == "u32"@
        || n == "u64"@
        || n == "u128"@
        || n == "usize"@
        || n == "f32"@
        || n == "f64"@
        || n == "bool"@
        || n == "char"@
        || n == "()"@
        || n == "c_char"@
        || n == "c_schar"@
        || n == "c_uchar"@
        || n == "c_short"@
        || n == "c_ushort"@
        || n == "c_int"@
        || n == "c_uint"@
        || n == "c_long"@
        || n == "c_ulong"@
        || n == "c_longlong"@
        || n == "c_ulonglong"@
        || n == "c_float"@
        || n == "c_double"@
        || n == "c_void"@
}

fn rust_builtin(n: &str) -> (r: bool)
    ensures
        r == is_rust_builtin(n@),
{
    str_eq(n, "i8")
        || str_eq(n, "i16")
        || str_eq(n, "i32")
        || str_eq(n, "i64")
        || str_eq(n, "i128")
        || str_eq(n, "isize")
        || str_eq(n, "u8")
        || str_eq(n, "u16")
        || str_eq(n, "u32")
        || str_eq(n, "u64")
        || str_eq(n, "u128")
        || str_eq(n, "usize")
        || str_eq(n, "f32")
        || str_eq(n, "f64")
        || str_eq(n, "bool")
        || str_eq(n, "char")
        || str_eq(n, "()")
        || str_eq(n, "c_char")
        || str_eq(n, "c_schar")
        || str_eq(n, "c_uchar")
        || str_eq(n, "c_short")
        || str_eq(n, "c_ushort")
        || str_eq(n, "c_int")
        || str_eq(n, "c_uint")
        || str_eq(n, "c_long")
        || str_eq(n, "c_ulong")
        || str_eq(n, "c_longlong")
        || str_eq(n, "c_ulonglong")
        || str_eq(n, "c_float")
        || str_eq(n, "c_double")
        || str_eq(n, "c_void")
}

/// The fixed table of scalar names to managed type names.
pub open spec fn cs_scalar(n: Seq<char>) -> Option<Seq<char>> {
    if n == "c_char"@ {
        Some("byte"@)
    } else if n == "c_schar"@ {
        Some("sbyte"@)
    } else if n == "c_uchar"@ {
        Some("byte"@)
    } else if n == "c_short"@ {
        Some("short"@)
    } else if n == "c_ushort"@ {
        Some("ushort"@)
    } else if n == "c_int"@ {
        Some("int"@)
    } else if n == "c_uint"@ {
        Some("uint"@)
    } else if n == "c_long"@ {
        Some("CLong"@)
    } else if n == "c_ulong"@ {
        Some("CULong"@)
    } else if n == "c_longlong"@ {
        Some("long"@)
    } else if n == "c_ulonglong"@ {
        Some("ulong"@)
    } else if n == "c_float"@ {
        Some("float"@)
    } else if n == "c_double"@ {
        Some("double"@)
    } else if n == "c_void"@ {
        Some("void"@)
    } else if n == "i8"@ {
        Some("sbyte"@)
    } else if n == "i16"@ {
        Some("short"@)
    } else if n == "i32"@ {
        Some("int"@)
    } else if n == "i64"@ {
        Some("long"@)
    } else if n == "i128"@ {
        Some("Int128"@)
    } else if n == "isize"@ {
        Some("nint"@)
    } else if n == "u8"@ {
        Some("byte"@)
    } else if n == "u16"@ {
        Some("ushort"@)
    } else if n == "u32"@ {
        Some("uint"@)
    } else if n == "u64"@ {
        Some("ulong"@)
    } else if n == "u128"@ {
        Some("UInt128"@)
    } else if n == "usize"@ {
        Some("nuint"@)
    } else if n == "f32"@ {
        Some("float"@)
    } else if n == "f64"@ {
        Some("double"@)
    } else if n == "bool"@ {
        Some("bool"@)
    } else if n == "char"@ {
        Some("uint"@)
    } else if n == "()"@ {
        Some("void"@)
    } else {
        None
    }
}

fn cs_scalar_exec(n: &str) -> (r: Option<&'static str>)
    ensures
        match r {
            Some(x) => cs_scalar(n@) == Some(x@),
            None => cs_scalar(n@) is None,
        },
{
    if str_eq(n, "c_char") {
        Some("byte")
    } else if str_eq(n, "c_schar") {
        Some("sbyte")
    } else if str_eq(n, "c_uchar") {
        Some("byte")
    } else if str_eq(n, "c_short") {
        Some("short")
    } else if str_eq(n, "c_ushort") {
        Some("ushort")
    } else if str_eq(n, "c_int") {
        Some("int")
    } else if str_eq(n, "c_uint") {
        Some("uint")
    } else if str_eq(n, "c_long") {
        Some("CLong")
    } else if str_eq(n, "c_ulong") {
        Some("CULong")
    } else if str_eq(n, "c_longlong") {
        Some("long")
    } else if str_eq(n, "c_ulonglong") {
        Some("ulong")
    } else if str_eq(n, "c_float") {
        Some("float")
    } else if str_eq(n, "c_double") {
        Some("double")
    } else if str_eq(n, "c_void") {
        Some("void")
    } else if str_eq(n, "i8") {
        Some("sbyte")
    } else if str_eq(n, "i16") {
        Some("short")
    } else if str_eq(n, "i32") {
        Some("int")
    } else if str_eq(n, "i64") {
        Some("long")
    } else if str_eq(n, "i128") {
        Some("Int128")
    } else if str_eq(n, "isize") {
        Some("nint")
    } else if str_eq(n, "u8") {
        Some("byte")
    } else if str_eq(n, "u16") {
        Some("ushort")
    } else if str_eq(n, "u32") {
        Some("uint")
    } else if str_eq(n, "u64") {
        Some("ulong")
    } else if str_eq(n, "u128") {
        Some("UInt128")
    } else if str_eq(n, "usize") {
        Some("nuint")
    } else if str_eq(n, "f32") {
        Some("float")
    } else if str_eq(n, "f64") {
        Some("double")
    } else if str_eq(n, "bool") {
        Some("bool")
    } else if str_eq(n, "char") {
        Some("uint")
    } else if str_eq(n, "()") {
        Some("void")
    } else {
        None
    }
}

/// The origin-language text of a descriptor. Names that are not scalars are
/// qualified with `path` when it is not empty.
pub open spec fn rust_type_text(t: RustType, path: Seq<char>) -> Seq<char>
    decreases t,
{
    match t.type_kind {
        TypeKind::Normal => {
            if is_rust_builtin(t.name@) || path.len() == 0 {
                t.name@
            } else {
                path + "::"@ + t.name@
            }
        },
        TypeKind::Pointer(m, inner) => (if m {
            "*mut "@
        } else {
            "*const "@
        }) + rust_type_text(*inner, path),
        TypeKind::FixedArray(n, e) => "["@ + rust_type_text(*e, path) + "; "@ + n@ + "]"@,
        TypeKind::Function(ps, ret) => "extern \"C\" fn("@ + rust_type_list_text(ps@, path) + ")"@
            + match ret {
            Some(r) => " -> "@ + rust_type_text(*r, path),
            None => Seq::empty(),
        },
    }
}

/// The parameter types of a function pointer, separated by `, `.
pub open spec fn rust_type_list_text(ps: Seq<Parameter>, path: Seq<char>) -> Seq<char>
    decreases ps,
{
    if ps.len() == 0 {
        Seq::empty()
    } else if ps.len() == 1 {
        rust_type_text(ps[0].rust_type, path)
    } else {
        rust_type_list_text(ps.drop_last(), path) + ", "@ + rust_type_text(ps.last().rust_type, path)
    }
}

proof fn lemma_param_decreases(t: RustType, i: int)
    requires
        t.type_kind is Function,
        0 <= i < t.type_kind->Function_0@.len(),
    ensures
        decreases_to!(t => t.type_kind->Function_0@[i].rust_type),
{
    let ps = t.type_kind->Function_0;
    broadcast use vstd::std_specs::vec::axiom_vec_decreases_to_view;
    assert(decreases_to!(t => t.type_kind));
    assert(decreases_to!(t.type_kind => ps));
    assert(decreases_to!(ps => ps@));
    assert(decreases_to!(ps@ => ps@[i]));
    assert(decreases_to!(ps@[i] => ps@[i].rust_type));
}

pub fn to_rust_string(t: &RustType, path: &str) -> (r: String)
    ensures
        r@ == rust_type_text(*t, path@),
    decreases t,
{
    match &t.type_kind {
        TypeKind::Normal => {
            if rust_builtin(t.name.as_str()) || path.unicode_len() == 0 {
                t.name.clone()
            } else {
                String::from_str(path).concat("::").concat(t.name.as_str())
            }
        },
        TypeKind::Pointer(m, inner) => {
            let s = to_rust_string(inner, path);
            let head = if *m {
                String::from_str("*mut ")
            } else {
                String::from_str("*const ")
            };
            head.concat(s.as_str())
        },
        TypeKind::FixedArray(n, e) => {
            let s = to_rust_string(e, path);
            String::from_str("[").concat(s.as_str()).concat("; ").concat(n.as_str()).concat("]")
        },
        TypeKind::Function(ps, ret) => {
            let mut list = String::new();
            let mut i: usize = 0;
            while i < ps.len()
                invariant
                    i <= ps@.len(),
                    t.type_kind is Function,
                    t.type_kind->Function_0 == *ps,
                    list@ == rust_type_list_text(ps@.subrange(0, i as int), path@),
                decreases ps@.len() - i,
            {
                assert(ps@.subrange(0, i + 1).drop_last() =~= ps@.subrange(0, i as int));
                proof {
                    lemma_param_decreases(*t, i as int);
                }
                let s = to_rust_string(&ps[i].rust_type, path);
                if i == 0 {
                    list = s;
                } else {
                    list.append(", ");
                    list.append(s.as_str());
                }
                i = i + 1;
            }
            assert(ps@.subrange(0, ps@.len() as int) =~= ps@);
            let tail = match ret {
                Some(r) => String::from_str(" -> ").concat(to_rust_string(r, path).as_str()),
                None => String::new(),
            };
            String::from_str("extern \"C\" fn(").concat(list.as_str()).concat(")").concat(
                tail.as_str(),
            )
        },
    }
}

/// A managed type name for a written name: the scalar table, else the
/// escaped name through the rename table.
pub open spec fn cs_name_text(n: Seq<char>, rn: Seq<(String, String)>) -> Seq<char> {
    match cs_scalar(n) {
        Some(x) => x,
        None => spec_rename(rn, spec_escape_csharp_name(n)),
    }
}

pub fn csharp_type_name(n: &str, rn: &Vec<(String, String)>) -> (r: String)
    ensures
        r@ == cs_name_text(n@, rn@),
{
    match cs_scalar_exec(n) {
        Some(x) => String::from_str(x),
        None => {
            let e = escape_csharp_name(n);
            rename_type(rn, e.as_str())
        },
    }
}

/// The managed text of a descriptor's shape. `in_struct` selects the field
/// forms (inline `fixed` buffers, unmanaged function pointers); elsewhere a
/// function pointer is named after the method `m` and parameter `p` it
/// belongs to.
pub open spec fn cs_shape_text(
    t: RustType,
    rn: Seq<(String, String)>,
    in_struct: bool,
    m: Seq<char>,
    p: Seq<char>,
) -> Seq<char>
    decreases t,
{
    match t.type_kind {
        TypeKind::Normal => cs_name_text(t.name@, rn),
        TypeKind::Pointer(_, inner) => cs_shape_text(*inner, rn, in_struct, m, p) + "*"@,
        TypeKind::FixedArray(_, e) => if in_struct {
            "fixed "@ + cs_shape_text(*e, rn, in_struct, m, p)
        } else {
            cs_shape_text(*e, rn, in_struct, m, p) + "*"@
        },
        TypeKind::Function(ps, ret) => if in_struct {
            "delegate* unmanaged[Cdecl]<"@ + cs_fnptr_args_text(ps@, rn) + match ret {
                Some(r) => cs_shape_text(*r, rn, true, m, p),
                None => "void"@,
            } + ">"@
        } else {
            m + "_"@ + p + "_delegate"@
        },
    }
}

/// The argument types of an unmanaged function pointer, each followed by `, `.
pub open spec fn cs_fnptr_args_text(ps: Seq<Parameter>, rn: Seq<(String, String)>) -> Seq<char>
    decreases ps,
{
    if ps.len() == 0 {
        Seq::empty()
    } else {
        cs_fnptr_args_text(ps.drop_last(), rn) + cs_shape_text(ps.last().rust_type, rn, true, ""@, ""@)
            + ", "@
    }
}

/// The managed text of a descriptor after one step of alias resolution.
pub open spec fn cs_type_text(
    aliases: AliasMap,
    rn: Seq<(String, String)>,
    t: RustType,
    in_struct: bool,
    m: Seq<char>,
    p: Seq<char>,
) -> Seq<char> {
    cs_shape_text(aliases.spec_resolve(t), rn, in_struct, m, p)
}

fn to_csharp_shape(
    t: &RustType,
    rn: &Vec<(String, String)>,
    in_struct: bool,
    m: &str,
    p: &str,
) -> (r: String)
    ensures
        r@ == cs_shape_text(*t, rn@, in_struct, m@, p@),
    decreases t,
{
    match &t.type_kind {
        TypeKind::Normal => csharp_type_name(t.name.as_str(), rn),
        TypeKind::Pointer(_, inner) => to_csharp_shape(inner, rn, in_struct, m, p).concat("*"),
        TypeKind::FixedArray(_, e) => {
            let s = to_csharp_shape(e, rn, in_struct, m, p);
            if in_struct {
                String::from_str("fixed ").concat(s.as_str())
            } else {
                s.concat("*")
            }
        },
        TypeKind::Function(ps, ret) => {
            if in_struct {
                let mut args = String::new();
                let mut i: usize = 0;
                while i < ps.len()
                    invariant
                        i <= ps@.len(),
                        t.type_kind is Function,
                        t.type_kind->Function_0 == *ps,
                        args@ == cs_fnptr_args_text(ps@.subrange(0, i as int), rn@),
                    decreases ps@.len() - i,
                {
                    assert(ps@.subrange(0, i + 1).drop_last() =~= ps@.subrange(0, i as int));
                    proof {
                    lemma_param_decreases(*t, i as int);
                }
                    let s = to_csharp_shape(&ps[i].rust_type, rn, true, "", "");
                    args.append(s.as_str());
                    args.append(", ");
                    i = i + 1;
                }
                assert(ps@.subrange(0, ps@.len() as int) =~= ps@);
                let r = match ret {
                    Some(r) => to_csharp_shape(r, rn, true, m, p),
                    None => String::from_str("void"),
                };
                String::from_str("delegate* unmanaged[Cdecl]<").concat(args.as_str()).concat(
                    r.as_str(),
                ).concat(">")
            } else {
                String::from_str(m).concat("_").concat(p).concat("_delegate")
            }
        },
    }
}

/// Renders a descriptor in the managed language, after one step of alias
/// resolution.
pub fn to_csharp_string(
    t: &RustType,
    aliases: &AliasMap,
    rn: &Vec<(String, String)>,
    in_struct: bool,
    m: &str,
    p: &str,
) -> (r: String)
    ensures
        r@ == cs_type_text(*aliases, rn@, *t, in_struct, m@, p@),
{
    let u = aliases.resolve(t);
    to_csharp_shape(u, rn, in_struct, m, p)
}

} // verus!
