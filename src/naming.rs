//! Identifier escaping for the managed language, and the type rename table.
use crate::text::str_eq;
use vstd::prelude::*;

verus! {

/// `n` is a reserved word of the managed language.
pub open spec fn is_cs_keyword(n: Seq<char>) -> bool {
    n == "abstract"@
        || n == "as"@
        || n == "base"@
        || n == "bool"@
        || n == "break"@
        || n == "byte"@
        || n == "case"@
        || n == "catch"@
        || n == "char"@
        || n == "checked"@
        || n == "class"@
        || n == "const"@
        || n == "continue"@
        || n == "decimal"@
        || n == "default"@
        || n == "delegate"@
        || n == "do"@
        || n == "double"@
        || n == "else"@
        || n == "enum"@
        || n == "event"@
        || n == "explicit"@
        || n == "extern"@
        || n == "false"@
        || n == "finally"@
        || n == "fixed"@
        || n == "float"@
        || n == "for"@
        || n == "foreach"@
        || n == "goto"@
        || n == "if"@
        || n == "implicit"@
        || n == "in"@
        || n == "int"@
        || n == "interface"@
        || n == "internal"@
        || n == "is"@
        || n == "lock"@
        || n == "long"@
        || n == "namespace"@
        || n == "new"@
        || n == "null"@
        || n == "object"@
        || n == "operator"@
        || n == "out"@
        || n == "override"@
        || n == "params"@
        || n == "private"@
        || n == "protected"@
        || n == "public"@
        || n == "readonly"@
        || n == "ref"@
        || n == "return"@
        || n == "sbyte"@
        || n == "sealed"@
        || n == "short"@
        || n == "sizeof"@
        || n == "stackalloc"@
        || n == "static"@
        || n == "string"@
        || n == "struct"@
        || n == "switch"@
        || n == "this"@
        || n == "throw"@
        || n == "true"@
        || n == "try"@
        || n == "typeof"@
        || n == "uint"@
        || n == "ulong"@
        || n == "unchecked"@
        || n == "unsafe"@
        || n == "ushort"@
        || n == "using"@
        || n == "virtual"@
        || n == "void"@
        || n == "volatile"@
        || n == "while"@
}

/// A reserved word gets an `@` in front; any other name is kept.
pub open spec fn spec_escape_csharp_name(n: Seq<char>) -> Seq<char> {
    if is_cs_keyword(n) {
        "@"@ + n
    } else {
        n
    }
}

fn is_keyword(n: &str) -> (r: bool)
    ensures
        r == is_cs_keyword(n@),
{
    str_eq(n, "abstract")
        || str_eq(n, "as")
        || str_eq(n, "base")
        || str_eq(n, "bool")
        || str_eq(n, "break")
        || str_eq(n, "byte")
        || str_eq(n, "case")
        || str_eq(n, "catch")
        || str_eq(n, "char")
        || str_eq(n, "checked")
        || str_eq(n, "class")
        || str_eq(n, "const")
        || str_eq(n, "continue")
        || str_eq(n, "decimal")
        || str_eq(n, "default")
        || str_eq(n, "delegate")
        || str_eq(n, "do")
        || str_eq(n, "double")
        || str_eq(n, "else")
        || str_eq(n, "enum")
        || str_eq(n, "event")
        || str_eq(n, "explicit")
        || str_eq(n, "extern")
        || str_eq(n, "false")
        || str_eq(n, "finally")
        || str_eq(n, "fixed")
        || str_eq(n, "float")
        || str_eq(n, "for")
        || str_eq(n, "foreach")
        || str_eq(n, "goto")
        || str_eq(n, "if")
        || str_eq(n, "implicit")
        || str_eq(n, "in")
        || str_eq(n, "int")
        || str_eq(n, "interface")
        || str_eq(n, "internal")
        || str_eq(n, "is")
        || str_eq(n, "lock")
        || str_eq(n, "long")
        || str_eq(n, "namespace")
        || str_eq(n, "new")
        || str_eq(n, "null")
        || str_eq(n, "object")
        || str_eq(n, "operator")
        || str_eq(n, "out")
        || str_eq(n, "override")
        || str_eq(n, "params")
        || str_eq(n, "private")
        || str_eq(n, "protected")
        || str_eq(n, "public")
        || str_eq(n, "readonly")
        || str_eq(n, "ref")
        || str_eq(n, "return")
        || str_eq(n, "sbyte")
        || str_eq(n, "sealed")
        || str_eq(n, "short")
        || str_eq(n, "sizeof")
        || str_eq(n, "stackalloc")
        || str_eq(n, "static")
        || str_eq(n, "string")
        || str_eq(n, "struct")
        || str_eq(n, "switch")
        || str_eq(n, "this")
        || str_eq(n, "throw")
        || str_eq(n, "true")
        || str_eq(n, "try")
        || str_eq(n, "typeof")
        || str_eq(n, "uint")
        || str_eq(n, "ulong")
        || str_eq(n, "unchecked")
        || str_eq(n, "unsafe")
        || str_eq(n, "ushort")
        || str_eq(n, "using")
        || str_eq(n, "virtual")
        || str_eq(n, "void")
        || str_eq(n, "volatile")
        || str_eq(n, "while")
}

pub fn escape_csharp_name(n: &str) -> (r: String)
    ensures
        r@ == spec_escape_csharp_name(n@),
{
    if is_keyword(n) {
        String::from_str("@").concat(n)
    } else {
        String::from_str(n)
    }
}

/// What the rename table makes of a type name: the latest entry for the
/// name wins, and a name without an entry is kept.
pub open spec fn spec_rename(table: Seq<(String, String)>, n: Seq<char>) -> Seq<char>
    decreases table.len(),
{
    if table.len() == 0 {
        n
    } else if table.last().0@ == n {
        table.last().1@
    } else {
        spec_rename(table.drop_last(), n)
    }
}

pub fn rename_type(table: &Vec<(String, String)>, n: &str) -> (r: String)
    ensures
        r@ == spec_rename(table@, n@),
{
    let mut i: usize = table.len();
    assert(table@.subrange(0, i as int) =~= table@);
    while i > 0
        invariant
            i <= table@.len(),
            spec_rename(table@, n@) == spec_rename(table@.subrange(0, i as int), n@),
        decreases i,
    {
        let ghost prefix = table@.subrange(0, i as int);
        assert(prefix.drop_last() =~= table@.subrange(0, i - 1));
        if str_eq(table[i - 1].0.as_str(), n) {
            return table[i - 1].1.clone();
        }
        i = i - 1;
    }
    assert(table@.subrange(0, 0) =~= Seq::<(String, String)>::empty());
    String::from_str(n)
}

} // verus!
