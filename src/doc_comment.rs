//! Doc comments, carried through verbatim as managed summary blocks.
use vstd::prelude::*;

verus! {

/// One character of a comment: a line break continues the block on a new
/// line at the same indentation.
pub open spec fn doc_char_text(c: char, indent: Seq<char>) -> Seq<char> {
    if c == '\n' {
        "\n"@ + indent + "/// "@
    } else {
        seq![c]
    }
}

/// The comment text with every line re-indented.
pub open spec fn doc_body_text(s: Seq<char>, indent: Seq<char>) -> Seq<char>
    decreases s.len(),
{
    if s.len() == 0 {
        Seq::empty()
    } else {
        doc_body_text(s.drop_last(), indent) + doc_char_text(s.last(), indent)
    }
}

/// The summary block of a comment, ending in a line break; nothing when
/// there is no comment.
pub open spec fn doc_text(doc: Option<String>, indent: Seq<char>) -> Seq<char> {
    match doc {
        None => Seq::empty(),
        Some(d) => indent + "/// <summary>\n"@ + indent + "/// "@ + doc_body_text(d@, indent) + "\n"@
            + indent + "/// </summary>\n"@,
    }
}

fn doc_body(s: &str, indent: &str) -> (r: String)
    ensures
        r@ == doc_body_text(s@, indent@),
{
    let n = s.unicode_len();
    let mut out = String::new();
    let mut i: usize = 0;
    while i < n
        invariant
            n == s@.len(),
            i <= n,
            out@ == doc_body_text(s@.subrange(0, i as int), indent@),
        decreases n - i,
    {
        assert(s@.subrange(0, i + 1).drop_last() =~= s@.subrange(0, i as int));
        if s.get_char(i) == '\n' {
            out.append("\n");
            out.append(indent);
            out.append("/// ");
        } else {
            let c = s.substring_char(i, i + 1);
            assert(c@ =~= seq![s@[i as int]]);
            out.append(c);
        }
        i = i + 1;
    }
    assert(s@.subrange(0, n as int) =~= s@);
    out
}

/// Renders a doc comment at the given indentation.
pub fn escape_doc_comment(doc: &Option<String>, indent: &str) -> (r: String)
    ensures
        r@ == doc_text(*doc, indent@),
{
    match doc {
        None => String::new(),
        Some(d) => {
            let body = doc_body(d.as_str(), indent);
            String::from_str(indent).concat("/// <summary>\n").concat(indent).concat("/// ").concat(
                body.as_str(),
            ).concat("\n").concat(indent).concat("/// </summary>\n")
        },
    }
}

} // verus!
