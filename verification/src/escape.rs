//! Text made safe for HTML: the five characters that markup is written with
//! are replaced by their character references.

use vstd::prelude::*;

verus! {

/// Whether `c` is one of the characters that HTML reads as markup.
pub open spec fn is_markup(c: char) -> bool {
    c == '&' || c == '<' || c == '>' || c == '"' || c == '\''
}

/// What stands for `c` in escaped text: its character reference where `c`
/// is markup, `c` itself otherwise.
pub open spec fn reference_of(c: char) -> Seq<char> {
    if c == '&' {
        seq!['&', 'a', 'm', 'p', ';']
    } else if c == '<' {
        seq!['&', 'l', 't', ';']
    } else if c == '>' {
        seq!['&', 'g', 't', ';']
    } else if c == '"' {
        seq!['&', 'q', 'u', 'o', 't', ';']
    } else if c == '\'' {
        seq!['&', '#', '3', '9', ';']
    } else {
        seq![c]
    }
}

/// The escaped form of `s`: what stands for each of its characters, in
/// order.
pub open spec fn escaped(s: Seq<char>) -> Seq<char>
    decreases s.len(),
{
    if s.len() == 0 {
        Seq::empty()
    } else {
        escaped(s.drop_last()) + reference_of(s.last())
    }
}

/// Escaped text holds none of the characters that open or close a tag or
/// end a quoted attribute, whatever the text was: nothing of it can be read
/// as markup.
pub proof fn escaped_has_no_markup(s: Seq<char>)
    ensures
        forall|i: int|
            0 <= i < escaped(s).len() ==> {
                let c = #[trigger] escaped(s)[i];
                c != '<' && c != '>' && c != '"' && c != '\''
            },
    decreases s.len(),
{
    if s.len() > 0 {
        escaped_has_no_markup(s.drop_last());
        let front = escaped(s.drop_last());
        let back = reference_of(s.last());
        assert forall|i: int| 0 <= i < escaped(s).len() implies {
            let c = #[trigger] escaped(s)[i];
            c != '<' && c != '>' && c != '"' && c != '\''
        } by {
            if i < front.len() {
                assert(escaped(s)[i] == front[i]);
            } else {
                assert(escaped(s)[i] == back[i - front.len()]);
            }
        }
    }
}

/// Text without markup characters is its own escaped form.
pub proof fn plain_text_is_unchanged(s: Seq<char>)
    requires
        forall|i: int| 0 <= i < s.len() ==> !is_markup(#[trigger] s[i]),
    ensures
        escaped(s) == s,
    decreases s.len(),
{
    if s.len() > 0 {
        plain_text_is_unchanged(s.drop_last());
        assert(s.drop_last() + seq![s.last()] =~= s);
    }
}

/// Appends `c` to `text`.
pub assume_specification[ String::push ](text: &mut String, c: char)
    ensures
        final(text)@ == old(text)@.push(c),
;

/// Escapes `text` for use in HTML, between tags and inside a quoted
/// attribute.
pub fn escape_html(text: &str) -> (out: String)
    ensures
        out@ == escaped(text@),
{
    let mut out = String::new();
    for c in it: text.chars()
        invariant
            it.seq() == text@,
            out@ == escaped(text@.take(it.index() as int)),
    {
        proof {
            reveal_strlit("&amp;");
            reveal_strlit("&lt;");
            reveal_strlit("&gt;");
            reveal_strlit("&quot;");
            reveal_strlit("&#39;");
            assert(text@.take(it.index() + 1).drop_last() =~= text@.take(it.index() as int));
            assert(text@.take(it.index() + 1).last() == c);
        }
        let ghost before = out@;
        if c == '&' {
            out.append("&amp;");
            assert("&amp;"@ =~= reference_of(c));
        } else if c == '<' {
            out.append("&lt;");
            assert("&lt;"@ =~= reference_of(c));
        } else if c == '>' {
            out.append("&gt;");
            assert("&gt;"@ =~= reference_of(c));
        } else if c == '"' {
            out.append("&quot;");
            assert("&quot;"@ =~= reference_of(c));
        } else if c == '\'' {
            out.append("&#39;");
            assert("&#39;"@ =~= reference_of(c));
        } else {
            out.push(c);
            assert(out@ =~= before + reference_of(c));
        }
    }
    proof {
        assert(text@.take(text@.len() as int) =~= text@);
    }
    out
}

} // verus!
