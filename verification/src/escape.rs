//! Escaping of line-protocol tag values: backslash, space, comma and
//! equals sign each gain a preceding backslash, and a backslash written
//! by the escaper is never escaped again.
use vstd::prelude::*;
use vstd::string::*;

verus! {

/// The characters that must not appear bare inside a tag value.
pub open spec fn is_tag_special(c: char) -> bool {
    c == '\\' || c == ' ' || c == ',' || c == '='
}

/// The escaped form of one character.
pub open spec fn escaped_char(c: char) -> Seq<char> {
    if is_tag_special(c) {
        seq!['\\', c]
    } else {
        seq![c]
    }
}

/// The escaped form of a tag value, character by character.
pub open spec fn escaped(s: Seq<char>) -> Seq<char>
    decreases s.len(),
{
    if s.len() == 0 {
        Seq::empty()
    } else {
        escaped_char(s[0]) + escaped(s.skip(1))
    }
}

/// The decoding of escaped text: a backslash takes the character after
/// it literally.
pub open spec fn unescaped(s: Seq<char>) -> Seq<char>
    decreases s.len(),
{
    if s.len() == 0 {
        Seq::empty()
    } else if s[0] == '\\' && s.len() >= 2 {
        seq![s[1]] + unescaped(s.skip(2))
    } else {
        seq![s[0]] + unescaped(s.skip(1))
    }
}

/// Relies on String::push: appends exactly one character at the end.
#[verifier::external_body]
pub(crate) fn push_char(s: &mut String, c: char)
    ensures
        final(s)@ == old(s)@ + seq![c],
{
    s.push(c);
}

proof fn lemma_escaped_push(s: Seq<char>, c: char)
    ensures
        escaped(s.push(c)) == escaped(s) + escaped_char(c),
    decreases s.len(),
{
    if s.len() == 0 {
        assert(s.push(c) =~= seq![c]);
        assert(seq![c].skip(1) =~= Seq::<char>::empty());
        assert(escaped(Seq::<char>::empty()) == Seq::<char>::empty());
        assert(escaped(seq![c]) == escaped_char(c) + Seq::<char>::empty());
        assert(escaped_char(c) + Seq::<char>::empty() =~= escaped_char(c));
        assert(Seq::<char>::empty() + escaped_char(c) =~= escaped_char(c));
    } else {
        assert(s.push(c).skip(1) =~= s.skip(1).push(c));
        lemma_escaped_push(s.skip(1), c);
        assert(escaped(s.push(c)) =~= escaped(s) + escaped_char(c));
    }
}

/// Escape a raw tag value so that it can stand inside a line-protocol
/// tag. Total: every string, the empty one included, has an escaped form.
pub fn escape_tag(value: &str) -> (out: String)
    ensures
        out@ == escaped(value@),
{
    let len: usize = value.unicode_len();
    let mut out = String::new();
    let mut i: usize = 0;
    while i < len
        invariant
            len == value@.len(),
            i <= len,
            out@ == escaped(value@.take(i as int)),
        decreases len - i,
    {
        let c = value.get_char(i);
        proof {
            lemma_escaped_push(value@.take(i as int), c);
            assert(value@.take(i as int).push(c) =~= value@.take(i + 1 as int));
        }
        if c == '\\' || c == ' ' || c == ',' || c == '=' {
            push_char(&mut out, '\\');
            push_char(&mut out, c);
            assert(out@ =~= escaped(value@.take(i + 1 as int)));
        } else {
            push_char(&mut out, c);
            assert(out@ =~= escaped(value@.take(i + 1 as int)));
        }
        i = i + 1;
    }
    proof {
        assert(value@.take(len as int) =~= value@);
    }
    out
}

/// Law: decoding inverts escaping. For every tag value, unescaping the
/// escaped text gives the original back, so escaping loses nothing and
/// never double-escapes a backslash it introduced itself.
pub proof fn lemma_unescape_escape(s: Seq<char>)
    ensures
        unescaped(escaped(s)) == s,
    decreases s.len(),
{
    if s.len() == 0 {
    } else {
        lemma_unescape_escape(s.skip(1));
        let e = escaped(s);
        if is_tag_special(s[0]) {
            assert(e[0] == '\\' && e.len() >= 2 && e[1] == s[0]);
            assert(e.skip(2) =~= escaped(s.skip(1)));
            assert(unescaped(e) =~= s);
        } else {
            assert(e[0] == s[0] && s[0] != '\\');
            assert(e.skip(1) =~= escaped(s.skip(1)));
            assert(unescaped(e) =~= s);
        }
    }
}

} // verus!
