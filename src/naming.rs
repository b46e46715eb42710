//! C identifiers for WebAssembly names, and the fixed symbol names of the glue.
use crate::text::hex_chars;
use vstd::prelude::*;
use vstd::string::{StrSliceExecFns, StringExecFns};
use vstd::utf8::encode_utf8;

verus! {

/// An ASCII letter or digit.
pub open spec fn is_alnum(c: char) -> bool {
    ('0' <= c && c <= '9') || ('a' <= c && c <= 'z') || ('A' <= c && c <= 'Z')
}

/// The C text for one character of a WebAssembly name: letters and digits stay,
/// `-` becomes `_`, and anything else becomes the hexadecimal digits of its
/// UTF-8 bytes.
pub open spec fn sanitize_char(c: char) -> Seq<char> {
    if c == '-' {
        seq!['_']
    } else if is_alnum(c) {
        seq![c]
    } else {
        hex_chars(encode_utf8(seq![c]))
    }
}

/// The C identifier for a WebAssembly name, character by character.
pub open spec fn sanitize(s: Seq<char>) -> Seq<char>
    decreases s.len(),
{
    if s.len() == 0 {
        seq![]
    } else {
        sanitize(s.drop_last()) + sanitize_char(s.last())
    }
}

/// Relies on hex::encode: the result holds two lower-case hexadecimal digits
/// for each byte of its argument, here the UTF-8 bytes of `c`.
#[verifier::external_body]
fn hex_of_char(c: char) -> (r: String)
    ensures
        r@ == hex_chars(encode_utf8(seq![c])),
{
    hex::encode(c.to_string())
}

fn is_alnum_exec(c: char) -> (r: bool)
    ensures
        r == is_alnum(c),
{
    ('0' <= c && c <= '9') || ('a' <= c && c <= 'z') || ('A' <= c && c <= 'Z')
}

/// Converts a WebAssembly name into a C identifier.
pub fn cnaming(name: &str) -> (r: String)
    ensures
        r@ == sanitize(name@),
{
    let n = name.unicode_len();
    let mut r = String::new();
    let mut i: usize = 0;
    while i < n
        invariant
            i <= n,
            n == name@.len(),
            r@ == sanitize(name@.take(i as int)),
        decreases n - i,
    {
        let c = name.get_char(i);
        proof {
            assert(name@.take(i as int + 1).drop_last() =~= name@.take(i as int));
            reveal_strlit("_");
        }
        if c == '-' {
            r.append("_");
        } else if is_alnum_exec(c) {
            let one = name.substring_char(i, i + 1);
            assert(one@ =~= seq![c]);
            r.append(one);
        } else {
            let h = hex_of_char(c);
            r.append(h.as_str());
        }
        i = i + 1;
    }
    assert(name@.take(n as int) =~= name@);
    r
}

/// A name made of ASCII letters and digits only.
pub open spec fn is_safe(s: Seq<char>) -> bool {
    forall|i: int| 0 <= i < s.len() ==> is_alnum(#[trigger] s[i])
}

/// A name made of ASCII letters, digits and `-` only.
pub open spec fn is_plain(s: Seq<char>) -> bool {
    forall|i: int| 0 <= i < s.len() ==> is_alnum(#[trigger] s[i]) || s[i] == '-'
}

proof fn lemma_sanitize_plain(s: Seq<char>)
    requires
        is_plain(s),
    ensures
        sanitize(s).len() == s.len(),
        forall|i: int|
            0 <= i < s.len() ==> #[trigger] sanitize(s)[i] == if s[i] == '-' {
                '_'
            } else {
                s[i]
            },
    decreases s.len(),
{
    if s.len() > 0 {
        let t = s.drop_last();
        assert(is_plain(t)) by {
            assert forall|i: int| 0 <= i < t.len() implies is_alnum(#[trigger] t[i]) || t[i]
                == '-' by {
                assert(t[i] == s[i]);
            }
        }
        lemma_sanitize_plain(t);
        assert(is_alnum(s[s.len() - 1]) || s[s.len() - 1] == '-');
    }
}

/// The sanitizer leaves a name of ASCII letters and digits as it is, and so
/// sanitizing such a name twice gives what sanitizing it once gives.
pub proof fn lemma_sanitize_idempotent_on_safe(s: Seq<char>)
    requires
        is_safe(s),
    ensures
        sanitize(s) == s,
        sanitize(sanitize(s)) == sanitize(s),
{
    assert(is_plain(s)) by {
        assert forall|i: int| 0 <= i < s.len() implies is_alnum(#[trigger] s[i]) || s[i]
            == '-' by {}
    }
    lemma_sanitize_plain(s);
    assert(sanitize(s) =~= s);
}

/// Two distinct names made of ASCII letters, digits and `-` never sanitize to
/// the same identifier.
pub proof fn lemma_sanitize_injective_on_plain(a: Seq<char>, b: Seq<char>)
    requires
        is_plain(a),
        is_plain(b),
        sanitize(a) == sanitize(b),
    ensures
        a == b,
{
    lemma_sanitize_plain(a);
    lemma_sanitize_plain(b);
    assert(a.len() == b.len());
    assert forall|i: int| 0 <= i < a.len() implies a[i] == b[i] by {
        let (x, y) = (a[i], b[i]);
        assert(sanitize(a)[i] == sanitize(b)[i]);
        assert(is_alnum(x) || x == '-');
        assert(is_alnum(y) || y == '-');
        if x == '-' && y != '-' {
            assert(sanitize(b)[i] == y);
            assert(y == '_');
            assert(is_alnum(y));
            assert(false);
        } else if x != '-' && y == '-' {
            assert(sanitize(a)[i] == x);
            assert(x == '_');
            assert(is_alnum(x));
            assert(false);
        } else if x != '-' && y != '-' {
            assert(sanitize(a)[i] == x);
            assert(sanitize(b)[i] == y);
        }
    }
    assert(a =~= b);
}

} // verus!
