//! Comparison and prefix handling for method names.

use vstd::prelude::*;
use vstd::string::StrSliceExecFns;
use vstd::string::StringSliceAdditionalSpecFns;

verus! {

/// The text that follows `prefix` in `s`, when `s` starts with `prefix`.
pub open spec fn after_prefix(s: Seq<char>, prefix: Seq<char>) -> Option<Seq<char>> {
    if prefix.is_prefix_of(s) {
        Some(s.skip(prefix.len() as int))
    } else {
        None
    }
}

/// Two texts with the same UTF-8 encoding are the same text.
pub proof fn lemma_same_bytes_same_text(a: Seq<char>, b: Seq<char>)
    requires
        vstd::utf8::encode_utf8(a) == vstd::utf8::encode_utf8(b),
    ensures
        a == b,
{
    vstd::utf8::encode_utf8_decode_utf8(a);
    vstd::utf8::encode_utf8_decode_utf8(b);
}

/// Whether two string slices hold the same text.
pub fn str_eq(a: &str, b: &str) -> (r: bool)
    ensures
        r == (a@ == b@),
{
    let x = a.as_bytes();
    let y = b.as_bytes();
    if x.len() != y.len() {
        return false;
    }
    let mut i: usize = 0;
    while i < x.len()
        invariant
            i <= x.len(),
            x.len() == y.len(),
            x@ == a.spec_bytes(),
            y@ == b.spec_bytes(),
            forall|k: int| 0 <= k < i ==> x@[k] == y@[k],
        decreases x.len() - i,
    {
        if x[i] != y[i] {
            return false;
        }
        i += 1;
    }
    proof {
        assert(x@ =~= y@);
        lemma_same_bytes_same_text(a@, b@);
    }
    true
}

/// Removes `prefix` from the front of `s`; `None` when `s` does not start
/// with it.
pub fn strip_prefix<'a>(s: &'a str, prefix: &str) -> (r: Option<&'a str>)
    ensures
        match r {
            Some(rest) => Some(rest@) == after_prefix(s@, prefix@),
            None => after_prefix(s@, prefix@) is None,
        },
{
    let n = s.unicode_len();
    let p = prefix.unicode_len();
    if p > n {
        return None;
    }
    let head = s.substring_char(0, p);
    if str_eq(head, prefix) {
        let rest = s.substring_char(p, n);
        proof {
            assert(s@.subrange(p as int, n as int) =~= s@.skip(p as int));
        }
        Some(rest)
    } else {
        None
    }
}

} // verus!
