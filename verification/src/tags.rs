//! Tag-string normalization for outbound URLs.
//!
//! A tag is the public identifier of a clan or player, e.g. `#ABC123`. It must
//! be URL-encoded (`#` becomes `%23`) before use in a path segment, and user
//! input is canonicalized to the tag alphabet `A`-`Z`, `0`-`9`, with the
//! letter `O` read as the digit `0` (the alphabet never uses letter `O`).

use vstd::prelude::*;
use vstd::string::*;

use crate::chars::{is_digit, push_char, spec_upper, upper_char};

verus! {

/// Character allowed in a canonical tag: `A`-`Z` or `0`-`9`.
pub open spec fn is_tag_char(c: char) -> bool {
    ('A' <= c && c <= 'Z') || is_digit(c)
}

/// What one input character contributes to a canonical tag: uppercased, then
/// kept only if in the tag alphabet, with `O` read as `0`.
pub open spec fn canon_char(c: char) -> Seq<char> {
    let u = spec_upper(c);
    if u == 'O' {
        seq!['0']
    } else if is_tag_char(u) {
        seq![u]
    } else {
        Seq::empty()
    }
}

/// Canonical body of a tag: every character uppercased, stripped to the tag
/// alphabet, with `O` replaced by `0`.
pub open spec fn spec_canon(s: Seq<char>) -> Seq<char>
    decreases s.len(),
{
    if s.len() == 0 {
        Seq::empty()
    } else {
        spec_canon(s.drop_last()) + canon_char(s.last())
    }
}

/// The canonical form of a tag: `#` followed by the canonical body.
pub open spec fn spec_fix_tag(s: Seq<char>) -> Seq<char> {
    seq!['#'] + spec_canon(s)
}

/// URL form of a tag: a leading `#` is encoded as `%23` and the rest of the
/// tag is kept as it is; a tag without a leading `#` gets `%23` prepended
/// whole.
pub open spec fn spec_format_tag(s: Seq<char>) -> Seq<char> {
    if s.len() > 0 && s[0] == '#' {
        seq!['%', '2', '3'] + s.drop_first()
    } else {
        seq!['%', '2', '3'] + s
    }
}

/// URL-encode a tag for use in a path segment.
pub fn format_tag(tag: &str) -> (r: String)
    ensures
        r@ == spec_format_tag(tag@),
{
    let n = tag.unicode_len();
    let mut out = String::from_str("%23");
    proof {
        reveal_strlit("%23");
        assert("%23"@ =~= seq!['%', '2', '3']);
    }
    if n > 0 && tag.get_char(0) == '#' {
        let rest = tag.substring_char(1, n);
        out.append(rest);
        proof {
            assert(tag@.subrange(1, n as int) =~= tag@.drop_first());
        }
    } else {
        out.append(tag);
    }
    out
}

/// Canonicalize user input to a tag: uppercase, strip everything outside the
/// tag alphabet, read `O` as `0`, and prepend `#`.
#[verifier::loop_isolation(false)]
pub fn fix_tag(tag: &str) -> (r: String)
    ensures
        r@ == spec_fix_tag(tag@),
{
    let n = tag.unicode_len();
    let mut out = String::new();
    push_char(&mut out, '#');
    let mut i: usize = 0;
    while i < n
        invariant
            0 <= i <= n,
            out@ == seq!['#'] + spec_canon(tag@.take(i as int)),
        decreases n - i,
    {
        let c = tag.get_char(i);
        let u = upper_char(c);
        let ghost before = out@;
        if u == 'O' {
            push_char(&mut out, '0');
        } else if ('A' <= u && u <= 'Z') || ('0' <= u && u <= '9') {
            push_char(&mut out, u);
        }
        proof {
            assert(tag@.take(i + 1).drop_last() =~= tag@.take(i as int));
            assert(tag@.take(i + 1).last() == tag@[i as int]);
            assert(out@ =~= seq!['#'] + spec_canon(tag@.take(i + 1)));
        }
        i = i + 1;
    }
    proof {
        assert(tag@.take(n as int) =~= tag@);
    }
    out
}

/// Every character of a canonical body is in the tag alphabet and is not the
/// letter `O`.
pub open spec fn is_canonical(s: Seq<char>) -> bool {
    forall|i: int| 0 <= i < s.len() ==> is_tag_char(#[trigger] s[i]) && s[i] != 'O'
}

proof fn lemma_canon_canonical(s: Seq<char>)
    ensures
        is_canonical(spec_canon(s)),
    decreases s.len(),
{
    if s.len() > 0 {
        lemma_canon_canonical(s.drop_last());
    }
}

proof fn lemma_canon_identity(s: Seq<char>)
    requires
        is_canonical(s),
    ensures
        spec_canon(s) == s,
    decreases s.len(),
{
    if s.len() > 0 {
        assert forall|i: int| 0 <= i < s.drop_last().len() implies is_tag_char(
            #[trigger] s.drop_last()[i],
        ) && s.drop_last()[i] != 'O' by {
            assert(s.drop_last()[i] == s[i]);
        }
        lemma_canon_identity(s.drop_last());
        assert(is_tag_char(s.last()) && s.last() != 'O');
        assert(canon_char(s.last()) == seq![s.last()]);
        assert(spec_canon(s) =~= s);
    }
}

proof fn lemma_canon_append(a: Seq<char>, b: Seq<char>)
    ensures
        spec_canon(a + b) == spec_canon(a) + spec_canon(b),
    decreases b.len(),
{
    if b.len() == 0 {
        assert(a + b =~= a);
        assert(spec_canon(a) + spec_canon(b) =~= spec_canon(a));
    } else {
        lemma_canon_append(a, b.drop_last());
        assert((a + b).drop_last() =~= a + b.drop_last());
        assert((a + b).last() == b.last());
        assert(spec_canon(a + b) =~= spec_canon(a) + spec_canon(b));
    }
}

/// Canonicalizing a tag is idempotent: fixing an already-fixed tag changes
/// nothing.
pub proof fn lemma_fix_tag_idempotent(s: Seq<char>)
    ensures
        spec_fix_tag(spec_fix_tag(s)) == spec_fix_tag(s),
{
    let c = spec_canon(s);
    lemma_canon_canonical(s);
    lemma_canon_append(seq!['#'], c);
    assert(seq!['#'].drop_last() =~= Seq::<char>::empty());
    assert(seq!['#'].last() == '#');
    assert(canon_char('#') =~= Seq::<char>::empty());
    assert(spec_canon(Seq::<char>::empty()) =~= Seq::<char>::empty());
    assert(spec_canon(seq!['#']) =~= Seq::<char>::empty());
    lemma_canon_identity(c);
    assert(spec_fix_tag(spec_fix_tag(s)) =~= spec_fix_tag(s));
}

} // verus!
