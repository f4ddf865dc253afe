//! Whitespace trimming of command text.
use vstd::prelude::*;

verus! {

/// Whether `c` has the Unicode `White_Space` property.
pub open spec fn is_whitespace(c: char) -> bool {
    let n: u32 = c as u32;
    ||| 0x09 <= n <= 0x0d
    ||| n == 0x20
    ||| n == 0x85
    ||| n == 0xa0
    ||| n == 0x1680
    ||| 0x2000 <= n <= 0x200a
    ||| n == 0x2028
    ||| n == 0x2029
    ||| n == 0x202f
    ||| n == 0x205f
    ||| n == 0x3000
}

/// Every character of `s` is whitespace.
pub open spec fn all_whitespace(s: Seq<char>) -> bool {
    forall|i: int| 0 <= i < s.len() ==> is_whitespace(#[trigger] s[i])
}

/// `s` without its leading run of whitespace.
pub open spec fn skip_leading(s: Seq<char>) -> Seq<char>
    decreases s.len(),
{
    if s.len() > 0 && is_whitespace(s[0]) {
        skip_leading(s.drop_first())
    } else {
        s
    }
}

/// `s` without its trailing run of whitespace.
pub open spec fn skip_trailing(s: Seq<char>) -> Seq<char>
    decreases s.len(),
{
    if s.len() > 0 && is_whitespace(s.last()) {
        skip_trailing(s.drop_last())
    } else {
        s
    }
}

/// `s` without surrounding whitespace.
pub open spec fn trimmed(s: Seq<char>) -> Seq<char> {
    skip_trailing(skip_leading(s))
}

/// Trusted: `str::trim` of the standard library. It returns the slice of `s`
/// that is left when the leading and the trailing characters with the Unicode
/// `White_Space` property are removed.
#[verifier::external_body]
pub(crate) fn trim<'a>(s: &'a str) -> (r: &'a str)
    ensures
        r@ == trimmed(s@),
{
    s.trim()
}

/// Leading whitespace in front of any text is skipped entirely.
pub proof fn lemma_skip_leading_padding(pad: Seq<char>, s: Seq<char>)
    requires
        all_whitespace(pad),
    ensures
        skip_leading(pad + s) == skip_leading(s),
    decreases pad.len(),
{
    if pad.len() == 0 {
        assert(pad + s =~= s);
    } else {
        assert((pad + s)[0] == pad[0]);
        assert((pad + s).drop_first() =~= pad.drop_first() + s);
        lemma_skip_leading_padding(pad.drop_first(), s);
    }
}

/// Trailing whitespace behind any text is skipped entirely.
pub proof fn lemma_skip_trailing_padding(s: Seq<char>, pad: Seq<char>)
    requires
        all_whitespace(pad),
    ensures
        skip_trailing(s + pad) == skip_trailing(s),
    decreases pad.len(),
{
    if pad.len() == 0 {
        assert(s + pad =~= s);
    } else {
        assert((s + pad).last() == pad.last());
        assert((s + pad).drop_last() =~= s + pad.drop_last());
        lemma_skip_trailing_padding(s, pad.drop_last());
    }
}

/// Skipping leading whitespace leaves whatever follows the first character
/// that is no whitespace untouched; text of whitespace only is skipped whole.
pub proof fn lemma_skip_leading_suffix(s: Seq<char>, tail: Seq<char>)
    ensures
        all_whitespace(s) ==> skip_leading(s) == Seq::<char>::empty(),
        !all_whitespace(s) ==> skip_leading(s + tail) == skip_leading(s) + tail,
    decreases s.len(),
{
    if s.len() == 0 {
    } else if is_whitespace(s[0]) {
        let rest = s.drop_first();
        lemma_skip_leading_suffix(rest, tail);
        assert((s + tail)[0] == s[0]);
        assert((s + tail).drop_first() =~= rest + tail);
        if all_whitespace(s) {
            assert forall|i: int| 0 <= i < rest.len() implies is_whitespace(#[trigger] rest[i]) by {
                assert(rest[i] == s[i + 1]);
            }
        } else {
            if all_whitespace(rest) {
                assert forall|i: int| 0 <= i < s.len() implies is_whitespace(#[trigger] s[i]) by {
                    if i > 0 {
                        assert(s[i] == rest[i - 1]);
                    }
                }
            }
        }
    } else {
        assert((s + tail)[0] == s[0]);
    }
}

/// Whitespace around a text does not change what trimming leaves of it.
pub proof fn lemma_trimmed_ignores_padding(before: Seq<char>, s: Seq<char>, after: Seq<char>)
    requires
        all_whitespace(before),
        all_whitespace(after),
    ensures
        trimmed(before + s + after) == trimmed(s),
{
    assert(before + s + after =~= before + (s + after));
    lemma_skip_leading_padding(before, s + after);
    lemma_skip_leading_suffix(s, after);
    if all_whitespace(s) {
        assert(all_whitespace(s + after)) by {
            assert forall|i: int| 0 <= i < (s + after).len() implies is_whitespace(
                #[trigger] (s + after)[i],
            ) by {
                if i < s.len() {
                    assert((s + after)[i] == s[i]);
                } else {
                    assert((s + after)[i] == after[i - s.len()]);
                }
            }
        }
        lemma_skip_leading_suffix(s + after, Seq::<char>::empty());
    } else {
        lemma_skip_trailing_padding(skip_leading(s), after);
    }
}

} // verus!
