//! Character-level text helpers shared by the adapters.

use vstd::prelude::*;

verus! {

/// What `str::trim` returns on this text.
pub uninterp spec fn trim_of(s: Seq<char>) -> Seq<char>;

/// Relies on `str::trim`: the result depends on the characters alone — the
/// text without its leading and trailing whitespace — so it can never be
/// longer than the input.
#[verifier::external_body]
pub fn trimmed(s: &str) -> (r: String)
    ensures
        r@ == trim_of(s@),
        r@.len() <= s@.len(),
{
    s.trim().to_owned()
}

/// Relies on `String::push`: appends exactly one character.
#[verifier::external_body]
pub fn push_char(s: &mut String, c: char)
    ensures
        final(s)@ == old(s)@.push(c),
{
    s.push(c);
}

/// The text without any occurrence of `c`.
pub open spec fn spec_remove_char(s: Seq<char>, c: char) -> Seq<char>
    decreases s.len(),
{
    if s.len() == 0 {
        s
    } else {
        spec_remove_char(s.drop_last(), c) + (if s.last() == c {
            Seq::<char>::empty()
        } else {
            seq![s.last()]
        })
    }
}

/// A copy of the text with every occurrence of `c` removed.
pub fn remove_char(s: &str, c: char) -> (r: String)
    ensures
        r@ == spec_remove_char(s@, c),
{
    let n = s.unicode_len();
    let mut out = String::new();
    for i in 0..n
        invariant
            n == s@.len(),
            out@ == spec_remove_char(s@.take(i as int), c),
    {
        let ghost prefix = s@.take(i as int);
        let ch = s.get_char(i);
        if ch != c {
            push_char(&mut out, ch);
        }
        proof {
            assert(s@.take(i + 1).drop_last() =~= prefix);
            assert(s@.take(i + 1).last() == s@[i as int]);
            if s@[i as int] == c {
                assert(spec_remove_char(s@.take(i + 1), c) =~= spec_remove_char(prefix, c));
            } else {
                assert(spec_remove_char(s@.take(i + 1), c) =~= spec_remove_char(prefix, c).push(
                    s@[i as int],
                ));
            }
        }
    }
    proof {
        assert(s@.take(n as int) =~= s@);
    }
    out
}

} // verus!
