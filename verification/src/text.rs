//! Removing quote characters from the textual form of a JSON value.
//!
//! A user id arrives as the serialized text of a JSON string value, so it is
//! wrapped in double quotes; the session stores it with every quote character
//! removed.

use vstd::prelude::*;
use vstd::string::StrSliceExecFns;

verus! {

/// The characters of `s`, in order, with every double-quote character removed.
pub open spec fn spec_strip_quotes(s: Seq<char>) -> Seq<char>
    decreases s.len(),
{
    if s.len() == 0 {
        Seq::<char>::empty()
    } else {
        let rest = spec_strip_quotes(s.drop_last());
        if s.last() == '"' {
            rest
        } else {
            rest.push(s.last())
        }
    }
}

/// No double-quote character survives the stripping: an id taken from the
/// text of a JSON string value keeps no surrounding quotes.
pub proof fn lemma_strip_quotes_no_quote(s: Seq<char>)
    ensures
        forall|i: int|
            0 <= i < spec_strip_quotes(s).len() ==> #[trigger] spec_strip_quotes(s)[i] != '"',
    decreases s.len(),
{
    if s.len() == 0 {
    } else {
        let rest = spec_strip_quotes(s.drop_last());
        lemma_strip_quotes_no_quote(s.drop_last());
        if s.last() != '"' {
            assert forall|i: int|
                0 <= i < spec_strip_quotes(s).len() implies #[trigger] spec_strip_quotes(
                s,
            )[i] != '"' by {
                if i < rest.len() {
                    assert(spec_strip_quotes(s)[i] == rest[i]);
                } else {
                    assert(spec_strip_quotes(s)[i] == s.last());
                }
            }
        }
    }
}

/// Relies on String::push: appends one character at the end of the string.
#[verifier::external_body]
fn push_char(s: &mut String, c: char)
    ensures
        final(s)@ == old(s)@.push(c),
{
    s.push(c);
}

/// Every character of `s` except the double quotes, in order.
pub fn strip_quotes(s: &str) -> (r: String)
    ensures
        r@ == spec_strip_quotes(s@),
        forall|i: int| 0 <= i < r@.len() ==> #[trigger] r@[i] != '"',
{
    let n = s.unicode_len();
    let mut out = String::new();
    let mut i: usize = 0;
    while i < n
        invariant
            n == s@.len(),
            0 <= i <= n,
            out@ == spec_strip_quotes(s@.subrange(0, i as int)),
        decreases n - i,
    {
        let c = s.get_char(i);
        proof {
            assert(s@.subrange(0, (i + 1) as int).drop_last() =~= s@.subrange(0, i as int));
        }
        if c != '"' {
            push_char(&mut out, c);
        }
        i = i + 1;
    }
    proof {
        assert(s@.subrange(0, n as int) =~= s@);
        lemma_strip_quotes_no_quote(s@);
    }
    out
}

} // verus!
