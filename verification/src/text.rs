//! Text helpers: UTF-8 decoding and quote trimming.

use vstd::prelude::*;
use vstd::utf8::*;

verus! {

/// `s` with every leading and every trailing `"` removed, as
/// `str::trim_matches('"')` does.
pub open spec fn trim_quotes(s: Seq<char>) -> Seq<char>
    decreases s.len(),
{
    if s.len() > 0 && s[0] == '"' {
        trim_quotes(s.drop_first())
    } else if s.len() > 0 && s.last() == '"' {
        trim_quotes(s.drop_last())
    } else {
        s
    }
}

/// Decodes `bytes` as UTF-8 with `String::from_utf8`, keeping only whether it
/// succeeded.
///
/// Trusted: `String::from_utf8` fails exactly on input that is not valid
/// UTF-8 and otherwise yields the string that those bytes encode.
#[verifier::external_body]
pub(crate) fn string_from_utf8(bytes: Vec<u8>) -> (res: Option<String>)
    ensures
        res is Some <==> valid_utf8(bytes@),
        res matches Some(s) ==> s@ == decode_utf8(bytes@),
{
    String::from_utf8(bytes).ok()
}

proof fn lemma_trim_skip_front(s: Seq<char>, lo: int)
    requires
        0 <= lo < s.len(),
        s[lo] == '"',
    ensures
        trim_quotes(s.subrange(lo, s.len() as int)) == trim_quotes(s.subrange(lo + 1, s.len() as int)),
{
    let t = s.subrange(lo, s.len() as int);
    assert(t.drop_first() =~= s.subrange(lo + 1, s.len() as int));
}

proof fn lemma_trim_skip_back(s: Seq<char>, lo: int, hi: int)
    requires
        0 <= lo < hi <= s.len(),
        s[lo] != '"',
        s[hi - 1] == '"',
    ensures
        trim_quotes(s.subrange(lo, hi)) == trim_quotes(s.subrange(lo, hi - 1)),
{
    let t = s.subrange(lo, hi);
    assert(t.drop_last() =~= s.subrange(lo, hi - 1));
}

/// Removes every leading and trailing `"` of `s`, as `str::trim_matches('"')`.
pub fn trim_quote_chars(s: &str) -> (res: String)
    ensures
        res@ == trim_quotes(s@),
{
    let n = s.unicode_len();
    let mut lo: usize = 0;
    assert(s@.subrange(0, n as int) =~= s@);
    while lo < n && s.get_char(lo) == '"'
        invariant
            n == s@.len(),
            lo <= n,
            trim_quotes(s@) == trim_quotes(s@.subrange(lo as int, n as int)),
        decreases n - lo,
    {
        proof {
            lemma_trim_skip_front(s@, lo as int);
        }
        lo = lo + 1;
    }
    let mut hi: usize = n;
    while hi > lo && s.get_char(hi - 1) == '"'
        invariant
            n == s@.len(),
            lo <= hi <= n,
            lo < n ==> s@[lo as int] != '"',
            trim_quotes(s@) == trim_quotes(s@.subrange(lo as int, hi as int)),
        decreases hi - lo,
    {
        proof {
            lemma_trim_skip_back(s@, lo as int, hi as int);
        }
        hi = hi - 1;
    }
    let kept = s.substring_char(lo, hi);
    assert(trim_quotes(kept@) == kept@);
    String::from_str(kept)
}

/// Trimming leaves neither a leading nor a trailing `"`.
pub proof fn trim_quotes_strips_both_ends(s: Seq<char>)
    ensures
        trim_quotes(s).len() > 0 ==> trim_quotes(s)[0] != '"',
        trim_quotes(s).len() > 0 ==> trim_quotes(s).last() != '"',
    decreases s.len(),
{
    if s.len() > 0 && s[0] == '"' {
        trim_quotes_strips_both_ends(s.drop_first());
    } else if s.len() > 0 && s.last() == '"' {
        trim_quotes_strips_both_ends(s.drop_last());
    }
}

proof fn trim_quotes_bounds(s: Seq<char>) -> (r: (int, int))
    ensures
        0 <= r.0 <= r.1 <= s.len(),
        trim_quotes(s) == s.subrange(r.0, r.1),
        forall|i: int| 0 <= i < r.0 ==> s[i] == '"',
        forall|i: int| r.1 <= i < s.len() ==> s[i] == '"',
    decreases s.len(),
{
    if s.len() > 0 && s[0] == '"' {
        let t = s.drop_first();
        let (lo, hi) = trim_quotes_bounds(t);
        assert(t.subrange(lo, hi) =~= s.subrange(lo + 1, hi + 1));
        assert forall|i: int| 0 <= i < lo + 1 implies s[i] == '"' by {
            if i > 0 {
                assert(s[i] == t[i - 1]);
            }
        }
        assert forall|i: int| hi + 1 <= i < s.len() implies s[i] == '"' by {
            assert(s[i] == t[i - 1]);
        }
        (lo + 1, hi + 1)
    } else if s.len() > 0 && s.last() == '"' {
        let t = s.drop_last();
        let (lo, hi) = trim_quotes_bounds(t);
        assert(t.subrange(lo, hi) =~= s.subrange(lo, hi));
        assert forall|i: int| 0 <= i < lo implies s[i] == '"' by {
            assert(s[i] == t[i]);
        }
        assert forall|i: int| hi <= i < s.len() implies s[i] == '"' by {
            if i < t.len() {
                assert(s[i] == t[i]);
            }
        }
        (lo, hi)
    } else {
        assert(s.subrange(0, s.len() as int) =~= s);
        (0, s.len() as int)
    }
}

/// Trimming keeps a contiguous run of the characters of `s`: what it removes
/// are `"` at either end.
pub proof fn trim_quotes_is_inner_run(s: Seq<char>)
    ensures
        exists|lo: int, hi: int|
            #![trigger s.subrange(lo, hi)]
            0 <= lo <= hi <= s.len() && trim_quotes(s) == s.subrange(lo, hi) && (forall|i: int|
                0 <= i < lo ==> s[i] == '"') && (forall|i: int| hi <= i < s.len() ==> s[i] == '"'),
{
    let (lo, hi) = trim_quotes_bounds(s);
    assert(trim_quotes(s) == s.subrange(lo, hi));
}

/// Trimming twice trims no more than trimming once.
pub proof fn trim_quotes_idempotent(s: Seq<char>)
    ensures
        trim_quotes(trim_quotes(s)) == trim_quotes(s),
{
    trim_quotes_strips_both_ends(s);
}

} // verus!
