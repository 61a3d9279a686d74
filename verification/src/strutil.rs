//! Small string helpers: equality and comma-splitting.

use vstd::prelude::*;
use vstd::string::StrSliceExecFns;

verus! {

/// Relies on str's `PartialEq`: two string slices compare equal exactly
/// when they hold the same characters.
#[verifier::external_body]
pub fn str_eq(a: &str, b: &str) -> (r: bool)
    ensures
        r == (a@ == b@),
{
    a == b
}

/// The pieces of `s` between its commas, in order: a string without a
/// comma is one piece (possibly empty), and every comma separates two
/// pieces.
pub open spec fn spec_split_commas(s: Seq<char>) -> Seq<Seq<char>>
    decreases s.len(),
{
    if s.len() == 0 {
        seq![s]
    } else if s[0] == ',' {
        seq![Seq::<char>::empty()] + spec_split_commas(s.drop_first())
    } else {
        let rest = spec_split_commas(s.drop_first());
        seq![seq![s[0]] + rest[0]] + rest.drop_first()
    }
}

/// A split always yields at least one piece.
pub proof fn lemma_split_commas_len(s: Seq<char>)
    ensures
        spec_split_commas(s).len() >= 1,
    decreases s.len(),
{
    if s.len() != 0 {
        lemma_split_commas_len(s.drop_first())
    }
}

/// Splitting a string whose first comma stands at `i` yields the prefix
/// before `i` as the first piece, then the pieces of what follows.
proof fn lemma_split_commas_at(s: Seq<char>, i: int)
    requires
        0 <= i < s.len(),
        s[i] == ',',
        forall|k: int| 0 <= k < i ==> s[k] != ',',
    ensures
        spec_split_commas(s) == seq![s.subrange(0, i)] + spec_split_commas(
            s.subrange(i + 1, s.len() as int),
        ),
    decreases i,
{
    if i == 0 {
        assert(s.subrange(0, 0) =~= Seq::<char>::empty());
        assert(s.drop_first() =~= s.subrange(1, s.len() as int));
    } else {
        let t = s.drop_first();
        lemma_split_commas_at(t, i - 1);
        lemma_split_commas_len(t.subrange(i, t.len() as int));
        assert(t.subrange(i - 1 + 1, t.len() as int) =~= s.subrange(i + 1, s.len() as int));
        let rest = spec_split_commas(t);
        assert(rest[0] == t.subrange(0, i - 1));
        assert(seq![s[0]] + t.subrange(0, i - 1) =~= s.subrange(0, i));
        assert(seq![seq![s[0]] + rest[0]] + rest.drop_first() =~= seq![s.subrange(0, i)]
            + spec_split_commas(s.subrange(i + 1, s.len() as int)));
    }
}

/// Splitting a string without a comma yields that string as the one piece.
proof fn lemma_split_commas_none(s: Seq<char>)
    requires
        forall|k: int| 0 <= k < s.len() ==> s[k] != ',',
    ensures
        spec_split_commas(s) == seq![s],
    decreases s.len(),
{
    if s.len() != 0 {
        lemma_split_commas_none(s.drop_first());
        let rest = spec_split_commas(s.drop_first());
        assert(seq![s[0]] + rest[0] =~= s);
        assert(seq![seq![s[0]] + rest[0]] + rest.drop_first() =~= seq![s]);
    }
}

/// The views of the strings in `v`, in order.
pub open spec fn views_of(v: Seq<String>) -> Seq<Seq<char>> {
    v.map_values(|t: String| t@)
}

/// Splits `s` on commas, as `str::split(',')` does.
pub fn split_commas(s: &str) -> (v: Vec<String>)
    ensures
        views_of(v@) == spec_split_commas(s@),
    decreases s@.len(),
{
    let n = s.unicode_len();
    let mut i: usize = 0;
    while i < n
        invariant
            n == s@.len(),
            0 <= i <= n,
            forall|k: int| 0 <= k < i ==> s@[k] != ',',
        decreases n - i,
    {
        if s.get_char(i) == ',' {
            let head = s.substring_char(0, i).to_owned();
            let tail = s.substring_char(i + 1, n);
            let mut v = split_commas(tail);
            v.insert(0, head);
            proof {
                lemma_split_commas_at(s@, i as int);
                assert(views_of(v@) =~= seq![head@] + views_of(v@.drop_first()));
            }
            return v;
        }
        i += 1;
    }
    let mut v: Vec<String> = Vec::new();
    v.push(s.to_owned());
    proof {
        lemma_split_commas_none(s@);
        assert(views_of(v@) =~= seq![s@]);
    }
    v
}

} // verus!
