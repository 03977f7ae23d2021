//! The pair parser: split a raw exchange pair string into the traded symbol
//! and the base currency, using an exchange's ordered list of known bases.
use vstd::prelude::*;

use crate::error::TrailerError;

verus! {

/// Whether `suffix` is a suffix of `s`.
pub open spec fn is_suffix_of(suffix: Seq<char>, s: Seq<char>) -> bool {
    suffix.len() <= s.len() && s.subrange(s.len() - suffix.len(), s.len() as int) == suffix
}

/// Result of testing the bases from index `i` on: the first base that is a
/// suffix of `s` wins, and the remainder of `s` is the traded symbol.
pub open spec fn spec_split_from(s: Seq<char>, bases: Seq<Seq<char>>, i: int) -> Option<
    (Seq<char>, Seq<char>),
>
    decreases bases.len() - i,
{
    if i < 0 || i >= bases.len() {
        None
    } else if is_suffix_of(bases[i], s) {
        Some((s.subrange(0, s.len() - bases[i].len()), bases[i]))
    } else {
        spec_split_from(s, bases, i + 1)
    }
}

/// The symbol/base split of `s` against the ordered base list `bases`.
pub open spec fn spec_split(s: Seq<char>, bases: Seq<Seq<char>>) -> Option<
    (Seq<char>, Seq<char>),
> {
    spec_split_from(s, bases, 0)
}

proof fn lemma_split_from_characterization(s: Seq<char>, bases: Seq<Seq<char>>, i: int)
    requires
        0 <= i <= bases.len(),
    ensures
        (spec_split_from(s, bases, i) is Some) <==> (exists|j: int|
            i <= j < bases.len() && is_suffix_of(#[trigger] bases[j], s)),
        spec_split_from(s, bases, i) matches Some(sb) ==> exists|j: int|
            i <= j < bases.len() && is_suffix_of(#[trigger] bases[j], s) && sb.1 == bases[j]
                && sb.0 == s.subrange(0, s.len() - bases[j].len()) && (forall|k: int|
                i <= k < j ==> !is_suffix_of(#[trigger] bases[k], s)),
    decreases bases.len() - i,
{
    if i < bases.len() {
        if is_suffix_of(bases[i], s) {
            assert(i <= i < bases.len() && is_suffix_of(bases[i], s));
        } else {
            lemma_split_from_characterization(s, bases, i + 1);
        }
    }
}

/// The parse succeeds exactly when some base in the list is a suffix of the
/// raw string; the returned base is the first such entry in list order, no
/// earlier entry matches, and the symbol is the remaining prefix.
pub proof fn lemma_split_characterization(s: Seq<char>, bases: Seq<Seq<char>>)
    ensures
        (spec_split(s, bases) is Some) <==> (exists|j: int|
            0 <= j < bases.len() && is_suffix_of(#[trigger] bases[j], s)),
        spec_split(s, bases) matches Some(sb) ==> exists|j: int|
            0 <= j < bases.len() && is_suffix_of(#[trigger] bases[j], s) && sb.1 == bases[j]
                && sb.0 == s.subrange(0, s.len() - bases[j].len()) && (forall|k: int|
                0 <= k < j ==> !is_suffix_of(#[trigger] bases[k], s)),
{
    lemma_split_from_characterization(s, bases, 0);
}

/// Concatenating the parsed symbol and base reconstructs the raw string:
/// formatting a parsed pair round-trips.
pub proof fn lemma_split_round_trip(s: Seq<char>, bases: Seq<Seq<char>>)
    requires
        spec_split(s, bases) is Some,
    ensures
        spec_split(s, bases) matches Some(sb) ==> sb.0 + sb.1 == s,
{
    lemma_split_characterization(s, bases);
    let sb = spec_split(s, bases)->Some_0;
    let j = choose|j: int|
        0 <= j < bases.len() && is_suffix_of(#[trigger] bases[j], s) && sb.1 == bases[j] && sb.0
            == s.subrange(0, s.len() - bases[j].len());
    assert(sb.0 + sb.1 =~= s);
}

/// Whether `s` ends with `suffix`, compared character by character.
fn ends_with(s: &str, suffix: &str) -> (r: bool)
    ensures
        r == is_suffix_of(suffix@, s@),
{
    let n = s.unicode_len();
    let k = suffix.unicode_len();
    if k > n {
        return false;
    }
    let mut i: usize = 0;
    while i < k
        invariant
            0 <= i <= k <= n,
            n == s@.len(),
            k == suffix@.len(),
            forall|m: int| 0 <= m < i ==> s@[n - k + m] == suffix@[m],
        decreases k - i,
    {
        if s.get_char(n - k + i) != suffix.get_char(i) {
            proof {
                assert(s@.subrange(n - k, n as int)[i as int] == s@[n - k + i]);
            }
            return false;
        }
        i = i + 1;
    }
    proof {
        assert(s@.subrange(n - k, n as int) =~= suffix@);
    }
    true
}

/// Split a raw pair string into `(symbol, base)` against the ordered base
/// list: the first base that is a suffix of `pair` wins. Fails with
/// `BasePairNotFound` when no base matches.
pub fn split_symbol_and_base(pair: &str, bases: &Vec<String>) -> (r: Result<
    (String, String),
    TrailerError,
>)
    ensures
        (r is Ok) <==> (spec_split(pair@, bases.deep_view()) is Some),
        r matches Ok(sb) ==> spec_split(pair@, bases.deep_view()) == Some((sb.0@, sb.1@)),
        r matches Err(e) ==> e is BasePairNotFound,
{
    let ghost bs = bases.deep_view();
    let n = pair.unicode_len();
    let mut i: usize = 0;
    while i < bases.len()
        invariant
            0 <= i <= bases.len(),
            n == pair@.len(),
            bs == bases.deep_view(),
            bs.len() == bases.len(),
            forall|k: int| 0 <= k < bs.len() ==> bs[k] == #[trigger] bases[k]@,
            spec_split(pair@, bs) == spec_split_from(pair@, bs, i as int),
        decreases bases.len() - i,
    {
        let base = &bases[i];
        if ends_with(pair, base.as_str()) {
            let k = base.unicode_len();
            let symbol = pair.substring_char(0, n - k).to_owned();
            return Ok((symbol, base.clone()));
        }
        i = i + 1;
    }
    Err(TrailerError::BasePairNotFound)
}

} // verus!
