use vstd::prelude::*;
use vstd::arithmetic::div_mod::lemma_div_is_ordered;
use crate::unit_rank;
use crate::phrase::bucket_of;
use crate::phrase::relative_phrase;

verus! {

/// Growing a magnitude never moves its phrase back to a finer unit: the rank
/// of the bucket chosen for a count of seconds is monotone non-decreasing.
pub proof fn lemma_bucket_monotone(a: int, b: int)
    requires
        a <= b,
    ensures
        unit_rank(bucket_of(a)) <= unit_rank(bucket_of(b)),
{
    lemma_div_is_ordered(a, b, 60);
    lemma_div_is_ordered(a / 60, b / 60, 60);
    lemma_div_is_ordered(a / 60 / 60, b / 60 / 60, 24);
    lemma_div_is_ordered(a / 60 / 60 / 24, b / 60 / 60 / 24, 30);
}

/// Formatting is a pure function of the offset: two phrases rendered for the
/// same count of seconds are the same phrase.
pub proof fn lemma_phrase_deterministic(secs: int, r1: Seq<char>, r2: Seq<char>)
    requires
        r1 == relative_phrase(secs),
        r2 == relative_phrase(secs),
    ensures
        r1 == r2,
{
}

} // verus!
