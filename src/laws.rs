use vstd::prelude::*;

use crate::matching::{accepts, has_prefix, lower_of, strip_marker};
use crate::models::FoundAddress;
use crate::search::{all_accepted, next_checked};

verus! {

/// With neither a prefix nor a suffix, every address is accepted.
pub proof fn lemma_no_criteria_accepts_all(address: Seq<char>)
    ensures
        accepts(address, None, None),
{
}

/// Where results are accepted under a prefix, each result's address, with its
/// `0x` marker stripped and lower-cased, starts with the lower-cased prefix.
pub proof fn lemma_results_start_with_prefix(
    results: Seq<FoundAddress>,
    prefix: String,
    suffix: Option<String>,
)
    requires
        all_accepted(results, Some(prefix), suffix),
    ensures
        forall|i: int|
            0 <= i < results.len() ==> has_prefix(
                lower_of(strip_marker(#[trigger] results[i].address@)),
                lower_of(prefix@),
            ),
{
    assert forall|i: int| 0 <= i < results.len() implies has_prefix(
        lower_of(strip_marker(#[trigger] results[i].address@)),
        lower_of(prefix@),
    ) by {
        assert(accepts(results[i].address@, Some(prefix), suffix));
    }
}

/// Counting a checked candidate never lowers the count, so successive
/// snapshots of one search never show it going down.
pub proof fn lemma_checked_monotone(checked: u64)
    ensures
        next_checked(checked) >= checked,
{
}

} // verus!
