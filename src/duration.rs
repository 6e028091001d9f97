//! Duration literals such as `5m` or `1h 30s`, read by `duration_str`.

use vstd::prelude::*;

verus! {

/// The whole seconds of the duration that `text` spells, or `None` where
/// `duration_str` reads no duration in it.
pub uninterp spec fn duration_secs(text: Seq<char>) -> Option<u64>;

/// Relies on `duration_str::parse`: it reads the duration that the text
/// spells and fails on anything else, the empty text included.
#[verifier::external_body]
pub(crate) fn parse_duration_secs(text: &str) -> (r: Option<u64>)
    ensures
        r == duration_secs(text@),
        text@.len() == 0 ==> r is None,
{
    duration_str::parse(text).ok().map(|d| d.as_secs())
}

} // verus!
