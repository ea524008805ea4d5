//! Discovery decisions: which advertised peripheral is worth connecting to,
//! and when a connected candidate is accepted. Scanning, connecting and
//! service enumeration happen outside this core; their findings are handed
//! in as plain values.

use vstd::prelude::*;

use crate::decode::range_matches;
use crate::session::SessionError;

verus! {

/// Seconds the scanner waits for advertisements to accumulate before
/// enumerating candidates.
pub const SCAN_SETTLE_SECS: u64 = 2;

/// `needle` occurs as a contiguous run inside `hay`.
pub open spec fn spec_contains_sub(hay: Seq<u8>, needle: Seq<u8>) -> bool {
    exists|j: int|
        0 <= j && j + needle.len() <= hay.len() && #[trigger] hay.subrange(j, j + needle.len())
            == needle
}

/// Substring search: whether `needle` occurs anywhere in `hay`.
pub fn contains_sub(hay: &[u8], needle: &[u8]) -> (r: bool)
    ensures
        r == spec_contains_sub(hay@, needle@),
{
    if needle.len() > hay.len() {
        proof {
            assert(!spec_contains_sub(hay@, needle@));
        }
        return false;
    }
    let last = hay.len() - needle.len();
    let mut j: usize = 0;
    loop
        invariant
            0 <= j <= last,
            last == hay@.len() - needle@.len(),
            hay@.len() <= usize::MAX,
            forall|k: int|
                0 <= k < j ==> #[trigger] hay@.subrange(k, k + needle@.len()) != needle@,
        decreases last - j,
    {
        if range_matches(hay, j, j + needle.len(), needle) {
            return true;
        }
        if j == last {
            proof {
                assert forall|k: int|
                    0 <= k && k + needle@.len() <= hay@.len() implies #[trigger] hay@.subrange(
                    k,
                    k + needle@.len(),
                ) != needle@ by {
                    assert(k <= j);
                }
            }
            return false;
        }
        j = j + 1;
    }
}

/// Whether a discovered candidate is worth a connection attempt: it must
/// advertise a local name, and the name must contain the configured
/// substring filter. A candidate without a name is skipped.
pub open spec fn spec_screen_candidate(name: Option<Seq<u8>>, filter: Seq<u8>) -> bool {
    match name {
        Some(n) => spec_contains_sub(n, filter),
        None => false,
    }
}

/// Screens one advertised candidate by its local name.
pub fn screen_candidate(name: &Option<Vec<u8>>, filter: &[u8]) -> (r: bool)
    ensures
        r == spec_screen_candidate(
            match name {
                Some(n) => Some(n@),
                None => None,
            },
            filter@,
        ),
{
    match name {
        Some(n) => contains_sub(n.as_slice(), filter),
        None => false,
    }
}

/// Whether a connected candidate exposes the target service; one that does
/// not is disconnected and the scan goes on.
pub fn accept_candidate(services: &[u128], target: u128) -> (r: bool)
    ensures
        r == services@.contains(target),
{
    let mut i: usize = 0;
    while i < services.len()
        invariant
            0 <= i <= services@.len(),
            forall|k: int| 0 <= k < i ==> services@[k] != target,
        decreases services@.len() - i,
    {
        if services[i] == target {
            return true;
        }
        i = i + 1;
    }
    false
}

/// Fails fatally when no wireless adapter is present.
pub fn ensure_adapter(adapter_count: usize) -> (r: Result<(), SessionError>)
    ensures
        adapter_count == 0 ==> r == Err::<(), SessionError>(SessionError::AdapterUnavailable),
        adapter_count > 0 ==> r is Ok,
{
    if adapter_count == 0 {
        Err(SessionError::AdapterUnavailable)
    } else {
        Ok(())
    }
}

} // verus!
