//! Scanning an enumerated device class for the device whose instance
//! identifier equals a target, exactly and case-sensitively.
//!
//! Each enumerated record's identifier is queried from the subsystem; here a
//! record is represented by the outcome of that query, either the filled
//! identifier buffer or the error that aborted the query. The scan decodes
//! each buffer, compares it with the target, and returns the first match;
//! a query failure aborts the scan, while an exhausted list is no error.

use vstd::prelude::*;
use crate::decode::decode_units;
use crate::decode::decode_instance_id;

verus! {

/// The outcome of querying one enumerated device's instance identifier: the
/// buffer the subsystem filled (trailing terminator included), or the
/// description of the error that the query reported.
pub enum IdQuery {
    Id(Vec<u16>),
    Failed(String),
}

/// The text of a filled identifier buffer: everything before the one
/// trailing terminator unit, decoded leniently.
pub open spec fn id_chars(buf: Seq<u16>) -> Seq<char> {
    decode_units(buf.take(buf.len() - 1))
}

/// The query succeeded and its identifier equals the target.
pub open spec fn query_matches(q: IdQuery, target: Seq<char>) -> bool {
    q matches IdQuery::Id(buf) && id_chars(buf@) == target
}

/// The query succeeded and its identifier differs from the target.
pub open spec fn query_misses(q: IdQuery, target: Seq<char>) -> bool {
    q matches IdQuery::Id(buf) && id_chars(buf@) != target
}

/// Everything `locate_device` promises of its result: a found index is the
/// first whose identifier equals the target, "not found" means every query
/// succeeded and none matched, and an error is the first query failure, with
/// no match before it.
pub open spec fn locate_post(qs: Seq<IdQuery>, target: Seq<char>, r: Result<Option<usize>, String>) -> bool {
    match r {
        Ok(found) => match found {
            Some(i) => {
                &&& 0 <= i < qs.len()
                &&& query_matches(qs[i as int], target)
                &&& forall|j: int| 0 <= j < i ==> query_misses(#[trigger] qs[j], target)
            },
            None => forall|j: int| 0 <= j < qs.len() ==> query_misses(#[trigger] qs[j], target),
        },
        Err(e) => exists|i: int| {
            &&& 0 <= i < qs.len()
            &&& (#[trigger] qs[i]) matches IdQuery::Failed(msg) && msg == e
            &&& forall|j: int| 0 <= j < i ==> query_misses(#[trigger] qs[j], target)
        },
    }
}

/// Two sequences of characters are equal exactly when their contents are.
fn chars_eq(a: &Vec<char>, b: &Vec<char>) -> (r: bool)
    ensures
        r == (a@ == b@),
{
    if a.len() != b.len() {
        return false;
    }
    let mut i: usize = 0;
    while i < a.len()
        invariant
            i <= a@.len(),
            a@.len() == b@.len(),
            forall|j: int| 0 <= j < i ==> a@[j] == b@[j],
        decreases a@.len() - i,
    {
        if a[i] != b[i] {
            return false;
        }
        i = i + 1;
    }
    proof {
        assert(a@ =~= b@);
    }
    true
}

/// Scans the query outcomes in order for the target identifier. Returns the
/// first device whose identifier equals `target`, `None` when the list is
/// exhausted without a match, and the first query failure as an error —
/// exhaustion is normal control flow, a failure aborts the scan.
pub fn locate_device(queries: &Vec<IdQuery>, target: &Vec<char>) -> (r: Result<Option<usize>, String>)
    requires
        forall|j: int| 0 <= j < queries@.len()
            ==> ((#[trigger] queries@[j]) matches IdQuery::Id(buf) ==> buf@.len() >= 1),
    ensures
        locate_post(queries@, target@, r),
{
    let mut i: usize = 0;
    while i < queries.len()
        invariant
            i <= queries@.len(),
            forall|j: int| 0 <= j < queries@.len()
                ==> ((#[trigger] queries@[j]) matches IdQuery::Id(buf) ==> buf@.len() >= 1),
            forall|j: int| 0 <= j < i ==> query_misses(#[trigger] queries@[j], target@),
        decreases queries@.len() - i,
    {
        match &queries[i] {
            IdQuery::Id(buf) => {
                let chars = decode_instance_id(buf);
                if chars_eq(&chars, target) {
                    proof {
                        assert(query_matches(queries@[i as int], target@));
                    }
                    return Ok(Some(i));
                }
                proof {
                    assert(query_misses(queries@[i as int], target@));
                }
            },
            IdQuery::Failed(msg) => {
                let e = msg.clone();
                proof {
                    assert((queries@[i as int]) matches IdQuery::Failed(m) && m == e);
                }
                return Err(e);
            },
        }
        i = i + 1;
    }
    Ok(None)
}

/// With zero present devices there is nothing to query, so any result the
/// locator's contract admits is "not found" — never an error.
pub proof fn lemma_locate_empty_not_found(target: Seq<char>, r: Result<Option<usize>, String>)
    requires
        locate_post(Seq::empty(), target, r),
    ensures
        r == Ok::<Option<usize>, String>(None),
{
    match r {
        Ok(found) => match found {
            Some(i) => {
                assert(false);
            },
            None => {},
        },
        Err(e) => {
            assert(false);
        },
    }
}

/// When every query succeeds and exactly one device's identifier equals the
/// target, the locator's contract admits only that device, whatever position
/// it holds in the enumeration order.
pub proof fn lemma_locate_unique_match(
    qs: Seq<IdQuery>,
    target: Seq<char>,
    n: int,
    r: Result<Option<usize>, String>,
)
    requires
        locate_post(qs, target, r),
        0 <= n < qs.len(),
        query_matches(qs[n], target),
        forall|j: int| 0 <= j < qs.len() && j != n ==> query_misses(#[trigger] qs[j], target),
    ensures
        r matches Ok(found) && found == Some(n as usize),
{
    match r {
        Ok(found) => match found {
            Some(i) => {
                if i != n {
                    if (i as int) < n {
                        assert(query_misses(qs[i as int], target));
                    } else {
                        assert(query_misses(qs[n], target));
                    }
                    assert(false);
                }
            },
            None => {
                assert(query_misses(qs[n], target));
                assert(false);
            },
        },
        Err(e) => {
            let i = choose|i: int| {
                &&& 0 <= i < qs.len()
                &&& (#[trigger] qs[i]) matches IdQuery::Failed(msg) && msg == e
                &&& forall|j: int| 0 <= j < i ==> query_misses(#[trigger] qs[j], target)
            };
            if i == n {
                assert(query_matches(qs[n], target));
            } else {
                assert(query_misses(qs[i], target));
            }
            assert(false);
        },
    }
}

} // verus!
