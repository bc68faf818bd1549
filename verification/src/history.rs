//! Bounded history: the newest records of one packet type, oldest first.
//!
//! The decoders hand out values and keep nothing. A receiver that wants to
//! look back keeps one history for each packet type and enters each record as
//! it is decoded.

use std::collections::VecDeque;
use vstd::prelude::*;

verus! {

/// How many records of one packet type a receiver keeps.
pub const HISTORY_CAPACITY: usize = 200;

/// The last `keep` items of `s`, or all of `s` where it has no more.
pub open spec fn newest<T>(s: Seq<T>, keep: int) -> Seq<T> {
    if s.len() <= keep {
        s
    } else {
        s.subrange(s.len() - keep, s.len() as int)
    }
}

/// Enters `record` as the newest item of `history`, and drops the oldest
/// items until no more than `capacity` are left.
pub fn remember<T>(history: &mut VecDeque<T>, record: T, capacity: usize)
    ensures
        final(history)@ == newest(old(history)@.push(record), capacity as int),
{
    history.push_back(record);
    let ghost all = history@;
    while history.len() > capacity
        invariant
            history@.len() <= all.len(),
            history@ == all.subrange(all.len() - history@.len(), all.len() as int),
            history@.len() >= capacity || history@.len() == all.len(),
        decreases history@.len(),
    {
        history.pop_front();
    }
}

} // verus!
