//! Resource allocator: scan a port window for a single free port or a
//! free contiguous block.
//!
//! Probing a port (a transient exclusive bind, immediately released) is
//! inherently an I/O action, so callers probe the window themselves and
//! hand the snapshot in as a vector: `avail[i]` reports whether port
//! `from + i` was free at probe time.  The result is advisory either
//! way — the check-then-use gap is a race the caller must tolerate by
//! claiming the port immediately.

use vstd::prelude::*;

use crate::errors::UtilError;

verus! {

/// Every port of the block of `count` ports starting at offset `start`
/// is free in the snapshot.
pub open spec fn block_free(avail: Seq<bool>, start: int, count: int) -> bool {
    forall|j: int| 0 <= j < count ==> #[trigger] avail[start + j]
}

/// First free port in `[from, from + range)`, scanning in ascending order.
///
/// `avail` is the probe snapshot of the window: `avail[i]` holds exactly
/// when port `from + i` was free.  Returns the lowest free port, or
/// `NotFound` when the whole window is exhausted.
pub fn find_available_port(from: u16, range: u16, avail: &Vec<bool>) -> (r: Result<u16, UtilError>)
    requires
        avail@.len() == range as int,
        from + range <= u16::MAX,
    ensures
        match r {
            Ok(p) => {
                &&& from <= p < from + range
                &&& avail@[p - from]
                &&& forall|q: int| from <= q < p ==> !(#[trigger] avail@[q - from])
            },
            Err(e) => {
                &&& e is NotFound
                &&& forall|i: int| 0 <= i < range ==> !(#[trigger] avail@[i])
            },
        },
{
    let mut i: u16 = 0;
    while i < range
        invariant
            i <= range,
            avail@.len() == range as int,
            from + range <= u16::MAX,
            forall|j: int| 0 <= j < i ==> !(#[trigger] avail@[j]),
        decreases range - i,
    {
        if avail[i as usize] {
            return Ok(from + i);
        }
        i = i + 1;
    }
    Err(UtilError::NotFound)
}

/// First start of a contiguous block of `ports_required` free ports,
/// with the start scanned over `[from, from + range)` in ascending order.
///
/// The snapshot must also cover the ports a block starting late in the
/// window can reach, so `avail` covers `[from, from + range + ports_required)`.
/// Returns the lowest satisfying start, or `NotFound` when no start in
/// the window has a fully free block.
pub fn find_available_ports(
    from: u16,
    range: u16,
    ports_required: u16,
    avail: &Vec<bool>,
) -> (r: Result<u16, UtilError>)
    requires
        avail@.len() >= range as int + ports_required as int,
        from + range + ports_required <= u16::MAX,
    ensures
        match r {
            Ok(p) => {
                &&& from <= p < from + range
                &&& block_free(avail@, p - from, ports_required as int)
                &&& forall|q: int|
                    from <= q < p ==> !(#[trigger] block_free(
                        avail@,
                        q - from,
                        ports_required as int,
                    ))
            },
            Err(e) => {
                &&& e is NotFound
                &&& forall|q: int|
                    0 <= q < range ==> !(#[trigger] block_free(avail@, q, ports_required as int))
            },
        },
{
    let mut i: u16 = 0;
    while i < range
        invariant
            i <= range,
            avail@.len() >= range as int + ports_required as int,
            from + range + ports_required <= u16::MAX,
            forall|q: int| 0 <= q < i ==> !(#[trigger] block_free(avail@, q, ports_required as int)),
        decreases range - i,
    {
        let mut incr: u16 = 0;
        let mut all_free = true;
        while incr < ports_required && all_free
            invariant
                incr <= ports_required,
                i < range,
                range + ports_required <= u16::MAX,
                avail@.len() >= range as int + ports_required as int,
                all_free ==> block_free(avail@, i as int, incr as int),
                !all_free ==> !block_free(avail@, i as int, ports_required as int),
            decreases ports_required - incr, (if all_free { 1int } else { 0int }),
        {
            if !avail[(i + incr) as usize] {
                all_free = false;
            } else {
                incr = incr + 1;
            }
        }
        if all_free {
            return Ok(from + i);
        }
        i = i + 1;
    }
    Err(UtilError::NotFound)
}

} // verus!
