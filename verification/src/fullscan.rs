//! How a full port scan splits the ports of a host into batches: 32
//! batches of 2048 ports, in order, port 0 left out; and how the ports
//! found open are gathered.

use std::collections::BTreeSet;
use vstd::prelude::*;

verus! {

broadcast use vstd::laws_cmp::group_laws_cmp;

/// Ports scanned per batch.
pub const BATCH_SIZE: u16 = 2048;

/// Number of batches.
pub const BATCH_COUNT: u16 = 32;

/// The first port of batch `batch` (port 0 is never scanned).
pub open spec fn spec_first_port(batch: int) -> int {
    if batch == 0 { 1 } else { batch * 2048 }
}

/// The last port of batch `batch`.
pub open spec fn spec_last_port(batch: int) -> int {
    batch * 2048 + 2047
}

/// One batch of a scan: its first and last port, and the ports in order.
pub struct PortBatch {
    pub first: u16,
    pub last: u16,
    pub ports: Vec<u16>,
}

/// Batch `batch` (counted from 0): the ports `first..=last`, in order.
pub fn port_batch(batch: u16) -> (b: PortBatch)
    requires
        batch < BATCH_COUNT,
    ensures
        b.first == spec_first_port(batch as int),
        b.last == spec_last_port(batch as int),
        b.ports@.len() == b.last - b.first + 1,
        forall|i: int| 0 <= i < b.ports@.len() ==> b.ports@[i] == b.first + i,
{
    let start: u16 = batch * BATCH_SIZE;
    let mut ports: Vec<u16> = Vec::new();
    let mut index: u16 = 0;
    while index < BATCH_SIZE
        invariant
            batch < 32,
            start == batch * 2048,
            index <= 2048,
            ports@.len() == (if batch == 0 && index > 0 { index - 1 } else { index as int }),
            forall|i: int| 0 <= i < ports@.len() ==> ports@[i] == spec_first_port(batch as int) + i,
        decreases 2048 - index,
    {
        let port: u16 = start + index;
        if port != 0 {
            ports.push(port);
        }
        index = index + 1;
    }
    let first: u16 = if start == 0 { 1 } else { start };
    PortBatch { first, last: start + (BATCH_SIZE - 1), ports }
}

/// The batches cover every port but 0 exactly once: port `port` lies in
/// batch `port / 2048` and in no other.
pub proof fn lemma_batches_partition(port: int, batch: int)
    requires
        1 <= port <= 65535,
        0 <= batch < 32,
    ensures
        0 <= port / 2048 < 32,
        spec_first_port(port / 2048) <= port <= spec_last_port(port / 2048),
        spec_first_port(batch) <= port <= spec_last_port(batch) ==> batch == port / 2048,
{
}

/// The ports that a batch's connection attempts found open: the port of
/// each attempt that succeeded.
pub open spec fn found_in(results: Seq<Result<u16, ()>>) -> Set<u16> {
    Set::new(|port: u16| exists|i: int| 0 <= i < results.len() && results[i] == Ok::<u16, ()>(port))
}

/// One more attempt adds its port, when it succeeded, and nothing else.
proof fn lemma_found_in_push(results: Seq<Result<u16, ()>>, result: Result<u16, ()>)
    ensures
        found_in(results.push(result)) == (match result {
            Ok(port) => found_in(results).insert(port),
            Err(()) => found_in(results),
        }),
{
    let longer = results.push(result);
    let expected = match result {
        Ok(port) => found_in(results).insert(port),
        Err(()) => found_in(results),
    };
    assert forall|port: u16| found_in(longer).contains(port) <==> expected.contains(port) by {
        if found_in(results).contains(port) {
            let i = choose|i: int| 0 <= i < results.len() && results[i] == Ok::<u16, ()>(port);
            assert(longer[i] == results[i]);
        }
        if result == Ok::<u16, ()>(port) {
            assert(longer[results.len() as int] == result);
        }
        if found_in(longer).contains(port) {
            let i = choose|i: int| 0 <= i < longer.len() && longer[i] == Ok::<u16, ()>(port);
            if i < results.len() {
                assert(results[i] == longer[i]);
            }
        }
    }
    assert(found_in(longer) =~= expected);
}

/// Adds to `found` the port of each connection attempt in `results` that
/// succeeded; a failed attempt adds nothing, and a port found twice is kept
/// once.
pub fn record_found(found: &mut BTreeSet<u16>, results: Vec<Result<u16, ()>>)
    ensures
        final(found)@ == old(found)@.union(found_in(results@)),
{
    let mut i: usize = 0;
    while i < results.len()
        invariant
            i <= results.len(),
            found@ == old(found)@.union(found_in(results@.take(i as int))),
        decreases results.len() - i,
    {
        let result = results[i];
        proof {
            assert(results@.take(i + 1) == results@.take(i as int).push(result));
            lemma_found_in_push(results@.take(i as int), result);
        }
        match result {
            Ok(port) => {
                found.insert(port);
            },
            Err(()) => {},
        }
        i = i + 1;
        assert(found@ =~= old(found)@.union(found_in(results@.take(i as int))));
    }
    assert(results@.take(i as int) == results@);
}

} // verus!
