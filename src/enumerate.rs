//! Turning the OS's reply to a process-identifier query into a listing.
//!
//! The OS fills a caller-sized buffer and reports how many bytes it wrote.
//! The buffer's capacity and the reported length are distinct: only the
//! reported prefix is read, and a reply that fills the whole buffer asks for
//! a larger one, up to a fixed maximum.
use vstd::prelude::*;

verus! {

/// Room, in identifiers, that the first query provides.
pub const INITIAL_PID_CAPACITY: usize = 1024;

/// Largest room, in identifiers, that a query grows to.
pub const MAX_PID_CAPACITY: usize = 1048576;

/// Width in bytes of one identifier as the OS writes it.
pub const PID_WIDTH: u32 = 4;

/// What to do after one identifier query.
#[derive(Debug, PartialEq, Eq)]
pub enum PidQuery {
    /// The listing is complete and holds these identifiers.
    Complete(Vec<u32>),
    /// The buffer came back full: query again with room for this many identifiers.
    Retry(usize),
}

/// Number of whole identifiers in `bytes_written` bytes.
pub open spec fn reported_count(bytes_written: u32) -> nat {
    (bytes_written / PID_WIDTH) as nat
}

/// Room for the next query after a buffer of `capacity` identifiers came back full.
pub open spec fn grown_capacity(capacity: nat) -> nat {
    if capacity == 0 {
        INITIAL_PID_CAPACITY as nat
    } else if capacity <= MAX_PID_CAPACITY / 2 {
        2 * capacity
    } else {
        MAX_PID_CAPACITY as nat
    }
}

/// A query asked to retry gets strictly more room, never past the maximum,
/// so the retries end.
pub proof fn lemma_pid_retry_grows(capacity: nat)
    requires
        capacity < MAX_PID_CAPACITY,
    ensures
        capacity < grown_capacity(capacity) <= MAX_PID_CAPACITY,
{
}

/// Number of identifiers read from a buffer of `capacity` entries when the OS
/// reports `bytes_written` bytes: never more than the buffer holds.
pub open spec fn listed_count(capacity: nat, bytes_written: u32) -> nat {
    if reported_count(bytes_written) <= capacity {
        reported_count(bytes_written)
    } else {
        capacity
    }
}

/// The reply filled the whole buffer, so the true listing may be longer.
pub open spec fn came_back_full(capacity: nat, bytes_written: u32) -> bool {
    reported_count(bytes_written) >= capacity
}

/// Size in bytes of a buffer of `capacity` identifiers, as handed to the OS.
pub fn pid_buffer_bytes(capacity: usize) -> (r: u32)
    requires
        capacity <= MAX_PID_CAPACITY,
    ensures
        r == capacity * PID_WIDTH,
{
    (capacity as u32) * PID_WIDTH
}

/// A buffer of `capacity` zeroed identifiers, ready for the OS to fill.
pub fn pid_buffer(capacity: usize) -> (r: Vec<u32>)
    ensures
        r@ == Seq::new(capacity as nat, |i: int| 0u32),
{
    let mut r: Vec<u32> = Vec::with_capacity(capacity);
    let mut i: usize = 0;
    while i < capacity
        invariant
            i <= capacity,
            r@ == Seq::new(i as nat, |j: int| 0u32),
        decreases capacity - i,
    {
        r.push(0);
        i = i + 1;
        assert(r@ =~= Seq::new(i as nat, |j: int| 0u32));
    }
    assert(r@ =~= Seq::new(capacity as nat, |j: int| 0u32));
    r
}

/// Decides on the OS's reply to an identifier query.
///
/// `buffer` is the buffer the OS filled, its length being the room it was
/// given, and `bytes_written` the byte count it reported. When the reply
/// filled the buffer and the buffer is below the maximum, the answer is to
/// retry with more room; otherwise the listing is exactly the reported prefix
/// of the buffer, and nothing past it is read.
pub fn enum_processes(buffer: Vec<u32>, bytes_written: u32) -> (r: PidQuery)
    ensures
        match r {
            PidQuery::Retry(capacity) => {
                &&& came_back_full(buffer@.len(), bytes_written)
                &&& buffer@.len() < MAX_PID_CAPACITY
                &&& capacity == grown_capacity(buffer@.len())
            },
            PidQuery::Complete(pids) => {
                &&& !came_back_full(buffer@.len(), bytes_written) || buffer@.len()
                    >= MAX_PID_CAPACITY
                &&& pids@ == buffer@.take(listed_count(buffer@.len(), bytes_written) as int)
            },
        },
{
    let capacity = buffer.len();
    let reported = (bytes_written / PID_WIDTH) as usize;
    if reported >= capacity && capacity < MAX_PID_CAPACITY {
        let next = if capacity == 0 {
            INITIAL_PID_CAPACITY
        } else if capacity <= MAX_PID_CAPACITY / 2 {
            2 * capacity
        } else {
            MAX_PID_CAPACITY
        };
        return PidQuery::Retry(next);
    }
    let count = if reported <= capacity {
        reported
    } else {
        capacity
    };
    let mut pids = buffer;
    pids.truncate(count);
    PidQuery::Complete(pids)
}

} // verus!
