//! Turning the OS's reply to a module base-name query into text.
//!
//! The OS writes into the buffer's current length, not its reserved
//! capacity, so the buffer handed over is zero-filled to the room wanted.
//! Afterwards the logical length is the character count the OS reports; a
//! count that fills the whole buffer may be a truncated name and asks for a
//! larger buffer, up to a fixed maximum.
use vstd::prelude::*;
use vstd::utf8::{decode_utf8, valid_utf8};

verus! {

/// Room, in bytes, that the first name query provides.
pub const INITIAL_NAME_CAPACITY: usize = 64;

/// Largest room, in bytes, that a name query grows to.
pub const MAX_NAME_CAPACITY: usize = 32768;

/// Why a module base name could not be had.
#[derive(Clone, Copy, Debug, PartialEq, Eq, Structural)]
pub enum NameError {
    /// The OS reported no characters; the code is its last error.
    Os(i32),
    /// The reported bytes are not valid UTF-8.
    Undecodable,
}

/// What to do after one name query.
#[derive(Debug, PartialEq, Eq)]
pub enum NameQuery {
    /// The name, complete.
    Resolved(String),
    /// The name may have been cut short: query again with this much room.
    Retry(usize),
    /// The name cannot be had.
    Failed(NameError),
}

/// Room for the next query after a buffer of `capacity` bytes came back full.
pub open spec fn grown_name_capacity(capacity: nat) -> nat {
    if capacity == 0 {
        INITIAL_NAME_CAPACITY as nat
    } else if capacity <= MAX_NAME_CAPACITY / 2 {
        2 * capacity
    } else {
        MAX_NAME_CAPACITY as nat
    }
}

/// A query asked to retry gets strictly more room, never past the maximum,
/// so the retries end.
pub proof fn lemma_name_retry_grows(capacity: nat)
    requires
        capacity < MAX_NAME_CAPACITY,
    ensures
        capacity < grown_name_capacity(capacity) <= MAX_NAME_CAPACITY,
{
}

/// The bytes of a name that the OS reported as `copied` characters long,
/// read from `buffer`: never past its end.
pub open spec fn reported_name(buffer: Seq<u8>, copied: u32) -> Seq<u8> {
    if copied <= buffer.len() {
        buffer.take(copied as int)
    } else {
        buffer
    }
}

/// Relies on `String::from_utf8`: it accepts exactly the valid UTF-8 byte
/// sequences and keeps the characters they encode.
#[verifier::external_body]
fn utf8_string(bytes: Vec<u8>) -> (r: Option<String>)
    ensures
        r is Some <==> valid_utf8(bytes@),
        r matches Some(s) ==> s@ == decode_utf8(bytes@),
{
    String::from_utf8(bytes).ok()
}

/// A buffer of `capacity` zero bytes: its length, which is what the OS
/// writes into, is the room wanted.
pub fn name_buffer(capacity: usize) -> (r: Vec<u8>)
    ensures
        r@ == Seq::new(capacity as nat, |i: int| 0u8),
{
    let mut r: Vec<u8> = Vec::with_capacity(capacity);
    let mut i: usize = 0;
    while i < capacity
        invariant
            i <= capacity,
            r@ == Seq::new(i as nat, |j: int| 0u8),
        decreases capacity - i,
    {
        r.push(0);
        i = i + 1;
        assert(r@ =~= Seq::new(i as nat, |j: int| 0u8));
    }
    assert(r@ =~= Seq::new(capacity as nat, |j: int| 0u8));
    r
}

/// Decides on the OS's reply to a base-name query.
///
/// `buffer` is the buffer the OS wrote into, `copied` the character count it
/// returned, and `last_error` its last error code read right after the call.
/// A zero count fails with that code. A count that fills the buffer asks for
/// a larger one while the buffer is below the maximum. Otherwise the name is
/// the reported prefix of the buffer, decoded as UTF-8, and bytes that do not
/// decode are an error of their own.
pub fn module_base_name(buffer: Vec<u8>, copied: u32, last_error: i32) -> (r: NameQuery)
    ensures
        copied == 0 ==> r == NameQuery::Failed(NameError::Os(last_error)),
        copied != 0 && copied >= buffer@.len() && buffer@.len() < MAX_NAME_CAPACITY ==> r
            == NameQuery::Retry(grown_name_capacity(buffer@.len()) as usize),
        copied != 0 && (copied < buffer@.len() || buffer@.len() >= MAX_NAME_CAPACITY) ==> {
            let bytes = reported_name(buffer@, copied);
            if valid_utf8(bytes) {
                r matches NameQuery::Resolved(name) && name@ == decode_utf8(bytes)
            } else {
                r == NameQuery::Failed(NameError::Undecodable)
            }
        },
{
    if copied == 0 {
        return NameQuery::Failed(NameError::Os(last_error));
    }
    let capacity = buffer.len();
    let count = copied as usize;
    if count >= capacity && capacity < MAX_NAME_CAPACITY {
        let next = if capacity == 0 {
            INITIAL_NAME_CAPACITY
        } else if capacity <= MAX_NAME_CAPACITY / 2 {
            2 * capacity
        } else {
            MAX_NAME_CAPACITY
        };
        return NameQuery::Retry(next);
    }
    let mut bytes = buffer;
    if count <= capacity {
        bytes.truncate(count);
    }
    match utf8_string(bytes) {
        Some(name) => NameQuery::Resolved(name),
        None => NameQuery::Failed(NameError::Undecodable),
    }
}

} // verus!
