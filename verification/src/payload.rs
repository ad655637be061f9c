//! The byte format of serialised python objects: a length, then that many bytes.

use vstd::prelude::*;

verus! {

/// The `count` low bytes of `n`, the lowest first.
pub open spec fn le_bytes(n: nat, count: nat) -> Seq<u8>
    decreases count,
{
    if count == 0 {
        Seq::empty()
    } else {
        seq![(n % 256) as u8] + le_bytes(n / 256, (count - 1) as nat)
    }
}

/// The number whose bytes are `bytes`, the lowest first.
pub open spec fn le_value(bytes: Seq<u8>) -> nat
    decreases bytes.len(),
{
    if bytes.len() == 0 {
        0
    } else {
        bytes[0] as nat + 256 * le_value(bytes.drop_first())
    }
}

/// A payload as it is stored: its length in eight bytes, then the payload itself.
pub open spec fn frame(payload: Seq<u8>) -> Seq<u8> {
    le_bytes(payload.len(), 8) + payload
}

/// The payload that `bytes` starts with, if its length and all of its bytes are there.
/// What follows the payload is ignored.
pub open spec fn unframe(bytes: Seq<u8>) -> Option<Seq<u8>> {
    if bytes.len() < 8 || bytes.len() - 8 < le_value(bytes.take(8)) {
        None
    } else {
        Some(bytes.subrange(8, 8 + le_value(bytes.take(8)) as int))
    }
}

/// The message of the error that `bincode::deserialize` reports for a byte vector, of bytes that
/// do not start with a payload, where a `usize` is at most `max_size`.
pub uninterp spec fn read_failure(bytes: Seq<u8>, max_size: nat) -> Seq<char>;

/// Calls `bincode::serialize` on a byte vector, and turns an error into its message.
///
/// Claimed of it: it writes the vector's length as a little-endian `u64` and then the
/// bytes as they are, and does not fail. The bound on the length keeps the buffer that
/// it reserves within what a vector can hold.
#[verifier::external_body]
pub(crate) fn bincode_serialize(payload: &Vec<u8>) -> (r: Result<Vec<u8>, String>)
    requires
        payload@.len() + 8 <= isize::MAX,
    ensures
        r is Ok,
        r->Ok_0@ == frame(payload@),
{
    bincode::serialize(payload).map_err(|e| e.to_string())
}

/// Calls `bincode::deserialize` for a byte vector, and turns an error into its message.
///
/// Claimed of it: it reads a length as a little-endian `u64` and returns that many of the
/// bytes behind it, ignores what follows them, and fails exactly when the length or one of
/// the bytes is missing. The result is eight bytes or more shorter than the input, which,
/// like every vector, is at most `isize::MAX` bytes long. The message of the error depends on
/// the bytes, and on whether their length fits in a `usize`; its text is not stated.
#[verifier::external_body]
pub(crate) fn bincode_deserialize(bytes: &Vec<u8>) -> (r: Result<Vec<u8>, String>)
    ensures
        match r {
            Ok(payload) => {
                &&& unframe(bytes@) == Some(payload@)
                &&& payload@.len() + 8 <= isize::MAX
            },
            Err(message) => {
                &&& unframe(bytes@) is None
                &&& message@ == read_failure(bytes@, usize::MAX as nat)
            },
        },
{
    bincode::deserialize(bytes).map_err(|e: bincode::Error| e.to_string())
}

/// `256` to the power of `count`.
spec fn pow256(count: nat) -> nat
    decreases count,
{
    if count == 0 {
        1
    } else {
        256 * pow256((count - 1) as nat)
    }
}

proof fn lemma_le_round_trip(n: nat, count: nat)
    requires
        n < pow256(count),
    ensures
        le_bytes(n, count).len() == count,
        le_value(le_bytes(n, count)) == n,
    decreases count,
{
    if count > 0 {
        lemma_le_round_trip(n / 256, (count - 1) as nat);
        let bytes = le_bytes(n, count);
        assert(bytes.drop_first() =~= le_bytes(n / 256, (count - 1) as nat));
    }
}

/// A stored payload is read back as it was, whatever bytes follow it.
pub proof fn law_frame_round_trip(payload: Seq<u8>, rest: Seq<u8>)
    requires
        payload.len() <= u64::MAX,
    ensures
        unframe(frame(payload) + rest) == Some(payload),
{
    assert(pow256(8) == 0x1_0000_0000_0000_0000) by {
        reveal_with_fuel(pow256, 9);
    }
    lemma_le_round_trip(payload.len(), 8);
    let bytes = frame(payload) + rest;
    assert(bytes.take(8) =~= le_bytes(payload.len(), 8));
}

proof fn lemma_le_bytes_of_value(bytes: Seq<u8>)
    ensures
        le_bytes(le_value(bytes), bytes.len()) == bytes,
    decreases bytes.len(),
{
    if bytes.len() > 0 {
        lemma_le_bytes_of_value(bytes.drop_first());
    }
}

/// A payload has one stored form: what is read as a payload starts with it.
pub proof fn law_stored_form_is_unique(bytes: Seq<u8>)
    ensures
        unframe(bytes) matches Some(payload) ==> {
            &&& frame(payload).len() <= bytes.len()
            &&& bytes.take(frame(payload).len() as int) == frame(payload)
        },
{
    if unframe(bytes) is Some {
        lemma_le_bytes_of_value(bytes.take(8));
    }
}

} // verus!
