//! The boundary encoding convention: command names arrive from the host as
//! terminated byte strings. These checks validate that shape and split the
//! name's text from its terminator before a safe in-process value is built;
//! the payload itself is never reshaped — dispatch hands it over byte for
//! byte, terminator included.

use vstd::prelude::*;

verus! {

/// A well-formed terminated byte string: nonempty, ending in the zero
/// terminator, with no terminator anywhere before the end.
pub open spec fn c_str_wf(bytes: Seq<u8>) -> bool {
    &&& bytes.len() > 0
    &&& bytes[bytes.len() - 1] == 0
    &&& forall|i: int| 0 <= i < bytes.len() - 1 ==> bytes[i] != 0
}

/// Whether `bytes` is a well-formed terminated byte string. A caller at the
/// boundary rejects the call as malformed when this is false, instead of
/// letting an ill-shaped name reach dispatch.
pub fn check_c_str(bytes: &[u8]) -> (b: bool)
    ensures
        b == c_str_wf(bytes@),
{
    let n = bytes.len();
    if n == 0 {
        return false;
    }
    if bytes[n - 1] != 0 {
        return false;
    }
    let mut i: usize = 0;
    while i < n - 1
        invariant
            n == bytes@.len(),
            0 < n,
            i <= n - 1,
            bytes@[n - 1] == 0,
            forall|j: int| 0 <= j < i ==> bytes@[j] != 0,
        decreases n - 1 - i,
    {
        if bytes[i] == 0 {
            return false;
        }
        i = i + 1;
    }
    true
}

/// The text of a well-formed terminated byte string: every byte before the
/// terminator, in order, the terminator dropped.
pub fn command_bytes(bytes: &[u8]) -> (r: Vec<u8>)
    requires
        c_str_wf(bytes@),
    ensures
        r@ == bytes@.take(bytes@.len() - 1),
{
    let n = bytes.len();
    let mut r: Vec<u8> = Vec::new();
    proof {
        assert(bytes@.take(0) =~= Seq::<u8>::empty());
    }
    let mut i: usize = 0;
    while i < n - 1
        invariant
            n == bytes@.len(),
            0 < n,
            i <= n - 1,
            r@ == bytes@.take(i as int),
        decreases n - 1 - i,
    {
        r.push(bytes[i]);
        proof {
            assert(bytes@.take(i + 1) =~= bytes@.take(i as int).push(bytes@[i as int]));
        }
        i = i + 1;
    }
    r
}

} // verus!
