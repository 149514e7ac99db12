//! The handler contract: a named unit of logic invoked with a byte payload,
//! producing an optional status code, and the status-code convention the host
//! understands.

use vstd::prelude::*;

verus! {

/// Status code the host reads as "no handler is registered under this name".
pub const UNHANDLED: i32 = 0;

/// Status code the host reads as plain success; it stands in for a handler
/// that reports no explicit status of its own.
pub const SUCCESS: i32 = 1;

/// The status a dispatch hands back to the host for a handler outcome:
/// the handler's own code when it reports one, the success code otherwise.
pub open spec fn effective_status(s: Option<i32>) -> i32 {
    match s {
        Some(code) => code,
        None => SUCCESS,
    }
}

/// A unit of logic a command name can be bound to. The registry is agnostic
/// to what a handler does: each implementation pins its own behaviour down
/// through the two spec functions, and `handle` is held to them.
///
/// A handler borrows the payload for the duration of one call only and must
/// not attempt to register or dispatch from inside `handle`.
pub trait Handler: Sized {
    /// The status the handler reports for `payload`; `None` means it leaves
    /// the outcome to the default success convention.
    spec fn status_of(&self, payload: Seq<u8>) -> Option<i32>;

    /// How one call on `payload` relates the handler's state before the call
    /// to its state after it.
    spec fn steps_to(&self, payload: Seq<u8>, next: Self) -> bool;

    /// Run the handler once on `payload`.
    fn handle(&mut self, payload: &[u8]) -> (r: Option<i32>)
        ensures
            r == old(self).status_of(payload@),
            old(self).steps_to(payload@, *final(self)),
    ;
}

} // verus!
