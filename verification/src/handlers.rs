//! The concrete handlers this crate ships: the serial-port trio the host's
//! command surface expects, plus two diagnostic handlers (a fixed-status echo
//! for the lifecycle self-test and a call counter).

use vstd::prelude::*;
use crate::handler::Handler;

verus! {

/// A handler value the registry can hold. Variants carry their own state:
/// `SerialWrite` accumulates every payload byte it is handed (terminator
/// included), `Counter` counts its calls and reports a fixed code.
#[derive(Debug, PartialEq, Eq)]
pub enum CommandHandler {
    /// Reports that no serial input is pending: status 0, always.
    SerialAvailable,
    /// Consumes a read request and reports no explicit status.
    SerialRead,
    /// Appends the payload bytes, exactly as handed over, to its sink.
    SerialWrite { written: Vec<u8> },
    /// Reports a fixed status code and changes nothing.
    Echo { code: i32 },
    /// Counts its calls (saturating at the counter's limit) and reports a
    /// fixed status code.
    Counter { calls: u64, code: i32 },
}

impl Handler for CommandHandler {
    open spec fn status_of(&self, payload: Seq<u8>) -> Option<i32> {
        match *self {
            CommandHandler::SerialAvailable => Some(0),
            CommandHandler::SerialRead => None,
            CommandHandler::SerialWrite { .. } => None,
            CommandHandler::Echo { code } => Some(code),
            CommandHandler::Counter { calls: _, code } => Some(code),
        }
    }

    open spec fn steps_to(&self, payload: Seq<u8>, next: Self) -> bool {
        match *self {
            CommandHandler::SerialWrite { written } => {
                next matches CommandHandler::SerialWrite { written: w } && w@ == written@ + payload
            },
            CommandHandler::Counter { calls, code } => {
                next == (CommandHandler::Counter {
                    calls: if calls == u64::MAX { calls } else { (calls + 1) as u64 },
                    code,
                })
            },
            _ => next == *self,
        }
    }

    fn handle(&mut self, payload: &[u8]) -> (r: Option<i32>) {
        match self {
            CommandHandler::SerialAvailable => Some(0),
            CommandHandler::SerialRead => None,
            CommandHandler::SerialWrite { written } => {
                let ghost w0 = written@;
                proof {
                    assert(w0 + payload@.take(0) =~= w0);
                }
                let n = payload.len();
                let mut i: usize = 0;
                while i < n
                    invariant
                        i <= n,
                        n == payload@.len(),
                        written@ == w0 + payload@.take(i as int),
                    decreases n - i,
                {
                    written.push(payload[i]);
                    proof {
                        assert(w0 + payload@.take(i + 1) =~= (w0 + payload@.take(i as int)).push(
                            payload@[i as int],
                        ));
                    }
                    i = i + 1;
                }
                proof {
                    assert(payload@.take(n as int) =~= payload@);
                }
                None
            },
            CommandHandler::Echo { code } => Some(*code),
            CommandHandler::Counter { calls, code } => {
                if *calls < u64::MAX {
                    *calls = *calls + 1;
                }
                Some(*code)
            },
        }
    }
}

} // verus!
