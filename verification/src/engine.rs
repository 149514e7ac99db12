//! The interface the bridge needs from the host engine, and a model engine
//! that implements it for in-process use.
//!
//! The real engine is an external runtime that owns scan codes, layers and
//! report buffers; the bridge relies only on the four operations below. The
//! ghost observations (`callback_installed`, `started`, `ticks`) let the
//! bridge's contracts say what each lifecycle step achieves.

use vstd::prelude::*;

verus! {

/// The host engine as the bridge sees it: a callback slot the dispatcher is
/// installed into, a one-time startup, and a single-step advance that may, as
/// a side effect, issue dispatch calls of the host's choosing.
pub trait HostEngine: Sized {
    /// Whether the dispatch entry point has been installed.
    spec fn callback_installed(&self) -> bool;

    /// Whether the engine's one-time startup has run.
    spec fn started(&self) -> bool;

    /// How many single-step advances the engine has performed.
    spec fn ticks(&self) -> nat;

    /// The command name the engine uses for its installation self-test.
    spec fn self_test_name(&self) -> Seq<char>;

    /// The payload the engine hands over in its installation self-test.
    spec fn self_test_payload(&self) -> Seq<u8>;

    /// Store the dispatch entry point for all future command calls.
    fn register_callback(&mut self)
        ensures
            final(self).callback_installed(),
            final(self).started() == old(self).started(),
            final(self).ticks() == old(self).ticks(),
            final(self).self_test_name() == old(self).self_test_name(),
            final(self).self_test_payload() == old(self).self_test_payload(),
    ;

    /// The synthetic command call the engine issues to validate the freshly
    /// installed entry point: its name and its payload.
    fn self_test_call(&self) -> (r: (String, Vec<u8>))
        requires
            self.callback_installed(),
        ensures
            r.0@ == self.self_test_name(),
            r.1@ == self.self_test_payload(),
    ;

    /// The engine's one-time startup.
    fn engine_init(&mut self)
        requires
            old(self).callback_installed(),
            !old(self).started(),
        ensures
            final(self).started(),
            final(self).callback_installed(),
            final(self).ticks() == old(self).ticks(),
            final(self).self_test_name() == old(self).self_test_name(),
            final(self).self_test_payload() == old(self).self_test_payload(),
    ;

    /// Advance the engine by one unit of work.
    fn engine_tick(&mut self)
        requires
            old(self).started(),
            old(self).ticks() < u64::MAX,
        ensures
            final(self).ticks() == old(self).ticks() + 1,
            final(self).started(),
            final(self).callback_installed() == old(self).callback_installed(),
            final(self).self_test_name() == old(self).self_test_name(),
            final(self).self_test_payload() == old(self).self_test_payload(),
    ;
}

/// An in-process host engine: it records the lifecycle steps taken against it
/// and counts its ticks, issuing no dispatch calls of its own. It stands in
/// for the external runtime wherever the bridge is exercised without one.
pub struct ModelEngine {
    callback_installed: bool,
    started: bool,
    tick_count: u64,
    test_name: String,
    test_payload: Vec<u8>,
}

impl ModelEngine {
    /// A fresh engine that will self-test with the given command name and
    /// payload: nothing installed, nothing started, no ticks taken.
    pub fn new(test_name: &str, test_payload: Vec<u8>) -> (r: Self)
        ensures
            !r.callback_installed(),
            !r.started(),
            r.ticks() == 0,
            r.self_test_name() == test_name@,
            r.self_test_payload() == test_payload@,
    {
        ModelEngine {
            callback_installed: false,
            started: false,
            tick_count: 0,
            test_name: test_name.to_owned(),
            test_payload,
        }
    }

    /// How many ticks the engine has performed.
    pub fn tick_count(&self) -> (n: u64)
        ensures
            n == self.ticks(),
    {
        self.tick_count
    }

    /// Whether the engine's one-time startup has run.
    pub fn is_started(&self) -> (b: bool)
        ensures
            b == self.started(),
    {
        self.started
    }

    /// Whether the dispatch entry point has been installed.
    pub fn is_callback_installed(&self) -> (b: bool)
        ensures
            b == self.callback_installed(),
    {
        self.callback_installed
    }
}

impl HostEngine for ModelEngine {
    closed spec fn callback_installed(&self) -> bool {
        self.callback_installed
    }

    closed spec fn started(&self) -> bool {
        self.started
    }

    closed spec fn ticks(&self) -> nat {
        self.tick_count as nat
    }

    closed spec fn self_test_name(&self) -> Seq<char> {
        self.test_name@
    }

    closed spec fn self_test_payload(&self) -> Seq<u8> {
        self.test_payload@
    }

    fn register_callback(&mut self) {
        self.callback_installed = true;
    }

    fn self_test_call(&self) -> (r: (String, Vec<u8>)) {
        let name = self.test_name.clone();
        let mut payload: Vec<u8> = Vec::new();
        let n = self.test_payload.len();
        let mut i: usize = 0;
        while i < n
            invariant
                i <= n,
                n == self.test_payload@.len(),
                payload@ == self.test_payload@.take(i as int),
            decreases n - i,
        {
            payload.push(self.test_payload[i]);
            i = i + 1;
        }
        proof {
            assert(self.test_payload@.take(n as int) =~= self.test_payload@);
        }
        (name, payload)
    }

    fn engine_init(&mut self) {
        self.started = true;
    }

    fn engine_tick(&mut self) {
        self.tick_count = self.tick_count + 1;
    }
}

} // verus!
