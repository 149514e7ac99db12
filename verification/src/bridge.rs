//! The bridge lifecycle: installing the dispatcher into the host engine,
//! the one-time self-test and startup, the drive loop, and the dispatch
//! entry point the host calls once the bridge is running.

use vstd::prelude::*;
use crate::handler::Handler;
use crate::registry::{Registry, dispatch_status, dispatch_updates};
use crate::engine::HostEngine;

verus! {

/// Where the bridge stands in its lifecycle. There is no path back to
/// `Uninitialized`: a failed installation never leaves it.
#[derive(Clone, Copy, PartialEq, Eq, Structural, Debug)]
pub enum Phase {
    /// The host engine has not accepted the dispatcher yet.
    Uninitialized,
    /// The dispatcher is installed and has passed the self-test; the engine
    /// has not started.
    Installed,
    /// The engine is running and may call the dispatcher at any time.
    Running,
}

/// The one fatal startup error: the self-test command the host engine probes
/// the fresh installation with has no handler registered.
#[derive(Clone, Copy, PartialEq, Eq, Structural, Debug)]
pub enum BridgeError {
    SelfTestFailed,
}

/// The bridge: the registry of command handlers, the host engine the
/// dispatcher is installed into, and the lifecycle phase tying them together.
pub struct Bridge<E: HostEngine, H: Handler> {
    phase: Phase,
    registry: Registry<H>,
    engine: E,
}

impl<E: HostEngine, H: Handler> Bridge<E, H> {
    /// The lifecycle phase the bridge is in.
    pub closed spec fn phase(&self) -> Phase {
        self.phase
    }

    /// The commands currently registered, as a name-to-handler map.
    pub closed spec fn commands(&self) -> Map<Seq<char>, H> {
        self.registry@
    }

    /// The host engine in its current state.
    pub closed spec fn host(&self) -> E {
        self.engine
    }

    /// How many ticks the host engine has performed.
    pub closed spec fn ticks(&self) -> nat {
        self.engine.ticks()
    }

    /// Well-formedness: the registry is sound and the engine's state matches
    /// the phase — installed from `Installed` on, started exactly in
    /// `Running`.
    pub closed spec fn wf(&self) -> bool {
        &&& self.registry.wf()
        &&& (self.phase == Phase::Installed ==> self.engine.callback_installed()
            && !self.engine.started())
        &&& (self.phase == Phase::Running ==> self.engine.callback_installed()
            && self.engine.started())
        &&& (self.phase == Phase::Uninitialized ==> !self.engine.started())
    }

    /// A bridge around a not-yet-started engine, with nothing registered.
    pub fn new(engine: E) -> (r: Self)
        requires
            !engine.started(),
        ensures
            r.wf(),
            r.phase() == Phase::Uninitialized,
            r.commands() == Map::<Seq<char>, H>::empty(),
            r.host() == engine,
    {
        Bridge { phase: Phase::Uninitialized, registry: Registry::new(), engine }
    }

    /// The phase, for callers outside ghost code.
    pub fn current_phase(&self) -> (p: Phase)
        ensures
            p == self.phase(),
    {
        self.phase
    }

    /// Bind `handler` to `name` in the registry, replacing any handler the
    /// name already had. Allowed in every phase; registration for the
    /// self-test must happen before `install`.
    pub fn add_cmd(&mut self, name: &str, handler: H)
        requires
            old(self).wf(),
        ensures
            final(self).wf(),
            final(self).commands() == old(self).commands().insert(name@, handler),
            final(self).phase() == old(self).phase(),
            final(self).host() == old(self).host(),
    {
        self.registry.add_cmd(name, handler);
    }

    /// Uninitialized to Installed: hand the dispatcher to the host engine,
    /// then let the engine probe it once with its self-test command. When no
    /// handler is registered under that command the installation fails and
    /// the bridge stays uninitialized; otherwise the self-test dispatch runs
    /// and its status is returned.
    pub fn install(&mut self) -> (r: Result<i32, BridgeError>)
        requires
            old(self).wf(),
            old(self).phase() == Phase::Uninitialized,
        ensures
            final(self).wf(),
            final(self).ticks() == old(self).ticks(),
            final(self).host().callback_installed(),
            !final(self).host().started(),
            final(self).host().self_test_name() == old(self).host().self_test_name(),
            final(self).host().self_test_payload() == old(self).host().self_test_payload(),
            old(self).commands().contains_key(old(self).host().self_test_name()) ==> {
                &&& r == Ok::<i32, BridgeError>(
                    dispatch_status(
                        old(self).commands(),
                        old(self).host().self_test_name(),
                        old(self).host().self_test_payload(),
                    ),
                )
                &&& final(self).phase() == Phase::Installed
                &&& dispatch_updates(
                    old(self).commands(),
                    old(self).host().self_test_name(),
                    old(self).host().self_test_payload(),
                    final(self).commands(),
                )
            },
            !old(self).commands().contains_key(old(self).host().self_test_name()) ==> {
                &&& r == Err::<i32, BridgeError>(BridgeError::SelfTestFailed)
                &&& final(self).phase() == Phase::Uninitialized
                &&& final(self).commands() == old(self).commands()
            },
    {
        self.engine.register_callback();
        let st = self.engine.self_test_call();
        if self.registry.is_registered(st.0.as_str()) {
            let status = self.registry.exec(st.0.as_str(), st.1.as_slice());
            self.phase = Phase::Installed;
            Ok(status)
        } else {
            Err(BridgeError::SelfTestFailed)
        }
    }

    /// Installed to Running: the host engine's one-time startup. From here on
    /// the engine may call the dispatcher from its own execution context.
    pub fn start(&mut self)
        requires
            old(self).wf(),
            old(self).phase() == Phase::Installed,
        ensures
            final(self).wf(),
            final(self).phase() == Phase::Running,
            final(self).commands() == old(self).commands(),
            final(self).ticks() == old(self).ticks(),
            final(self).host().started(),
    {
        self.engine.engine_init();
        self.phase = Phase::Running;
    }

    /// The whole startup in one call, as the host bindings perform it:
    /// install the dispatcher, run the self-test, then start the engine.
    /// The self-test's status is returned; a failed self-test is fatal and
    /// leaves the bridge uninitialized with the engine never started.
    pub fn init(&mut self) -> (r: Result<i32, BridgeError>)
        requires
            old(self).wf(),
            old(self).phase() == Phase::Uninitialized,
        ensures
            final(self).wf(),
            final(self).ticks() == old(self).ticks(),
            old(self).commands().contains_key(old(self).host().self_test_name()) ==> {
                &&& r == Ok::<i32, BridgeError>(
                    dispatch_status(
                        old(self).commands(),
                        old(self).host().self_test_name(),
                        old(self).host().self_test_payload(),
                    ),
                )
                &&& final(self).phase() == Phase::Running
                &&& final(self).host().started()
                &&& dispatch_updates(
                    old(self).commands(),
                    old(self).host().self_test_name(),
                    old(self).host().self_test_payload(),
                    final(self).commands(),
                )
            },
            !old(self).commands().contains_key(old(self).host().self_test_name()) ==> {
                &&& r == Err::<i32, BridgeError>(BridgeError::SelfTestFailed)
                &&& final(self).phase() == Phase::Uninitialized
                &&& final(self).commands() == old(self).commands()
                &&& !final(self).host().started()
            },
    {
        let installed = self.install();
        match installed {
            Ok(status) => {
                self.start();
                Ok(status)
            },
            Err(e) => Err(e),
        }
    }

    /// The drive loop: advance the host engine by exactly `number_of_loops`
    /// ticks, sequentially, on the calling thread. Each tick may cause the
    /// engine to issue dispatch calls of its own; whatever happens inside a
    /// tick is the engine's concern, not the bridge's.
    pub fn process(&mut self, number_of_loops: usize)
        requires
            old(self).wf(),
            old(self).phase() == Phase::Running,
            old(self).ticks() + number_of_loops <= u64::MAX,
        ensures
            final(self).wf(),
            final(self).phase() == Phase::Running,
            final(self).commands() == old(self).commands(),
            final(self).ticks() == old(self).ticks() + number_of_loops,
    {
        let mut i: usize = 0;
        while i < number_of_loops
            invariant
                i <= number_of_loops,
                self.wf(),
                self.phase() == Phase::Running,
                self.commands() == old(self).commands(),
                self.ticks() == old(self).ticks() + i,
                old(self).ticks() + number_of_loops <= u64::MAX,
            decreases number_of_loops - i,
        {
            self.engine.engine_tick();
            i = i + 1;
        }
    }

    /// The dispatch entry point, as the host calls it once the bridge is
    /// running: resolve `cmd` in the registry, run the handler on `args`, and
    /// return its effective status, or the unhandled sentinel when `cmd` is
    /// not registered.
    pub fn exec(&mut self, cmd: &str, args: &[u8]) -> (r: i32)
        requires
            old(self).wf(),
            old(self).phase() == Phase::Running,
        ensures
            final(self).wf(),
            final(self).phase() == Phase::Running,
            final(self).host() == old(self).host(),
            r == dispatch_status(old(self).commands(), cmd@, args@),
            dispatch_updates(old(self).commands(), cmd@, args@, final(self).commands()),
    {
        self.registry.exec(cmd, args)
    }

    /// The handler currently bound to `cmd`, if any.
    pub fn get(&self, cmd: &str) -> (r: Option<&H>)
        requires
            self.wf(),
        ensures
            match r {
                Some(h) => self.commands().contains_key(cmd@) && *h == self.commands()[cmd@],
                None => !self.commands().contains_key(cmd@),
            },
    {
        self.registry.get(cmd)
    }

    /// The host engine, for callers that need its own observations (the model
    /// engine's tick count, for one).
    pub fn host_engine(&self) -> (e: &E)
        ensures
            *e == self.host(),
    {
        &self.engine
    }
}

} // verus!
