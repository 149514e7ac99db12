//! The dispatch laws, stated over the same model the registry's and bridge's
//! contracts use: the name-to-handler map, `dispatch_status`, and batches of
//! registrations.

use vstd::prelude::*;
use crate::handler::{Handler, effective_status, UNHANDLED};
use crate::registry::dispatch_status;

verus! {

/// The commands after a batch of registrations has been applied in order,
/// each one binding its name exactly as `add_cmd` does.
pub open spec fn apply_registrations<H>(
    m: Map<Seq<char>, H>,
    regs: Seq<(Seq<char>, H)>,
) -> Map<Seq<char>, H>
    decreases regs.len(),
{
    if regs.len() == 0 {
        m
    } else {
        apply_registrations(m.insert(regs[0].0, regs[0].1), regs.drop_first())
    }
}

/// Law: a dispatch of a name with no registered handler returns the
/// unhandled sentinel, whatever the payload.
pub proof fn lemma_unregistered_unhandled<H: Handler>(
    m: Map<Seq<char>, H>,
    name: Seq<char>,
    payload: Seq<u8>,
)
    requires
        !m.contains_key(name),
    ensures
        dispatch_status(m, name, payload) == UNHANDLED,
{
}

/// Law: a dispatch of a registered name returns exactly the status its
/// handler produces for that payload, the handler's silence standing for the
/// default success code.
pub proof fn lemma_registered_status<H: Handler>(
    m: Map<Seq<char>, H>,
    name: Seq<char>,
    payload: Seq<u8>,
)
    requires
        m.contains_key(name),
    ensures
        dispatch_status(m, name, payload) == effective_status(m[name].status_of(payload)),
{
}

/// Law (last write wins): registering a name again replaces its handler, so
/// every dispatch of that name after the second registration observes the
/// second handler and never the first.
pub proof fn lemma_reregister_last_wins<H: Handler>(
    m: Map<Seq<char>, H>,
    name: Seq<char>,
    h1: H,
    h2: H,
    payload: Seq<u8>,
)
    ensures
        m.insert(name, h1).insert(name, h2)[name] == h2,
        dispatch_status(m.insert(name, h1).insert(name, h2), name, payload) == effective_status(
            h2.status_of(payload),
        ),
{
}

/// A binding whose name a batch of registrations never touches survives the
/// batch unchanged.
pub proof fn lemma_registrations_frame<H>(
    m: Map<Seq<char>, H>,
    regs: Seq<(Seq<char>, H)>,
    k: Seq<char>,
)
    requires
        m.contains_key(k),
        forall|i: int| 0 <= i < regs.len() ==> (#[trigger] regs[i]).0 != k,
    ensures
        apply_registrations(m, regs).contains_key(k),
        apply_registrations(m, regs)[k] == m[k],
    decreases regs.len(),
{
    if regs.len() != 0 {
        let m1 = m.insert(regs[0].0, regs[0].1);
        let rest = regs.drop_first();
        assert forall|i: int| 0 <= i < rest.len() implies (#[trigger] rest[i]).0 != k by {
            assert(rest[i] == regs[i + 1]);
        }
        lemma_registrations_frame(m1, rest, k);
    }
}

/// Law (no lost updates): a batch of registrations with pairwise-distinct
/// names — any serialization of concurrent registration calls — leaves every
/// one of them registered, each name bound to its own handler.
pub proof fn lemma_distinct_registrations_all_kept<H>(
    m: Map<Seq<char>, H>,
    regs: Seq<(Seq<char>, H)>,
)
    requires
        forall|i: int, j: int| 0 <= i < j < regs.len() ==> regs[i].0 != regs[j].0,
    ensures
        forall|i: int|
            0 <= i < regs.len() ==> {
                &&& apply_registrations(m, regs).contains_key((#[trigger] regs[i]).0)
                &&& apply_registrations(m, regs)[regs[i].0] == regs[i].1
            },
    decreases regs.len(),
{
    if regs.len() != 0 {
        let m1 = m.insert(regs[0].0, regs[0].1);
        let rest = regs.drop_first();
        assert forall|i: int, j: int| 0 <= i < j < rest.len() implies rest[i].0 != rest[j].0 by {
            assert(rest[i] == regs[i + 1]);
            assert(rest[j] == regs[j + 1]);
        }
        lemma_distinct_registrations_all_kept(m1, rest);
        assert forall|i: int| 0 <= i < rest.len() implies (#[trigger] rest[i]).0 != regs[0].0 by {
            assert(rest[i] == regs[i + 1]);
        }
        lemma_registrations_frame(m1, rest, regs[0].0);
        assert forall|i: int|
            0 <= i < regs.len() implies {
                &&& apply_registrations(m, regs).contains_key((#[trigger] regs[i]).0)
                &&& apply_registrations(m, regs)[regs[i].0] == regs[i].1
            } by {
            if i > 0 {
                assert(rest[i - 1] == regs[i]);
            }
        }
    }
}

/// Law corollary: after such a batch, dispatching any of the names just
/// registered returns exactly that handler's status — each registration is
/// independently dispatchable, none is lost.
pub proof fn lemma_distinct_registrations_dispatchable<H: Handler>(
    m: Map<Seq<char>, H>,
    regs: Seq<(Seq<char>, H)>,
    i: int,
    payload: Seq<u8>,
)
    requires
        forall|i: int, j: int| 0 <= i < j < regs.len() ==> regs[i].0 != regs[j].0,
        0 <= i < regs.len(),
    ensures
        dispatch_status(apply_registrations(m, regs), regs[i].0, payload) == effective_status(
            regs[i].1.status_of(payload),
        ),
{
    lemma_distinct_registrations_all_kept(m, regs);
}

} // verus!
