//! The registry: the mapping from command name to handler, the lookup that
//! dispatch performs on every call, and the spec-level model of both.

use vstd::prelude::*;
use crate::handler::{Handler, effective_status, SUCCESS, UNHANDLED};

verus! {

/// Status of one dispatch of `name` with `payload` against the commands `m`:
/// the registered handler's effective status, or the unhandled sentinel when
/// no handler is bound to `name`.
pub open spec fn dispatch_status<H: Handler>(
    m: Map<Seq<char>, H>,
    name: Seq<char>,
    payload: Seq<u8>,
) -> i32 {
    if m.contains_key(name) {
        effective_status(m[name].status_of(payload))
    } else {
        UNHANDLED
    }
}

/// How one dispatch of `name` with `payload` relates the commands before the
/// call (`m0`) to the commands after it (`m1`): the handler bound to `name`
/// takes one step on the payload, every other binding is untouched, and a
/// dispatch of an unregistered name changes nothing at all.
pub open spec fn dispatch_updates<H: Handler>(
    m0: Map<Seq<char>, H>,
    name: Seq<char>,
    payload: Seq<u8>,
    m1: Map<Seq<char>, H>,
) -> bool {
    if m0.contains_key(name) {
        &&& m1.dom() == m0.dom()
        &&& m0[name].steps_to(payload, m1[name])
        &&& forall|k: Seq<char>| #![auto] m0.contains_key(k) && k != name ==> m1[k] == m0[k]
    } else {
        m1 == m0
    }
}

/// The mapping from command name to handler. At most one handler is bound to
/// a name at any time; registering a name again replaces its handler (last
/// write wins), and no removal operation exists.
pub struct Registry<H: Handler> {
    names: Vec<String>,
    handlers: Vec<H>,
}

impl<H: Handler> View for Registry<H> {
    type V = Map<Seq<char>, H>;

    closed spec fn view(&self) -> Map<Seq<char>, H> {
        Map::new(
            |k: Seq<char>| exists|i: int| 0 <= i < self.names@.len() && self.names@[i]@ == k,
            |k: Seq<char>|
                self.handlers@[choose|i: int|
                    0 <= i < self.names@.len() && self.names@[i]@ == k],
        )
    }
}

impl<H: Handler> Registry<H> {
    /// Well-formedness: one handler per name, and no name bound twice.
    pub closed spec fn wf(&self) -> bool {
        &&& self.names@.len() == self.handlers@.len()
        &&& forall|i: int, j: int|
            0 <= i < j < self.names@.len() ==> self.names@[i]@ != self.names@[j]@
    }

    proof fn lemma_view_at(&self, i: int)
        requires
            self.wf(),
            0 <= i < self.names@.len(),
        ensures
            self@.contains_key(self.names@[i]@),
            self@[self.names@[i]@] == self.handlers@[i],
    {
        let k = self.names@[i]@;
        assert(0 <= i < self.names@.len() && self.names@[i]@ == k);
        let j = choose|j: int| 0 <= j < self.names@.len() && self.names@[j]@ == k;
        if j < i {
            assert(self.names@[j]@ != self.names@[i]@);
        } else if i < j {
            assert(self.names@[i]@ != self.names@[j]@);
        }
    }

    proof fn lemma_view_absent(&self, k: Seq<char>)
        requires
            forall|i: int| 0 <= i < self.names@.len() ==> self.names@[i]@ != k,
        ensures
            !self@.contains_key(k),
    {
    }

    proof fn lemma_update_is_insert(pre: Self, post: Self, i: int, handler: H)
        requires
            pre.wf(),
            0 <= i < pre.names@.len(),
            post.names@ == pre.names@,
            post.handlers@ == pre.handlers@.update(i, handler),
        ensures
            post.wf(),
            post@ == pre@.insert(pre.names@[i]@, handler),
    {
        let name = pre.names@[i]@;
        post.lemma_view_at(i);
        assert forall|k: Seq<char>| #[trigger] post@.contains_key(k) == pre@.insert(
            name,
            handler,
        ).contains_key(k) by {
            if k == name {
                pre.lemma_view_at(i);
            }
        }
        assert forall|k: Seq<char>| post@.contains_key(k) implies #[trigger] post@[k] == pre@.insert(
            name,
            handler,
        )[k] by {
            let j = choose|j: int| 0 <= j < post.names@.len() && post.names@[j]@ == k;
            post.lemma_view_at(j);
            if k == name {
                if j < i {
                    assert(pre.names@[j]@ != pre.names@[i]@);
                } else if i < j {
                    assert(pre.names@[i]@ != pre.names@[j]@);
                }
            } else {
                pre.lemma_view_at(j);
            }
        }
        assert(post@ =~= pre@.insert(name, handler));
    }

    proof fn lemma_push_is_insert(pre: Self, post: Self, key: Seq<char>, handler: H)
        requires
            pre.wf(),
            forall|i: int| 0 <= i < pre.names@.len() ==> pre.names@[i]@ != key,
            post.names@.len() == pre.names@.len() + 1,
            forall|i: int| 0 <= i < pre.names@.len() ==> post.names@[i] == pre.names@[i],
            post.names@[pre.names@.len() as int]@ == key,
            post.handlers@ == pre.handlers@.push(handler),
        ensures
            post.wf(),
            post@ == pre@.insert(key, handler),
    {
        let n = pre.names@.len() as int;
        assert(post.wf());
        assert forall|k: Seq<char>| #[trigger] post@.contains_key(k) == pre@.insert(
            key,
            handler,
        ).contains_key(k) by {
            if k == key {
                assert(post.names@[n]@ == k);
            } else if pre@.contains_key(k) {
                let i = choose|i: int| 0 <= i < pre.names@.len() && pre.names@[i]@ == k;
                assert(post.names@[i]@ == k);
            } else if post@.contains_key(k) {
                let i = choose|i: int| 0 <= i < post.names@.len() && post.names@[i]@ == k;
                assert(i == n);
            }
        }
        assert forall|k: Seq<char>| post@.contains_key(k) implies #[trigger] post@[k] == pre@.insert(
            key,
            handler,
        )[k] by {
            let j = choose|j: int| 0 <= j < post.names@.len() && post.names@[j]@ == k;
            post.lemma_view_at(j);
            if k == key {
                if j < n {
                    assert(pre.names@[j]@ != key);
                }
                assert(j == n);
                assert(post.handlers@[n] == handler);
            } else {
                assert(j < n);
                pre.lemma_view_at(j);
                assert(post.handlers@[j] == pre.handlers@[j]);
            }
        }
        assert(post@ =~= pre@.insert(key, handler));
    }

    /// A registry with nothing registered: every dispatch against it returns
    /// the unhandled sentinel.
    pub fn new() -> (r: Self)
        ensures
            r.wf(),
            r@ == Map::<Seq<char>, H>::empty(),
    {
        let r = Registry { names: Vec::new(), handlers: Vec::new() };
        proof {
            assert(r@ =~= Map::<Seq<char>, H>::empty());
        }
        r
    }

    /// The position of `cmd` among the registered names, if it is registered.
    fn position(&self, cmd: &String) -> (r: Option<usize>)
        ensures
            match r {
                Some(i) => i < self.names@.len() && self.names@[i as int]@ == cmd@,
                None => forall|i: int| 0 <= i < self.names@.len() ==> self.names@[i]@ != cmd@,
            },
    {
        let n = self.names.len();
        let mut i: usize = 0;
        while i < n
            invariant
                i <= n,
                n == self.names@.len(),
                forall|j: int| 0 <= j < i ==> self.names@[j]@ != cmd@,
            decreases n - i,
        {
            if self.names[i] == *cmd {
                return Some(i);
            }
            i = i + 1;
        }
        None
    }

    /// Bind `handler` to `name`, inserting the binding or replacing the one
    /// already there. Never fails; every other binding is left untouched.
    pub fn add_cmd(&mut self, name: &str, handler: H)
        requires
            old(self).wf(),
        ensures
            final(self).wf(),
            final(self)@ == old(self)@.insert(name@, handler),
    {
        let ghost h = handler;
        let key: String = name.to_owned();
        let pos = self.position(&key);
        match pos {
            Some(i) => {
                self.handlers[i] = handler;
                proof {
                    Self::lemma_update_is_insert(*old(self), *self, i as int, h);
                }
            },
            None => {
                self.names.push(key);
                self.handlers.push(handler);
                proof {
                    Self::lemma_push_is_insert(*old(self), *self, name@, h);
                }
            },
        }
    }

    /// Whether a handler is currently bound to `cmd`.
    pub fn is_registered(&self, cmd: &str) -> (b: bool)
        requires
            self.wf(),
        ensures
            b == self@.contains_key(cmd@),
    {
        let key: String = cmd.to_owned();
        let pos = self.position(&key);
        match pos {
            Some(i) => {
                proof {
                    self.lemma_view_at(i as int);
                }
                true
            },
            None => {
                proof {
                    self.lemma_view_absent(cmd@);
                }
                false
            },
        }
    }

    /// The handler currently bound to `cmd`, if any.
    pub fn get(&self, cmd: &str) -> (r: Option<&H>)
        requires
            self.wf(),
        ensures
            match r {
                Some(h) => self@.contains_key(cmd@) && *h == self@[cmd@],
                None => !self@.contains_key(cmd@),
            },
    {
        let key: String = cmd.to_owned();
        let pos = self.position(&key);
        match pos {
            Some(i) => {
                proof {
                    self.lemma_view_at(i as int);
                }
                Some(&self.handlers[i])
            },
            None => {
                proof {
                    self.lemma_view_absent(cmd@);
                }
                None
            },
        }
    }

    /// Dispatch: find the handler bound to `cmd`, invoke it on `args`, and
    /// return its effective status; return the unhandled sentinel, touching
    /// nothing, when no handler is bound to `cmd`.
    pub fn exec(&mut self, cmd: &str, args: &[u8]) -> (r: i32)
        requires
            old(self).wf(),
        ensures
            final(self).wf(),
            r == dispatch_status(old(self)@, cmd@, args@),
            dispatch_updates(old(self)@, cmd@, args@, final(self)@),
    {
        let key: String = cmd.to_owned();
        let pos = self.position(&key);
        match pos {
            Some(i) => {
                proof {
                    old(self).lemma_view_at(i as int);
                }
                let h = &mut self.handlers[i];
                let ret = h.handle(args);
                proof {
                    Self::lemma_update_is_insert(
                        *old(self),
                        *self,
                        i as int,
                        self.handlers@[i as int],
                    );
                    assert(old(self)@.insert(cmd@, self.handlers@[i as int]).dom()
                        =~= old(self)@.dom());
                }
                match ret {
                    Some(code) => code,
                    None => SUCCESS,
                }
            },
            None => {
                proof {
                    old(self).lemma_view_absent(cmd@);
                }
                UNHANDLED
            },
        }
    }
}

} // verus!
