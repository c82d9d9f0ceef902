//! The node agent's registry of live worker processes: pids in the order in
//! which they registered, each at most once.

use vstd::prelude::*;

use crate::req::{ReqType, Request};

verus! {

/// The registry after `pid` registers: unchanged if it is already there,
/// else `pid` is appended.
pub open spec fn after_register(s: Seq<i32>, pid: i32) -> Seq<i32> {
    if s.contains(pid) {
        s
    } else {
        s.push(pid)
    }
}

/// The registry after `pid` unregisters: `pid` is taken out, the others keep
/// their order; unchanged if `pid` is not there.
pub open spec fn after_unregister(s: Seq<i32>, pid: i32) -> Seq<i32> {
    if s.contains(pid) {
        s.remove(s.index_of(pid))
    } else {
        s
    }
}

/// The registry after a request: `Register` and `Unregister` change it, the
/// other kinds leave it as it is.
pub open spec fn after_request(s: Seq<i32>, r: Request) -> Seq<i32> {
    match r.req {
        ReqType::Register => after_register(s, r.pid),
        ReqType::Unregister => after_unregister(s, r.pid),
        _ => s,
    }
}

/// The registry after the requests `ops`, one after the other, from `s`.
pub open spec fn replay(s: Seq<i32>, ops: Seq<Request>) -> Seq<i32>
    decreases ops.len(),
{
    if ops.len() == 0 {
        s
    } else {
        after_request(replay(s, ops.drop_last()), ops.last())
    }
}

/// Whether the last of `ops` that registers or unregisters `pid` registers it.
pub open spec fn last_registers(ops: Seq<Request>, pid: i32) -> bool
    decreases ops.len(),
{
    if ops.len() == 0 {
        false
    } else if ops.last().pid == pid && ops.last().req == ReqType::Register {
        true
    } else if ops.last().pid == pid && ops.last().req == ReqType::Unregister {
        false
    } else {
        last_registers(ops.drop_last(), pid)
    }
}

/// Unregistering a pid that is not registered.
#[derive(Clone, Copy, Debug, PartialEq, Eq, Structural)]
pub enum RegistryError {
    UnknownPid { pid: i32 },
}

/// The pids of the worker processes that live on this node.
pub struct Registry {
    pids: Vec<i32>,
}

impl View for Registry {
    type V = Seq<i32>;

    closed spec fn view(&self) -> Seq<i32> {
        self.pids@
    }
}

impl Registry {
    /// No pid is there twice.
    pub open spec fn wf(&self) -> bool {
        self@.no_duplicates()
    }

    /// An empty registry.
    pub fn new() -> (r: Registry)
        ensures
            r.wf(),
            r@ == Seq::<i32>::empty(),
    {
        Registry { pids: Vec::new() }
    }

    /// Number of registered pids.
    pub fn len(&self) -> (r: usize)
        ensures
            r == self@.len(),
    {
        self.pids.len()
    }

    /// Where `pid` stands, if it is registered.
    fn position(&self, pid: i32) -> (r: Option<usize>)
        ensures
            r is None <==> !self@.contains(pid),
            r matches Some(i) ==> i < self@.len() && self@[i as int] == pid,
    {
        let mut i: usize = 0;
        while i < self.pids.len()
            invariant
                i <= self.pids@.len(),
                forall|j: int| 0 <= j < i ==> self.pids@[j] != pid,
            decreases self.pids@.len() - i,
        {
            if self.pids[i] == pid {
                return Some(i);
            }
            i += 1;
        }
        None
    }

    /// Whether `pid` is registered.
    pub fn contains(&self, pid: i32) -> (r: bool)
        ensures
            r == self@.contains(pid),
    {
        self.position(pid).is_some()
    }

    /// The registered pids, in the order in which they registered.
    pub fn pids(&self) -> (r: Vec<i32>)
        ensures
            r@ == self@,
    {
        self.pids.clone()
    }

    /// Adds `pid`; a pid that is already there is not added again.
    pub fn register(&mut self, pid: i32)
        requires
            old(self).wf(),
        ensures
            final(self).wf(),
            final(self)@ == after_register(old(self)@, pid),
    {
        if !self.contains(pid) {
            self.pids.push(pid);
        }
    }

    /// Takes `pid` out. Where it is not there the registry is unchanged and
    /// the error names it.
    pub fn unregister(&mut self, pid: i32) -> (r: Result<(), RegistryError>)
        requires
            old(self).wf(),
        ensures
            final(self).wf(),
            final(self)@ == after_unregister(old(self)@, pid),
            r is Ok <==> old(self)@.contains(pid),
            r is Err ==> r == Err::<(), RegistryError>(RegistryError::UnknownPid { pid }),
    {
        match self.position(pid) {
            Some(i) => {
                proof {
                    lemma_index_of_unique(self@, pid, i as int);
                }
                self.pids.remove(i);
                proof {
                    lemma_remove_keeps_no_duplicates(old(self)@, i as int);
                }
                Ok(())
            },
            None => Err(RegistryError::UnknownPid { pid }),
        }
    }
}

proof fn lemma_index_of_unique(s: Seq<i32>, pid: i32, i: int)
    requires
        s.no_duplicates(),
        0 <= i < s.len(),
        s[i] == pid,
    ensures
        s.index_of(pid) == i,
{
    assert(s.contains(pid));
}

proof fn lemma_remove_keeps_no_duplicates(s: Seq<i32>, i: int)
    requires
        s.no_duplicates(),
        0 <= i < s.len(),
    ensures
        s.remove(i).no_duplicates(),
        forall|x: i32| s.remove(i).contains(x) <==> (s.contains(x) && x != s[i]),
{
    let t = s.remove(i);
    s.remove_ensures(i);
    assert forall|a: int, b: int| 0 <= a < t.len() && 0 <= b < t.len() && a != b implies t[a]
        != t[b] by {
        let sa = if a < i { a } else { a + 1 };
        let sb = if b < i { b } else { b + 1 };
        assert(t[a] == s[sa] && t[b] == s[sb]);
    }
    assert forall|x: i32| t.contains(x) <==> (s.contains(x) && x != s[i]) by {
        if t.contains(x) {
            let a = choose|a: int| 0 <= a < t.len() && t[a] == x;
            let sa = if a < i { a } else { a + 1 };
            assert(s[sa] == x);
        }
        if s.contains(x) && x != s[i] {
            let a = choose|a: int| 0 <= a < s.len() && s[a] == x;
            if a < i {
                assert(t[a] == x);
            } else {
                assert(a != i);
                assert(t[a - 1] == x);
            }
        }
    }
}

/// One request keeps the registry free of duplicates, and a pid is in it
/// afterwards exactly when the request registers it, or when the request
/// leaves it alone and it was there before.
pub proof fn lemma_after_request(s: Seq<i32>, r: Request)
    requires
        s.no_duplicates(),
    ensures
        after_request(s, r).no_duplicates(),
        forall|x: i32|
            #[trigger] after_request(s, r).contains(x) <==> if x == r.pid && r.req
                == ReqType::Register {
                true
            } else if x == r.pid && r.req == ReqType::Unregister {
                false
            } else {
                s.contains(x)
            },
{
    match r.req {
        ReqType::Register => {
            if !s.contains(r.pid) {
                let t = s.push(r.pid);
                assert forall|x: i32| t.contains(x) <==> (s.contains(x) || x == r.pid) by {
                    if t.contains(x) && x != r.pid {
                        let a = choose|a: int| 0 <= a < t.len() && t[a] == x;
                        assert(s[a] == x);
                    }
                    if x == r.pid {
                        assert(t[s.len() as int] == x);
                    }
                    if s.contains(x) {
                        let a = choose|a: int| 0 <= a < s.len() && s[a] == x;
                        assert(t[a] == x);
                    }
                }
            }
        },
        ReqType::Unregister => {
            if s.contains(r.pid) {
                let i = s.index_of(r.pid);
                lemma_remove_keeps_no_duplicates(s, i);
            }
        },
        _ => {},
    }
}

/// Replaying any sequence of requests from an empty registry leaves exactly
/// the pids whose last `Register`/`Unregister` is a `Register`, each once.
pub proof fn lemma_replay(ops: Seq<Request>)
    ensures
        replay(Seq::empty(), ops).no_duplicates(),
        forall|pid: i32| #[trigger]
            replay(Seq::empty(), ops).contains(pid) <==> last_registers(ops, pid),
    decreases ops.len(),
{
    if ops.len() > 0 {
        lemma_replay(ops.drop_last());
        lemma_after_request(replay(Seq::empty(), ops.drop_last()), ops.last());
    }
}

} // verus!
