//! The keys that can be bound, and the table of their actions.
use vstd::prelude::*;
use crate::interface::{Action, AppInterface, ReturnStatus};

verus! {

/// The keys whose effect can be overridden.
#[non_exhaustive]
#[derive(PartialEq, Eq, Structural, Hash, Clone, Copy, Debug)]
pub enum Key {
    /// The escape key.
    Escape,
}

/// One key and the action bound to it.
struct Binding<A> {
    key: Key,
    action: A,
}

/// The table of key bindings: at most one action for each key.
pub struct Keys<A: Action> {
    bindings: Vec<Binding<A>>,
}

impl<A: Action> Keys<A> {
    /// Whether an action is bound to `key`.
    pub closed spec fn is_bound(&self, key: Key) -> bool {
        exists|i: int| 0 <= i < self.bindings@.len() && (#[trigger] self.bindings@[i]).key == key
    }

    /// The place of the binding of `key` in the table, where it has one.
    closed spec fn place(&self, key: Key) -> int {
        choose|i: int| 0 <= i < self.bindings@.len() && (#[trigger] self.bindings@[i]).key == key
    }

    /// The action bound to `key`, if there is one.
    pub closed spec fn action_of(&self, key: Key) -> Option<A> {
        if self.is_bound(key) {
            Some(self.bindings@[self.place(key)].action)
        } else {
            None
        }
    }

    /// The number of bindings.
    pub closed spec fn count(&self) -> nat {
        self.bindings@.len()
    }

    /// No key has two bindings.
    #[verifier::type_invariant]
    closed spec fn wf(&self) -> bool {
        forall|i: int, j: int|
            0 <= i < j < self.bindings@.len() ==> (#[trigger] self.bindings@[i]).key != (
            #[trigger] self.bindings@[j]).key
    }

    /// What firing `key` on `line` makes of the table: the action bound to
    /// `key` has run once, on a fresh interface over `line`, and asked for
    /// `status`; without a binding nothing has run and the status is
    /// `Nothing`. The other bindings are as they were.
    pub open spec fn fires(
        &self,
        key: Key,
        line: Seq<char>,
        status: ReturnStatus,
        after: &Self,
    ) -> bool {
        &&& after.count() == self.count()
        &&& forall|other: Key| after.is_bound(other) <==> self.is_bound(other)
        &&& forall|other: Key| other != key ==> after.action_of(other) == self.action_of(other)
        &&& match self.action_of(key) {
            Some(action) => {
                &&& after.action_of(key) is Some
                &&& action.runs(line, ReturnStatus::Nothing, status, &after.action_of(key)->0)
            },
            None => status == ReturnStatus::Nothing && after == self,
        }
    }

    /// An empty table.
    pub fn new() -> (keys: Keys<A>)
        ensures
            keys.count() == 0,
            forall|key: Key| !keys.is_bound(key),
    {
        Keys { bindings: Vec::new() }
    }

    /// The place of the binding of `key` in the table, if it has one.
    fn find(&self, key: Key) -> (place: Option<usize>)
        ensures
            match place {
                Some(i) => i < self.bindings@.len() && self.bindings@[i as int].key == key,
                None => !self.is_bound(key),
            },
    {
        let mut i: usize = 0;
        while i < self.bindings.len()
            invariant
                i <= self.bindings@.len(),
                forall|j: int| 0 <= j < i ==> (#[trigger] self.bindings@[j]).key != key,
            decreases self.bindings@.len() - i,
        {
            if self.bindings[i].key == key {
                return Some(i);
            }
            i = i + 1;
        }
        None
    }

    /// Whether an action is bound to `key`.
    pub fn has(&self, key: Key) -> (bound: bool)
        ensures
            bound == self.is_bound(key),
    {
        self.find(key).is_some()
    }

    /// Binds `action` to `key`, in place of the action bound before if
    /// there was one. Returns `Some` exactly where there was one.
    pub fn define_key(&mut self, key: Key, action: A) -> (replaced: Option<()>)
        ensures
            replaced is Some <==> old(self).is_bound(key),
            forall|other: Key|
                final(self).is_bound(other) <==> (other == key || old(self).is_bound(other)),
            final(self).action_of(key) == Some(action),
            forall|other: Key|
                other != key ==> final(self).action_of(other) == old(self).action_of(other),
            final(self).count() == if old(self).is_bound(key) {
                old(self).count()
            } else {
                old(self).count() + 1
            },
    {
        proof {
            use_type_invariant(&*self);
        }
        let place = self.find(key);
        let mut bindings = Vec::new();
        core::mem::swap(&mut self.bindings, &mut bindings);
        let replaced = match place {
            Some(i) => {
                bindings.set(i, Binding { key, action });
                Some(())
            },
            None => {
                bindings.push(Binding { key, action });
                None
            },
        };
        proof {
            let before = old(self).bindings@;
            let after = bindings@;
            assert forall|j: int| 0 <= j < before.len() implies (#[trigger] after[j]).key
                == before[j].key by {}
            assert forall|i: int, j: int| 0 <= i < j < after.len() implies (#[trigger] after[i]).key
                != (#[trigger] after[j]).key by {
                assert(after[i].key == before[i].key);
                if j < before.len() {
                    assert(after[j].key == before[j].key);
                }
            }
        }
        self.bindings = bindings;
        proof {
            let before = old(self).bindings@;
            let after = self.bindings@;
            match place {
                Some(i) => {
                    old(self).lemma_same_keys(&*self);
                    self.lemma_place(key, i as int);
                },
                None => {
                    assert(after[before.len() as int].key == key);
                    assert forall|other: Key|
                        self.is_bound(other) <==> (other == key || old(self).is_bound(
                            other,
                        )) by {
                        if old(self).is_bound(other) {
                            let j = choose|j: int|
                                0 <= j < before.len() && (#[trigger] before[j]).key == other;
                            assert(after[j].key == other);
                        }
                    }
                    self.lemma_place(key, before.len() as int);
                },
            }
            assert forall|other: Key| other != key implies self.action_of(other) == old(
                self,
            ).action_of(other) by {
                if old(self).is_bound(other) {
                    old(self).lemma_action_kept(&*self, other);
                }
            }
        }
        replaced
    }

    /// In a well-formed table, a key found at a place is bound to the
    /// action at that place.
    proof fn lemma_place(&self, key: Key, i: int)
        requires
            self.wf(),
            0 <= i < self.bindings@.len(),
            self.bindings@[i].key == key,
        ensures
            self.is_bound(key),
            self.place(key) == i,
            self.action_of(key) == Some(self.bindings@[i].action),
    {
        assert(self.is_bound(key));
        let j = self.place(key);
        if j < i {
            assert(self.bindings@[j].key != self.bindings@[i].key);
        } else if i < j {
            assert(self.bindings@[i].key != self.bindings@[j].key);
        }
    }

    /// A key keeps its action where its binding is the same at the same
    /// place in another well-formed table.
    proof fn lemma_action_kept(&self, other: &Keys<A>, key: Key)
        requires
            self.wf(),
            other.wf(),
            self.is_bound(key),
            self.place(key) < other.bindings@.len(),
            other.bindings@[self.place(key)] == self.bindings@[self.place(key)],
        ensures
            other.action_of(key) == self.action_of(key),
    {
        let i = self.place(key);
        self.lemma_place(key, i);
        other.lemma_place(key, i);
    }

    /// Two tables that hold the same keys at the same places have the same
    /// keys bound, and one is well formed where the other is.
    proof fn lemma_same_keys(&self, other: &Keys<A>)
        requires
            self.bindings@.len() == other.bindings@.len(),
            forall|i: int|
                0 <= i < self.bindings@.len() ==> (#[trigger] self.bindings@[i]).key
                    == other.bindings@[i].key,
        ensures
            self.wf() ==> other.wf(),
            self.count() == other.count(),
            forall|key: Key| self.is_bound(key) <==> other.is_bound(key),
    {
        assert forall|i: int| 0 <= i < other.bindings@.len() implies (
        #[trigger] other.bindings@[i]).key == self.bindings@[i].key by {
            assert(self.bindings@[i].key == other.bindings@[i].key);
        }
        assert forall|key: Key| self.is_bound(key) <==> other.is_bound(key) by {
            if self.is_bound(key) {
                let i = choose|i: int|
                    0 <= i < self.bindings@.len() && (#[trigger] self.bindings@[i]).key == key;
                assert(other.bindings@[i].key == key);
            }
            if other.is_bound(key) {
                let i = choose|i: int|
                    0 <= i < other.bindings@.len() && (#[trigger] other.bindings@[i]).key == key;
                assert(self.bindings@[i].key == key);
            }
        }
    }

    /// Runs the action bound to `key` on a fresh interface over `line` and
    /// returns the status that it asked for. Where nothing is bound to
    /// `key`, nothing runs and the status is `Nothing`.
    pub fn fire_key(&mut self, key: &Key, line: &str) -> (status: ReturnStatus)
        ensures
            old(self).fires(*key, line@, status, final(self)),
    {
        proof {
            use_type_invariant(&*self);
        }
        let place = self.find(*key);
        match place {
            Some(i) => {
                let mut app = AppInterface::new(line);
                let mut bindings = Vec::new();
                core::mem::swap(&mut self.bindings, &mut bindings);
                bindings[i].action.invoke(&mut app);
                proof {
                    let before = old(self).bindings@;
                    let after = bindings@;
                    assert forall|j: int| 0 <= j < before.len() implies (#[trigger] after[j]).key
                        == before[j].key by {}
                    assert forall|a: int, b: int| 0 <= a < b < after.len() implies (
                    #[trigger] after[a]).key != (#[trigger] after[b]).key by {
                        assert(after[a].key == before[a].key);
                        assert(after[b].key == before[b].key);
                    }
                }
                self.bindings = bindings;
                proof {
                    old(self).lemma_same_keys(&*self);
                    old(self).lemma_place(*key, i as int);
                    self.lemma_place(*key, i as int);
                    assert forall|other: Key| other != *key implies self.action_of(other) == old(
                        self,
                    ).action_of(other) by {
                        if old(self).is_bound(other) {
                            old(self).lemma_action_kept(&*self, other);
                        }
                    }
                }
                app.take_status()
            },
            None => ReturnStatus::Nothing,
        }
    }
}

} // verus!
