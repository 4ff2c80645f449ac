//! A process-wide table of sessions keyed by the path of the node that owns
//! them (a BACnet driver node, an MQTT client node).
//!
//! At most one session is kept per path: starting a session under a path
//! that already has one replaces it.

use vstd::prelude::*;

verus! {

/// Sessions keyed by node path.
///
/// The entries are a `Vec` of path and session with a ghost map beside it,
/// not a `std::collections::HashMap`: vstd specifies a `HashMap` only for
/// keys whose hashing it models, and with a `String` path as the key its
/// `insert` and `remove` promise nothing about the contents, so no contract
/// of this table could be proved over one.
pub struct Registry<S> {
    entries: Vec<(String, S)>,
    sessions: Ghost<Map<Seq<char>, S>>,
}

impl<S> View for Registry<S> {
    type V = Map<Seq<char>, S>;

    /// The session held under each path.
    closed spec fn view(&self) -> Map<Seq<char>, S> {
        self.sessions@
    }
}

impl<S> Registry<S> {
    /// The entries name distinct paths and hold exactly the sessions of the
    /// view.
    pub closed spec fn wf(&self) -> bool {
        &&& forall|i: int, j: int|
            0 <= i < j < self.entries@.len() ==> (#[trigger] self.entries@[i]).0@
                != (#[trigger] self.entries@[j]).0@
        &&& forall|i: int|
            0 <= i < self.entries@.len() ==> {
                &&& self.sessions@.contains_key((#[trigger] self.entries@[i]).0@)
                &&& self.sessions@[self.entries@[i].0@] == self.entries@[i].1
            }
        &&& forall|k: Seq<char>|
            #[trigger] self.sessions@.contains_key(k) ==> exists|i: int|
                0 <= i < self.entries@.len() && (#[trigger] self.entries@[i]).0@ == k
    }

    /// An empty registry.
    pub fn new() -> (r: Self)
        ensures
            r.wf(),
            r@ == Map::<Seq<char>, S>::empty(),
    {
        Registry { entries: Vec::new(), sessions: Ghost(Map::empty()) }
    }

    fn find(&self, path: &String) -> (r: Option<usize>)
        requires
            self.wf(),
        ensures
            match r {
                Some(i) => i < self.entries@.len() && self.entries@[i as int].0@ == path@,
                None => !self@.contains_key(path@),
            },
    {
        let n = self.entries.len();
        let mut i: usize = 0;
        while i < n
            invariant
                n == self.entries@.len(),
                i <= n,
                forall|j: int| 0 <= j < i ==> (#[trigger] self.entries@[j]).0@ != path@,
            decreases n - i,
        {
            if self.entries[i].0 == *path {
                return Some(i);
            }
            i = i + 1;
        }
        None
    }

    /// The session under `path`, if any.
    pub fn get(&self, path: &String) -> (r: Option<&S>)
        requires
            self.wf(),
        ensures
            match r {
                Some(s) => self@.contains_key(path@) && *s == self@[path@],
                None => !self@.contains_key(path@),
            },
    {
        match self.find(path) {
            Some(i) => Some(&self.entries[i].1),
            None => None,
        }
    }

    /// Puts `session` under `path`, replacing the one that was there.
    pub fn insert(&mut self, path: String, session: S)
        requires
            old(self).wf(),
        ensures
            final(self).wf(),
            final(self)@ == old(self)@.insert(path@, session),
    {
        let ghost key = path@;
        let ghost value = session;
        let found = self.find(&path);
        match found {
            Some(i) => {
                self.entries.set(i, (path, session));
            },
            None => {
                self.entries.push((path, session));
            },
        }
        self.sessions = Ghost(self.sessions@.insert(key, value));
        proof {
            let n = self.entries@.len();
            assert forall|k: Seq<char>| #[trigger] self.sessions@.contains_key(k) implies exists|
                i: int,
            | 0 <= i < n && (#[trigger] self.entries@[i]).0@ == k by {
                if k == key {
                    match found {
                        Some(i) => assert(self.entries@[i as int].0@ == k),
                        None => assert(self.entries@[n - 1].0@ == k),
                    }
                } else {
                    assert(old(self).sessions@.contains_key(k));
                    let j = choose|j: int|
                        0 <= j < old(self).entries@.len() && (#[trigger] old(
                            self,
                        ).entries@[j]).0@ == k;
                    assert(self.entries@[j].0@ == k);
                }
            }
        }
    }

    /// Drops the session under `path`, if any.
    pub fn remove(&mut self, path: &String)
        requires
            old(self).wf(),
        ensures
            final(self).wf(),
            final(self)@ == old(self)@.remove(path@),
    {
        let ghost key = path@;
        match self.find(path) {
            Some(i) => {
                let ghost before = self.entries@;
                let _ = self.entries.remove(i);
                self.sessions = Ghost(self.sessions@.remove(key));
                proof {
                    assert forall|k: Seq<char>| #[trigger] self.sessions@.contains_key(k) implies exists|
                        j: int,
                    | 0 <= j < self.entries@.len() && (#[trigger] self.entries@[j]).0@ == k by {
                        let j = choose|j: int|
                            0 <= j < before.len() && (#[trigger] before[j]).0@ == k;
                        if j < i {
                            assert(self.entries@[j].0@ == k);
                        } else {
                            assert(j != i);
                            assert(self.entries@[j - 1].0@ == k);
                        }
                    }
                }
            },
            None => {
                assert(self.sessions@.remove(key) =~= self.sessions@);
            },
        }
    }
}

/// A session put under a path is what a lookup of that path finds, and the
/// sessions under other paths are untouched.
pub proof fn lemma_insert_then_get<S>(sessions: Map<Seq<char>, S>, path: Seq<char>, session: S)
    ensures
        sessions.insert(path, session).contains_key(path),
        sessions.insert(path, session)[path] == session,
        forall|other: Seq<char>|
            other != path ==> (#[trigger] sessions.insert(path, session).contains_key(other)
                == sessions.contains_key(other) && (sessions.contains_key(other) ==> sessions.insert(
                path,
                session,
            )[other] == sessions[other])),
{
}

/// Starting a second session under a path replaces the first: one session
/// per path, the latest.
pub proof fn lemma_insert_replaces<S>(sessions: Map<Seq<char>, S>, path: Seq<char>, first: S, second: S)
    ensures
        sessions.insert(path, first).insert(path, second) == sessions.insert(path, second),
{
    assert(sessions.insert(path, first).insert(path, second) =~= sessions.insert(path, second));
}

/// After a removal, no session is found under the path, and the sessions
/// under other paths are untouched.
pub proof fn lemma_remove_then_get<S>(sessions: Map<Seq<char>, S>, path: Seq<char>)
    ensures
        !sessions.remove(path).contains_key(path),
        forall|other: Seq<char>|
            other != path ==> (#[trigger] sessions.remove(path).contains_key(other)
                == sessions.contains_key(other) && (sessions.contains_key(other) ==> sessions.remove(
                path,
            )[other] == sessions[other])),
{
}

/// Removing twice is the same as removing once.
pub proof fn lemma_remove_idempotent<S>(sessions: Map<Seq<char>, S>, path: Seq<char>)
    ensures
        sessions.remove(path).remove(path) == sessions.remove(path),
{
    assert(sessions.remove(path).remove(path) =~= sessions.remove(path));
}

} // verus!
