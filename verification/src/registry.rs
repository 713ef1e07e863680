//! The listener registry: a mapping from topics to the set of listeners
//! registered for them.
//!
//! Listeners are named by comparable identifiers, so that a (topic,
//! listener) pair can be tested for existence and removed exactly. A topic
//! holds an entry in the registry only while at least one listener is
//! registered for it: removing the last listener removes the topic, which
//! keeps storage bounded by active interest. Registering a pair that is
//! already present is rejected, not silently merged.

use vstd::prelude::*;

use crate::status::{Code, Status};
use crate::topic::{Topic, TopicModel};

verus! {

/// True when the sequence holds no element twice.
pub open spec fn distinct_seq(s: Seq<u64>) -> bool {
    forall|i: int, j: int| 0 <= i < j < s.len() ==> s[i] != s[j]
}

struct Entry {
    topic: Topic,
    listeners: Vec<u64>,
}

/// A mapping from topics to the distinct listeners registered for them.
pub struct Registry {
    entries: Vec<Entry>,
}

impl Registry {
    /// True when the registry holds an entry for the topic.
    pub closed spec fn has_topic(self, t: TopicModel) -> bool {
        exists|i: int| 0 <= i < self.entries@.len() && self.entries@[i].topic@ == t
    }

    /// True when the listener is registered for the topic.
    pub closed spec fn contains_pair(self, t: TopicModel, l: u64) -> bool {
        exists|i: int|
            0 <= i < self.entries@.len() && self.entries@[i].topic@ == t
                && self.entries@[i].listeners@.contains(l)
    }

    /// Internal shape of the registry: topics are unique, every stored
    /// listener set is non-empty, and no set holds a listener twice.
    pub closed spec fn wf(self) -> bool {
        &&& forall|i: int, j: int|
            0 <= i < j < self.entries@.len() ==> self.entries@[i].topic@
                != self.entries@[j].topic@
        &&& forall|i: int| 0 <= i < self.entries@.len() ==> self.entries@[i].listeners@.len() > 0
        &&& forall|i: int|
            0 <= i < self.entries@.len() ==> distinct_seq(self.entries@[i].listeners@)
    }

    /// Builds an empty registry.
    pub fn new() -> (r: Registry)
        ensures
            r.wf(),
            forall|t: TopicModel| !r.has_topic(t),
            forall|t: TopicModel, l: u64| !r.contains_pair(t, l),
    {
        Registry { entries: Vec::new() }
    }

    /// The index of the entry for the topic, if one exists.
    fn find(&self, topic: &Topic) -> (r: Option<usize>)
        ensures
            match r {
                Some(i) => i < self.entries@.len() && self.entries@[i as int].topic@ == topic@,
                None => !self.has_topic(topic@),
            },
    {
        let n = self.entries.len();
        let mut i: usize = 0;
        while i < n
            invariant
                n == self.entries@.len(),
                i <= n,
                forall|j: int| 0 <= j < i ==> self.entries@[j].topic@ != topic@,
            decreases n - i,
        {
            if self.entries[i].topic == *topic {
                return Some(i);
            }
            i = i + 1;
        }
        None
    }

    /// Registers the listener for the topic, creating the topic's entry if
    /// it is absent. Fails with `AlreadyExists`, changing nothing, exactly
    /// when the same pair is already registered: two different listeners
    /// may share a topic, but one listener holds at most one registration
    /// per topic.
    pub fn register(&mut self, topic: Topic, listener: u64) -> (r: Result<(), Status>)
        requires
            old(self).wf(),
        ensures
            final(self).wf(),
            r is Ok ==> !old(self).contains_pair(topic@, listener),
            r is Ok ==> forall|t: TopicModel, l: u64|
                final(self).contains_pair(t, l) <==> (old(self).contains_pair(t, l) || (t
                    == topic@ && l == listener)),
            r is Ok ==> forall|t: TopicModel|
                final(self).has_topic(t) <==> (old(self).has_topic(t) || t == topic@),
            r matches Err(s) ==> s.code == Code::AlreadyExists && old(self).contains_pair(
                topic@,
                listener,
            ) && *final(self) == *old(self),
    {
        let ghost before = self.entries@;
        let ghost n = self.entries@.len() as int;
        match self.find(&topic) {
            Some(i) => {
                if contains_listener(&self.entries[i].listeners, listener) {
                    proof {
                        assert(0 <= i < before.len() && before[i as int].topic@ == topic@
                            && before[i as int].listeners@.contains(listener));
                    }
                    Err(Status::fail_with_code(
                        Code::AlreadyExists,
                        "topic and listener pair already exists",
                    ))
                } else {
                    let mut entry = self.entries.swap_remove(i);
                    entry.listeners.push(listener);
                    self.entries.push(entry);
                    proof {
                        let after = self.entries@;
                        let ii = i as int;
                        // Every old index is still present: index `ii` moved to
                        // the end (with one more listener), the old last entry
                        // moved to index `ii`, the rest stayed in place.
                        assert(after.len() == n);
                        assert(forall|j: int|
                            0 <= j < n - 1 && j != ii ==> after[j] == before[j]);
                        assert(ii < n - 1 ==> after[ii] == before[n - 1]);
                        assert(after[n - 1].topic == before[ii].topic);
                        assert(after[n - 1].listeners@ == before[ii].listeners@.push(listener));
                        assert(!old(self).contains_pair(topic@, listener)) by {
                            assert(forall|j: int|
                                0 <= j < n && before[j].topic@ == topic@ ==> j == ii);
                        }
                        assert(final(self).wf()) by {
                            assert forall|a: int, b: int|
                                0 <= a < b < n implies after[a].topic@ != after[b].topic@ by {
                                assert(after[n - 1].topic@ == before[ii].topic@);
                                if ii < n - 1 {
                                    assert(after[ii].topic@ == before[n - 1].topic@);
                                }
                            }
                            assert forall|a: int|
                                0 <= a < n implies after[a].listeners@.len() > 0 && distinct_seq(
                                after[a].listeners@,
                            ) by {
                                if a == n - 1 {
                                    let s = before[ii].listeners@;
                                    assert(!s.contains(listener));
                                    assert forall|x: int, y: int|
                                        0 <= x < y < s.push(listener).len() implies s.push(
                                        listener,
                                    )[x] != s.push(listener)[y] by {
                                        if y < s.len() {
                                            assert(s[x] != s[y]);
                                        } else {
                                            assert(s.push(listener)[x] == s[x]);
                                            assert(!s.contains(listener) ==> s[x] != listener);
                                        }
                                    }
                                }
                            }
                        }
                        assert forall|t: TopicModel, l: u64|
                            final(self).contains_pair(t, l) <==> (old(self).contains_pair(t, l)
                                || (t == topic@ && l == listener)) by {
                            lemma_grown_entry(before, after, ii, listener, t, l);
                        }
                        assert forall|t: TopicModel|
                            final(self).has_topic(t) <==> (old(self).has_topic(t) || t
                                == topic@) by {
                            if old(self).has_topic(t) {
                                let j = choose|j: int|
                                    0 <= j < n && before[j].topic@ == t;
                                if j == ii {
                                    assert(after[n - 1].topic@ == t);
                                } else if j == n - 1 {
                                    assert(ii < n - 1 ==> after[ii].topic@ == t);
                                    assert(ii == n - 1 ==> after[n - 1].topic@ == t);
                                } else {
                                    assert(after[j].topic@ == t);
                                }
                            }
                            if final(self).has_topic(t) {
                                let j = choose|j: int|
                                    0 <= j < n && after[j].topic@ == t;
                                if j == n - 1 {
                                    assert(before[ii].topic@ == t);
                                } else if j == ii {
                                    assert(before[n - 1].topic@ == t);
                                } else {
                                    assert(before[j].topic@ == t);
                                }
                            }
                            assert(before[ii].topic@ == topic@);
                        }
                    }
                    Ok(())
                }
            },
            None => {
                let mut listeners: Vec<u64> = Vec::new();
                listeners.push(listener);
                self.entries.push(Entry { topic, listeners });
                proof {
                    let after = self.entries@;
                    assert(forall|j: int| 0 <= j < n ==> after[j] == before[j]);
                    assert(after[n].listeners@ =~= seq![listener]);
                    assert(final(self).wf()) by {
                        assert(forall|j: int| 0 <= j < n ==> after[j].topic@ != topic@);
                        assert(after[n].listeners@.len() == 1);
                    }
                    assert forall|t: TopicModel, l: u64|
                        final(self).contains_pair(t, l) <==> (old(self).contains_pair(t, l) || (t
                            == topic@ && l == listener)) by {
                        if old(self).contains_pair(t, l) {
                            let j = choose|j: int|
                                0 <= j < n && before[j].topic@ == t
                                    && before[j].listeners@.contains(l);
                            assert(after[j].topic@ == t && after[j].listeners@.contains(l));
                        }
                        if t == topic@ && l == listener {
                            assert(after[n].topic@ == t);
                            assert(after[n].listeners@[0] == l);
                        }
                        if final(self).contains_pair(t, l) {
                            let j = choose|j: int|
                                0 <= j < n + 1 && after[j].topic@ == t
                                    && after[j].listeners@.contains(l);
                            if j < n {
                                assert(before[j].topic@ == t && before[j].listeners@.contains(l));
                            } else {
                                let k = choose|k: int|
                                    0 <= k < after[j].listeners@.len() && after[j].listeners@[k]
                                        == l;
                                assert(l == listener);
                            }
                        }
                    }
                    assert forall|t: TopicModel|
                        final(self).has_topic(t) <==> (old(self).has_topic(t) || t == topic@) by {
                        if old(self).has_topic(t) {
                            let j = choose|j: int| 0 <= j < n && before[j].topic@ == t;
                            assert(after[j].topic@ == t);
                        }
                        if t == topic@ {
                            assert(after[n].topic@ == t);
                        }
                        if final(self).has_topic(t) {
                            let j = choose|j: int| 0 <= j < n + 1 && after[j].topic@ == t;
                            if j < n {
                                assert(before[j].topic@ == t);
                            }
                        }
                    }
                }
                Ok(())
            },
        }
    }

    /// Removes the listener's registration for the topic. Fails with
    /// `NotFound`, changing nothing, exactly when the pair is not
    /// registered. Removing the last listener of a topic removes the
    /// topic's entry altogether.
    pub fn unregister(&mut self, topic: &Topic, listener: u64) -> (r: Result<(), Status>)
        requires
            old(self).wf(),
        ensures
            final(self).wf(),
            r is Ok ==> old(self).contains_pair(topic@, listener),
            r is Ok ==> forall|t: TopicModel, l: u64|
                final(self).contains_pair(t, l) <==> (old(self).contains_pair(t, l) && !(t
                    == topic@ && l == listener)),
            r is Ok ==> forall|t: TopicModel|
                final(self).has_topic(t) <==> (old(self).has_topic(t) && (t != topic@
                    || exists|l2: u64| l2 != listener && old(self).contains_pair(t, l2))),
            r matches Err(s) ==> s.code == Code::NotFound && !old(self).contains_pair(
                topic@,
                listener,
            ) && *final(self) == *old(self),
    {
        let ghost before = self.entries@;
        let ghost n = self.entries@.len() as int;
        let i = match self.find(topic) {
            Some(i) => i,
            None => {
                return Err(Status::fail_with_code(
                    Code::NotFound,
                    "no listeners registered for topic",
                ));
            },
        };
        let ghost ii = i as int;
        let k = match position_of(&self.entries[i].listeners, listener) {
            Some(k) => k,
            None => {
                proof {
                    assert(forall|j: int| 0 <= j < n && before[j].topic@ == topic@ ==> j == ii);
                }
                return Err(Status::fail_with_code(
                    Code::NotFound,
                    "topic and listener pair not found",
                ));
            },
        };
        let ghost s = before[ii].listeners@;
        let mut entry = self.entries.swap_remove(i);
        if entry.listeners.len() == 1 {
            proof {
                let after = self.entries@;
                assert(s =~= seq![listener]);
                assert(forall|j: int| 0 <= j < n - 1 && j != ii ==> after[j] == before[j]);
                assert(ii < n - 1 ==> after[ii] == before[n - 1]);
                assert(old(self).contains_pair(topic@, listener));
                assert(forall|j: int| 0 <= j < n && before[j].topic@ == topic@ ==> j == ii);
                assert(final(self).wf()) by {
                    assert forall|a: int, b: int|
                        0 <= a < b < n - 1 implies after[a].topic@ != after[b].topic@ by {
                        if ii < n - 1 {
                            assert(after[ii].topic@ == before[n - 1].topic@);
                        }
                    }
                }
                assert forall|t: TopicModel, l: u64|
                    final(self).contains_pair(t, l) <==> (old(self).contains_pair(t, l) && !(t
                        == topic@ && l == listener)) by {
                    if final(self).contains_pair(t, l) {
                        let j = choose|j: int|
                            0 <= j < n - 1 && after[j].topic@ == t && after[j].listeners@.contains(
                                l,
                            );
                        if j == ii {
                            assert(before[n - 1].topic@ == t && before[n - 1].listeners@.contains(
                                l,
                            ));
                        } else {
                            assert(before[j].topic@ == t && before[j].listeners@.contains(l));
                        }
                        assert(t != topic@);
                    }
                    if old(self).contains_pair(t, l) && !(t == topic@ && l == listener) {
                        let j = choose|j: int|
                            0 <= j < n && before[j].topic@ == t && before[j].listeners@.contains(
                                l,
                            );
                        assert(j != ii);
                        if j == n - 1 {
                            assert(ii < n - 1);
                            assert(after[ii].topic@ == t && after[ii].listeners@.contains(l));
                        } else {
                            assert(after[j].topic@ == t && after[j].listeners@.contains(l));
                        }
                    }
                }
                assert forall|t: TopicModel|
                    final(self).has_topic(t) <==> (old(self).has_topic(t) && (t != topic@
                        || exists|l2: u64| l2 != listener && old(self).contains_pair(t, l2))) by {
                    if final(self).has_topic(t) {
                        let j = choose|j: int| 0 <= j < n - 1 && after[j].topic@ == t;
                        if j == ii {
                            assert(before[n - 1].topic@ == t);
                        } else {
                            assert(before[j].topic@ == t);
                        }
                        assert(t != topic@);
                    }
                    if old(self).has_topic(t) && t != topic@ {
                        let j = choose|j: int| 0 <= j < n && before[j].topic@ == t;
                        assert(j != ii);
                        if j == n - 1 {
                            assert(ii < n - 1);
                            assert(after[ii].topic@ == t);
                        } else {
                            assert(after[j].topic@ == t);
                        }
                    }
                    if t == topic@ {
                        assert forall|l2: u64|
                            old(self).contains_pair(t, l2) implies l2 == listener by {
                            let j = choose|j: int|
                                0 <= j < n && before[j].topic@ == t
                                    && before[j].listeners@.contains(l2);
                            assert(j == ii);
                            let m = choose|m: int| 0 <= m < s.len() && s[m] == l2;
                        }
                    }
                }
            }
            Ok(())
        } else {
            entry.listeners.swap_remove(k);
            self.entries.push(entry);
            proof {
                let after = self.entries@;
                let s2 = after[n - 1].listeners@;
                lemma_swap_removed(s, k as int);
                assert(s2 == s.update(k as int, s.last()).drop_last());
                assert(forall|j: int| 0 <= j < n - 1 && j != ii ==> after[j] == before[j]);
                assert(ii < n - 1 ==> after[ii] == before[n - 1]);
                assert(after[n - 1].topic == before[ii].topic);
                assert(old(self).contains_pair(topic@, listener));
                assert(forall|j: int| 0 <= j < n && before[j].topic@ == topic@ ==> j == ii);
                assert(final(self).wf()) by {
                    assert forall|a: int, b: int|
                        0 <= a < b < n implies after[a].topic@ != after[b].topic@ by {
                        assert(after[n - 1].topic@ == before[ii].topic@);
                        if ii < n - 1 {
                            assert(after[ii].topic@ == before[n - 1].topic@);
                        }
                    }
                }
                assert forall|t: TopicModel, l: u64|
                    final(self).contains_pair(t, l) <==> (old(self).contains_pair(t, l) && !(t
                        == topic@ && l == listener)) by {
                    if final(self).contains_pair(t, l) {
                        let j = choose|j: int|
                            0 <= j < n && after[j].topic@ == t && after[j].listeners@.contains(l);
                        if j == n - 1 {
                            assert(s.contains(l) && l != listener);
                            assert(before[ii].topic@ == t && before[ii].listeners@.contains(l));
                        } else if j == ii {
                            assert(ii < n - 1);
                            assert(before[n - 1].topic@ == t && before[n - 1].listeners@.contains(
                                l,
                            ));
                            assert(t != topic@);
                        } else {
                            assert(before[j].topic@ == t && before[j].listeners@.contains(l));
                            assert(t != topic@);
                        }
                    }
                    if old(self).contains_pair(t, l) && !(t == topic@ && l == listener) {
                        let j = choose|j: int|
                            0 <= j < n && before[j].topic@ == t && before[j].listeners@.contains(
                                l,
                            );
                        if j == ii {
                            assert(t == topic@ && l != listener);
                            assert(s2.contains(l));
                            assert(after[n - 1].topic@ == t && after[n - 1].listeners@.contains(
                                l,
                            ));
                        } else if j == n - 1 {
                            assert(ii < n - 1);
                            assert(after[ii].topic@ == t && after[ii].listeners@.contains(l));
                        } else {
                            assert(after[j].topic@ == t && after[j].listeners@.contains(l));
                        }
                    }
                }
                assert forall|t: TopicModel|
                    final(self).has_topic(t) <==> (old(self).has_topic(t) && (t != topic@
                        || exists|l2: u64| l2 != listener && old(self).contains_pair(t, l2))) by {
                    if final(self).has_topic(t) {
                        let j = choose|j: int| 0 <= j < n && after[j].topic@ == t;
                        if j == n - 1 {
                            assert(before[ii].topic@ == t);
                            if t == topic@ {
                                assert(s2.len() > 0);
                                let l2 = s2[0];
                                assert(s2.contains(s2[0]));
                                assert(s.contains(l2) && l2 != listener);
                                assert(old(self).contains_pair(t, l2));
                            }
                        } else if j == ii {
                            assert(ii < n - 1);
                            assert(before[n - 1].topic@ == t);
                        } else {
                            assert(before[j].topic@ == t);
                        }
                    }
                    if old(self).has_topic(t) {
                        let j = choose|j: int| 0 <= j < n && before[j].topic@ == t;
                        if j == ii {
                            assert(after[n - 1].topic@ == t);
                        } else if j == n - 1 {
                            assert(ii < n - 1);
                            assert(after[ii].topic@ == t);
                        } else {
                            assert(after[j].topic@ == t);
                        }
                    }
                }
            }
            Ok(())
        }
    }

    /// A snapshot of the listeners registered for the topic. Fails with
    /// `NotFound` exactly when no listener is registered for it: a normal,
    /// frequent outcome for the dispatch path, not a system error.
    pub fn listeners_for(&self, topic: &Topic) -> (r: Result<Vec<u64>, Status>)
        requires
            self.wf(),
        ensures
            r is Ok <==> self.has_topic(topic@),
            r matches Ok(v) ==> v@.len() > 0 && distinct_seq(v@) && (forall|l: u64|
                v@.contains(l) <==> self.contains_pair(topic@, l)),
            r matches Err(s) ==> s.code == Code::NotFound,
    {
        match self.find(topic) {
            Some(i) => {
                let v = vstd::slice::slice_to_vec(self.entries[i].listeners.as_slice());
                proof {
                    let ii = i as int;
                    assert(forall|j: int|
                        0 <= j < self.entries@.len() && self.entries@[j].topic@ == topic@ ==> j
                            == ii);
                    assert forall|l: u64|
                        v@.contains(l) <==> self.contains_pair(topic@, l) by {
                        if v@.contains(l) {
                            assert(self.entries@[ii].listeners@.contains(l));
                        }
                        if self.contains_pair(topic@, l) {
                            let j = choose|j: int|
                                0 <= j < self.entries@.len() && self.entries@[j].topic@ == topic@
                                    && self.entries@[j].listeners@.contains(l);
                            assert(j == ii);
                        }
                    }
                }
                Ok(v)
            },
            None => Err(Status::fail_with_code(
                Code::NotFound,
                "no listeners registered for topic",
            )),
        }
    }
}

/// A listener registered for a topic appears exactly once in the topic's
/// snapshot: at least one position holds it, and no two positions do.
pub proof fn lemma_registered_exactly_once(v: Seq<u64>, l: u64)
    requires
        distinct_seq(v),
        v.contains(l),
    ensures
        exists|i: int| 0 <= i < v.len() && v[i] == l,
        forall|i: int, j: int|
            0 <= i < v.len() && 0 <= j < v.len() && v[i] == l && v[j] == l ==> i == j,
{
}

/// Registering a pair a second time must fail: after a successful
/// registration of `(t, l)` — whose outcome on the registry is stated by
/// `register`'s postcondition, repeated here as the premise — the pair is
/// present, and `register` returns `AlreadyExists` on any registry that
/// holds the pair.
pub proof fn lemma_register_uniqueness(r0: Registry, r1: Registry, t: TopicModel, l: u64)
    requires
        forall|t2: TopicModel, l2: u64|
            r1.contains_pair(t2, l2) <==> (r0.contains_pair(t2, l2) || (t2 == t && l2 == l)),
    ensures
        r1.contains_pair(t, l),
{
    assert(r0.contains_pair(t, l) || (t == t && l == l));
}

/// Removing the only listener of a topic removes the topic itself: after a
/// successful unregistration of `(t, l)` — whose outcome on the registry is
/// stated by `unregister`'s postcondition, repeated here as the premise —
/// from a registry where `l` was the only listener for `t`, the topic has
/// no entry, so a later lookup reports `NotFound`.
pub proof fn lemma_prune_on_empty(r0: Registry, r1: Registry, t: TopicModel, l: u64)
    requires
        forall|l2: u64| r0.contains_pair(t, l2) ==> l2 == l,
        forall|t2: TopicModel|
            r1.has_topic(t2) <==> (r0.has_topic(t2) && (t2 != t || exists|l2: u64|
                l2 != l && r0.contains_pair(t2, l2))),
    ensures
        !r1.has_topic(t),
{
    if r1.has_topic(t) {
        let l2 = choose|l2: u64| l2 != l && r0.contains_pair(t, l2);
        assert(r0.contains_pair(t, l2));
    }
}

/// True when the vector holds the listener.
fn contains_listener(v: &Vec<u64>, l: u64) -> (r: bool)
    ensures
        r == v@.contains(l),
{
    let n = v.len();
    let mut i: usize = 0;
    while i < n
        invariant
            n == v@.len(),
            i <= n,
            forall|j: int| 0 <= j < i ==> v@[j] != l,
        decreases n - i,
    {
        if v[i] == l {
            return true;
        }
        i = i + 1;
    }
    false
}

/// The position of the listener in the vector, if it is present.
fn position_of(v: &Vec<u64>, l: u64) -> (r: Option<usize>)
    ensures
        match r {
            Some(k) => k < v@.len() && v@[k as int] == l,
            None => !v@.contains(l),
        },
{
    let n = v.len();
    let mut i: usize = 0;
    while i < n
        invariant
            n == v@.len(),
            i <= n,
            forall|j: int| 0 <= j < i ==> v@[j] != l,
        decreases n - i,
    {
        if v[i] == l {
            return Some(i);
        }
        i = i + 1;
    }
    None
}

/// Taking the element at index `k` out of a duplicate-free sequence by a
/// swap with the last element removes exactly that element's value.
proof fn lemma_swap_removed(s: Seq<u64>, k: int)
    requires
        distinct_seq(s),
        0 <= k < s.len(),
    ensures
        distinct_seq(s.update(k, s.last()).drop_last()),
        forall|l: u64|
            s.update(k, s.last()).drop_last().contains(l) <==> (s.contains(l) && l != s[k]),
{
    let n = s.len() as int;
    let s2 = s.update(k, s.last()).drop_last();
    assert forall|l: u64| s2.contains(l) <==> (s.contains(l) && l != s[k]) by {
        if s2.contains(l) {
            let j = choose|j: int| 0 <= j < s2.len() && s2[j] == l;
            if j == k {
                assert(s[n - 1] == l);
                assert(k < n - 1 ==> s[k] != s[n - 1]);
            } else {
                assert(s[j] == l);
                assert(s[j] != s[k] || j == k);
            }
        }
        if s.contains(l) && l != s[k] {
            let m = choose|m: int| 0 <= m < s.len() && s[m] == l;
            assert(m != k);
            if m == n - 1 {
                assert(k != n - 1);
                assert(s2[k] == l);
            } else {
                assert(s2[m] == l);
            }
        }
    }
}

/// After the entry at index `i` is taken out, given one more listener, and
/// put back at the end, a pair is present exactly when it was present
/// before or is the new pair of that entry's topic.
proof fn lemma_grown_entry(
    before: Seq<Entry>,
    after: Seq<Entry>,
    i: int,
    listener: u64,
    t: TopicModel,
    l: u64,
)
    requires
        0 <= i < before.len(),
        after.len() == before.len(),
        forall|j: int| 0 <= j < before.len() - 1 && j != i ==> after[j] == before[j],
        i < before.len() - 1 ==> after[i] == before[before.len() - 1],
        after[before.len() - 1].topic == before[i].topic,
        after[before.len() - 1].listeners@ == before[i].listeners@.push(listener),
    ensures
        (exists|j: int|
            0 <= j < after.len() && after[j].topic@ == t && after[j].listeners@.contains(l))
            <==> ((exists|j: int|
            0 <= j < before.len() && before[j].topic@ == t && before[j].listeners@.contains(l))
            || (t == before[i].topic@ && l == listener)),
{
    let n = before.len() as int;
    if exists|j: int|
        0 <= j < before.len() && before[j].topic@ == t && before[j].listeners@.contains(l) {
        let j = choose|j: int|
            0 <= j < n && before[j].topic@ == t && before[j].listeners@.contains(l);
        if j == i {
            let k = choose|k: int|
                0 <= k < before[i].listeners@.len() && before[i].listeners@[k] == l;
            assert(after[n - 1].listeners@[k] == l);
            assert(after[n - 1].topic@ == t && after[n - 1].listeners@.contains(l));
        } else if j == n - 1 {
            if i < n - 1 {
                assert(after[i].topic@ == t && after[i].listeners@.contains(l));
            } else {
                assert(after[n - 1].topic@ == t);
                let k = choose|k: int|
                    0 <= k < before[j].listeners@.len() && before[j].listeners@[k] == l;
                assert(after[n - 1].listeners@[k] == l);
            }
        } else {
            assert(after[j].topic@ == t && after[j].listeners@.contains(l));
        }
    }
    if t == before[i].topic@ && l == listener {
        let len = before[i].listeners@.len() as int;
        assert(after[n - 1].listeners@[len] == listener);
        assert(after[n - 1].topic@ == t && after[n - 1].listeners@.contains(l));
    }
    if exists|j: int|
        0 <= j < after.len() && after[j].topic@ == t && after[j].listeners@.contains(l) {
        let j = choose|j: int|
            0 <= j < n && after[j].topic@ == t && after[j].listeners@.contains(l);
        if j == n - 1 {
            let k = choose|k: int|
                0 <= k < after[j].listeners@.len() && after[j].listeners@[k] == l;
            if k < before[i].listeners@.len() {
                assert(before[i].listeners@[k] == l);
                assert(before[i].topic@ == t && before[i].listeners@.contains(l));
            } else {
                assert(l == listener && t == before[i].topic@);
            }
        } else if j == i {
            assert(i < n - 1 ==> before[n - 1].topic@ == t && before[n - 1].listeners@.contains(
                l,
            ));
        } else {
            assert(before[j].topic@ == t && before[j].listeners@.contains(l));
        }
    }
}

} // verus!
