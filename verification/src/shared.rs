//! The coordination state that the log workers, the discovery poller and the
//! dashboard share: the run flag, the pods that have a worker, the pods that
//! the user closed, and the pattern list.
//!
//! The state is a plain value. Whoever shares it between threads guards it
//! with a lock; each method is one short critical section.

use crate::pattern::{Matcher, MatcherModel};
use vstd::hash_map::StringHashMap;
use vstd::prelude::*;

verus! {

/// A set of pod keys.
pub struct KeySet {
    map: StringHashMap<bool>,
}

impl View for KeySet {
    type V = Set<Seq<char>>;

    closed spec fn view(&self) -> Set<Seq<char>> {
        self.map@.dom()
    }
}

impl KeySet {
    /// The empty set.
    pub fn new() -> (set: KeySet)
        ensures
            set@ == Set::<Seq<char>>::empty(),
    {
        let set = KeySet { map: StringHashMap::new() };
        set
    }

    /// Whether `key` is in the set.
    pub fn contains(&self, key: &str) -> (b: bool)
        ensures
            b == self@.contains(key@),
    {
        self.map.contains_key(key)
    }

    /// Adds `key`. Returns whether it was new.
    pub fn insert(&mut self, key: String) -> (fresh: bool)
        ensures
            final(self)@ == old(self)@.insert(key@),
            fresh == !old(self)@.contains(key@),
    {
        let fresh = !self.map.contains_key(key.as_str());
        self.map.insert(key, true);
        fresh
    }

    /// Takes `key` out of the set.
    pub fn remove(&mut self, key: &str)
        ensures
            final(self)@ == old(self)@.remove(key@),
    {
        self.map.remove(key);
    }

    /// The number of keys.
    pub fn len(&self) -> (n: usize)
        ensures
            n == self@.len(),
    {
        self.map.len()
    }

    /// Whether the set holds no key.
    pub fn is_empty(&self) -> (b: bool)
        ensures
            b == (self@ == Set::<Seq<char>>::empty()),
    {
        let b = self.map.is_empty();
        b
    }
}

/// What the shared state holds, as mathematical values.
pub struct RegistryModel {
    pub err_only: bool,
    pub running: bool,
    /// The pods that have a worker.
    pub active: Set<Seq<char>>,
    /// The pods that the user closed.
    pub closed: Set<Seq<char>>,
    pub patterns: Seq<MatcherModel>,
}

/// An operation on the shared state.
pub enum RegistryOp {
    /// A discovery saw the pod and asks for a worker.
    Activate(Seq<char>),
    /// The user closed the pod's pane.
    Close(Seq<char>),
    /// The pod's worker ended.
    Deactivate(Seq<char>),
    /// The user added a pattern.
    AddPattern(MatcherModel),
    /// The user quit.
    Stop,
}

impl RegistryModel {
    /// Whether a worker may start for `key`: it has none and was not closed.
    pub open spec fn may_activate(self, key: Seq<char>) -> bool {
        !self.active.contains(key) && !self.closed.contains(key)
    }

    /// The state after a request to start a worker for `key`.
    pub open spec fn activate(self, key: Seq<char>) -> RegistryModel {
        if self.may_activate(key) {
            RegistryModel { active: self.active.insert(key), ..self }
        } else {
            self
        }
    }

    /// The state after the user closed `key`.
    pub open spec fn close(self, key: Seq<char>) -> RegistryModel {
        RegistryModel {
            active: self.active.remove(key),
            closed: self.closed.insert(key),
            ..self
        }
    }

    /// The state after the worker of `key` ended.
    pub open spec fn deactivate(self, key: Seq<char>) -> RegistryModel {
        RegistryModel { active: self.active.remove(key), ..self }
    }

    /// The state with one more pattern at the end of the list.
    pub open spec fn add_pattern(self, m: MatcherModel) -> RegistryModel {
        RegistryModel { patterns: self.patterns.push(m), ..self }
    }

    /// The state after the user quit.
    pub open spec fn stop(self) -> RegistryModel {
        RegistryModel { running: false, ..self }
    }

    /// The state after `op`.
    pub open spec fn apply(self, op: RegistryOp) -> RegistryModel {
        match op {
            RegistryOp::Activate(key) => self.activate(key),
            RegistryOp::Close(key) => self.close(key),
            RegistryOp::Deactivate(key) => self.deactivate(key),
            RegistryOp::AddPattern(m) => self.add_pattern(m),
            RegistryOp::Stop => self.stop(),
        }
    }

    /// The state after each of `ops` in turn.
    pub open spec fn apply_all(self, ops: Seq<RegistryOp>) -> RegistryModel
        decreases ops.len(),
    {
        if ops.len() == 0 {
            self
        } else {
            self.apply(ops[0]).apply_all(ops.drop_first())
        }
    }

    /// Whether `key` was closed and has no worker.
    pub open spec fn retired(self, key: Seq<char>) -> bool {
        self.closed.contains(key) && !self.active.contains(key)
    }
}

/// A closed pod stays closed and gets no worker again, whatever happens
/// afterwards: once `close(key)` ran, no sequence of operations puts `key`
/// back into the active set.
pub proof fn law_closed_pod_never_reactivated(
    state: RegistryModel,
    key: Seq<char>,
    later: Seq<RegistryOp>,
)
    ensures
        state.close(key).retired(key),
        state.close(key).apply_all(later).retired(key),
{
    lemma_retired_is_stable(state.close(key), key, later);
}

/// A retired key stays retired under every sequence of operations.
pub proof fn lemma_retired_is_stable(state: RegistryModel, key: Seq<char>, ops: Seq<RegistryOp>)
    requires
        state.retired(key),
    ensures
        state.apply_all(ops).retired(key),
    decreases ops.len(),
{
    if ops.len() > 0 {
        lemma_retired_is_stable(state.apply(ops[0]), key, ops.drop_first());
    }
}

/// The texts and kinds of `regexes`.
pub open spec fn models_of(regexes: Seq<Matcher>) -> Seq<MatcherModel> {
    Seq::new(regexes.len(), |i: int| regexes[i]@)
}

/// The state shared by the workers, the poller and the dashboard.
pub struct SharedState {
    pub err_only: bool,
    pub running: bool,
    pub active_pods: KeySet,
    pub closed_pods: KeySet,
    pub regexes: Vec<Matcher>,
}

impl View for SharedState {
    type V = RegistryModel;

    open spec fn view(&self) -> RegistryModel {
        RegistryModel {
            err_only: self.err_only,
            running: self.running,
            active: self.active_pods@,
            closed: self.closed_pods@,
            patterns: models_of(self.regexes@),
        }
    }
}

impl SharedState {
    /// A running state without pods, with the patterns given.
    pub fn new(err_only: bool, initial_regexes: Vec<Matcher>) -> (state: SharedState)
        ensures
            state@ == (RegistryModel {
                err_only,
                running: true,
                active: Set::<Seq<char>>::empty(),
                closed: Set::<Seq<char>>::empty(),
                patterns: models_of(initial_regexes@),
            }),
    {
        SharedState {
            err_only,
            running: true,
            active_pods: KeySet::new(),
            closed_pods: KeySet::new(),
            regexes: initial_regexes,
        }
    }

    /// Appends `regex` to the pattern list and returns its index.
    pub fn add_regex(&mut self, regex: Matcher) -> (index: usize)
        ensures
            final(self)@ == old(self)@.add_pattern(regex@),
            index == old(self)@.patterns.len(),
    {
        let index = self.regexes.len();
        self.regexes.push(regex);
        assert(models_of(self.regexes@) =~= models_of(old(self).regexes@).push(regex@));
        index
    }

    /// A copy of the pattern list, in order.
    pub fn clone_regexes(&self) -> (copy: Vec<Matcher>)
        ensures
            models_of(copy@) == self@.patterns,
    {
        let mut copy: Vec<Matcher> = Vec::new();
        let mut i: usize = 0;
        while i < self.regexes.len()
            invariant
                i <= self.regexes.len(),
                copy@.len() == i,
                forall|j: int| 0 <= j < i ==> copy@[j]@ == self.regexes@[j]@,
            decreases self.regexes.len() - i,
        {
            copy.push(self.regexes[i].duplicate());
            i += 1;
        }
        copy
    }

    /// Registers a worker for `key`, unless the pod has one or was closed.
    /// Returns whether the caller is to start the worker.
    pub fn try_activate(&mut self, key: &str) -> (started: bool)
        ensures
            started == old(self)@.may_activate(key@),
            final(self)@ == old(self)@.activate(key@),
    {
        if self.closed_pods.contains(key) || self.active_pods.contains(key) {
            return false;
        }
        let _ = self.active_pods.insert(key.to_owned());
        true
    }

    /// Marks `key` as closed by the user: it leaves the active set and is
    /// never activated again.
    pub fn close(&mut self, key: &str)
        ensures
            final(self)@ == old(self)@.close(key@),
    {
        self.active_pods.remove(key);
        let _ = self.closed_pods.insert(key.to_owned());
    }

    /// Records that the worker of `key` ended.
    pub fn deactivate(&mut self, key: &str)
        ensures
            final(self)@ == old(self)@.deactivate(key@),
    {
        self.active_pods.remove(key);
    }

    /// Clears the run flag.
    pub fn stop(&mut self)
        ensures
            final(self)@ == old(self)@.stop(),
    {
        self.running = false;
    }

    /// Whether the worker of `key` is to go on: the run flag is set and the
    /// pod was not closed.
    pub fn is_live(&self, key: &str) -> (live: bool)
        ensures
            live == (self@.running && !self@.closed.contains(key@)),
    {
        self.running && !self.closed_pods.contains(key)
    }
}

} // verus!
