//! Declarative state-machine compiler.
//!
//! A machine description is data: the context binding, the declared state
//! and event names, and the transitions, each naming an event and a
//! `from => to` pair of states. Compiling validates that the context is
//! bound and that every name a transition references resolves to a declared
//! one, then freezes the result into a transition-set table over name
//! indices. An invalid description never yields a table; validation fails on
//! the first unresolved name, so a refusal pinpoints the offending entry.

use vstd::prelude::*;

verus! {

/// One declared transition: on `event`, state `from` may move to state
/// `to`. Several entries with the same (event, from) accumulate into one
/// destination set, standing for a runtime-decided branch.
#[derive(Debug)]
pub struct TransitionDef {
    pub event: String,
    pub from: String,
    pub to: String,
}

/// A whole machine description, as the declarative surface states it:
/// `Context = <type>;`, `States { name, ... }`, `Events { name, ... }`,
/// `Transitions { event [ from => to, ... ], ... }`.
#[derive(Debug)]
pub struct MachineDef {
    /// The context binding: the single type name shared by all hooks.
    /// Mandatory; an empty binding is refused.
    pub context: String,
    /// Declared state names, in declaration order.
    pub states: Vec<String>,
    /// Declared event names, in declaration order.
    pub events: Vec<String>,
    /// Declared transitions, in declaration order.
    pub transitions: Vec<TransitionDef>,
}

/// Why a machine description was refused. The payload is the position of
/// the offending transition in the declaration.
#[derive(Clone, Copy, Debug, Eq, PartialEq, Structural)]
pub enum CompileError {
    /// The context binding is empty; it must name exactly one type.
    MissingContext,
    /// The transition names an event that no `Events` entry declares.
    UnresolvedEvent(usize),
    /// The transition's source names a state that no `States` entry
    /// declares.
    UnresolvedFromState(usize),
    /// The transition's destination names a state that no `States` entry
    /// declares.
    UnresolvedToState(usize),
}

/// The index of the first occurrence of `name` among `names` at position
/// `start` or later, if any.
pub open spec fn find_name_from(names: Seq<Seq<char>>, name: Seq<char>, start: int) -> Option<int>
    decreases names.len() - start,
{
    if start < 0 || start >= names.len() {
        None
    } else if names[start] == name {
        Some(start)
    } else {
        find_name_from(names, name, start + 1)
    }
}

/// The index of the first occurrence of `name` among `names`, if any.
pub open spec fn find_name(names: Seq<Seq<char>>, name: Seq<char>) -> Option<int> {
    find_name_from(names, name, 0)
}

proof fn lemma_find_name_from_in_range(names: Seq<Seq<char>>, name: Seq<char>, start: int)
    requires
        0 <= start,
    ensures
        find_name_from(names, name, start) is Some ==> start <= find_name_from(
            names,
            name,
            start,
        ).unwrap() < names.len(),
        find_name_from(names, name, start) is Some ==> names[find_name_from(
            names,
            name,
            start,
        ).unwrap()] == name,
    decreases names.len() - start,
{
    if start < names.len() && names[start] != name {
        lemma_find_name_from_in_range(names, name, start + 1);
    }
}

/// A found name sits inside the list and reads back as itself.
pub proof fn lemma_find_name_in_range(names: Seq<Seq<char>>, name: Seq<char>)
    ensures
        find_name(names, name) is Some ==> 0 <= find_name(names, name).unwrap() < names.len(),
        find_name(names, name) is Some ==> names[find_name(names, name).unwrap()] == name,
{
    lemma_find_name_from_in_range(names, name, 0);
}

proof fn lemma_find_name_from_first(names: Seq<Seq<char>>, name: Seq<char>, start: int, i: int)
    requires
        0 <= start <= i <= names.len(),
        forall|j: int| start <= j < i ==> names[j] != name,
        i < names.len() ==> names[i] == name,
    ensures
        find_name_from(names, name, start) == (if i < names.len() {
            Some(i)
        } else {
            None::<int>
        }),
    decreases i - start,
{
    if start < i {
        lemma_find_name_from_first(names, name, start + 1, i);
    }
}

/// `find_name` returns exactly the first occurrence: if everything before
/// `i` differs from `name`, the search ends at `i` — or fails, when `i` is
/// the end of the list.
pub proof fn lemma_find_name_first(names: Seq<Seq<char>>, name: Seq<char>, i: int)
    requires
        0 <= i <= names.len(),
        forall|j: int| 0 <= j < i ==> names[j] != name,
        i < names.len() ==> names[i] == name,
    ensures
        find_name(names, name) == (if i < names.len() {
            Some(i)
        } else {
            None::<int>
        }),
{
    lemma_find_name_from_first(names, name, 0, i);
}

/// Resolve `name` against a list of declared names: the index of its first
/// occurrence, or nothing when it is not declared.
fn resolve(names: &Vec<String>, name: &String) -> (r: Option<usize>)
    ensures
        r is Some ==> find_name(names.deep_view(), name@) == Some(r.unwrap() as int),
        r is None ==> find_name(names.deep_view(), name@) is None,
{
    let ghost views = names.deep_view();
    let mut i: usize = 0;
    while i < names.len()
        invariant
            i <= names@.len(),
            views == names.deep_view(),
            forall|j: int| 0 <= j < i ==> views[j] != name@,
        decreases names@.len() - i,
    {
        if names[i].eq(name) {
            proof {
                lemma_find_name_first(views, name@, i as int);
            }
            return Some(i);
        }
        i = i + 1;
    }
    proof {
        lemma_find_name_first(views, name@, names@.len() as int);
    }
    None
}

/// The frozen transition-set table: the declared counts and the resolved
/// (from, event, to) index triples, immutable once compiled.
#[derive(Debug)]
pub struct TransitionTable {
    n_states: usize,
    n_events: usize,
    triples: Vec<(usize, usize, usize)>,
}

impl TransitionTable {
    /// How many states the compiled declaration has.
    pub closed spec fn spec_state_count(self) -> int {
        self.n_states as int
    }

    /// How many events the compiled declaration has.
    pub closed spec fn spec_event_count(self) -> int {
        self.n_events as int
    }

    /// The resolved (from, event, to) index triples, in declaration order.
    pub closed spec fn spec_triples(self) -> Seq<(int, int, int)> {
        Seq::new(
            self.triples@.len(),
            |j: int|
                (
                    self.triples@[j].0 as int,
                    self.triples@[j].1 as int,
                    self.triples@[j].2 as int,
                ),
        )
    }

    /// Every triple's indices point into the declared states and events.
    pub open spec fn wf(self) -> bool {
        forall|j: int|
            0 <= j < self.spec_triples().len() ==> {
                let t = #[trigger] self.spec_triples()[j];
                &&& 0 <= t.0 < self.spec_state_count()
                &&& 0 <= t.1 < self.spec_event_count()
                &&& 0 <= t.2 < self.spec_state_count()
            }
    }

    /// How many states the compiled declaration has.
    pub fn state_count(&self) -> (n: usize)
        ensures
            n as int == self.spec_state_count(),
    {
        self.n_states
    }

    /// How many events the compiled declaration has.
    pub fn event_count(&self) -> (n: usize)
        ensures
            n as int == self.spec_event_count(),
    {
        self.n_events
    }

    /// How many transitions the table lists.
    pub fn transition_count(&self) -> (n: usize)
        ensures
            n as int == self.spec_triples().len(),
    {
        self.triples.len()
    }

    /// Whether the table lists the triple (`from`, `event` => `to`).
    pub fn allows(&self, from: usize, event: usize, to: usize) -> (b: bool)
        ensures
            b == self.spec_triples().contains((from as int, event as int, to as int)),
    {
        let mut i: usize = 0;
        while i < self.triples.len()
            invariant
                i <= self.triples@.len(),
                forall|k: int|
                    0 <= k < i ==> self.spec_triples()[k] != (
                        from as int,
                        event as int,
                        to as int,
                    ),
            decreases self.triples@.len() - i,
        {
            let t = self.triples[i];
            if t.0 == from && t.1 == event && t.2 == to {
                proof {
                    assert(self.spec_triples()[i as int] == (from as int, event as int, to as int));
                }
                return true;
            }
            i = i + 1;
        }
        false
    }

    /// Whether the table declares any destination for (`from`, `event`).
    pub fn has_pair(&self, from: usize, event: usize) -> (b: bool)
        ensures
            b == exists|to: int|
                #[trigger] self.spec_triples().contains((from as int, event as int, to)),
    {
        let mut i: usize = 0;
        while i < self.triples.len()
            invariant
                i <= self.triples@.len(),
                forall|k: int|
                    0 <= k < i ==> !((#[trigger] self.spec_triples()[k]).0 == from
                        && self.spec_triples()[k].1 == event),
            decreases self.triples@.len() - i,
        {
            let t = self.triples[i];
            if t.0 == from && t.1 == event {
                proof {
                    assert(self.spec_triples().contains(
                        (from as int, event as int, t.2 as int),
                    )) by {
                        assert(self.spec_triples()[i as int] == (
                            from as int,
                            event as int,
                            t.2 as int,
                        ));
                    }
                }
                return true;
            }
            i = i + 1;
        }
        proof {
            if exists|to: int|
                #[trigger] self.spec_triples().contains((from as int, event as int, to)) {
                let to = choose|to: int|
                    #[trigger] self.spec_triples().contains((from as int, event as int, to));
                let k = choose|k: int|
                    0 <= k < self.spec_triples().len() && self.spec_triples()[k] == (
                        from as int,
                        event as int,
                        to,
                    );
                assert(self.spec_triples()[k].0 == from && self.spec_triples()[k].1 == event);
            }
        }
        false
    }
}

impl MachineDef {
    /// The declared state names, as the specification sees them.
    pub open spec fn state_names(self) -> Seq<Seq<char>> {
        self.states.deep_view()
    }

    /// The declared event names, as the specification sees them.
    pub open spec fn event_names(self) -> Seq<Seq<char>> {
        self.events.deep_view()
    }

    /// Whether all three names of transition `j` resolve to declared ones.
    pub open spec fn transition_resolves(self, j: int) -> bool {
        &&& find_name(self.event_names(), self.transitions@[j].event@) is Some
        &&& find_name(self.state_names(), self.transitions@[j].from@) is Some
        &&& find_name(self.state_names(), self.transitions@[j].to@) is Some
    }

    /// The (from, event, to) index triple transition `j` compiles to.
    pub open spec fn triple_of(self, j: int) -> (int, int, int) {
        (
            find_name(self.state_names(), self.transitions@[j].from@).unwrap(),
            find_name(self.event_names(), self.transitions@[j].event@).unwrap(),
            find_name(self.state_names(), self.transitions@[j].to@).unwrap(),
        )
    }

    /// Compile the description into a transition-set table.
    ///
    /// Succeeds exactly when the context is bound and every name every
    /// transition references is declared; the table then holds one resolved
    /// index triple per transition, in declaration order. Otherwise the
    /// first offence is reported: a missing context before anything else,
    /// and for each transition its event, source and destination in that
    /// order.
    pub fn compile(&self) -> (r: Result<TransitionTable, CompileError>)
        ensures
            match r {
                Ok(table) => {
                    &&& self.context@.len() > 0
                    &&& forall|j: int|
                        0 <= j < self.transitions@.len() ==> self.transition_resolves(j)
                    &&& table.wf()
                    &&& table.spec_state_count() == self.states@.len()
                    &&& table.spec_event_count() == self.events@.len()
                    &&& table.spec_triples().len() == self.transitions@.len()
                    &&& forall|j: int|
                        0 <= j < self.transitions@.len() ==> #[trigger] table.spec_triples()[j]
                            == self.triple_of(j)
                },
                Err(CompileError::MissingContext) => self.context@.len() == 0,
                Err(CompileError::UnresolvedEvent(j)) => {
                    &&& self.context@.len() > 0
                    &&& 0 <= j < self.transitions@.len()
                    &&& forall|k: int| 0 <= k < j ==> self.transition_resolves(k)
                    &&& find_name(self.event_names(), self.transitions@[j as int].event@) is None
                },
                Err(CompileError::UnresolvedFromState(j)) => {
                    &&& self.context@.len() > 0
                    &&& 0 <= j < self.transitions@.len()
                    &&& forall|k: int| 0 <= k < j ==> self.transition_resolves(k)
                    &&& find_name(self.event_names(), self.transitions@[j as int].event@) is Some
                    &&& find_name(self.state_names(), self.transitions@[j as int].from@) is None
                },
                Err(CompileError::UnresolvedToState(j)) => {
                    &&& self.context@.len() > 0
                    &&& 0 <= j < self.transitions@.len()
                    &&& forall|k: int| 0 <= k < j ==> self.transition_resolves(k)
                    &&& find_name(self.event_names(), self.transitions@[j as int].event@) is Some
                    &&& find_name(self.state_names(), self.transitions@[j as int].from@) is Some
                    &&& find_name(self.state_names(), self.transitions@[j as int].to@) is None
                },
            },
    {
        let empty = String::new();
        if self.context.eq(&empty) {
            proof {
                assert(self.context@ =~= Seq::<char>::empty());
            }
            return Err(CompileError::MissingContext);
        }
        proof {
            if self.context@.len() == 0 {
                assert(self.context@ =~= Seq::<char>::empty());
            }
        }
        let mut triples: Vec<(usize, usize, usize)> = Vec::new();
        let mut j: usize = 0;
        while j < self.transitions.len()
            invariant
                self.context@.len() > 0,
                j <= self.transitions@.len(),
                triples@.len() == j,
                forall|k: int| 0 <= k < j ==> self.transition_resolves(k),
                forall|k: int|
                    0 <= k < j ==> ((#[trigger] triples@[k]).0 as int, triples@[k].1 as int,
                    triples@[k].2 as int) == self.triple_of(k),
                forall|k: int|
                    0 <= k < j ==> (#[trigger] triples@[k]).0 < self.states@.len()
                        && triples@[k].1 < self.events@.len() && triples@[k].2
                        < self.states@.len(),
            decreases self.transitions@.len() - j,
        {
            let event = match resolve(&self.events, &self.transitions[j].event) {
                Some(i) => i,
                None => {
                    return Err(CompileError::UnresolvedEvent(j));
                },
            };
            let from = match resolve(&self.states, &self.transitions[j].from) {
                Some(i) => i,
                None => {
                    return Err(CompileError::UnresolvedFromState(j));
                },
            };
            let to = match resolve(&self.states, &self.transitions[j].to) {
                Some(i) => i,
                None => {
                    return Err(CompileError::UnresolvedToState(j));
                },
            };
            proof {
                lemma_find_name_in_range(self.event_names(), self.transitions@[j as int].event@);
                lemma_find_name_in_range(self.state_names(), self.transitions@[j as int].from@);
                lemma_find_name_in_range(self.state_names(), self.transitions@[j as int].to@);
            }
            triples.push((from, event, to));
            j = j + 1;
        }
        let table = TransitionTable {
            n_states: self.states.len(),
            n_events: self.events.len(),
            triples,
        };
        proof {
            assert forall|k: int| 0 <= k < self.transitions@.len()
                implies #[trigger] table.spec_triples()[k] == self.triple_of(k) by {}
        }
        Ok(table)
    }
}

} // verus!
