//! The table of global key bindings: sequences of keys bound to actions,
//! one table for each mode.

use vstd::prelude::*;
use crate::action::{Action, ActionView};
use crate::key::KeyEvent;
use crate::state::Mode;

verus! {

/// One binding: the keys to press, in order, and the action they stand for.
#[derive(Debug, Clone, PartialEq, Eq)]
pub struct Binding {
    pub keys: Vec<KeyEvent>,
    pub action: Action,
}

/// A [`Binding`] in contracts.
pub struct BindingView {
    pub keys: Seq<KeyEvent>,
    pub action: ActionView,
}

impl View for Binding {
    type V = BindingView;

    open spec fn view(&self) -> BindingView {
        BindingView { keys: self.keys@, action: self.action@ }
    }
}

/// The views of a vector of bindings.
pub open spec fn binding_views(bindings: Seq<Binding>) -> Seq<BindingView> {
    bindings.map_values(|binding: Binding| binding@)
}

/// Whether no key sequence is bound twice.
pub open spec fn distinct_keys(bindings: Seq<BindingView>) -> bool {
    forall|i: int, j: int|
        0 <= i < j < bindings.len() ==> (#[trigger] bindings[i]).keys != (#[trigger] bindings[j]).keys
}

/// The mapping that a list of bindings stands for.
pub open spec fn bound(bindings: Seq<BindingView>) -> Map<Seq<KeyEvent>, ActionView>
    decreases bindings.len(),
{
    if bindings.len() == 0 {
        Map::empty()
    } else {
        bound(bindings.drop_last()).insert(bindings.last().keys, bindings.last().action)
    }
}

/// A key sequence that no binding holds is not bound.
pub proof fn lemma_unbound(bindings: Seq<BindingView>, keys: Seq<KeyEvent>)
    requires
        forall|i: int| 0 <= i < bindings.len() ==> (#[trigger] bindings[i]).keys != keys,
    ensures
        !bound(bindings).contains_key(keys),
    decreases bindings.len(),
{
    if bindings.len() > 0 {
        let rest = bindings.drop_last();
        assert forall|i: int| 0 <= i < rest.len() implies (#[trigger] rest[i]).keys != keys by {
            assert(rest[i] == bindings[i]);
        }
        lemma_unbound(rest, keys);
        assert(bindings[bindings.len() - 1].keys != keys);
    }
}

/// Where no key sequence is bound twice, each binding decides what its
/// keys stand for.
pub proof fn lemma_bound_at(bindings: Seq<BindingView>, at: int)
    requires
        distinct_keys(bindings),
        0 <= at < bindings.len(),
    ensures
        bound(bindings).contains_key(bindings[at].keys),
        bound(bindings)[bindings[at].keys] == bindings[at].action,
    decreases bindings.len(),
{
    let rest = bindings.drop_last();
    if at < bindings.len() - 1 {
        assert forall|i: int, j: int| 0 <= i < j < rest.len() implies (#[trigger] rest[i]).keys != (
        #[trigger] rest[j]).keys by {
            assert(rest[i] == bindings[i]);
            assert(rest[j] == bindings[j]);
        }
        lemma_bound_at(rest, at);
        assert(rest[at] == bindings[at]);
        assert(bindings[at].keys != bindings[bindings.len() - 1].keys);
    }
}

/// Giving one binding another action binds its keys to that action and
/// leaves all else as it was.
pub proof fn lemma_bound_update(bindings: Seq<BindingView>, at: int, action: ActionView)
    requires
        distinct_keys(bindings),
        0 <= at < bindings.len(),
    ensures
        distinct_keys(bindings.update(at, BindingView { keys: bindings[at].keys, action })),
        bound(bindings.update(at, BindingView { keys: bindings[at].keys, action })) == bound(
            bindings,
        ).insert(bindings[at].keys, action),
    decreases bindings.len(),
{
    let changed = bindings.update(at, BindingView { keys: bindings[at].keys, action });
    assert forall|i: int, j: int| 0 <= i < j < changed.len() implies (#[trigger] changed[i]).keys
        != (#[trigger] changed[j]).keys by {
        assert(changed[i].keys == bindings[i].keys);
        assert(changed[j].keys == bindings[j].keys);
    }
    let rest = bindings.drop_last();
    let last = bindings.last();
    if at == bindings.len() - 1 {
        assert(changed.drop_last() =~= rest);
        assert(bound(changed) =~= bound(bindings).insert(bindings[at].keys, action));
    } else {
        assert forall|i: int, j: int| 0 <= i < j < rest.len() implies (#[trigger] rest[i]).keys != (
        #[trigger] rest[j]).keys by {
            assert(rest[i] == bindings[i]);
            assert(rest[j] == bindings[j]);
        }
        lemma_bound_update(rest, at, action);
        assert(rest[at] == bindings[at]);
        assert(changed.drop_last() =~= rest.update(
            at,
            BindingView { keys: bindings[at].keys, action },
        ));
        assert(changed.last() == last);
        assert(bindings[at].keys != last.keys);
        assert(bound(changed) =~= bound(bindings).insert(bindings[at].keys, action));
    }
}

/// Whether two key sequences are the same.
pub fn same_keys(a: &Vec<KeyEvent>, b: &Vec<KeyEvent>) -> (same: bool)
    ensures
        same == (a@ == b@),
{
    if a.len() != b.len() {
        return false;
    }
    let mut i: usize = 0;
    while i < a.len()
        invariant
            i <= a.len(),
            a.len() == b.len(),
            forall|j: int| 0 <= j < i ==> a@[j] == b@[j],
        decreases a.len() - i,
    {
        if a[i] != b[i] {
            return false;
        }
        i += 1;
    }
    assert(a@ =~= b@);
    true
}

/// The bindings of one mode. No key sequence is bound twice.
#[derive(Debug, PartialEq, Eq)]
pub struct KeyMap {
    bindings: Vec<Binding>,
}

impl View for KeyMap {
    type V = Map<Seq<KeyEvent>, ActionView>;

    closed spec fn view(&self) -> Map<Seq<KeyEvent>, ActionView> {
        bound(binding_views(self.bindings@))
    }
}

impl KeyMap {
    #[verifier::type_invariant]
    spec fn well_formed(&self) -> bool {
        distinct_keys(binding_views(self.bindings@))
    }

    /// A table that binds nothing.
    pub fn new() -> (map: KeyMap)
        ensures
            map@ == Map::<Seq<KeyEvent>, ActionView>::empty(),
    {
        let map = KeyMap { bindings: Vec::new() };
        assert(binding_views(map.bindings@) =~= Seq::empty());
        map
    }

    /// Where `keys` is bound, if anywhere.
    fn position(&self, keys: &Vec<KeyEvent>) -> (at: Option<usize>)
        ensures
            match at {
                Some(i) => i < self.bindings@.len() && self.bindings@[i as int].keys@ == keys@,
                None => forall|i: int|
                    0 <= i < self.bindings@.len() ==> (#[trigger] self.bindings@[i]).keys@
                        != keys@,
            },
    {
        let mut i: usize = 0;
        while i < self.bindings.len()
            invariant
                i <= self.bindings.len(),
                forall|j: int| 0 <= j < i ==> (#[trigger] self.bindings@[j]).keys@ != keys@,
            decreases self.bindings.len() - i,
        {
            if same_keys(&self.bindings[i].keys, keys) {
                return Some(i);
            }
            i += 1;
        }
        None
    }

    /// The action that `keys` stands for, if it is bound.
    pub fn get(&self, keys: &Vec<KeyEvent>) -> (action: Option<Action>)
        ensures
            match action {
                Some(action) => self@.contains_key(keys@) && self@[keys@] == action@,
                None => !self@.contains_key(keys@),
            },
    {
        proof {
            use_type_invariant(self);
        }
        let ghost views = binding_views(self.bindings@);
        match self.position(keys) {
            Some(i) => {
                proof {
                    lemma_bound_at(views, i as int);
                    assert(views[i as int] == self.bindings@[i as int]@);
                }
                Some(self.bindings[i].action.duplicate())
            },
            None => {
                proof {
                    assert forall|i: int| 0 <= i < views.len() implies (#[trigger] views[i]).keys
                        != keys@ by {
                        assert(views[i] == self.bindings@[i]@);
                    }
                    lemma_unbound(views, keys@);
                }
                None
            },
        }
    }

    /// Binds `keys` to `action`, in place of what they stood for.
    pub fn insert(&mut self, keys: Vec<KeyEvent>, action: Action)
        ensures
            final(self)@ == old(self)@.insert(keys@, action@),
    {
        proof {
            use_type_invariant(&*self);
        }
        let ghost views = binding_views(self.bindings@);
        match self.position(&keys) {
            Some(i) => {
                proof {
                    assert(views[i as int] == self.bindings@[i as int]@);
                    lemma_bound_update(views, i as int, action@);
                }
                let mut bindings: Vec<Binding> = Vec::new();
                std::mem::swap(&mut bindings, &mut self.bindings);
                bindings.set(i, Binding { keys, action });
                assert(binding_views(bindings@) =~= views.update(
                    i as int,
                    BindingView { keys: views[i as int].keys, action: action@ },
                ));
                self.bindings = bindings;
            },
            None => {
                let mut bindings: Vec<Binding> = Vec::new();
                std::mem::swap(&mut bindings, &mut self.bindings);
                bindings.push(Binding { keys, action });
                proof {
                    let grown = binding_views(bindings@);
                    assert(grown.drop_last() =~= views);
                    assert(grown.last().keys == keys@);
                    assert forall|i: int, j: int| 0 <= i < j < grown.len() implies (
                    #[trigger] grown[i]).keys != (#[trigger] grown[j]).keys by {
                        assert(grown[i] == views[i]);
                        assert(views[i] == old(self).bindings@[i]@);
                        if j < views.len() {
                            assert(grown[j] == views[j]);
                        }
                    }
                }
                self.bindings = bindings;
            },
        }
    }
}

/// The key bindings of every mode.
#[derive(Debug, PartialEq, Eq)]
pub struct KeyBindings {
    home: Option<KeyMap>,
}

impl KeyBindings {
    /// The table of a mode, if the mode has one.
    pub closed spec fn table(&self, mode: Mode) -> Option<Map<Seq<KeyEvent>, ActionView>> {
        match mode {
            Mode::Home => match self.home {
                Some(map) => Some(map@),
                None => None,
            },
        }
    }

    /// Bindings without a table for any mode.
    pub fn new() -> (bindings: KeyBindings)
        ensures
            forall|mode: Mode| bindings.table(mode) is None,
    {
        KeyBindings { home: None }
    }

    /// Sets the table of a mode.
    pub fn set(&mut self, mode: Mode, map: KeyMap)
        ensures
            final(self).table(mode) == Some(map@),
            forall|other: Mode| other != mode ==> final(self).table(other) == old(self).table(other),
    {
        match mode {
            Mode::Home => {
                self.home = Some(map);
            },
        }
    }

    /// The table of a mode, if the mode has one.
    pub fn get(&self, mode: Mode) -> (map: Option<&KeyMap>)
        ensures
            match map {
                Some(map) => self.table(mode) == Some(map@),
                None => self.table(mode) is None,
            },
    {
        match mode {
            Mode::Home => self.home.as_ref(),
        }
    }
}

} // verus!
