//! The registry of spells.

use vstd::prelude::*;
use crate::identity::Identity;
use crate::text::{same_text, texts};

verus! {

/// The spells installed on `worker`, going by the pairs of a registry: none
/// for a worker that no pair names.
pub open spec fn spells_on(registry: Set<(Seq<char>, Seq<char>)>, worker: Seq<char>) -> Set<
    Seq<char>,
> {
    Set::new(|spell_id: Seq<char>| registry.contains((worker, spell_id)))
}

/// One spell installed on one worker.
struct Registration {
    worker: Identity,
    spell_id: String,
}

impl Registration {
    spec fn key(self) -> (Seq<char>, Seq<char>) {
        (self.worker@, self.spell_id@)
    }
}

/// Which spells are installed on which worker, and the blueprint that a new
/// spell's service is made from. The registry is the one place that says
/// whether a spell exists.
pub struct SpellRegistry {
    blueprint: String,
    entries: Vec<Registration>,
}

impl View for SpellRegistry {
    type V = Set<(Seq<char>, Seq<char>)>;

    /// The pairs of a worker and a spell installed on it.
    closed spec fn view(&self) -> Set<(Seq<char>, Seq<char>)> {
        Set::new(
            |pair: (Seq<char>, Seq<char>)|
                exists|i: int| 0 <= i < self.entries@.len() && #[trigger] self.entries@[i].key() == pair,
        )
    }
}

impl SpellRegistry {
    /// No pair of worker and spell is held twice.
    #[verifier::type_invariant]
    spec fn distinct(self) -> bool {
        forall|i: int, j: int|
            0 <= i < j < self.entries@.len() ==> #[trigger] self.entries@[i].key()
                != #[trigger] self.entries@[j].key()
    }

    /// The blueprint this registry hands out.
    pub closed spec fn blueprint(&self) -> Seq<char> {
        self.blueprint@
    }

    /// The spells installed on `worker`: none for a worker never heard of.
    pub open spec fn spells_of(&self, worker: Seq<char>) -> Set<Seq<char>> {
        spells_on(self@, worker)
    }

    /// A registry without spells that hands out `blueprint`.
    pub fn new(blueprint: String) -> (r: SpellRegistry)
        ensures
            r@ == Set::<(Seq<char>, Seq<char>)>::empty(),
            r.blueprint() == blueprint@,
    {
        let r = SpellRegistry { blueprint, entries: Vec::new() };
        assert(r@ =~= Set::<(Seq<char>, Seq<char>)>::empty());
        r
    }

    /// The blueprint that a new spell's service is made from.
    pub fn get_blueprint(&self) -> (r: String)
        ensures
            r@ == self.blueprint(),
    {
        self.blueprint.clone()
    }

    /// Where the pair stands among the entries, if it does.
    fn position(&self, worker: &Identity, spell_id: &str) -> (r: Option<usize>)
        ensures
            match r {
                Some(at) => at < self.entries@.len() && self.entries@[at as int].key() == (
                    worker@,
                    spell_id@,
                ),
                None => !self@.contains((worker@, spell_id@)),
            },
    {
        let mut at: usize = 0;
        while at < self.entries.len()
            invariant
                at <= self.entries@.len(),
                forall|i: int| 0 <= i < at ==> #[trigger] self.entries@[i].key() != (worker@, spell_id@),
            decreases self.entries@.len() - at,
        {
            let entry = &self.entries[at];
            if entry.worker.same(worker) && same_text(entry.spell_id.as_str(), spell_id) {
                return Some(at);
            }
            at += 1;
        }
        None
    }

    /// Whether `spell_id` is installed on `worker`.
    pub fn contains(&self, worker: &Identity, spell_id: &str) -> (r: bool)
        ensures
            r == self@.contains((worker@, spell_id@)),
    {
        match self.position(worker, spell_id) {
            Some(at) => true,
            None => false,
        }
    }

    /// The registry with `spell_id` installed on `worker`.
    fn with(self, worker: Identity, spell_id: String) -> (r: SpellRegistry)
        ensures
            r@ == self@.insert((worker@, spell_id@)),
            r.blueprint() == self.blueprint(),
    {
        proof {
            use_type_invariant(&self);
        }
        if self.position(&worker, spell_id.as_str()).is_some() {
            assert(self@ =~= self@.insert((worker@, spell_id@)));
            return self;
        }
        let SpellRegistry { blueprint, mut entries } = self;
        let ghost before = entries@;
        let ghost added = (worker@, spell_id@);
        entries.push(Registration { worker, spell_id });
        let r = SpellRegistry { blueprint, entries };
        proof {
            assert(r.entries@[before.len() as int].key() == added);
            assert forall|pair: (Seq<char>, Seq<char>)|
                r@.contains(pair) <==> self@.insert(added).contains(pair) by {
                if self@.contains(pair) {
                    let i = choose|i: int| 0 <= i < before.len() && before[i].key() == pair;
                    assert(r.entries@[i].key() == pair);
                }
                if r@.contains(pair) {
                    let i = choose|i: int| 0 <= i < r.entries@.len() && r.entries@[i].key() == pair;
                    if i < before.len() {
                        assert(before[i].key() == pair);
                    }
                }
            }
            assert(r@ =~= self@.insert(added));
        }
        r
    }

    /// The registry without `spell_id` on `worker`.
    fn without(self, worker: &Identity, spell_id: &str) -> (r: SpellRegistry)
        ensures
            r@ == self@.remove((worker@, spell_id@)),
            r.blueprint() == self.blueprint(),
    {
        proof {
            use_type_invariant(&self);
        }
        match self.position(worker, spell_id) {
            Some(at) => {
                let SpellRegistry { blueprint, mut entries } = self;
                let ghost before = entries@;
                let ghost gone = (worker@, spell_id@);
                entries.remove(at);
                let r = SpellRegistry { blueprint, entries };
                proof {
                    assert forall|pair: (Seq<char>, Seq<char>)|
                        r@.contains(pair) <==> self@.remove(gone).contains(pair) by {
                        if self@.remove(gone).contains(pair) {
                            let i = choose|i: int| 0 <= i < before.len() && before[i].key() == pair;
                            if i < at {
                                assert(r.entries@[i].key() == pair);
                            } else {
                                assert(r.entries@[i - 1].key() == pair);
                            }
                        }
                        if r@.contains(pair) {
                            let i = choose|i: int|
                                0 <= i < r.entries@.len() && r.entries@[i].key() == pair;
                            if i < at {
                                assert(before[i].key() == pair);
                            } else {
                                assert(before[i + 1].key() == pair);
                            }
                        }
                    }
                    assert(r@ =~= self@.remove(gone));
                }
                r
            },
            None => {
                assert(self@ =~= self@.remove((worker@, spell_id@)));
                self
            },
        }
    }

    /// Takes the registry out of its place, leaving an empty one there.
    fn take(&mut self) -> (r: SpellRegistry)
        ensures
            r@ == old(self)@,
            r.blueprint() == old(self).blueprint(),
    {
        let mut taken = SpellRegistry::new(String::new());
        std::mem::swap(self, &mut taken);
        taken
    }

    /// Records that `spell_id` is installed on `worker`. Recording it a second
    /// time changes nothing.
    pub fn register_spell(&mut self, worker: Identity, spell_id: String)
        ensures
            final(self)@ == old(self)@.insert((worker@, spell_id@)),
            final(self).blueprint() == old(self).blueprint(),
    {
        let taken = self.take();
        *self = taken.with(worker, spell_id);
    }

    /// Forgets that `spell_id` is installed on `worker`. Where it was not
    /// recorded, nothing changes.
    pub fn unregister_spell(&mut self, worker: &Identity, spell_id: &str)
        ensures
            final(self)@ == old(self)@.remove((worker@, spell_id@)),
            final(self).blueprint() == old(self).blueprint(),
    {
        let taken = self.take();
        *self = taken.without(worker, spell_id);
    }

    /// The spells installed on `worker`, each once, in no order that means
    /// anything. A worker never heard of has none.
    pub fn list_spells(&self, worker: &Identity) -> (r: Vec<String>)
        ensures
            texts(r@).to_set() == self.spells_of(worker@),
            texts(r@).no_duplicates(),
    {
        proof {
            use_type_invariant(self);
        }
        let mut found: Vec<String> = Vec::new();
        let ghost mut origin: Seq<int> = Seq::empty();
        let mut at: usize = 0;
        while at < self.entries.len()
            invariant
                at <= self.entries@.len(),
                self.distinct(),
                origin.len() == found@.len(),
                forall|k: int|
                    0 <= k < origin.len() ==> 0 <= #[trigger] origin[k] < at && self.entries@[origin[k]].key()
                        == (worker@, found@[k]@),
                forall|k: int, l: int| 0 <= k < l < origin.len() ==> origin[k] < origin[l],
                forall|i: int|
                    0 <= i < at && (#[trigger] self.entries@[i]).worker@ == worker@ ==> exists|k: int|
                        0 <= k < origin.len() && origin[k] == i,
            decreases self.entries@.len() - at,
        {
            let entry = &self.entries[at];
            if entry.worker.same(worker) {
                found.push(entry.spell_id.clone());
                proof {
                    let ghost earlier = origin;
                    origin = origin.push(at as int);
                    assert forall|i: int|
                        0 <= i < at + 1 && (#[trigger] self.entries@[i]).worker@
                            == worker@ implies exists|k: int|
                        0 <= k < origin.len() && origin[k] == i by {
                        if i < at {
                            let k = choose|k: int| 0 <= k < earlier.len() && earlier[k] == i;
                            assert(origin[k] == i);
                        } else {
                            assert(origin[earlier.len() as int] == i);
                        }
                    }
                }
            }
            at += 1;
        }
        proof {
            let listed = texts(found@);
            assert forall|k: int, l: int| 0 <= k < l < listed.len() implies listed[k] != listed[l] by {
                assert(self.entries@[origin[k]].key() != self.entries@[origin[l]].key());
            }
            assert forall|spell_id: Seq<char>|
                listed.to_set().contains(spell_id) <==> self.spells_of(worker@).contains(spell_id) by {
                if listed.to_set().contains(spell_id) {
                    let k = choose|k: int| 0 <= k < listed.len() && listed[k] == spell_id;
                    assert(self.entries@[origin[k]].key() == (worker@, spell_id));
                }
                if self.spells_of(worker@).contains(spell_id) {
                    let i = choose|i: int|
                        0 <= i < self.entries@.len() && self.entries@[i].key() == (worker@, spell_id);
                    assert(self.entries@[i].worker@ == worker@);
                    let k = choose|k: int| 0 <= k < origin.len() && origin[k] == i;
                    assert(listed[k] == spell_id);
                }
            }
            assert(listed.to_set() =~= self.spells_of(worker@));
        }
        found
    }
}

} // verus!
