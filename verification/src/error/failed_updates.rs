use std::cmp::Ordering;
use std::collections::BTreeMap;
use vstd::prelude::*;
use vstd::std_specs::cmp::OrdSpec;
use vstd::std_specs::iter::IteratorSpec;
use vstd::string::StringExecFns;

use crate::error::{failed_update_message, spec_failed_update_message, Failure};

verus! {

/// The three ways in which an offer can be updated.
#[derive(Clone, Copy, Debug, PartialEq, Eq, Hash, Structural)]
pub enum Kind {
    /// Make the offer visible.
    Activate,
    /// Hide the offer.
    Deactivate,
    /// Hide the offer and make it visible again at once.
    Bump,
}

/// Details about failed updates.
#[derive(Debug)]
pub struct FailedUpdates {
    pub(crate) activate: BTreeMap<u32, Failure>,
    pub(crate) deactivate: BTreeMap<u32, Failure>,
    pub(crate) bump: BTreeMap<u32, Failure>,
}

/// What a [`FailedUpdates`] holds, as mathematical values: for each kind of update, the
/// failure of each offer for which that update failed.
pub ghost struct Failures {
    pub activate: Map<u32, Failure>,
    pub deactivate: Map<u32, Failure>,
    pub bump: Map<u32, Failure>,
}

impl Failures {
    /// No failure at all.
    pub open spec fn empty() -> Failures {
        Failures { activate: Map::empty(), deactivate: Map::empty(), bump: Map::empty() }
    }

    /// The failures of one kind of update, by offer ID.
    pub open spec fn of(self, kind: Kind) -> Map<u32, Failure> {
        match kind {
            Kind::Activate => self.activate,
            Kind::Deactivate => self.deactivate,
            Kind::Bump => self.bump,
        }
    }

    /// The failures after one more: a failure that was there for the same kind and offer is
    /// replaced.
    pub open spec fn record(self, kind: Kind, id: u32, failure: Failure) -> Failures {
        match kind {
            Kind::Activate => Failures { activate: self.activate.insert(id, failure), ..self },
            Kind::Deactivate => Failures {
                deactivate: self.deactivate.insert(id, failure),
                ..self
            },
            Kind::Bump => Failures { bump: self.bump.insert(id, failure), ..self },
        }
    }

    /// Whether there is no failure of any kind.
    pub open spec fn is_empty(self) -> bool {
        self.activate.is_empty() && self.deactivate.is_empty() && self.bump.is_empty()
    }

    /// What is said to the user of the failures of one kind: the message of each, the offers
    /// in increasing order.
    pub open spec fn message_of(self, kind: Kind) -> Seq<char> {
        spec_messages(kind, self.of(kind), ids_below(self.of(kind).dom(), 0x1_0000_0000))
    }

    /// What is said to the user of the failures: the activations that failed, then the
    /// deactivations, then the bumps.
    pub open spec fn message(self) -> Seq<char> {
        self.message_of(Kind::Activate) + self.message_of(Kind::Deactivate) + self.message_of(
            Kind::Bump,
        )
    }
}

/// The offers of `ids` that are below `bound`, in increasing order.
pub open spec fn ids_below(ids: Set<u32>, bound: nat) -> Seq<u32>
    decreases bound,
{
    if bound == 0 {
        Seq::empty()
    } else if ids.contains((bound - 1) as u32) {
        ids_below(ids, (bound - 1) as nat).push((bound - 1) as u32)
    } else {
        ids_below(ids, (bound - 1) as nat)
    }
}

/// The messages of the failures of the offers `ids`, one after the other.
pub open spec fn spec_messages(kind: Kind, failures: Map<u32, Failure>, ids: Seq<u32>) -> Seq<char>
    decreases ids.len(),
{
    if ids.len() == 0 {
        Seq::empty()
    } else {
        spec_messages(kind, failures, ids.drop_last()) + spec_failed_update_message(
            kind,
            ids.last(),
            failures[ids.last()],
        )
    }
}

/// There is one way only to list the offers of a set in increasing order.
pub proof fn lemma_ids_in_order(ids: Set<u32>, listed: Seq<u32>, bound: nat)
    requires
        bound <= 0x1_0000_0000,
        forall|i: int, j: int| 0 <= i < j < listed.len() ==> listed[i] < listed[j],
        forall|id: u32| listed.contains(id) <==> ids.contains(id) && id < bound,
    ensures
        listed == ids_below(ids, bound),
    decreases bound,
{
    if bound == 0 {
        if listed.len() > 0 {
            assert(listed.contains(listed[0]));
        }
        assert(listed =~= Seq::<u32>::empty());
    } else {
        let top = (bound - 1) as u32;
        if ids.contains(top) {
            assert(listed.contains(top));
            let at = choose|at: int| 0 <= at < listed.len() && listed[at] == top;
            if at < listed.len() - 1 {
                assert(listed.contains(listed[listed.len() - 1]));
            }
            let rest = listed.drop_last();
            assert forall|id: u32| rest.contains(id) <==> ids.contains(id) && id < bound - 1 by {
                if rest.contains(id) {
                    let i = choose|i: int| 0 <= i < rest.len() && rest[i] == id;
                    assert(listed[i] == id);
                    assert(listed.contains(id));
                }
                if ids.contains(id) && id < bound - 1 {
                    assert(listed.contains(id));
                    let i = choose|i: int| 0 <= i < listed.len() && listed[i] == id;
                    assert(rest[i] == id);
                }
            }
            lemma_ids_in_order(ids, rest, (bound - 1) as nat);
            assert(listed =~= rest.push(top));
        } else {
            assert forall|id: u32| listed.contains(id) <==> ids.contains(id) && id < bound - 1 by {
            }
            lemma_ids_in_order(ids, listed, (bound - 1) as nat);
        }
    }
}

/// Appends the messages of the failures of one kind, the offers in increasing order.
fn append_messages(text: &mut String, kind: Kind, failures: &BTreeMap<u32, Failure>)
    ensures
        final(text)@ == old(text)@ + spec_messages(
            kind,
            failures@,
            ids_below(failures@.dom(), 0x1_0000_0000),
        ),
{
    broadcast use vstd::std_specs::btree::group_btree_axioms;
    broadcast use vstd::laws_cmp::group_laws_cmp;

    let ghost start = text@;
    let ghost all = failures.iter().remaining();
    let ghost ids = all.map_values(|entry: (&u32, &Failure)| *entry.0);
    for entry in it: failures.iter()
        invariant
            it.seq() == all,
            ids == all.map_values(|entry: (&u32, &Failure)| *entry.0),
            forall|i: int|
                0 <= i < all.len() ==> {
                    &&& failures@.contains_key(*(#[trigger] all[i]).0)
                    &&& failures@[*all[i].0] == *all[i].1
                },
            text@ == start + spec_messages(kind, failures@, ids.take(it.index())),
    {
        let ghost done = it.index();
        let line = failed_update_message(kind, *entry.0, entry.1);
        text.append(line.as_str());
        proof {
            assert(ids.take(done + 1).drop_last() =~= ids.take(done));
            assert(ids.take(done + 1).last() == *entry.0);
        }
    }
    proof {
        assert forall|count: int| count == ids.len() implies #[trigger] ids.take(count) == ids by {
            assert(ids.take(count) =~= ids);
        }
        assert(vstd::std_specs::btree::increasing_seq(ids));
        assert forall|i: int, j: int| 0 <= i < j < ids.len() implies ids[i] < ids[j] by {
            assert(ids[i].cmp_spec(&ids[j]) == Ordering::Less);
        }
        assert forall|id: u32| ids.contains(id) <==> failures@.dom().contains(id) by {
            if ids.contains(id) {
                let i = choose|i: int| 0 <= i < ids.len() && ids[i] == id;
                assert(failures@.contains_key(*all[i].0));
            }
            if failures@.contains_key(id) {
                assert(all.contains((&id, &failures@[id])));
                let i = choose|i: int| 0 <= i < all.len() && all[i] == (&id, &failures@[id]);
                assert(ids[i] == id);
            }
        }
        lemma_ids_in_order(failures@.dom(), ids, 0x1_0000_0000);
    }
}

impl View for FailedUpdates {
    type V = Failures;

    closed spec fn view(&self) -> Failures {
        Failures { activate: self.activate@, deactivate: self.deactivate@, bump: self.bump@ }
    }
}

impl FailedUpdates {
    /// A record without any failure.
    pub fn new() -> (failed: Self)
        ensures
            failed@ == Failures::empty(),
    {
        Self { activate: BTreeMap::new(), deactivate: BTreeMap::new(), bump: BTreeMap::new() }
    }

    /// Return `true` iff there are no errors.
    #[must_use]
    pub fn is_empty(&self) -> (empty: bool)
        ensures
            empty == self@.is_empty(),
    {
        self.activate.is_empty() && self.deactivate.is_empty() && self.bump.is_empty()
    }

    /// Records that the update of `kind` failed for the offer `id`. A failure recorded before
    /// for the same kind and offer is replaced.
    pub fn record(&mut self, kind: Kind, id: u32, failure: Failure)
        ensures
            final(self)@ == old(self)@.record(kind, id, failure),
    {
        broadcast use vstd::laws_cmp::group_laws_cmp;

        match kind {
            Kind::Activate => {
                self.activate.insert(id, failure);
            },
            Kind::Deactivate => {
                self.deactivate.insert(id, failure);
            },
            Kind::Bump => {
                self.bump.insert(id, failure);
            },
        }
    }

    /// The failure recorded for the offer `id` under `kind`, if there is one.
    pub fn get(&self, kind: Kind, id: u32) -> (failure: Option<&Failure>)
        ensures
            match failure {
                Some(found) => self@.of(kind).contains_key(id) && self@.of(kind)[id] == *found,
                None => !self@.of(kind).contains_key(id),
            },
    {
        broadcast use vstd::laws_cmp::group_laws_cmp;
        broadcast use vstd::std_specs::btree::group_btree_axioms;

        match kind {
            Kind::Activate => self.activate.get(&id),
            Kind::Deactivate => self.deactivate.get(&id),
            Kind::Bump => self.bump.get(&id),
        }
    }

    /// What is said to the user of the failures: the message of each activation that failed,
    /// then of each deactivation, then of each bump, the offers of each kind in increasing
    /// order.
    pub fn message(&self) -> (text: String)
        ensures
            text@ == self@.message(),
    {
        let mut text = String::new();
        append_messages(&mut text, Kind::Activate, &self.activate);
        append_messages(&mut text, Kind::Deactivate, &self.deactivate);
        append_messages(&mut text, Kind::Bump, &self.bump);
        assert(text@ =~= self@.message());
        text
    }

    /// The failures recorded under `kind`, by offer ID.
    pub fn failures(&self, kind: Kind) -> (failures: &BTreeMap<u32, Failure>)
        ensures
            failures@ == self@.of(kind),
    {
        match kind {
            Kind::Activate => &self.activate,
            Kind::Deactivate => &self.deactivate,
            Kind::Bump => &self.bump,
        }
    }

    /// How many offers have a failure recorded under `kind`.
    pub fn count(&self, kind: Kind) -> (count: usize)
        ensures
            count == self@.of(kind).len(),
    {
        broadcast use vstd::std_specs::btree::group_btree_axioms;

        match kind {
            Kind::Activate => self.activate.len(),
            Kind::Deactivate => self.deactivate.len(),
            Kind::Bump => self.bump.len(),
        }
    }
}

impl Default for FailedUpdates {
    fn default() -> (failed: Self)
        ensures
            failed@ == Failures::empty(),
    {
        Self::new()
    }
}

} // verus!
