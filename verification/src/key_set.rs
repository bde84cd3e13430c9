//! The key set of a client, and the slot in which it is cached.
//!
//! A slot is empty until a fetch of the key set has succeeded, and from then
//! on holds that key set for as long as it lives: nothing empties it and
//! nothing replaces what it holds. Every handle of one client shares one
//! slot behind a lock, and a lookup holds the lock from its reading of the
//! slot to the end of the fetch that a miss asks for. The lookups on one
//! slot therefore happen one after another, and that is how they are
//! modelled here: as a series of lookups, each with the outcome that its
//! fetch would have.

use vstd::prelude::*;
use crate::identifiers::ClientId;

verus! {

/// A snapshot of the keys of a client: the key-set document as it was
/// fetched, and the client identifier from which its location was derived.
#[derive(Debug, PartialEq, Eq)]
pub struct KeySet {
    source: ClientId,
    document: String,
}

/// The model of a [`KeySet`].
pub ghost struct KeySetView {
    /// The client identifier for which the key set was fetched.
    pub source: Seq<char>,
    /// The key-set document.
    pub document: Seq<char>,
}

impl View for KeySet {
    type V = KeySetView;

    closed spec fn view(&self) -> KeySetView {
        KeySetView { source: self.source@, document: self.document@ }
    }
}

impl KeySet {
    /// The key set that was fetched for `source` as `document`.
    pub fn new(source: ClientId, document: String) -> (key_set: Self)
        ensures
            key_set@ == (KeySetView { source: source@, document: document@ }),
    {
        KeySet { source, document }
    }

    /// The client identifier for which the key set was fetched.
    pub fn source(&self) -> (source: &ClientId)
        ensures
            source@ == self@.source,
    {
        &self.source
    }

    /// The key-set document.
    pub fn document(&self) -> (document: &str)
        ensures
            document@ == self@.document,
    {
        self.document.as_str()
    }
}

impl Clone for KeySet {
    fn clone(&self) -> (copy: Self)
        ensures
            copy == *self,
    {
        KeySet { source: self.source.clone(), document: self.document.clone() }
    }
}

/// The model of an optional key set.
pub open spec fn held(key_set: Option<KeySet>) -> Option<KeySetView> {
    match key_set {
        Some(k) => Some(k@),
        None => None,
    }
}

/// The model of the outcome of a fetch: the key set by its view, the error
/// as it is.
pub open spec fn outcome_view<E>(outcome: Result<KeySet, E>) -> Result<KeySetView, E> {
    match outcome {
        Ok(k) => Ok(k@),
        Err(e) => Err(e),
    }
}

/// Whether a lookup on `slot` has to fetch.
pub open spec fn needs_fetch(slot: Option<KeySetView>) -> bool {
    slot is None
}

/// What a lookup on `slot` returns, where `outcome` is the outcome of the
/// fetch that it makes on a miss: the key set that the slot holds, else the
/// outcome unchanged.
pub open spec fn answer<E>(slot: Option<KeySetView>, outcome: Result<KeySetView, E>) -> Result<
    KeySetView,
    E,
> {
    match slot {
        Some(k) => Ok(k),
        None => outcome,
    }
}

/// What `slot` holds after a lookup, where `outcome` is the outcome of the
/// fetch that it makes on a miss: what it held, else the key set that was
/// fetched, else nothing.
pub open spec fn after_lookup<E>(
    slot: Option<KeySetView>,
    outcome: Result<KeySetView, E>,
) -> Option<KeySetView> {
    match slot {
        Some(k) => Some(k),
        None => match outcome {
            Ok(k) => Some(k),
            Err(_) => None,
        },
    }
}

/// The slot that caches the key set of a client.
#[derive(Debug)]
pub struct KeySetSlot {
    stored: Option<KeySet>,
}

impl View for KeySetSlot {
    type V = Option<KeySetView>;

    closed spec fn view(&self) -> Option<KeySetView> {
        held(self.stored)
    }
}

impl KeySetSlot {
    /// An empty slot.
    pub fn new() -> (slot: Self)
        ensures
            slot@ is None,
    {
        KeySetSlot { stored: None }
    }

    /// Whether the slot holds a key set.
    pub fn is_populated(&self) -> (populated: bool)
        ensures
            populated == !needs_fetch(self@),
    {
        self.stored.is_some()
    }

    /// A copy of the key set that the slot holds.
    pub fn get(&self) -> (key_set: Option<KeySet>)
        ensures
            held(key_set) == self@,
    {
        match &self.stored {
            Some(k) => Some(k.clone()),
            None => None,
        }
    }

    /// Ends a lookup that missed: takes the outcome of the fetch, stores a
    /// fetched key set in the slot, and gives the caller's result. A failed
    /// fetch is handed on unchanged and leaves the slot empty, so that a
    /// later lookup fetches again. A slot that holds a key set keeps it, and
    /// that key set is the result whatever the outcome is.
    pub fn complete<E>(&mut self, outcome: Result<KeySet, E>) -> (r: Result<KeySet, E>)
        ensures
            outcome_view(r) == answer(old(self)@, outcome_view(outcome)),
            final(self)@ == after_lookup(old(self)@, outcome_view(outcome)),
            old(self)@ is None ==> r == outcome,
    {
        match &self.stored {
            Some(k) => Ok(k.clone()),
            None => match outcome {
                Ok(k) => {
                    let copy = k.clone();
                    self.stored = Some(k);
                    Ok(copy)
                },
                Err(e) => Err(e),
            },
        }
    }
}

/// What a series of lookups on one slot comes to.
pub ghost struct Series<E> {
    /// What the slot holds after the last lookup.
    pub slot: Option<KeySetView>,
    /// What each lookup returned, in the order of the lookups.
    pub results: Seq<Result<KeySetView, E>>,
    /// How many of the lookups fetched.
    pub fetches: nat,
}

/// The series of lookups on a slot that starts as `slot`, one lookup for each
/// element of `outcomes`: the outcome that the fetch of that lookup has
/// where the lookup misses.
pub open spec fn lookups<E>(
    slot: Option<KeySetView>,
    outcomes: Seq<Result<KeySetView, E>>,
) -> Series<E>
    decreases outcomes.len(),
{
    if outcomes.len() == 0 {
        Series { slot, results: Seq::empty(), fetches: 0 }
    } else {
        let before = lookups(slot, outcomes.drop_last());
        let outcome = outcomes.last();
        Series {
            slot: after_lookup(before.slot, outcome),
            results: before.results.push(answer(before.slot, outcome)),
            fetches: before.fetches + (if needs_fetch(before.slot) {
                1nat
            } else {
                0nat
            }),
        }
    }
}

/// Cache stability: on a slot that holds a key set no lookup fetches, every
/// lookup returns that key set, and the slot goes on holding it, whatever
/// the fetches would have given.
pub proof fn lemma_cache_stable<E>(key_set: KeySetView, outcomes: Seq<Result<KeySetView, E>>)
    ensures
        lookups(Some(key_set), outcomes).fetches == 0,
        lookups(Some(key_set), outcomes).slot == Some(key_set),
        lookups(Some(key_set), outcomes).results.len() == outcomes.len(),
        forall|i: int|
            0 <= i < outcomes.len() ==> #[trigger] lookups(Some(key_set), outcomes).results[i]
                == Ok::<KeySetView, E>(key_set),
    decreases outcomes.len(),
{
    if outcomes.len() > 0 {
        lemma_cache_stable(key_set, outcomes.drop_last());
    }
}

/// Single flight: of any number of lookups on an empty slot, the first of
/// which fetches with success, exactly one fetches, and every one returns
/// the key set that this one fetch gave. The outcomes that the other
/// lookups' fetches would have had play no part.
pub proof fn lemma_single_flight<E>(outcomes: Seq<Result<KeySetView, E>>)
    requires
        outcomes.len() >= 1,
        outcomes[0] is Ok,
    ensures
        lookups(None, outcomes).fetches == 1,
        lookups(None, outcomes).slot == Some(outcomes[0]->Ok_0),
        lookups(None, outcomes).results.len() == outcomes.len(),
        forall|i: int|
            0 <= i < outcomes.len() ==> #[trigger] lookups(None, outcomes).results[i]
                == outcomes[0],
    decreases outcomes.len(),
{
    let front = outcomes.drop_last();
    if outcomes.len() > 1 {
        lemma_single_flight(front);
        assert(front[0] == outcomes[0]);
    } else {
        assert(front.len() == 0);
        assert(lookups(None, front).slot == None::<KeySetView>);
    }
}

/// A failed fetch leaves the slot empty: of a series of lookups on an empty
/// slot whose fetches all fail, every one fetches and returns its own
/// failure.
pub proof fn lemma_failures_retry<E>(outcomes: Seq<Result<KeySetView, E>>)
    requires
        forall|i: int| 0 <= i < outcomes.len() ==> (#[trigger] outcomes[i]) is Err,
    ensures
        lookups(None, outcomes).fetches == outcomes.len(),
        lookups(None, outcomes).slot == None::<KeySetView>,
        lookups(None, outcomes).results == outcomes,
    decreases outcomes.len(),
{
    if outcomes.len() > 0 {
        let front = outcomes.drop_last();
        lemma_failures_retry(front);
        assert(lookups(None, outcomes).results =~= outcomes);
    } else {
        assert(lookups(None, outcomes).results =~= outcomes);
    }
}

} // verus!
