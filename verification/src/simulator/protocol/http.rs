use vstd::prelude::*;
use crate::simulator::types::TruckState;
use crate::util::keyed::{distinct_keys, keyed, lemma_keyed_append, lemma_keyed_lookup, lemma_keyed_replace};
use crate::util::text::same_text;

verus! {

/// A truck state is filed under its truck's identifier.
pub open spec fn truck_key() -> spec_fn(TruckState) -> Seq<char> {
    |s: TruckState| s.truck_id@
}

/// The latest state of each truck, as served over HTTP.
pub struct TruckStateStore {
    states: Vec<TruckState>,
}

impl View for TruckStateStore {
    type V = Map<Seq<char>, TruckState>;

    closed spec fn view(&self) -> Map<Seq<char>, TruckState> {
        keyed(self.states@, truck_key())
    }
}

impl TruckStateStore {
    #[verifier::type_invariant]
    spec fn one_state_per_truck(&self) -> bool {
        distinct_keys(self.states@, truck_key())
    }

    /// The stored states, one per truck, in the order trucks first
    /// reported.
    pub closed spec fn entries(&self) -> Seq<TruckState> {
        self.states@
    }

    pub fn new() -> (s: Self)
        ensures
            s@ == Map::<Seq<char>, TruckState>::empty(),
            s.entries().len() == 0,
    {
        let s = TruckStateStore { states: Vec::new() };
        assert(s@ =~= Map::<Seq<char>, TruckState>::empty());
        s
    }

    /// Keeps `state` as the latest state of its truck.
    pub fn record(&mut self, state: TruckState)
        ensures
            final(self)@ == old(self)@.insert(state.truck_id@, state),
    {
        proof {
            use_type_invariant(&*self);
        }
        let mut states: Vec<TruckState> = Vec::new();
        std::mem::swap(&mut states, &mut self.states);
        let mut j: usize = 0;
        let mut found: Option<usize> = None;
        while j < states.len()
            invariant
                j <= states@.len(),
                found matches Some(f) ==> f < states@.len() && states@[f as int].truck_id@ == state.truck_id@,
                found is None ==> forall|q: int| 0 <= q < j ==> #[trigger] states@[q].truck_id@ != state.truck_id@,
            decreases states@.len() - j,
        {
            if found.is_none() && same_text(states[j].truck_id.as_str(), state.truck_id.as_str()) {
                found = Some(j);
            }
            j = j + 1;
        }
        match found {
            Some(f) => {
                proof {
                    lemma_keyed_replace(states@, truck_key(), f as int, state);
                }
                states.set(f, state);
            },
            None => {
                proof {
                    lemma_keyed_append(states@, truck_key(), state);
                }
                states.push(state);
            },
        }
        self.states = states;
    }

    /// The latest state of a truck, if it has reported.
    pub fn get(&self, truck_id: &str) -> (r: Option<&TruckState>)
        ensures
            r is Some <==> self@.contains_key(truck_id@),
            r matches Some(s) ==> *s == self@[truck_id@],
    {
        proof {
            use_type_invariant(self);
        }
        let mut j: usize = 0;
        while j < self.states.len()
            invariant
                j <= self.states@.len(),
                distinct_keys(self.states@, truck_key()),
                forall|q: int| 0 <= q < j ==> #[trigger] self.states@[q].truck_id@ != truck_id@,
            decreases self.states@.len() - j,
        {
            if same_text(self.states[j].truck_id.as_str(), truck_id) {
                proof {
                    lemma_keyed_lookup(self.states@, truck_key(), j as int);
                }
                return Some(&self.states[j]);
            }
            j = j + 1;
        }
        None
    }

    /// All stored states, one per truck.
    pub fn all(&self) -> (r: &Vec<TruckState>)
        ensures
            r@ == self.entries(),
            forall|i: int| 0 <= i < r@.len() ==> self@.contains_key(#[trigger] r@[i].truck_id@) && self@[r@[i].truck_id@] == r@[i],
            forall|id: Seq<char>| #[trigger] self@.contains_key(id) ==> exists|i: int| 0 <= i < r@.len() && #[trigger] r@[i].truck_id@ == id,
    {
        proof {
            use_type_invariant(self);
            assert forall|i: int| 0 <= i < self.states@.len() implies self@.contains_key(#[trigger] self.states@[i].truck_id@) && self@[self.states@[i].truck_id@] == self.states@[i] by {
                lemma_keyed_lookup(self.states@, truck_key(), i);
            }
        }
        &self.states
    }
}

/// What a write gives back: after a state is recorded, reading its truck
/// gives that state, and every other truck reads as before.
pub proof fn lemma_read_back(
    before: Map<Seq<char>, TruckState>,
    after: Map<Seq<char>, TruckState>,
    state: TruckState,
    other: Seq<char>,
)
    requires
        after == before.insert(state.truck_id@, state),
    ensures
        after.contains_key(state.truck_id@),
        after[state.truck_id@] == state,
        other != state.truck_id@ ==> (after.contains_key(other) == before.contains_key(other)),
        other != state.truck_id@ && before.contains_key(other) ==> after[other] == before[other],
{
}

/// Serves the latest truck states over HTTP.
pub struct HttpHandler {
    pub port: u16,
    pub state_store: TruckStateStore,
}

impl HttpHandler {
    pub fn new(port: u16) -> (h: Self)
        ensures
            h.port == port,
            h.state_store@ == Map::<Seq<char>, TruckState>::empty(),
    {
        HttpHandler { port, state_store: TruckStateStore::new() }
    }
}

} // verus!
