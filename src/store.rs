//! The dashboard's tick store: the latest tick per symbol, in the order in
//! which symbols were first seen, and a bounded history of points per
//! symbol. The store is generic over what a tick and a point hold.

use std::collections::VecDeque;

use indexmap::IndexMap;
use vstd::prelude::*;

verus! {

#[verifier::external_type_specification]
#[verifier::external_body]
#[verifier::reject_recursive_types(K)]
#[verifier::reject_recursive_types(V)]
#[verifier::reject_recursive_types(S)]
pub struct ExIndexMap<K, V, S>(IndexMap<K, V, S>);

/// What a map from symbols to slots holds: its entries, in insertion order.
pub uninterp spec fn slot_entries(m: IndexMap<String, usize>) -> Seq<(Seq<char>, usize)>;

/// Relies on `IndexMap::new`: the new map has no entries.
#[verifier::external_body]
fn new_slot_map() -> (r: IndexMap<String, usize>)
    ensures
        slot_entries(r) == Seq::<(Seq<char>, usize)>::empty(),
{
    IndexMap::new()
}

/// Relies on `IndexMap::get`: the value stored under a key equal to `key`,
/// if there is one.
#[verifier::external_body]
fn slot_lookup(m: &IndexMap<String, usize>, key: &str) -> (r: Option<usize>)
    ensures
        r matches Some(v) ==> exists|i: int|
            0 <= i < slot_entries(*m).len() && #[trigger] slot_entries(*m)[i] == (key@, v),
        r is None ==> forall|i: int|
            0 <= i < slot_entries(*m).len() ==> (#[trigger] slot_entries(*m)[i]).0 != key@,
{
    m.get(key).copied()
}

/// Relies on `IndexMap::insert`: a key that is not in the map yet is added
/// with its value, last in order.
#[verifier::external_body]
fn slot_append(m: &mut IndexMap<String, usize>, key: String, value: usize)
    requires
        forall|i: int|
            0 <= i < slot_entries(*old(m)).len() ==> (#[trigger] slot_entries(*old(m))[i]).0 != key@,
    ensures
        slot_entries(*final(m)) == slot_entries(*old(m)).push((key@, value)),
{
    m.insert(key, value);
}

/// Relies on `IndexMap::clear`: no entry remains.
#[verifier::external_body]
fn slot_clear(m: &mut IndexMap<String, usize>)
    ensures
        slot_entries(*final(m)) == Seq::<(Seq<char>, usize)>::empty(),
{
    m.clear();
}

/// Relies on `IndexMap::get_index`: the key of the entry at position `i`,
/// if there is one.
#[verifier::external_body]
fn slot_key_at(m: &IndexMap<String, usize>, i: usize) -> (r: Option<&String>)
    ensures
        r is Some <==> i < slot_entries(*m).len(),
        r matches Some(k) ==> k@ == slot_entries(*m)[i as int].0,
{
    m.get_index(i).map(|(k, _)| k)
}

/// A history after one more point: the oldest point leaves once there are
/// more than `max`.
pub open spec fn trimmed<H>(h: Seq<H>, max: nat) -> Seq<H> {
    if h.len() > max {
        h.drop_first()
    } else {
        h
    }
}

/// The position of `symbol` among `symbols`, if it is there.
pub open spec fn position_of(symbols: Seq<Seq<char>>, symbol: Seq<char>) -> Option<int> {
    if exists|i: int| 0 <= i < symbols.len() && symbols[i] == symbol {
        Some(choose|i: int| 0 <= i < symbols.len() && symbols[i] == symbol)
    } else {
        None
    }
}

/// What the store holds: the symbols in first-seen order, the latest tick
/// of each, and the history of each.
pub type StoreModel<T, H> = (Seq<Seq<char>>, Seq<T>, Seq<Seq<H>>);

/// The store after ingesting one tick and its point.
pub open spec fn after_ingest<T, H>(m: StoreModel<T, H>, max: nat, symbol: Seq<char>, tick: T, point: H) -> StoreModel<T, H> {
    match position_of(m.0, symbol) {
        Some(k) => (m.0, m.1.update(k, tick), m.2.update(k, trimmed(m.2[k].push(point), max))),
        None => (m.0.push(symbol), m.1.push(tick), m.2.push(trimmed(seq![point], max))),
    }
}

/// The store after ingesting a run of ticks, in order.
pub open spec fn after_ingest_all<T, H>(m: StoreModel<T, H>, max: nat, items: Seq<(Seq<char>, T, H)>) -> StoreModel<T, H>
    decreases items.len(),
{
    if items.len() == 0 {
        m
    } else {
        let last = items.last();
        after_ingest(after_ingest_all(m, max, items.drop_last()), max, last.0, last.1, last.2)
    }
}

/// Keeps the latest tick per symbol and up to `max_history` points each.
pub struct TickStore<T, H> {
    max_history: usize,
    slots: IndexMap<String, usize>,
    latest: Vec<T>,
    history: Vec<VecDeque<H>>,
}

impl<T, H> TickStore<T, H> {
    /// The most points kept per symbol.
    pub closed spec fn spec_max_history(&self) -> nat {
        self.max_history as nat
    }

    /// The symbols, in the order in which they were first seen.
    pub closed spec fn symbols(&self) -> Seq<Seq<char>> {
        slot_entries(self.slots).map_values(|e: (Seq<char>, usize)| e.0)
    }

    /// The latest tick of each symbol, in the same order.
    pub closed spec fn latest_ticks(&self) -> Seq<T> {
        self.latest@
    }

    /// The history of each symbol, oldest point first, in the same order.
    pub closed spec fn histories(&self) -> Seq<Seq<H>> {
        self.history@.map_values(|d: VecDeque<H>| d@)
    }

    pub open spec fn model(&self) -> StoreModel<T, H> {
        (self.symbols(), self.latest_ticks(), self.histories())
    }

    /// Each symbol is held once, with a tick and a history of at most
    /// `max_history` points.
    pub open spec fn wf(&self) -> bool {
        &&& self.latest_ticks().len() == self.symbols().len()
        &&& self.histories().len() == self.symbols().len()
        &&& forall|i: int, j: int|
            0 <= i < j < self.symbols().len() ==> self.symbols()[i] != self.symbols()[j]
        &&& forall|i: int|
            0 <= i < self.histories().len() ==> (#[trigger] self.histories()[i]).len()
                <= self.spec_max_history()
        &&& self.slots_wf()
    }

    /// Each symbol's slot is its position.
    pub closed spec fn slots_wf(&self) -> bool {
        forall|i: int| 0 <= i < slot_entries(self.slots).len() ==> (#[trigger] slot_entries(self.slots)[i]).1 == i
    }

    pub fn new(max_history: usize) -> (r: TickStore<T, H>)
        ensures
            r.wf(),
            r.spec_max_history() == max_history,
            r.model() == (Seq::<Seq<char>>::empty(), Seq::<T>::empty(), Seq::<Seq<H>>::empty()),
    {
        let r = TickStore { max_history, slots: new_slot_map(), latest: Vec::new(), history: Vec::new() };
        proof {
            assert(r.symbols() =~= Seq::<Seq<char>>::empty());
            assert(r.histories() =~= Seq::<Seq<H>>::empty());
        }
        r
    }

    /// `point` with the oldest point dropped once there are more than
    /// `max_history`.
    fn push_point(&self, h: &mut VecDeque<H>, point: H)
        ensures
            final(h)@ == trimmed(old(h)@.push(point), self.spec_max_history()),
    {
        h.push_back(point);
        if h.len() > self.max_history {
            let _ = h.pop_front();
            proof {
                assert(final(h)@ =~= old(h)@.push(point).drop_first());
            }
        }
    }

    /// Records `tick` as the latest of `symbol`, and adds `point` to the
    /// symbol's history. A symbol not seen before goes last.
    pub fn ingest(&mut self, symbol: String, tick: T, point: H)
        requires
            old(self).wf(),
        ensures
            final(self).wf(),
            final(self).spec_max_history() == old(self).spec_max_history(),
            final(self).model() == after_ingest(
                old(self).model(),
                old(self).spec_max_history(),
                symbol@,
                tick,
                point,
            ),
    {
        let ghost m = self.model();
        let ghost key = symbol@;
        match slot_lookup(&self.slots, symbol.as_str()) {
            Some(slot) => {
                proof {
                    let i = choose|i: int|
                        0 <= i < slot_entries(self.slots).len() && #[trigger] slot_entries(self.slots)[i] == (
                        key,
                        slot,
                    );
                    assert(slot_entries(self.slots)[i].1 == i);
                    assert(self.symbols()[i] == key);
                    let j = choose|j: int| 0 <= j < m.0.len() && m.0[j] == key;
                    assert(j == i);
                    assert(position_of(m.0, key) == Some(i));
                }
                self.latest.set(slot, tick);
                let mut h: VecDeque<H> = VecDeque::new();
                self.history.set_and_swap(slot, &mut h);
                self.push_point(&mut h, point);
                self.history.set_and_swap(slot, &mut h);
                proof {
                    assert(self.histories() =~= m.2.update(slot as int, trimmed(m.2[slot as int].push(point), self.spec_max_history())));
                    assert(self.latest_ticks() =~= m.1.update(slot as int, tick));
                    assert forall|i: int|
                        0 <= i < self.histories().len() implies (#[trigger] self.histories()[i]).len()
                        <= self.spec_max_history() by {
                        if i != slot {
                            assert(self.histories()[i] == m.2[i]);
                        }
                    }
                }
            },
            None => {
                proof {
                    assert forall|i: int| 0 <= i < m.0.len() implies m.0[i] != key by {
                        assert(slot_entries(self.slots)[i].0 == m.0[i]);
                    }
                    assert(position_of(m.0, key) is None);
                }
                let slot = self.latest.len();
                slot_append(&mut self.slots, symbol, slot);
                self.latest.push(tick);
                let mut h: VecDeque<H> = VecDeque::new();
                self.push_point(&mut h, point);
                self.history.push(h);
                proof {
                    assert(self.symbols() =~= m.0.push(key));
                    assert(self.histories() =~= m.2.push(trimmed(seq![point], self.spec_max_history())));
                    assert(seq![point] =~= Seq::<H>::empty().push(point));
                    assert forall|i: int| 0 <= i < slot_entries(self.slots).len() implies (#[trigger] slot_entries(
                        self.slots,
                    )[i]).1 == i by {
                        if i < m.0.len() {
                            assert(slot_entries(self.slots)[i] == slot_entries(old(self).slots)[i]);
                        }
                    }
                    assert forall|i: int|
                        0 <= i < self.histories().len() implies (#[trigger] self.histories()[i]).len()
                        <= self.spec_max_history() by {
                        if i < m.0.len() {
                            assert(self.histories()[i] == m.2[i]);
                        }
                    }
                }
            },
        }
    }

    /// Ingests a run of ticks, each with its symbol and point, in order.
    pub fn ingest_batch(&mut self, ticks: Vec<(String, T, H)>)
        requires
            old(self).wf(),
        ensures
            final(self).wf(),
            final(self).spec_max_history() == old(self).spec_max_history(),
            final(self).model() == after_ingest_all(
                old(self).model(),
                old(self).spec_max_history(),
                ticks@.map_values(|t: (String, T, H)| (t.0@, t.1, t.2)),
            ),
    {
        let ghost items = ticks@.map_values(|t: (String, T, H)| (t.0@, t.1, t.2));
        let ghost start = self.model();
        for t in iter: ticks
            invariant
                self.wf(),
                self.spec_max_history() == old(self).spec_max_history(),
                start == old(self).model(),
                iter.seq() == ticks@,
                items == ticks@.map_values(|t: (String, T, H)| (t.0@, t.1, t.2)),
                self.model() == after_ingest_all(start, self.spec_max_history(), items.take(iter.index() as int)),
        {
            let (symbol, tick, point) = t;
            proof {
                let k = iter.index() as int;
                assert(items.take(k + 1).drop_last() =~= items.take(k));
                assert(items.take(k + 1).last() == (symbol@, tick, point));
            }
            self.ingest(symbol, tick, point);
        }
        proof {
            assert(items.take(items.len() as int) =~= items);
        }
    }

    /// How many symbols the store holds.
    pub fn len(&self) -> (r: usize)
        requires
            self.wf(),
        ensures
            r == self.symbols().len(),
    {
        self.latest.len()
    }

    /// Whether the store holds no symbol.
    pub fn is_empty(&self) -> (r: bool)
        requires
            self.wf(),
        ensures
            r == (self.symbols().len() == 0),
    {
        self.latest.len() == 0
    }

    /// The latest tick of `symbol`, if it has been seen.
    pub fn latest_for(&self, symbol: &str) -> (r: Option<&T>)
        requires
            self.wf(),
        ensures
            position_of(self.symbols(), symbol@) matches Some(k) ==> r == Some(&self.latest_ticks()[k]),
            position_of(self.symbols(), symbol@) is None ==> r is None,
    {
        match self.slot_of(symbol) {
            Some(slot) => Some(&self.latest[slot]),
            None => None,
        }
    }

    /// The history of `symbol`, oldest point first, if it has been seen.
    pub fn history_for(&self, symbol: &str) -> (r: Option<&VecDeque<H>>)
        requires
            self.wf(),
        ensures
            position_of(self.symbols(), symbol@) matches Some(k) ==> r matches Some(h) && h@
                == self.histories()[k],
            position_of(self.symbols(), symbol@) is None ==> r is None,
    {
        match self.slot_of(symbol) {
            Some(slot) => Some(&self.history[slot]),
            None => None,
        }
    }

    /// The symbol, latest tick and history at position `i` of the
    /// first-seen order.
    pub fn entry_at(&self, i: usize) -> (r: Option<(&String, &T, &VecDeque<H>)>)
        requires
            self.wf(),
        ensures
            r is Some <==> i < self.symbols().len(),
            r matches Some(e) ==> e.0@ == self.symbols()[i as int] && *e.1 == self.latest_ticks()[i as int]
                && e.2@ == self.histories()[i as int],
    {
        match slot_key_at(&self.slots, i) {
            Some(symbol) => Some((symbol, &self.latest[i], &self.history[i])),
            None => None,
        }
    }

    /// Empties the store.
    pub fn clear(&mut self)
        requires
            old(self).wf(),
        ensures
            final(self).wf(),
            final(self).spec_max_history() == old(self).spec_max_history(),
            final(self).model() == (Seq::<Seq<char>>::empty(), Seq::<T>::empty(), Seq::<Seq<H>>::empty()),
    {
        slot_clear(&mut self.slots);
        self.latest.clear();
        self.history.clear();
        proof {
            assert(self.symbols() =~= Seq::<Seq<char>>::empty());
            assert(self.histories() =~= Seq::<Seq<H>>::empty());
        }
    }

    /// The slot of `symbol`: its position in the first-seen order.
    fn slot_of(&self, symbol: &str) -> (r: Option<usize>)
        requires
            self.wf(),
        ensures
            r == (match position_of(self.symbols(), symbol@) {
                Some(k) => Some(k as usize),
                None => None::<usize>,
            }),
            r matches Some(k) ==> k < self.symbols().len(),
    {
        let r = slot_lookup(&self.slots, symbol);
        proof {
            let m = self.symbols();
            match r {
                Some(slot) => {
                    let i = choose|i: int|
                        0 <= i < slot_entries(self.slots).len() && #[trigger] slot_entries(self.slots)[i] == (
                        symbol@,
                        slot,
                    );
                    assert(slot_entries(self.slots)[i].1 == i);
                    assert(m[i] == symbol@);
                    let j = choose|j: int| 0 <= j < m.len() && m[j] == symbol@;
                    assert(j == i);
                },
                None => {
                    assert forall|i: int| 0 <= i < m.len() implies m[i] != symbol@ by {
                        assert(slot_entries(self.slots)[i].0 == m[i]);
                    }
                },
            }
        }
        r
    }
}

} // verus!
