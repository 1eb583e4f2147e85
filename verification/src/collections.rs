//! The hashed collections that the scheduler and the dirty sets are kept in.
//!
//! They are `bevy::platform::collections::HashSet` and `HashMap`, the set and
//! map of the engine, which hash with a fixed seed. What is stated of them
//! here is taken on trust from their documentation: the verifier does not look
//! inside them. Each function below makes one call and states what that call
//! does to the contents. A cell is stored as the tuple of its coordinates.

use bevy::platform::collections::{HashMap, HashSet};
use bevy::platform::hash::FixedHasher;
use vstd::prelude::*;

verus! {

/// The set of the engine, as a type that is carried around and never looked into.
#[verifier::external_type_specification]
#[verifier::external_body]
#[verifier::reject_recursive_types(T)]
#[verifier::reject_recursive_types(S)]
pub struct ExHashSet<T, S>(HashSet<T, S>);

/// The map of the engine, as a type that is carried around and never looked into.
#[verifier::external_type_specification]
#[verifier::external_body]
#[verifier::reject_recursive_types(K)]
#[verifier::reject_recursive_types(V)]
#[verifier::reject_recursive_types(S)]
pub struct ExHashMap<K, V, S>(HashMap<K, V, S>);

/// The hasher with a fixed seed that both collections use.
#[verifier::external_type_specification]
#[verifier::external_body]
pub struct ExFixedHasher(FixedHasher);

/// The cells that a set holds.
pub uninterp spec fn set_cells(s: HashSet<(i32, i32, i32)>) -> Set<(i32, i32, i32)>;

/// The ticks that a schedule has an entry for, each with the cells of its entry.
pub uninterp spec fn schedule_entries(m: HashMap<u64, HashSet<(i32, i32, i32)>>) -> Map<
    u64,
    Set<(i32, i32, i32)>,
>;

/// `HashSet::new` makes a set that holds nothing.
#[verifier::external_body]
pub(crate) fn cell_set_new() -> (s: HashSet<(i32, i32, i32)>)
    ensures
        set_cells(s) == Set::<(i32, i32, i32)>::empty(),
{
    HashSet::new()
}

/// `HashSet::insert` adds a value to the set and returns whether the set
/// did not have it before: afterwards the set holds `cell` beside what it
/// held, and the answer says whether `cell` was new.
#[verifier::external_body]
pub(crate) fn cell_set_insert(s: &mut HashSet<(i32, i32, i32)>, cell: (i32, i32, i32)) -> (fresh:
    bool)
    ensures
        set_cells(*final(s)) == set_cells(*old(s)).insert(cell),
        fresh == !set_cells(*old(s)).contains(cell),
{
    s.insert(cell)
}

/// `HashSet::drain` clears the set and returns all its elements in an
/// iterator: every cell of the set comes out once, in an order that nothing
/// is promised of, and the set is left empty.
#[verifier::external_body]
pub(crate) fn cell_set_drain(s: &mut HashSet<(i32, i32, i32)>) -> (cells: Vec<(i32, i32, i32)>)
    ensures
        set_cells(*final(s)) == Set::<(i32, i32, i32)>::empty(),
        cells@.no_duplicates(),
        cells@.to_set() == set_cells(*old(s)),
{
    s.drain().collect()
}

/// `HashSet::iter` visits all elements of the set: every cell comes out
/// once, in an order that nothing is promised of, and the set stays as it is.
#[verifier::external_body]
pub(crate) fn cell_set_list(s: &HashSet<(i32, i32, i32)>) -> (cells: Vec<(i32, i32, i32)>)
    ensures
        cells@.no_duplicates(),
        cells@.to_set() == set_cells(*s),
{
    s.iter().copied().collect()
}

/// `HashMap::new` makes a map without entries.
#[verifier::external_body]
pub(crate) fn schedule_new() -> (m: HashMap<u64, HashSet<(i32, i32, i32)>>)
    ensures
        schedule_entries(m) =~= Map::empty(),
{
    HashMap::new()
}

/// `HashMap::remove` removes a key from the map and returns the value that
/// was at the key: the entry of `tick` is taken out and its set handed
/// over, or the answer is `None` where there is no such entry.
#[verifier::external_body]
pub(crate) fn schedule_take(m: &mut HashMap<u64, HashSet<(i32, i32, i32)>>, tick: u64) -> (set:
    Option<HashSet<(i32, i32, i32)>>)
    ensures
        schedule_entries(*final(m)) == schedule_entries(*old(m)).remove(tick),
        match set {
            Some(s) => schedule_entries(*old(m)).contains_key(tick) && set_cells(s)
                == schedule_entries(*old(m))[tick],
            None => !schedule_entries(*old(m)).contains_key(tick),
        },
{
    m.remove(&tick)
}

/// `HashMap::insert` puts a key and a value into the map, in place of the
/// value that the key had: afterwards the entry of `tick` is `set`, and the
/// other entries are as they were.
#[verifier::external_body]
pub(crate) fn schedule_put(
    m: &mut HashMap<u64, HashSet<(i32, i32, i32)>>,
    tick: u64,
    set: HashSet<(i32, i32, i32)>,
)
    ensures
        schedule_entries(*final(m)) == schedule_entries(*old(m)).insert(tick, set_cells(set)),
{
    m.insert(tick, set);
}

/// `HashMap::keys` visits all keys of the map: every tick that has an entry
/// comes out once, in an order that nothing is promised of.
#[verifier::external_body]
pub(crate) fn schedule_ticks(m: &HashMap<u64, HashSet<(i32, i32, i32)>>) -> (ticks: Vec<u64>)
    ensures
        ticks@.no_duplicates(),
        ticks@.to_set() == schedule_entries(*m).dom(),
{
    m.keys().copied().collect()
}

/// `HashMap::get` returns a reference to the value of a key: the set of the
/// entry of `tick`, or `None` where there is no such entry.
#[verifier::external_body]
pub(crate) fn schedule_peek(m: &HashMap<u64, HashSet<(i32, i32, i32)>>, tick: u64) -> (set: Option<
    &HashSet<(i32, i32, i32)>,
>)
    ensures
        match set {
            Some(s) => schedule_entries(*m).contains_key(tick) && set_cells(*s) == schedule_entries(
                *m,
            )[tick],
            None => !schedule_entries(*m).contains_key(tick),
        },
{
    m.get(&tick)
}

} // verus!
