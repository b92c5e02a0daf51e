//! The static product catalog: a read-only table from product
//! identifier to price in minor currency units, filled once at
//! startup and only ever read afterwards.

use vstd::prelude::*;
use std::collections::HashMap;

verus! {

broadcast use vstd::std_specs::hash::group_hash_axioms;

/// The price a catalog gives for `id`: the configured price for a
/// configured product, nothing for every other identifier.
pub open spec fn resolved_price(cat: Map<i32, i32>, id: i32) -> Option<i32> {
    if cat.contains_key(id) {
        Some(cat[id])
    } else {
        None
    }
}

/// Resolution law: every configured product resolves to its
/// configured price, and every unconfigured identifier is rejected.
pub proof fn lemma_resolution(cat: Map<i32, i32>, p: i32)
    ensures
        cat.contains_key(p) ==> resolved_price(cat, p) == Some(cat[p]),
        !cat.contains_key(p) ==> resolved_price(cat, p) is None,
{
}

/// Independence law: resolution reads only the shared immutable
/// catalog and the request's own product identifier, so two
/// concurrently handled purchases for valid products each see their
/// own configured price, whatever the other one asked for.
pub proof fn lemma_resolution_independent(cat: Map<i32, i32>, p1: i32, p2: i32)
    requires
        cat.contains_key(p1),
        cat.contains_key(p2),
    ensures
        resolved_price(cat, p1) == Some(cat[p1]),
        resolved_price(cat, p2) == Some(cat[p2]),
{
}

/// Table from product identifier to its price (minor currency units).
pub struct Catalog {
    table: HashMap<i32, i32>,
}

impl View for Catalog {
    type V = Map<i32, i32>;

    closed spec fn view(&self) -> Map<i32, i32> {
        self.table@
    }
}

impl Catalog {
    /// An empty catalog, to be filled by `add` during startup.
    pub fn new() -> (c: Catalog)
        ensures
            c@ == Map::<i32, i32>::empty(),
    {
        Catalog { table: HashMap::new() }
    }

    /// Record that product `id` costs `price` minor units.
    pub fn add(&mut self, id: i32, price: i32)
        ensures
            final(self)@ == old(self)@.insert(id, price),
    {
        self.table.insert(id, price);
    }

    /// Price lookup: `Some(price)` exactly for configured products,
    /// `None` for every other identifier.
    pub fn resolve(&self, id: i32) -> (r: Option<i32>)
        ensures
            r == resolved_price(self@, id),
    {
        match self.table.get(&id) {
            Some(p) => Some(*p),
            None => None,
        }
    }
}

} // verus!
