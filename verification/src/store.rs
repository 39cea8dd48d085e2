//! A mathematical model of the record collection, and the laws the two
//! routes rely on. The collection itself lives in the database: the driver's
//! `insert_one` adds one record, and `find_one` with the equality filter on
//! the name returns a record exactly when one with that name is stored. The
//! model keeps of a record what the service keeps of it — its name — and,
//! like the service, enforces no uniqueness.

use vstd::prelude::*;
use vstd::multiset::Multiset;

verus! {

/// The stored records after a successful create of `name`: one more record
/// under that name, everything else untouched.
pub open spec fn store_after_create(store: Multiset<Seq<char>>, name: Seq<char>) -> Multiset<
    Seq<char>,
> {
    store.insert(name)
}

/// Whether a lookup for `name` finds a record in the store.
pub open spec fn lookup_finds(store: Multiset<Seq<char>>, name: Seq<char>) -> bool {
    store.count(name) > 0
}

/// A record once created is found: after a successful create of `name`, a
/// lookup for `name` finds a record, whatever was stored before.
pub proof fn lemma_create_then_lookup(store: Multiset<Seq<char>>, name: Seq<char>)
    ensures
        lookup_finds(store_after_create(store, name), name),
{
    broadcast use vstd::multiset::group_multiset_axioms;

    assert(store_after_create(store, name).count(name) == store.count(name) + 1);
}

/// Creates are never deduplicated: a successful create adds exactly one
/// record, also when records with the same name are already stored, so two
/// creates of one name — concurrent or not, their inserts land in some
/// order — leave two more records with that name than before.
pub proof fn lemma_duplicate_creates(store: Multiset<Seq<char>>, name: Seq<char>)
    ensures
        store_after_create(store, name).count(name) == store.count(name) + 1,
        store_after_create(store_after_create(store, name), name).count(name) == store.count(name)
            + 2,
{
    broadcast use vstd::multiset::group_multiset_axioms;

}

} // verus!
