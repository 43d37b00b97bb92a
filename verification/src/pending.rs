//! The table of requests that are in flight: each id with the resolver that
//! will carry its response back.

use crate::text_map::TextMap;
use vstd::prelude::*;

verus! {

/// The table after the resolver `resolver` was registered under `id`.
pub open spec fn registered<R>(table: Map<Seq<char>, R>, id: Seq<char>, resolver: R) -> Map<
    Seq<char>,
    R,
> {
    table.insert(id, resolver)
}

/// The resolver that resolving `id` hands out.
pub open spec fn resolver_of<R>(table: Map<Seq<char>, R>, id: Seq<char>) -> Option<R> {
    if table.contains_key(id) {
        Some(table[id])
    } else {
        None
    }
}

/// The table after `id` was resolved.
pub open spec fn resolved<R>(table: Map<Seq<char>, R>, id: Seq<char>) -> Map<Seq<char>, R> {
    table.remove(id)
}

/// The table after the resolvers `resolvers` were registered under `ids`,
/// one after the other.
pub open spec fn registered_all<R>(
    table: Map<Seq<char>, R>,
    ids: Seq<Seq<char>>,
    resolvers: Seq<R>,
) -> Map<Seq<char>, R>
    decreases ids.len(),
{
    if ids.len() == 0 || resolvers.len() != ids.len() {
        table
    } else {
        registered(
            registered_all(table, ids.drop_last(), resolvers.drop_last()),
            ids.last(),
            resolvers.last(),
        )
    }
}

/// The requests in flight. `R` is what carries a response back to the one
/// who waits for it.
pub struct PendingTable<R> {
    resolvers: TextMap<R>,
}

impl<R> View for PendingTable<R> {
    type V = Map<Seq<char>, R>;

    closed spec fn view(&self) -> Map<Seq<char>, R> {
        self.resolvers@
    }
}

impl<R> PendingTable<R> {
    /// A table with no request in flight.
    pub fn new() -> (table: Self)
        ensures
            table@ == Map::<Seq<char>, R>::empty(),
    {
        PendingTable { resolvers: TextMap::new() }
    }

    /// Whether a request with this id is in flight.
    pub fn is_pending(&self, id: &str) -> (pending: bool)
        ensures
            pending == self@.contains_key(id@),
    {
        self.resolvers.contains_key(id)
    }

    /// Stores `resolver` under `id`. A resolver that was stored under the
    /// same id is displaced and returned.
    pub fn register(&mut self, id: String, resolver: R) -> (displaced: Option<R>)
        ensures
            final(self)@ == registered(old(self)@, id@, resolver),
            displaced == resolver_of(old(self)@, id@),
    {
        self.resolvers.insert(id, resolver)
    }

    /// Takes the resolver stored under `id` out of the table. Where there is
    /// none, the table stays as it is.
    pub fn resolve(&mut self, id: &str) -> (resolver: Option<R>)
        ensures
            final(self)@ == resolved(old(self)@, id@),
            resolver == resolver_of(old(self)@, id@),
    {
        self.resolvers.remove(id)
    }
}

/// Resolving an id hands out exactly the resolver that was registered under
/// it, whatever else is in flight, and the requests registered under other
/// ids stay as they were.
pub proof fn lemma_resolve_reaches_registered<R>(
    table: Map<Seq<char>, R>,
    id: Seq<char>,
    resolver: R,
    other: Seq<char>,
)
    requires
        other != id,
    ensures
        resolver_of(registered(table, id, resolver), id) == Some(resolver),
        resolver_of(registered(table, id, resolver), other) == resolver_of(table, other),
        resolver_of(resolved(table, id), other) == resolver_of(table, other),
        !table.contains_key(id) ==> resolved(registered(table, id, resolver), id) == table,
{
    if !table.contains_key(id) {
        assert(table.insert(id, resolver).remove(id) =~= table);
    }
}

/// Resolving an id a second time hands out nothing and leaves the table as
/// the first resolution left it.
pub proof fn lemma_resolve_twice<R>(table: Map<Seq<char>, R>, id: Seq<char>)
    ensures
        resolver_of(resolved(table, id), id) is None,
        resolved(resolved(table, id), id) == resolved(table, id),
{
    assert(table.remove(id).remove(id) =~= table.remove(id));
}

/// Resolving an id that is not in flight hands out nothing and leaves the
/// table as it is.
pub proof fn lemma_resolve_unknown<R>(table: Map<Seq<char>, R>, id: Seq<char>)
    requires
        !table.contains_key(id),
    ensures
        resolver_of(table, id) is None,
        resolved(table, id) == table,
{
    assert(table.remove(id) =~= table);
}

/// After requests were registered under ids of which none occurs twice,
/// each id maps to its own resolver, and the ids that were in flight before
/// keep theirs.
pub proof fn lemma_registered_all<R>(
    table: Map<Seq<char>, R>,
    ids: Seq<Seq<char>>,
    resolvers: Seq<R>,
)
    requires
        ids.len() == resolvers.len(),
        ids.no_duplicates(),
    ensures
        forall|k: int|
            0 <= k < ids.len() ==> resolver_of(
                registered_all(table, ids, resolvers),
                #[trigger] ids[k],
            ) == Some(resolvers[k]),
        forall|id: Seq<char>|
            !ids.contains(id) ==> #[trigger] resolver_of(registered_all(table, ids, resolvers), id)
                == resolver_of(table, id),
        registered_all(table, ids, resolvers).dom() == table.dom().union(ids.to_set()),
    decreases ids.len(),
{
    if ids.len() == 0 {
        assert(table.dom().union(ids.to_set()) =~= table.dom());
    } else {
        let front = ids.drop_last();
        let inner = registered_all(table, front, resolvers.drop_last());
        lemma_registered_all(table, front, resolvers.drop_last());
        let all = registered_all(table, ids, resolvers);
        assert(all == inner.insert(ids.last(), resolvers.last()));
        assert forall|k: int| 0 <= k < ids.len() implies resolver_of(all, #[trigger] ids[k])
            == Some(resolvers[k]) by {
            if k < ids.len() - 1 {
                assert(front[k] == ids[k]);
                assert(resolvers.drop_last()[k] == resolvers[k]);
                assert(ids[k] != ids[ids.len() - 1]);
            }
        }
        assert forall|id: Seq<char>| !ids.contains(id) implies #[trigger] resolver_of(all, id)
            == resolver_of(table, id) by {
            assert(id != ids[ids.len() - 1]);
            if front.contains(id) {
                let j = choose|j: int| 0 <= j < front.len() && front[j] == id;
                assert(ids[j] == id);
                assert(ids.contains(id));
            }
            assert(resolver_of(inner, id) == resolver_of(table, id));
        }
        assert forall|id: Seq<char>| all.dom().contains(id) <==> table.dom().union(
            ids.to_set(),
        ).contains(id) by {
            if front.to_set().contains(id) {
                let j = choose|j: int| 0 <= j < front.len() && front[j] == id;
                assert(ids[j] == id);
            }
            if ids.to_set().contains(id) && id != ids.last() {
                let j = choose|j: int| 0 <= j < ids.len() && ids[j] == id;
                assert(front[j] == id);
            }
            assert(ids[ids.len() - 1] == ids.last());
        }
        assert(all.dom() =~= table.dom().union(ids.to_set()));
    }
}

/// Every one of a batch of requests with ids of their own is answered
/// exactly once: whichever of the others were resolved before it, the
/// resolution of a request hands out the resolver that it was registered
/// with, and a further resolution of the same id hands out nothing.
pub proof fn lemma_each_resolved_exactly_once<R>(
    table: Map<Seq<char>, R>,
    ids: Seq<Seq<char>>,
    resolvers: Seq<R>,
    earlier: Set<Seq<char>>,
    k: int,
)
    requires
        ids.len() == resolvers.len(),
        ids.no_duplicates(),
        0 <= k < ids.len(),
        !earlier.contains(ids[k]),
    ensures
        resolver_of(registered_all(table, ids, resolvers).remove_keys(earlier), ids[k]) == Some(
            resolvers[k],
        ),
        resolver_of(
            resolved(registered_all(table, ids, resolvers).remove_keys(earlier), ids[k]),
            ids[k],
        ) is None,
{
    lemma_registered_all(table, ids, resolvers);
}

/// Once every request of a batch is resolved, the table is what it was
/// before the batch, where none of its ids was in flight then.
pub proof fn lemma_all_resolved_restores<R>(
    table: Map<Seq<char>, R>,
    ids: Seq<Seq<char>>,
    resolvers: Seq<R>,
)
    requires
        ids.len() == resolvers.len(),
        ids.no_duplicates(),
        forall|k: int| 0 <= k < ids.len() ==> !table.contains_key(#[trigger] ids[k]),
    ensures
        registered_all(table, ids, resolvers).remove_keys(ids.to_set()) == table,
{
    lemma_registered_all(table, ids, resolvers);
    let all = registered_all(table, ids, resolvers);
    let rest = all.remove_keys(ids.to_set());
    assert forall|id: Seq<char>| rest.contains_key(id) <==> table.contains_key(id) by {
        if table.contains_key(id) && ids.to_set().contains(id) {
            let j = choose|j: int| 0 <= j < ids.len() && ids[j] == id;
            assert(!table.contains_key(ids[j]));
        }
    }
    assert forall|id: Seq<char>| rest.contains_key(id) implies rest[id] == table[id] by {
        assert(!ids.contains(id));
        assert(resolver_of(all, id) == resolver_of(table, id));
    }
    assert(rest =~= table);
}

} // verus!
