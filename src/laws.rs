//! Laws of the store, stated over its model: a map from key to value, which
//! `KvStore::set` changes by `insert` and `KvStore::remove` by `remove`, and
//! which `KvStore::get` reads through `lookup`.

use crate::store::lookup;
use vstd::prelude::*;

verus! {

/// One write to the store: `(k, Some(v))` sets `k` to `v`, `(k, None)`
/// removes `k`.
pub type Write = (Seq<char>, Option<Seq<char>>);

pub open spec fn apply_write(m: Map<Seq<char>, Seq<char>>, w: Write) -> Map<Seq<char>, Seq<char>> {
    match w.1 {
        Some(v) => m.insert(w.0, v),
        None => m.remove(w.0),
    }
}

/// The store after a sequence of writes, in order.
pub open spec fn apply_writes(m: Map<Seq<char>, Seq<char>>, ws: Seq<Write>) -> Map<
    Seq<char>,
    Seq<char>,
>
    decreases ws.len(),
{
    if ws.len() == 0 {
        m
    } else {
        apply_write(apply_writes(m, ws.drop_last()), ws.last())
    }
}

/// The writes `set(k, vs[0])`, `set(k, vs[1])`, ... in that order.
pub open spec fn sets_of(k: Seq<char>, vs: Seq<Seq<char>>) -> Seq<Write> {
    vs.map_values(|v: Seq<char>| (k, Some(v)))
}

/// After `set(k, v)`, `get(k)` returns `v` for as long as only writes to
/// other keys follow.
pub proof fn lemma_get_after_set(
    m: Map<Seq<char>, Seq<char>>,
    k: Seq<char>,
    v: Seq<char>,
    later: Seq<Write>,
)
    requires
        forall|i: int| 0 <= i < later.len() ==> #[trigger] later[i].0 != k,
    ensures
        lookup(apply_writes(m.insert(k, v), later), k) == Some(v),
    decreases later.len(),
{
    if later.len() > 0 {
        let rest = later.drop_last();
        assert forall|i: int| 0 <= i < rest.len() implies #[trigger] rest[i].0 != k by {
            assert(rest[i] == later[i]);
        }
        lemma_get_after_set(m, k, v, rest);
        assert(later.last().0 != k);
    }
}

/// Removing a key twice leaves the store as removing it once does, and
/// `get` finds no value for it either way.
pub proof fn lemma_remove_idempotent(m: Map<Seq<char>, Seq<char>>, k: Seq<char>)
    ensures
        m.remove(k).remove(k) == m.remove(k),
        lookup(m.remove(k).remove(k), k) == None::<Seq<char>>,
        lookup(m.remove(k), k) == None::<Seq<char>>,
{
    assert(m.remove(k).remove(k) =~= m.remove(k));
}

/// Of two sets of one key, the later wins: the first leaves no trace.
pub proof fn lemma_last_write_wins(
    m: Map<Seq<char>, Seq<char>>,
    k: Seq<char>,
    v1: Seq<char>,
    v2: Seq<char>,
)
    ensures
        m.insert(k, v1).insert(k, v2) == m.insert(k, v2),
        lookup(m.insert(k, v1).insert(k, v2), k) == Some(v2),
{
    assert(m.insert(k, v1).insert(k, v2) =~= m.insert(k, v2));
}

/// Sets of two different keys do not disturb each other, and give the same
/// store in either order.
pub proof fn lemma_keys_isolated(
    m: Map<Seq<char>, Seq<char>>,
    a: Seq<char>,
    b: Seq<char>,
    va: Seq<char>,
    vb: Seq<char>,
)
    requires
        a != b,
    ensures
        m.insert(a, va).insert(b, vb) == m.insert(b, vb).insert(a, va),
        lookup(m.insert(a, va).insert(b, vb), a) == Some(va),
        lookup(m.insert(a, va).insert(b, vb), b) == Some(vb),
{
    assert(m.insert(a, va).insert(b, vb) =~= m.insert(b, vb).insert(a, va));
}

/// Sets of one key, taken in whatever order the store ran them, leave exactly
/// one of the values written: the last one run.
pub proof fn lemma_one_set_wins(m: Map<Seq<char>, Seq<char>>, k: Seq<char>, vs: Seq<Seq<char>>)
    requires
        vs.len() > 0,
    ensures
        lookup(apply_writes(m, sets_of(k, vs)), k) == Some(vs.last()),
        exists|i: int| 0 <= i < vs.len() && lookup(apply_writes(m, sets_of(k, vs)), k) == Some(#[trigger] vs[i]),
{
    let ws = sets_of(k, vs);
    assert(ws.last() == (k, Some(vs.last())));
    assert(lookup(apply_writes(m, ws), k) == Some(vs[vs.len() - 1]));
}

} // verus!
