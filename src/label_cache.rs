//! The label cache: resolved display labels of type and occupation
//! identifiers, kept for one run.

use vstd::prelude::*;
use vstd::hash_map::StringHashMap;
use crate::text::{opt_view, strings_view};

verus! {

/// Identifier → resolved label. An identifier, once present, keeps its label:
/// the cache only grows.
pub struct LabelCache {
    labels: StringHashMap<String>,
}

impl View for LabelCache {
    type V = Map<Seq<char>, Seq<char>>;

    closed spec fn view(&self) -> Map<Seq<char>, Seq<char>> {
        self.labels@.map_values(|s: String| s@)
    }
}

/// One resolution of `id` against the cache `before`, which gave `result` and
/// left the cache `after`. A cached identifier is answered from the cache,
/// which stays as it was; otherwise a label that was found is stored.
pub open spec fn resolves(
    before: Map<Seq<char>, Seq<char>>,
    id: Seq<char>,
    result: Option<Seq<char>>,
    after: Map<Seq<char>, Seq<char>>,
) -> bool {
    if before.contains_key(id) {
        result == Some(before[id]) && after == before
    } else {
        after == match result {
            Some(l) => before.insert(id, l),
            None => before,
        }
    }
}

/// Once an identifier has been resolved, resolving it again is answered from
/// the cache: the same label comes back and the cache does not change.
pub proof fn lemma_second_resolution_is_cached(
    c0: Map<Seq<char>, Seq<char>>,
    id: Seq<char>,
    r1: Option<Seq<char>>,
    c1: Map<Seq<char>, Seq<char>>,
    r2: Option<Seq<char>>,
    c2: Map<Seq<char>, Seq<char>>,
)
    requires
        resolves(c0, id, r1, c1),
        resolves(c1, id, r2, c2),
        r1 is Some,
    ensures
        c1.contains_key(id),
        r2 == r1,
        c2 == c1,
{
}

/// A resolution never drops nor changes a cached label.
pub proof fn lemma_resolution_keeps_cache(
    before: Map<Seq<char>, Seq<char>>,
    id: Seq<char>,
    result: Option<Seq<char>>,
    after: Map<Seq<char>, Seq<char>>,
)
    requires
        resolves(before, id, result, after),
    ensures
        before.submap_of(after),
{
}

/// `outcomes` are, position by position, the resolutions of `ids` that took the
/// cache from `before` to `after`: a label cached before is answered from the
/// cache; any other outcome is one that `fetch` gave for that identifier; a
/// label found is cached afterwards; the cache only grows, and only by `ids`.
pub open spec fn resolved_per_position<F: Fn(&str) -> Option<String>>(
    ids: Seq<Seq<char>>,
    outcomes: Seq<Option<String>>,
    before: Map<Seq<char>, Seq<char>>,
    after: Map<Seq<char>, Seq<char>>,
    fetch: &F,
) -> bool {
    &&& outcomes.len() == ids.len()
    &&& forall|i: int|
        0 <= i < ids.len() && before.contains_key(ids[i]) ==> opt_view(#[trigger] outcomes[i])
            == Some(before[ids[i]])
    &&& forall|i: int|
        0 <= i < ids.len() && !before.contains_key(ids[i]) ==> exists|s: &str|
            s@ == ids[i] && #[trigger] fetch.ensures((s,), outcomes[i])
    &&& forall|i: int|
        0 <= i < ids.len() && (#[trigger] outcomes[i]) is Some ==> after.contains_key(ids[i])
            && after[ids[i]] == outcomes[i]->0@
    &&& before.submap_of(after)
    &&& forall|k: Seq<char>| #[trigger] after.contains_key(k) ==> before.contains_key(k) || ids.contains(k)
}

/// The labels among `outcomes` that were found, in order.
pub open spec fn found(outcomes: Seq<Option<String>>) -> Seq<Seq<char>>
    decreases outcomes.len(),
{
    if outcomes.len() == 0 {
        Seq::empty()
    } else {
        found(outcomes.drop_last()) + match outcomes.last() {
            Some(l) => seq![l@],
            None => Seq::empty(),
        }
    }
}

impl LabelCache {
    /// The stored labels themselves.
    pub closed spec fn stored(&self) -> Map<Seq<char>, String> {
        self.labels@
    }

    pub fn new() -> (r: LabelCache)
        ensures
            r@ == Map::<Seq<char>, Seq<char>>::empty(),
    {
        let r = LabelCache { labels: StringHashMap::new() };
        assert(r@ =~= Map::<Seq<char>, Seq<char>>::empty());
        r
    }

    /// Number of identifiers cached.
    pub fn len(&self) -> (r: usize)
        ensures
            r == self@.len(),
    {
        assert(self@.dom() =~= self.labels@.dom());
        self.labels.len()
    }

    /// The cached label of `id`.
    pub fn lookup(&self, id: &str) -> (r: Option<String>)
        ensures
            opt_view(r) == if self@.contains_key(id@) {
                Some(self@[id@])
            } else {
                None
            },
    {
        match self.labels.get(id) {
            Some(l) => Some(l.clone()),
            None => None,
        }
    }

    /// Resolves `id`: from the cache when it is there, without calling
    /// `fetch`; otherwise by calling `fetch` once and storing what it found.
    pub fn resolve<F: Fn(&str) -> Option<String>>(&mut self, id: &str, fetch: &F) -> (r: Option<
        String,
    >)
        requires
            fetch.requires((id,)),
        ensures
            resolves(old(self)@, id@, opt_view(r), final(self)@),
            !old(self)@.contains_key(id@) ==> fetch.ensures((id,), r),
            old(self)@.contains_key(id@) ==> final(self).stored() == old(self).stored(),
            !old(self)@.contains_key(id@) && r is None ==> final(self).stored() == old(self).stored(),
            r is Some ==> final(self).stored().contains_key(id@) && final(self).stored()[id@] == r->0,
            !old(self)@.contains_key(id@) && r is Some ==> final(self).stored() == old(self).stored().insert(id@, r->0),
    {
        match self.labels.get(id) {
            Some(l) => Some(l.clone()),
            None => {
                let fetched = fetch(id);
                match fetched {
                    Some(l) => {
                        self.labels.insert(String::from_str(id), l.clone());
                        assert(self@ =~= old(self)@.insert(id@, l@));
                        Some(l)
                    },
                    None => None,
                }
            },
        }
    }

    /// Resolves each identifier of `ids` in turn; the outcome of each stands at
    /// its position.
    pub fn resolve_all<F: Fn(&str) -> Option<String>>(&mut self, ids: &Vec<String>, fetch: &F) -> (r:
        Vec<Option<String>>)
        requires
            forall|s: &str| fetch.requires((s,)),
        ensures
            r.len() == ids.len(),
            old(self)@.submap_of(final(self)@),
            forall|k: Seq<char>| #[trigger] final(self)@.contains_key(k) ==> old(self)@.contains_key(k)
                || strings_view(ids@).contains(k),
            forall|i: int| 0 <= i < ids.len() && old(self)@.contains_key(ids@[i]@) ==> opt_view(
                #[trigger] r@[i],
            ) == Some(old(self)@[ids@[i]@]),
            forall|i: int| 0 <= i < ids.len() && (#[trigger] r@[i]) is Some ==> final(self)@.contains_key(ids@[i]@)
                && final(self)@[ids@[i]@] == r@[i]->0@,
            forall|i: int| 0 <= i < ids.len() && !old(self)@.contains_key(ids@[i]@) ==> exists|s: &str|
                s@ == ids@[i]@ && #[trigger] fetch.ensures((s,), r@[i]),
            resolved_per_position(strings_view(ids@), r@, old(self)@, final(self)@, fetch),
    {
        let mut out: Vec<Option<String>> = Vec::new();
        let mut i: usize = 0;
        while i < ids.len()
            invariant
                i <= ids.len(),
                out.len() == i,
                forall|s: &str| fetch.requires((s,)),
                old(self)@.submap_of(self@),
                forall|k: Seq<char>| #[trigger] self@.contains_key(k) ==> old(self)@.contains_key(k)
                    || strings_view(ids@).contains(k),
                forall|j: int| 0 <= j < i && old(self)@.contains_key(ids@[j]@) ==> opt_view(
                    #[trigger] out@[j],
                ) == Some(old(self)@[ids@[j]@]),
                forall|j: int| 0 <= j < i && (#[trigger] out@[j]) is Some ==> self@.contains_key(ids@[j]@)
                    && self@[ids@[j]@] == out@[j]->0@,
                forall|j: int| 0 <= j < i && !old(self)@.contains_key(ids@[j]@) ==> exists|s: &str|
                    s@ == ids@[j]@ && #[trigger] fetch.ensures((s,), out@[j]),
                forall|k: Seq<char>| #[trigger] self.stored().contains_key(k) && !old(self)@.contains_key(k)
                    ==> exists|s: &str| s@ == k && #[trigger] fetch.ensures((s,), Some(self.stored()[k])),
                forall|k: Seq<char>| #[trigger] self.stored().contains_key(k) <==> self@.contains_key(k),
            decreases ids.len() - i,
        {
            let ghost prev = *self;
            let id = ids[i].as_str();
            let outcome = self.resolve(id, fetch);
            assert(strings_view(ids@)[i as int] == ids@[i as int]@);
            proof {
                if !old(self)@.contains_key(id@) {
                    if prev@.contains_key(id@) {
                        let s = choose|s: &str| s@ == id@ && #[trigger] fetch.ensures((s,), Some(prev.stored()[id@]));
                        assert(fetch.ensures((s,), outcome));
                    } else {
                        assert(fetch.ensures((id,), outcome));
                    }
                }
                assert forall|k: Seq<char>| #[trigger] self.stored().contains_key(k) && !old(self)@.contains_key(k)
                    implies exists|s: &str| s@ == k && #[trigger] fetch.ensures((s,), Some(self.stored()[k])) by {
                    if k != id@ || prev@.contains_key(id@) {
                        assert(prev.stored().contains_key(k));
                        assert(prev.stored()[k] == self.stored()[k]);
                    } else {
                        assert(fetch.ensures((id,), Some(self.stored()[k])));
                    }
                }
            }
            let ghost earlier = out@;
            out.push(outcome);
            proof {
                assert forall|j: int| 0 <= j < i + 1 && !old(self)@.contains_key(ids@[j]@) implies exists|
                    s: &str,
                | s@ == ids@[j]@ && #[trigger] fetch.ensures((s,), out@[j]) by {
                    if j < i {
                        assert(out@[j] == earlier[j]);
                    } else {
                        assert(out@[j] == outcome);
                    }
                }
            }
            i = i + 1;
        }
        proof {
            let sv = strings_view(ids@);
            assert forall|i: int| 0 <= i < sv.len() implies sv[i] == ids@[i]@ by {}
            assert forall|i: int| 0 <= i < sv.len() && !old(self)@.contains_key(sv[i]) implies exists|
                s: &str,
            | s@ == sv[i] && #[trigger] fetch.ensures((s,), out@[i]) by {
                assert(sv[i] == ids@[i]@);
            }
        }
        out
    }
}

/// The labels that were found among `outcomes`, in order.
pub fn labels_found(outcomes: &Vec<Option<String>>) -> (r: Vec<String>)
    ensures
        strings_view(r@) == found(outcomes@),
{
    let mut r: Vec<String> = Vec::new();
    let mut i: usize = 0;
    assert(outcomes@.subrange(0, 0) =~= Seq::<Option<String>>::empty());
    while i < outcomes.len()
        invariant
            i <= outcomes.len(),
            strings_view(r@) == found(outcomes@.subrange(0, i as int)),
        decreases outcomes.len() - i,
    {
        assert(outcomes@.subrange(0, i + 1).drop_last() =~= outcomes@.subrange(0, i as int));
        let ghost before = r@;
        match &outcomes[i] {
            Some(l) => {
                r.push(l.clone());
                assert(strings_view(r@) =~= strings_view(before) + seq![l@]);
            },
            None => {},
        }
        i = i + 1;
    }
    assert(outcomes@.subrange(0, outcomes.len() as int) =~= outcomes@);
    r
}

} // verus!
