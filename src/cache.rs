use vstd::prelude::*;

verus! {

/// The completions that a table holds, by prompt.
pub uninterp spec fn entries(m: dashmap::DashMap<String, String>) -> Map<Seq<char>, Seq<char>>;

/// Relies on dashmap::DashMap::new: a new map is empty.
#[verifier::external_body]
fn entries_new() -> (r: dashmap::DashMap<String, String>)
    ensures
        entries(r).is_empty(),
{
    dashmap::DashMap::new()
}

/// Relies on dashmap::DashMap::get: a copy of the value stored under `k`, if any.
#[verifier::external_body]
fn entries_get(m: &dashmap::DashMap<String, String>, k: &str) -> (r: Option<String>)
    ensures
        r.is_some() == entries(*m).contains_key(k@),
        r.is_some() ==> r.unwrap()@ == entries(*m)[k@],
{
    m.get(k).map(|e| e.value().clone())
}

/// Relies on dashmap::DashMap::insert: `k` maps to `v` afterwards, the rest is kept.
#[verifier::external_body]
fn entries_insert(m: &mut dashmap::DashMap<String, String>, k: String, v: String)
    ensures
        entries(*final(m)) == entries(*old(m)).insert(k@, v@),
{
    m.insert(k, v);
}

/// Relies on dashmap::DashMap::len: the number of stored keys.
#[verifier::external_body]
fn entries_len(m: &dashmap::DashMap<String, String>) -> (r: usize)
    ensures
        entries(*m).dom().finite() ==> r == entries(*m).len(),
{
    m.len()
}

/// Relies on dashmap::DashMap::clear: no key is stored afterwards.
#[verifier::external_body]
fn entries_clear(m: &mut dashmap::DashMap<String, String>)
    ensures
        entries(*final(m)).is_empty(),
{
    m.clear();
}

/// The cache after `put(p, r)`: a prompt not yet stored, arriving when the
/// cache is full, first empties the cache; then `p` maps to `r`.
pub open spec fn after_put(
    m: Map<Seq<char>, Seq<char>>,
    capacity: nat,
    p: Seq<char>,
    r: Seq<char>,
) -> Map<Seq<char>, Seq<char>> {
    if !m.contains_key(p) && m.len() >= capacity {
        Map::empty().insert(p, r)
    } else {
        m.insert(p, r)
    }
}

/// Memoization of completions by exact prompt text.
///
/// The cache is bounded: it holds at most `capacity` prompts. Storing a prompt
/// that is not yet cached into a full cache first drops every entry, so that
/// memory stays bounded however many distinct prompts arrive; a prompt that is
/// already cached is overwritten in place (last write wins).
pub struct ResponseCache {
    map: dashmap::DashMap<String, String>,
    capacity: usize,
}

impl ResponseCache {
    pub closed spec fn view(&self) -> Map<Seq<char>, Seq<char>> {
        entries(self.map)
    }

    pub closed spec fn capacity(&self) -> nat {
        self.capacity as nat
    }

    pub closed spec fn wf(&self) -> bool {
        &&& self.capacity > 0
        &&& entries(self.map).dom().finite()
        &&& entries(self.map).len() <= self.capacity
    }

    /// An empty cache that holds at most `capacity` prompts.
    pub fn new(capacity: usize) -> (r: ResponseCache)
        requires
            capacity > 0,
        ensures
            r.wf(),
            r@ == Map::<Seq<char>, Seq<char>>::empty(),
            r.capacity() == capacity,
    {
        let r = ResponseCache { map: entries_new(), capacity };
        assert(r@ =~= Map::<Seq<char>, Seq<char>>::empty());
        r
    }

    /// The completion cached for exactly `prompt`, if any.
    pub fn get(&self, prompt: &str) -> (r: Option<String>)
        ensures
            r.is_some() == self@.contains_key(prompt@),
            r.is_some() ==> r.unwrap()@ == self@[prompt@],
    {
        entries_get(&self.map, prompt)
    }

    /// Stores `completion` for `prompt`, overwriting any earlier one.
    pub fn put(&mut self, prompt: String, completion: String)
        requires
            old(self).wf(),
        ensures
            final(self).wf(),
            final(self).capacity() == old(self).capacity(),
            final(self)@ == after_put(old(self)@, old(self).capacity(), prompt@, completion@),
    {
        let present = entries_get(&self.map, prompt.as_str()).is_some();
        if !present && entries_len(&self.map) >= self.capacity {
            entries_clear(&mut self.map);
            proof {
                assert(entries(self.map) =~= Map::<Seq<char>, Seq<char>>::empty());
            }
        }
        entries_insert(&mut self.map, prompt, completion);
    }
}

/// After `put(p, r)`, every later lookup of `p` gives `r` until `p` is stored
/// again; storing `p` again with `r2` makes lookups give `r2`.
pub proof fn lemma_cache_idempotent(
    m: Map<Seq<char>, Seq<char>>,
    capacity: nat,
    p: Seq<char>,
    r: Seq<char>,
    r2: Seq<char>,
)
    ensures
        after_put(m, capacity, p, r).contains_key(p),
        after_put(m, capacity, p, r)[p] == r,
        after_put(after_put(m, capacity, p, r), capacity, p, r2).contains_key(p),
        after_put(after_put(m, capacity, p, r), capacity, p, r2)[p] == r2,
{
}

} // verus!
