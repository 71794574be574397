//! Access to the memory and router services, with a cache of conversation
//! contexts in front of the memory service.
//!
//! Time is read from a monotonic clock by the caller and handed over in
//! nanoseconds; as with `Instant::elapsed`, a clock reading earlier than a
//! cached time counts as no time elapsed.

use super::constants::{CONTEXT_CACHE_MAX_ENTRIES, CONTEXT_CACHE_TTL_SECS};
use super::error::IngressError;
use super::mockdata::{mock_context, mock_reason, MockDataProvider};
use crate::common::contracts::RoutePlan;
use crate::common::correlation::RequestContext;
use crate::features::executor::models::RequestPayload;
use crate::features::executor::repository::clone_strings;
use crate::keyed::{keyed_map, keys_distinct, lemma_keyed_filter, lemma_keyed_map, lemma_keyed_push, lemma_keyed_remove};
use vstd::prelude::*;

verus! {

/// A conversation context: `(history, preferences)`.
pub type ContextView = (Seq<Seq<char>>, Seq<char>);

/// A user's conversation context from the memory service.
#[derive(Debug)]
pub struct ContextData {
    /// Previous conversation messages.
    pub conversation_history: Vec<String>,
    /// The user's AI preferences and settings.
    pub user_preferences: String,
}

impl View for ContextData {
    type V = ContextView;

    open spec fn view(&self) -> ContextView {
        (self.conversation_history.deep_view(), self.user_preferences@)
    }
}

impl ContextData {
    /// A copy of this context.
    pub fn copy(&self) -> (r: ContextData)
        ensures
            r@ == self@,
    {
        ContextData {
            conversation_history: clone_strings(&self.conversation_history),
            user_preferences: self.user_preferences.clone(),
        }
    }
}

/// The router service's answer: the plan to execute and why it was chosen.
#[derive(Debug)]
pub struct RouterServiceResponse {
    pub optimized_plan: RoutePlan,
    pub optimization_reason: String,
}

/// A stand-in LLM answer: the text, the model that produced it, and what it
/// cost. `C` is the representation of the cost, which the library carries
/// without reading.
#[derive(Debug)]
pub struct LLMExecutionResult<C> {
    pub ai_response: String,
    pub model_used: String,
    pub actual_cost: C,
}

/// A cached context: for whom, what, and when it was cached.
struct CachedContext {
    user_id: String,
    data: ContextData,
    cached_at_ns: u64,
}

/// A cache entry as `(user_id, (context, cached_at_ns))`.
pub type CacheEntryView = (Seq<char>, (ContextView, u64));

impl View for CachedContext {
    type V = CacheEntryView;

    closed spec fn view(&self) -> CacheEntryView {
        (self.user_id@, (self.data@, self.cached_at_ns))
    }
}

fn copy_entry(e: &CachedContext) -> (r: CachedContext)
    ensures
        r@ == e@,
{
    CachedContext { user_id: e.user_id.clone(), data: e.data.copy(), cached_at_ns: e.cached_at_ns }
}

/// Time elapsed from `at` to `now`, never negative.
pub open spec fn elapsed(now: u64, at: u64) -> int {
    if now >= at {
        now - at
    } else {
        0
    }
}

/// A cache entry is still fresh at `now`.
pub open spec fn entry_fresh(e: CacheEntryView, now: u64, ttl_ns: u64) -> bool {
    elapsed(now, e.1.1) < ttl_ns
}

/// The entries of a cache that are still fresh at `now`.
pub open spec fn fresh_part(
    m: Map<Seq<char>, (ContextView, u64)>,
    now: u64,
    ttl_ns: u64,
) -> Map<Seq<char>, (ContextView, u64)> {
    m.restrict(Set::new(|k: Seq<char>| m.contains_key(k) && entry_fresh((k, m[k]), now, ttl_ns)))
}

/// `k` is an entry of `m` cached no later than any other.
pub open spec fn is_oldest(m: Map<Seq<char>, (ContextView, u64)>, k: Seq<char>) -> bool {
    &&& m.contains_key(k)
    &&& forall|k2: Seq<char>| #[trigger] m.contains_key(k2) ==> m[k].1 <= m[k2].1
}

/// The cache after a miss for `user` at `now`: stale entries are dropped,
/// the oldest entry is evicted when the cache is still full, and the fetched
/// context is cached for `user`.
pub open spec fn cache_after_miss(
    old: Map<Seq<char>, (ContextView, u64)>,
    new: Map<Seq<char>, (ContextView, u64)>,
    user: Seq<char>,
    fetched: ContextView,
    now: u64,
    ttl_ns: u64,
    max_entries: usize,
) -> bool {
    let kept = fresh_part(old, now, ttl_ns);
    if kept.len() >= max_entries && kept.len() > 0 {
        exists|k: Seq<char>| is_oldest(kept, k) && new == kept.remove(k).insert(user, (fetched, now))
    } else {
        new == kept.insert(user, (fetched, now))
    }
}

/// A cached context is fresh while less than the lifetime has passed since
/// it was cached; a clock reading before the caching time counts as no time
/// passed.
pub proof fn lemma_freshness_is_age_below_lifetime(e: CacheEntryView, now: u64, ttl_ns: u64)
    ensures
        entry_fresh(e, now, ttl_ns) == (if now >= e.1.1 {
            now - e.1.1 < ttl_ns
        } else {
            0 < ttl_ns
        }),
{
}

/// A miss evicts at most one fresh context, and only one cached no later
/// than any other fresh context: every fresh context that disappears (other
/// than the user's own) was the oldest, and no two of them disappear.
pub proof fn lemma_miss_evicts_only_the_oldest(
    old: Map<Seq<char>, (ContextView, u64)>,
    new: Map<Seq<char>, (ContextView, u64)>,
    user: Seq<char>,
    fetched: ContextView,
    now: u64,
    ttl_ns: u64,
    max_entries: usize,
    k: Seq<char>,
    k2: Seq<char>,
)
    requires
        cache_after_miss(old, new, user, fetched, now, ttl_ns, max_entries),
        old.contains_key(k),
        entry_fresh((k, old[k]), now, ttl_ns),
        !new.contains_key(k),
        old.contains_key(k2),
        entry_fresh((k2, old[k2]), now, ttl_ns),
        k2 != user,
        k2 != k,
    ensures
        old[k].1 <= old[k2].1,
        new.contains_key(k2),
{
    let kept = fresh_part(old, now, ttl_ns);
    assert(kept.contains_key(k));
    assert(kept.contains_key(k2));
}

/// Every cached context is the one the (simulated) memory service returns.
pub open spec fn only_mock_contexts(m: Map<Seq<char>, (ContextView, u64)>) -> bool {
    forall|k: Seq<char>| #[trigger] m.contains_key(k) ==> m[k].0 == mock_context()
}

/// The larger of the entry limit and one: a cache never holds more entries.
pub open spec fn capacity(max_entries: usize) -> int {
    if max_entries >= 1 {
        max_entries as int
    } else {
        1
    }
}

/// After a miss, the fetched context is cached for the user, stamped with
/// the time of the miss.
pub proof fn lemma_miss_caches_user(
    old: Map<Seq<char>, (ContextView, u64)>,
    new: Map<Seq<char>, (ContextView, u64)>,
    user: Seq<char>,
    fetched: ContextView,
    now: u64,
    ttl_ns: u64,
    max_entries: usize,
)
    requires
        cache_after_miss(old, new, user, fetched, now, ttl_ns, max_entries),
    ensures
        new.contains_key(user),
        new[user] == (fetched, now),
{
}

/// After a miss, every other cached context was already cached and is still
/// fresh: stale contexts never outlive a miss.
pub proof fn lemma_miss_keeps_only_fresh(
    old: Map<Seq<char>, (ContextView, u64)>,
    new: Map<Seq<char>, (ContextView, u64)>,
    user: Seq<char>,
    fetched: ContextView,
    now: u64,
    ttl_ns: u64,
    max_entries: usize,
    k: Seq<char>,
)
    requires
        cache_after_miss(old, new, user, fetched, now, ttl_ns, max_entries),
        new.contains_key(k),
        k != user,
    ensures
        old.contains_key(k),
        new[k] == old[k],
        entry_fresh((k, old[k]), now, ttl_ns),
{
}

/// A miss never grows the cache beyond its capacity: at most the entry
/// limit, and at least room for the context just fetched.
pub proof fn lemma_miss_respects_capacity(
    old: Map<Seq<char>, (ContextView, u64)>,
    new: Map<Seq<char>, (ContextView, u64)>,
    user: Seq<char>,
    fetched: ContextView,
    now: u64,
    ttl_ns: u64,
    max_entries: usize,
)
    requires
        old.dom().finite(),
        old.len() <= capacity(max_entries),
        cache_after_miss(old, new, user, fetched, now, ttl_ns, max_entries),
        !(old.contains_key(user) && entry_fresh((user, old[user]), now, ttl_ns)),
    ensures
        new.dom().finite(),
        new.len() <= capacity(max_entries),
{
    let kept = fresh_part(old, now, ttl_ns);
    let keys = Set::new(|k: Seq<char>| old.contains_key(k) && entry_fresh((k, old[k]), now, ttl_ns));
    assert(kept.dom() =~= old.dom().intersect(keys));
    vstd::set_lib::lemma_len_intersect(old.dom(), keys);
    assert(kept.len() <= old.len());
    assert(!kept.contains_key(user));
    if kept.len() >= max_entries && kept.len() > 0 {
        let k = choose|k: Seq<char>|
            is_oldest(kept, k) && new == kept.remove(k).insert(user, (fetched, now));
        assert(kept.remove(k).len() == kept.len() - 1);
        assert(!kept.remove(k).contains_key(user));
    }
}

/// Repository for the memory and router services, with a cache of
/// conversation contexts.
pub struct IngressRepository {
    context_cache: Vec<CachedContext>,
    context_cache_ttl_ns: u64,
    context_cache_max_entries: usize,
}

impl IngressRepository {
    /// The cached contexts, by user id, with the time each was cached.
    pub closed spec fn cache(&self) -> Map<Seq<char>, (ContextView, u64)> {
        keyed_map(self.context_cache@.map_values(|e: CachedContext| e@))
    }

    /// How long a cached context stays fresh, in nanoseconds.
    pub closed spec fn ttl_ns(&self) -> u64 {
        self.context_cache_ttl_ns
    }

    /// The entry limit of the cache.
    pub closed spec fn max_entries(&self) -> usize {
        self.context_cache_max_entries
    }

    /// Cache consistency: one entry per user, no more entries than allowed,
    /// and only contexts that the memory service returned.
    pub closed spec fn wf(&self) -> bool {
        &&& keys_distinct(self.context_cache@.map_values(|e: CachedContext| e@))
        &&& self.context_cache@.len() <= capacity(self.context_cache_max_entries)
        &&& only_mock_contexts(self.cache())
    }

    /// A well-formed repository never holds more contexts than its
    /// capacity: the entry limit, or one when the limit is zero.
    pub proof fn lemma_cache_within_capacity(&self)
        requires
            self.wf(),
        ensures
            self.cache().dom().finite(),
            self.cache().len() <= capacity(self.max_entries()),
    {
        lemma_keyed_map(self.context_cache@.map_values(|e: CachedContext| e@));
    }

    /// A repository with an empty cache, a ten-second lifetime and room for
    /// a thousand contexts.
    pub fn new() -> (r: IngressRepository)
        ensures
            r.wf(),
            r.cache() == Map::<Seq<char>, (ContextView, u64)>::empty(),
            r.ttl_ns() == CONTEXT_CACHE_TTL_SECS * 1_000_000_000,
            r.max_entries() == CONTEXT_CACHE_MAX_ENTRIES,
    {
        Self::with_cache_limits(CONTEXT_CACHE_TTL_SECS * 1_000_000_000, CONTEXT_CACHE_MAX_ENTRIES)
    }

    /// A repository with an empty cache and the given lifetime and entry
    /// limit.
    pub fn with_cache_limits(ttl_ns: u64, max_entries: usize) -> (r: IngressRepository)
        ensures
            r.wf(),
            r.cache() == Map::<Seq<char>, (ContextView, u64)>::empty(),
            r.ttl_ns() == ttl_ns,
            r.max_entries() == max_entries,
    {
        let r = IngressRepository {
            context_cache: Vec::new(),
            context_cache_ttl_ns: ttl_ns,
            context_cache_max_entries: max_entries,
        };
        assert(r.context_cache@.map_values(|e: CachedContext| e@) =~= Seq::<CacheEntryView>::empty());
        r
    }

    /// Whether a context is cached for `user_id`.
    pub fn is_cached(&self, user_id: &str) -> (r: bool)
        requires
            self.wf(),
        ensures
            r == self.cache().contains_key(user_id@),
    {
        self.find(user_id).is_some()
    }

    /// Number of cached contexts.
    pub fn cached_count(&self) -> (n: usize)
        requires
            self.wf(),
        ensures
            n == self.cache().len(),
    {
        proof {
            lemma_keyed_map(self.context_cache@.map_values(|e: CachedContext| e@));
        }
        self.context_cache.len()
    }

    /// The position of the entry for `user_id`, if there is one.
    fn find(&self, user_id: &str) -> (r: Option<usize>)
        requires
            self.wf(),
        ensures
            match r {
                Some(i) => i < self.context_cache@.len() && self.context_cache@[i as int].user_id@
                    == user_id@ && self.cache().contains_key(user_id@) && self.cache()[user_id@]
                    == self.context_cache@[i as int]@.1,
                None => !self.cache().contains_key(user_id@),
            },
    {
        let ghost ev = self.context_cache@.map_values(|e: CachedContext| e@);
        proof {
            lemma_keyed_map(ev);
        }
        let n = self.context_cache.len();
        let mut i: usize = 0;
        while i < n
            invariant
                n == self.context_cache@.len(),
                ev == self.context_cache@.map_values(|e: CachedContext| e@),
                i <= n,
                forall|j: int| 0 <= j < i ==> self.context_cache@[j].user_id@ != user_id@,
                self.wf(),
            decreases n - i,
        {
            if crate::text::same_text(self.context_cache[i].user_id.as_str(), user_id) {
                proof {
                    assert(ev[i as int].0 == user_id@);
                    lemma_keyed_map(ev);
                    assert(keyed_map(ev).contains_key(ev[i as int].0));
                }
                return Some(i);
            }
            i = i + 1;
        }
        proof {
            if keyed_map(ev).contains_key(user_id@) {
                let j = choose|j: int| 0 <= j < ev.len() && ev[j].0 == user_id@;
                assert(self.context_cache@[j].user_id@ == ev[j].0);
            }
        }
        None
    }

    /// Drops the entries that are no longer fresh at `now`.
    fn drop_stale(&mut self, now_ns: u64)
        requires
            old(self).wf(),
        ensures
            final(self).wf(),
            final(self).cache() == fresh_part(old(self).cache(), now_ns, old(self).ttl_ns()),
            final(self).ttl_ns() == old(self).ttl_ns(),
            final(self).max_entries() == old(self).max_entries(),
            final(self).context_cache@.len() <= old(self).context_cache@.len(),
    {
        let ttl = self.context_cache_ttl_ns;
        let ghost ev = self.context_cache@.map_values(|e: CachedContext| e@);
        let ghost p = |e: CacheEntryView| entry_fresh(e, now_ns, ttl);
        let mut kept: Vec<CachedContext> = Vec::new();
        let n = self.context_cache.len();
        let mut i: usize = 0;
        while i < n
            invariant
                n == self.context_cache@.len(),
                ev == self.context_cache@.map_values(|e: CachedContext| e@),
                ttl == self.context_cache_ttl_ns,
                p == |e: CacheEntryView| entry_fresh(e, now_ns, ttl),
                i <= n,
                kept@.map_values(|e: CachedContext| e@) == ev.take(i as int).filter(p),
            decreases n - i,
        {
            let at = self.context_cache[i].cached_at_ns;
            let age: u64 = if now_ns >= at {
                now_ns - at
            } else {
                0
            };
            proof {
                reveal_with_fuel(Seq::filter, 1);
                assert(ev.take(i + 1).drop_last() =~= ev.take(i as int));
                assert(ev.take(i + 1).last() == ev[i as int]);
            }
            if age < ttl {
                let e = copy_entry(&self.context_cache[i]);
                kept.push(e);
                assert(kept@.map_values(|e: CachedContext| e@) =~= ev.take(i as int).filter(p).push(
                    ev[i as int],
                ));
            }
            i = i + 1;
        }
        proof {
            assert(ev.take(n as int) =~= ev);
            lemma_keyed_filter(ev, p);
            ev.lemma_filter_len(p);
            let m = keyed_map(ev);
            assert(keyed_map(ev.filter(p)) =~= fresh_part(m, now_ns, ttl));
        }
        self.context_cache = kept;
    }

    /// Evicts the entry cached first.
    fn evict_oldest(&mut self)
        requires
            old(self).wf(),
            old(self).context_cache@.len() > 0,
        ensures
            keys_distinct(final(self).context_cache@.map_values(|e: CachedContext| e@)),
            final(self).context_cache@.len() == old(self).context_cache@.len() - 1,
            exists|k: Seq<char>|
                is_oldest(old(self).cache(), k) && final(self).cache() == old(self).cache().remove(k),
            final(self).ttl_ns() == old(self).ttl_ns(),
            final(self).max_entries() == old(self).max_entries(),
    {
        let ghost ev = self.context_cache@.map_values(|e: CachedContext| e@);
        let n = self.context_cache.len();
        let mut best: usize = 0;
        let mut i: usize = 1;
        while i < n
            invariant
                n == self.context_cache@.len(),
                n > 0,
                1 <= i <= n,
                best < i,
                forall|j: int|
                    0 <= j < i ==> self.context_cache@[best as int].cached_at_ns
                        <= #[trigger] self.context_cache@[j].cached_at_ns,
            decreases n - i,
        {
            if self.context_cache[i].cached_at_ns < self.context_cache[best].cached_at_ns {
                best = i;
            }
            i = i + 1;
        }
        let ghost key = ev[best as int].0;
        proof {
            lemma_keyed_map(ev);
            lemma_keyed_remove(ev, best as int);
            let m = keyed_map(ev);
            assert(m.contains_key(key));
            assert forall|k2: Seq<char>| #[trigger] m.contains_key(k2) implies m[key].1 <= m[k2].1 by {
                let j = choose|j: int| 0 <= j < ev.len() && ev[j].0 == k2;
                assert(self.context_cache@[j].cached_at_ns == ev[j].1.1);
            }
            assert(is_oldest(m, key));
        }
        let _evicted = self.context_cache.remove(best);
        proof {
            assert(self.context_cache@.map_values(|e: CachedContext| e@) =~= ev.remove(best as int));
            assert(is_oldest(old(self).cache(), key) && self.cache() == old(self).cache().remove(key));
        }
    }

    /// Retrieves a user's conversation context. A context cached less than
    /// the lifetime ago is returned as cached; otherwise the memory service
    /// is asked and its answer is cached, after stale entries are dropped and,
    /// when the cache is full, the entry cached first is evicted.
    pub fn get_context(
        &mut self,
        user_id: &str,
        request_context: &RequestContext,
        now_ns: u64,
    ) -> (r: Result<ContextData, IngressError>)
        requires
            old(self).wf(),
        ensures
            final(self).wf(),
            final(self).ttl_ns() == old(self).ttl_ns(),
            final(self).max_entries() == old(self).max_entries(),
            r matches Ok(c) && c@ == mock_context(),
            final(self).cache().dom().finite(),
            final(self).cache().len() <= capacity(old(self).max_entries()),
            ({
                let old_cache = old(self).cache();
                let hit = old_cache.contains_key(user_id@) && entry_fresh(
                    (user_id@, old_cache[user_id@]),
                    now_ns,
                    old(self).ttl_ns(),
                );
                &&& hit ==> (r matches Ok(c) && c@ == old_cache[user_id@].0 && final(self).cache()
                    == old_cache)
                &&& !hit ==> (r matches Ok(c) && c@ == mock_context() && cache_after_miss(
                    old_cache,
                    final(self).cache(),
                    user_id@,
                    mock_context(),
                    now_ns,
                    old(self).ttl_ns(),
                    old(self).max_entries(),
                ))
            }),
    {
        let found = self.find(user_id);
        if let Some(i) = found {
            let at = self.context_cache[i].cached_at_ns;
            let age: u64 = if now_ns >= at {
                now_ns - at
            } else {
                0
            };
            if age < self.context_cache_ttl_ns {
                proof {
                    self.lemma_cache_within_capacity();
                }
                return Ok(self.context_cache[i].data.copy());
            }
        }
        let context = MockDataProvider::get_mock_context();
        let ghost old_cache = self.cache();
        let ghost ttl = self.context_cache_ttl_ns;
        let ghost max = self.context_cache_max_entries;
        self.drop_stale(now_ns);
        let ghost kept = self.cache();
        proof {
            lemma_keyed_map(self.context_cache@.map_values(|e: CachedContext| e@));
            assert(!kept.contains_key(user_id@));
        }
        let mut evicted = false;
        if self.context_cache.len() >= self.context_cache_max_entries && self.context_cache.len()
            > 0 {
            self.evict_oldest();
            evicted = true;
        }
        let ghost before_insert = self.cache();
        let ghost bv = self.context_cache@.map_values(|e: CachedContext| e@);
        let entry = CachedContext { user_id: user_id.to_string(), data: context.copy(), cached_at_ns: now_ns };
        proof {
            lemma_keyed_map(bv);
            assert(!before_insert.contains_key(user_id@));
        }
        self.context_cache.push(entry);
        proof {
            assert(self.context_cache@.map_values(|e: CachedContext| e@) =~= bv.push(
                (user_id@, (mock_context(), now_ns)),
            ));
            lemma_keyed_push(bv, (user_id@, (mock_context(), now_ns)));
            lemma_keyed_map(self.context_cache@.map_values(|e: CachedContext| e@));
            self.lemma_cache_within_capacity();
        }
        Ok(context)
    }

    /// Asks the router service for the best plan for a request. The service
    /// is simulated and always picks `gpt-4` at OpenAI.
    pub fn optimize_route<F>(
        &self,
        payload: &RequestPayload<F>,
        context: &ContextData,
        request_context: &RequestContext,
    ) -> (r: Result<RouterServiceResponse, IngressError>)
        ensures
            r matches Ok(resp) && resp.optimized_plan.vendor_id@ == super::mockdata::mock_vendor()
                && resp.optimized_plan.model_id@ == super::mockdata::mock_model()
                && resp.optimized_plan.fallback_plans@.len() == 0 && resp.optimization_reason@
                == mock_reason(),
    {
        Ok(MockDataProvider::get_mock_router_response())
    }

    /// Stores a new exchange with the memory service; the user's cached
    /// context is invalidated.
    pub fn update_context(
        &mut self,
        user_id: &str,
        new_message: &str,
        response: &str,
        request_context: &RequestContext,
    ) -> (r: Result<(), IngressError>)
        requires
            old(self).wf(),
        ensures
            final(self).wf(),
            r is Ok,
            final(self).cache() == old(self).cache().remove(user_id@),
            final(self).ttl_ns() == old(self).ttl_ns(),
            final(self).max_entries() == old(self).max_entries(),
    {
        let ghost ev = self.context_cache@.map_values(|e: CachedContext| e@);
        match self.find(user_id) {
            Some(i) => {
                proof {
                    lemma_keyed_remove(ev, i as int);
                }
                let _removed = self.context_cache.remove(i);
                proof {
                    assert(self.context_cache@.map_values(|e: CachedContext| e@) =~= ev.remove(
                        i as int,
                    ));
                }
            },
            None => {
                assert(old(self).cache().remove(user_id@) =~= old(self).cache());
            },
        }
        Ok(())
    }
}

} // verus!
