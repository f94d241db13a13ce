//! The handle registry: where published sources, immutable plans and
//! computed results live while a flow refers to them by number.
//!
//! A handle is `(role, handle, generation, source)`. A source republished
//! under a new generation invalidates every handle minted against the old
//! one: resolution fails closed rather than answering from stale data.
use vstd::prelude::*;
use vstd::laws_eq::obeys_concrete_eq;
use std::collections::HashMap;
use crate::boundary::{CamLabels, Catalog, ordinal_in};
use crate::envelope::{Envelope, Role};
use crate::error::Z8Error;
use crate::plan::{SourceId, SourceRef};
use crate::table::NameTable;
use crate::text::{concat2, concat3, decimal, decimal_text};

verus! {

broadcast use vstd::std_specs::hash::group_hash_axioms;

/// A published source: where it stands and its current batch.
#[derive(Debug)]
pub struct SourceEntry<B> {
    pub source: SourceRef,
    pub batch: B,
}

/// A fold remembered under its physical key, for the source it read.
#[derive(Debug)]
pub struct CacheEntry<K, R> {
    pub source: SourceId,
    pub key: K,
    pub result: R,
}

/// The first remembered fold under `key`.
pub open spec fn cache_lookup<K, R>(cache: Seq<CacheEntry<K, R>>, key: K) -> Option<CacheEntry<K, R>>
    decreases cache.len(),
{
    if cache.len() == 0 {
        None
    } else if cache[0].key == key {
        Some(cache[0])
    } else {
        cache_lookup(cache.drop_first(), key)
    }
}

/// The current generation of each published source.
pub open spec fn generations<B>(sources: Map<u32, SourceEntry<B>>) -> Map<u32, u32> {
    sources.map_values(|e: SourceEntry<B>| e.source.generation)
}

pub open spec fn no_source_message(id: SourceId) -> Seq<char> {
    "no lance source "@ + decimal_text(id.0 as nat)
}

pub open spec fn stale_message(e: Envelope, current: u32) -> Seq<char> {
    "stale lance handle: source "@ + decimal_text(e.source.0 as nat) + " is at generation "@
        + decimal_text(current as nat) + ", handle minted at "@ + decimal_text(e.generation as nat)
}

/// Why a handle minted as `e` cannot be resolved against sources at the
/// given generations: its source is gone or has moved on.
pub open spec fn refusal(gens: Map<u32, u32>, e: Envelope) -> Option<Seq<char>> {
    if !gens.contains_key(e.source.0) {
        Some(no_source_message(e.source))
    } else if gens[e.source.0] != e.generation {
        Some(stale_message(e, gens[e.source.0]))
    } else {
        None
    }
}

pub open spec fn no_plan_message(h: u64) -> Seq<char> {
    "no lance plan handle "@ + decimal_text(h as nat)
}

pub open spec fn no_result_message(h: u64) -> Seq<char> {
    "no lance result handle "@ + decimal_text(h as nat)
}

pub open spec fn unknown_source_name_message(name: Seq<char>) -> Seq<char> {
    "no lance source published as '"@ + name + "'"@
}

/// What resolving `e` against `stored` answers: the refusal of its source,
/// else the value under its handle, else the message that it has none.
pub open spec fn resolution<V>(
    gens: Map<u32, u32>,
    stored: Map<u64, V>,
    e: Envelope,
    missing: Seq<char>,
) -> Result<V, Seq<char>> {
    match refusal(gens, e) {
        Some(m) => Err(m),
        None => if stored.contains_key(e.handle) {
            Ok(stored[e.handle])
        } else {
            Err(missing)
        },
    }
}

/// The plain form of a resolution outcome.
pub open spec fn resolved<V>(r: Result<&V, Z8Error>) -> Result<V, Seq<char>> {
    match r {
        Ok(v) => Ok(*v),
        Err(e) => Err(e.message()),
    }
}

/// Registered plans by handle, each with the source it was made over.
#[derive(Debug)]
struct PlanTable<P> {
    plans: HashMap<u64, P>,
    sources: HashMap<u64, SourceRef>,
}

/// Shared by every lance node of an engine: sources, plans, results and
/// the fold cache, with the boundary stores beside them.
#[derive(Debug)]
pub struct LanceRegistry<B, P, R, K> {
    sources: HashMap<u32, SourceEntry<B>>,
    source_names: NameTable<SourceId>,
    plans: PlanTable<P>,
    results: HashMap<u64, R>,
    cache: Vec<CacheEntry<K, R>>,
    next: u64,
    catalog: Catalog,
    cam: CamLabels,
    executions: u64,
    cache_hits: u64,
    reinterpretations: u64,
}

/// A counter after one more event; it wraps at the top.
pub open spec fn bump(n: u64) -> u64 {
    if n == u64::MAX {
        0
    } else {
        (n + 1) as u64
    }
}

fn bumped(n: u64) -> (r: u64)
    ensures
        r == bump(n),
{
    if n == u64::MAX {
        0
    } else {
        n + 1
    }
}

impl<B, P, R, K> LanceRegistry<B, P, R, K> {
    /// Published sources, by id.
    pub closed spec fn sources(self) -> Map<u32, SourceEntry<B>> {
        self.sources@
    }

    /// Published source names.
    pub closed spec fn names(self) -> Map<Seq<char>, SourceId> {
        self.source_names.view()
    }

    /// Registered plans, by handle.
    pub closed spec fn plans(self) -> Map<u64, P> {
        self.plans.plans@
    }

    /// The source each registered plan was made over, by handle.
    pub closed spec fn plan_sources(self) -> Map<u64, SourceRef> {
        self.plans.sources@
    }

    /// Registered results, by handle.
    pub closed spec fn results(self) -> Map<u64, R> {
        self.results@
    }

    /// Remembered folds, newest last.
    pub closed spec fn cache(self) -> Seq<CacheEntry<K, R>> {
        self.cache@
    }

    /// The field names the catalog resolves.
    pub closed spec fn fields(self) -> Map<Seq<char>, crate::plan::FieldId> {
        self.catalog.view()
    }

    /// The label codebook.
    pub closed spec fn labels(self) -> Map<u32, Map<Seq<char>, u32>> {
        self.cam.view()
    }

    /// The handle the next registration receives.
    pub closed spec fn next_handle(self) -> u64 {
        self.next
    }

    /// Folds actually executed.
    pub closed spec fn execution_count(self) -> u64 {
        self.executions
    }

    /// Executions answered from the fold cache.
    pub closed spec fn cache_hit_count(self) -> u64 {
        self.cache_hits
    }

    /// Results re-viewed without any fold.
    pub closed spec fn reinterpretation_count(self) -> u64 {
        self.reinterpretations
    }

    /// The three counters: executions, cache hits, reinterpretations.
    pub open spec fn counts(self) -> (u64, u64, u64) {
        (self.execution_count(), self.cache_hit_count(), self.reinterpretation_count())
    }

    /// What the registry was given: the sources, their names, the field
    /// names and the label codebook.
    pub open spec fn published(self) -> (
        Map<u32, SourceEntry<B>>,
        Map<Seq<char>, SourceId>,
        Map<Seq<char>, crate::plan::FieldId>,
        Map<u32, Map<Seq<char>, u32>>,
    ) {
        (self.sources(), self.names(), self.fields(), self.labels())
    }

    /// Sources are filed under their own ids, and every handle given out
    /// so far is below the next one.
    #[verifier::type_invariant]
    spec fn wf(self) -> bool {
        &&& forall|id: u32| #[trigger] self.sources@.contains_key(id) ==> self.sources@[id].source.id.0 == id
        &&& forall|h: u64| #[trigger] self.plans.plans@.contains_key(h) ==> h < self.next
        &&& forall|h: u64| #[trigger] self.plans.plans@.contains_key(h) ==> self.plans.sources@.contains_key(h)
        &&& forall|h: u64| #[trigger] self.plans.sources@.contains_key(h) ==> self.plans.plans@.contains_key(h)
        &&& forall|h: u64| #[trigger] self.results@.contains_key(h) ==> h < self.next
    }

    /// An empty registry; handles start at 1.
    pub fn new() -> (r: Self)
        ensures
            r.sources() == Map::<u32, SourceEntry<B>>::empty(),
            r.names() == Map::<Seq<char>, SourceId>::empty(),
            r.plans() == Map::<u64, P>::empty(),
            r.plan_sources() == Map::<u64, SourceRef>::empty(),
            r.results() == Map::<u64, R>::empty(),
            r.cache().len() == 0,
            r.next_handle() == 1,
            r.fields() == Map::<Seq<char>, crate::plan::FieldId>::empty(),
            r.labels() == Map::<u32, Map<Seq<char>, u32>>::empty(),
            r.counts() == (0u64, 0u64, 0u64),
    {
        LanceRegistry {
            sources: HashMap::new(),
            source_names: NameTable::new(),
            plans: PlanTable { plans: HashMap::new(), sources: HashMap::new() },
            results: HashMap::new(),
            cache: Vec::new(),
            next: 1,
            catalog: Catalog::new(),
            cam: CamLabels::new(),
            executions: 0,
            cache_hits: 0,
            reinterpretations: 0,
        }
    }

    /// The handle the next registration receives; every handle given out
    /// so far is below it.
    pub fn next(&self) -> (r: u64)
        ensures
            r == self.next_handle(),
            forall|h: u64| #[trigger] self.plans().contains_key(h) ==> h < r,
            forall|h: u64| #[trigger] self.results().contains_key(h) ==> h < r,
    {
        proof {
            use_type_invariant(self);
        }
        self.next
    }

    /// Folds actually executed.
    pub fn executions(&self) -> (r: u64)
        ensures
            r == self.execution_count(),
    {
        self.executions
    }

    /// Executions answered from the fold cache.
    pub fn cache_hits(&self) -> (r: u64)
        ensures
            r == self.cache_hit_count(),
    {
        self.cache_hits
    }

    /// Results re-viewed without any fold.
    pub fn reinterpretations(&self) -> (r: u64)
        ensures
            r == self.reinterpretation_count(),
    {
        self.reinterpretations
    }

    /// Field-name resolution.
    pub fn catalog(&self) -> (c: &Catalog)
        ensures
            c.view() == self.fields(),
    {
        &self.catalog
    }

    /// Replaces the field-name resolution.
    pub fn set_catalog(&mut self, catalog: Catalog)
        ensures
            final(self).fields() == catalog.view(),
            final(self).labels() == old(self).labels(),
            final(self).sources() == old(self).sources(),
            final(self).names() == old(self).names(),
            final(self).plans() == old(self).plans(),
            final(self).plan_sources() == old(self).plan_sources(),
            final(self).results() == old(self).results(),
            final(self).cache() == old(self).cache(),
            final(self).next_handle() == old(self).next_handle(),
            final(self).counts() == old(self).counts(),
    {
        proof {
            use_type_invariant(&*self);
        }
        self.catalog = catalog;
    }

    /// The label codebook.
    pub fn cam(&self) -> (c: &CamLabels)
        ensures
            c.view() == self.labels(),
    {
        &self.cam
    }

    /// Gives `label` of `field` the ordinal `ordinal` in the codebook.
    pub fn define_label(&mut self, field: crate::plan::FieldId, label: &str, ordinal: u32)
        ensures
            forall|f: crate::plan::FieldId, l: Seq<char>|
                #[trigger] ordinal_in(final(self).labels(), f, l) == if f == field && l == label@ {
                    Some(ordinal)
                } else {
                    ordinal_in(old(self).labels(), f, l)
                },
            final(self).fields() == old(self).fields(),
            final(self).sources() == old(self).sources(),
            final(self).names() == old(self).names(),
            final(self).plans() == old(self).plans(),
            final(self).plan_sources() == old(self).plan_sources(),
            final(self).results() == old(self).results(),
            final(self).cache() == old(self).cache(),
            final(self).next_handle() == old(self).next_handle(),
            final(self).counts() == old(self).counts(),
    {
        proof {
            use_type_invariant(&*self);
        }
        let mut cam = CamLabels::new();
        std::mem::swap(&mut cam, &mut self.cam);
        cam.define(field, label, ordinal);
        self.cam = cam;
    }

    /// Publishes (or republishes) `batch` of `source` under `name`.
    /// Republishing replaces the batch and drops the folds remembered for
    /// the source; handles minted at another generation then fail closed.
    pub fn publish(&mut self, name: &str, source: SourceRef, batch: B)
        ensures
            final(self).names() == old(self).names().insert(name@, source.id),
            final(self).sources() == old(self).sources().insert(
                source.id.0,
                SourceEntry { source, batch },
            ),
            final(self).cache() == old(self).cache().filter(
                |e: CacheEntry<K, R>| e.source != source.id,
            ),
            final(self).plans() == old(self).plans(),
            final(self).plan_sources() == old(self).plan_sources(),
            final(self).results() == old(self).results(),
            final(self).next_handle() == old(self).next_handle(),
            final(self).counts() == old(self).counts(),
    {
        proof {
            use_type_invariant(&*self);
        }
        let mut names = NameTable::new();
        std::mem::swap(&mut names, &mut self.source_names);
        names.insert(name, source.id);
        self.source_names = names;
        let ghost old_cache = self.cache@;
        let ghost keep = |e: CacheEntry<K, R>| e.source != source.id;
        let mut old_entries = Vec::new();
        std::mem::swap(&mut old_entries, &mut self.cache);
        let mut kept: Vec<CacheEntry<K, R>> = Vec::new();
        let n = old_entries.len();
        let mut i: usize = 0;
        assert(old_entries@ == old_cache);
        while i < n
            invariant
                n == old_cache.len(),
                i <= n,
                old_entries@ == old_cache.skip(i as int),
                kept@ == old_cache.take(i as int).filter(keep),
                keep == (|e: CacheEntry<K, R>| e.source != source.id),
            decreases n - i,
        {
            let e = old_entries.remove(0);
            assert(old_cache.take(i + 1).drop_last() =~= old_cache.take(i as int));
            assert(old_cache.take(i + 1).last() == e);
            reveal_with_fuel(Seq::filter, 1);
            assert(old_cache.take(i + 1).filter(keep) == if keep(e) {
                old_cache.take(i as int).filter(keep).push(e)
            } else {
                old_cache.take(i as int).filter(keep)
            });
            assert(keep(e) == (e.source.0 != source.id.0));
            if e.source.0 != source.id.0 {
                kept.push(e);
            }
            assert(old_cache.skip(i + 1) =~= old_cache.skip(i as int).drop_first());
            i = i + 1;
        }
        assert(old_cache.take(n as int) =~= old_cache);
        self.cache = kept;
        let mut sources = HashMap::new();
        std::mem::swap(&mut sources, &mut self.sources);
        sources.insert(source.id.0, SourceEntry { source, batch });
        self.sources = sources;
    }

    /// The source published under `name`.
    pub fn source_id(&self, name: &str) -> (r: Result<SourceId, Z8Error>)
        ensures
            self.names().contains_key(name@) ==> r == Ok::<SourceId, Z8Error>(
                self.names()[name@],
            ),
            !self.names().contains_key(name@) ==> (r matches Err(e) && e.message()
                == unknown_source_name_message(name@)),
    {
        match self.source_names.get(name) {
            Some(id) => Ok(*id),
            None => Err(
                Z8Error::Internal(concat3("no lance source published as '", name, "'")),
            ),
        }
    }

    /// The current batch of a source.
    pub fn batch(&self, id: SourceId) -> (r: Result<&B, Z8Error>)
        ensures
            self.sources().contains_key(id.0) ==> (r matches Ok(b) && *b == self.sources()[id.0].batch),
            !self.sources().contains_key(id.0) ==> (r matches Err(e) && e.message()
                == no_source_message(id)),
    {
        match self.sources.get(&id.0) {
            Some(entry) => Ok(&entry.batch),
            None => Err(no_source(id)),
        }
    }

    /// The source `id` as it stands now: at the generation of its current
    /// batch.
    pub fn current(&self, id: SourceId) -> (r: Result<SourceRef, Z8Error>)
        ensures
            self.sources().contains_key(id.0) ==> r == Ok::<SourceRef, Z8Error>(
                self.sources()[id.0].source,
            ),
            self.sources().contains_key(id.0) ==> self.sources()[id.0].source.id == id,
            !self.sources().contains_key(id.0) ==> (r matches Err(e) && e.message()
                == no_source_message(id)),
    {
        proof {
            use_type_invariant(self);
        }
        match self.sources.get(&id.0) {
            Some(entry) => Ok(entry.source),
            None => Err(no_source(id)),
        }
    }

    /// Refuses a handle whose source is gone or at another generation.
    pub fn check(&self, e: &Envelope) -> (r: Result<(), Z8Error>)
        ensures
            refusal(generations(self.sources()), *e) is None ==> r is Ok,
            refusal(generations(self.sources()), *e) matches Some(m) ==> (r matches Err(err)
                && err.message() == m),
    {
        match self.sources.get(&e.source.0) {
            None => Err(no_source(e.source)),
            Some(cur) => {
                if cur.source.generation != e.generation {
                    let mut m = String::from_str("stale lance handle: source ");
                    let a = decimal(e.source.0 as u64);
                    m.append(a.as_str());
                    m.append(" is at generation ");
                    let b = decimal(cur.source.generation as u64);
                    m.append(b.as_str());
                    m.append(", handle minted at ");
                    let c = decimal(e.generation as u64);
                    m.append(c.as_str());
                    Err(Z8Error::Internal(m))
                } else {
                    Ok(())
                }
            },
        }
    }

    /// Registers a plan over `source`; returns its envelope.
    pub fn put_plan(&mut self, source: SourceRef, plan: P) -> (env: Envelope)
        requires
            old(self).next_handle() < u64::MAX,
        ensures
            env == (Envelope {
                role: Role::Plan,
                handle: old(self).next_handle(),
                generation: source.generation,
                source: source.id,
            }),
            !old(self).plans().contains_key(env.handle),
            !old(self).results().contains_key(env.handle),
            final(self).plans() == old(self).plans().insert(env.handle, plan),
            final(self).plan_sources() == old(self).plan_sources().insert(env.handle, source),
            final(self).next_handle() == old(self).next_handle() + 1,
            final(self).results() == old(self).results(),
            final(self).sources() == old(self).sources(),
            final(self).names() == old(self).names(),
            final(self).fields() == old(self).fields(),
            final(self).labels() == old(self).labels(),
            final(self).cache() == old(self).cache(),
            final(self).counts() == old(self).counts(),
    {
        proof {
            use_type_invariant(&*self);
        }
        let h = self.next;
        self.next = self.next + 1;
        let mut table = PlanTable { plans: HashMap::new(), sources: HashMap::new() };
        std::mem::swap(&mut table, &mut self.plans);
        table.plans.insert(h, plan);
        table.sources.insert(h, source);
        self.plans = table;
        Envelope { role: Role::Plan, handle: h, generation: source.generation, source: source.id }
    }

    /// Resolves a plan handle.
    pub fn plan(&self, e: &Envelope) -> (r: Result<&P, Z8Error>)
        ensures
            resolved(r) == resolution(
                generations(self.sources()),
                self.plans(),
                *e,
                no_plan_message(e.handle),
            ),
    {
        match self.check(e) {
            Err(err) => Err(err),
            Ok(()) => match self.plans.plans.get(&e.handle) {
                Some(p) => Ok(p),
                None => Err(Z8Error::Internal(concat2("no lance plan handle ", decimal(e.handle).as_str()))),
            },
        }
    }

    /// Registers a result computed over `source`; returns its envelope.
    pub fn put_result(&mut self, source: SourceRef, result: R) -> (env: Envelope)
        requires
            old(self).next_handle() < u64::MAX,
        ensures
            env == (Envelope {
                role: Role::Result,
                handle: old(self).next_handle(),
                generation: source.generation,
                source: source.id,
            }),
            !old(self).plans().contains_key(env.handle),
            !old(self).results().contains_key(env.handle),
            final(self).results() == old(self).results().insert(env.handle, result),
            final(self).next_handle() == old(self).next_handle() + 1,
            final(self).plans() == old(self).plans(),
            final(self).plan_sources() == old(self).plan_sources(),
            final(self).sources() == old(self).sources(),
            final(self).names() == old(self).names(),
            final(self).fields() == old(self).fields(),
            final(self).labels() == old(self).labels(),
            final(self).cache() == old(self).cache(),
            final(self).counts() == old(self).counts(),
    {
        proof {
            use_type_invariant(&*self);
        }
        let h = self.next;
        self.next = self.next + 1;
        let mut results = HashMap::new();
        std::mem::swap(&mut results, &mut self.results);
        results.insert(h, result);
        self.results = results;
        Envelope { role: Role::Result, handle: h, generation: source.generation, source: source.id }
    }

    /// Resolves a result handle.
    pub fn result(&self, e: &Envelope) -> (r: Result<&R, Z8Error>)
        ensures
            resolved(r) == resolution(
                generations(self.sources()),
                self.results(),
                *e,
                no_result_message(e.handle),
            ),
    {
        match self.check(e) {
            Err(err) => Err(err),
            Ok(()) => match self.results.get(&e.handle) {
                Some(r) => Ok(r),
                None => Err(Z8Error::Internal(concat2("no lance result handle ", decimal(e.handle).as_str()))),
            },
        }
    }
}

fn no_source(id: SourceId) -> (e: Z8Error)
    ensures
        e.message() == no_source_message(id),
{
    Z8Error::Internal(concat2("no lance source ", decimal(id.0 as u64).as_str()))
}

} // verus!

verus! {

impl<B, P, R, K: PartialEq> LanceRegistry<B, P, R, K> {
    /// The fold remembered under `key`.
    pub fn cached(&self, key: &K) -> (r: Option<&R>)
        requires
            obeys_concrete_eq::<K>(),
        ensures
            r.is_some() == cache_lookup(self.cache(), *key).is_some(),
            r.is_some() ==> *r.unwrap() == cache_lookup(self.cache(), *key).unwrap().result,
    {
        proof {
            reveal(obeys_concrete_eq);
        }
        let n = self.cache.len();
        let mut i: usize = 0;
        assert(self.cache@.skip(0) =~= self.cache@);
        while i < n
            invariant
                n == self.cache@.len(),
                i <= n,
                obeys_concrete_eq::<K>(),
                cache_lookup(self.cache@, *key) == cache_lookup(self.cache@.skip(i as int), *key),
            decreases n - i,
        {
            proof {
                reveal(obeys_concrete_eq);
            }
            assert(self.cache@.skip(i as int).drop_first() =~= self.cache@.skip(i + 1));
            assert(self.cache@.skip(i as int)[0] == self.cache@[i as int]);
            if self.cache[i].key == *key {
                return Some(&self.cache[i].result);
            }
            i = i + 1;
        }
        None
    }

    /// Remembers `result` as the fold under `key` of `source`, replacing
    /// the one remembered under that key before.
    pub fn remember(&mut self, source: SourceId, key: K, result: R)
        requires
            obeys_concrete_eq::<K>(),
        ensures
            final(self).cache() == old(self).cache().filter(|e: CacheEntry<K, R>| e.key != key).push(
                CacheEntry { source, key, result },
            ),
            final(self).sources() == old(self).sources(),
            final(self).names() == old(self).names(),
            final(self).plans() == old(self).plans(),
            final(self).plan_sources() == old(self).plan_sources(),
            final(self).results() == old(self).results(),
            final(self).next_handle() == old(self).next_handle(),
            final(self).fields() == old(self).fields(),
            final(self).labels() == old(self).labels(),
            final(self).counts() == old(self).counts(),
    {
        proof {
            reveal(obeys_concrete_eq);
            use_type_invariant(&*self);
        }
        let ghost old_cache = self.cache@;
        let ghost keep = |e: CacheEntry<K, R>| e.key != key;
        let mut old_entries = Vec::new();
        std::mem::swap(&mut old_entries, &mut self.cache);
        let mut kept: Vec<CacheEntry<K, R>> = Vec::new();
        let n = old_entries.len();
        let mut i: usize = 0;
        while i < n
            invariant
                n == old_cache.len(),
                i <= n,
                obeys_concrete_eq::<K>(),
                old_entries@ == old_cache.skip(i as int),
                kept@ == old_cache.take(i as int).filter(keep),
                keep == (|e: CacheEntry<K, R>| e.key != key),
            decreases n - i,
        {
            proof {
                reveal(obeys_concrete_eq);
            }
            let e = old_entries.remove(0);
            assert(old_cache.take(i + 1).drop_last() =~= old_cache.take(i as int));
            assert(old_cache.take(i + 1).last() == e);
            reveal_with_fuel(Seq::filter, 1);
            assert(old_cache.take(i + 1).filter(keep) == if keep(e) {
                old_cache.take(i as int).filter(keep).push(e)
            } else {
                old_cache.take(i as int).filter(keep)
            });
            if !(e.key == key) {
                kept.push(e);
            }
            assert(old_cache.skip(i + 1) =~= old_cache.skip(i as int).drop_first());
            i = i + 1;
        }
        assert(old_cache.take(n as int) =~= old_cache);
        kept.push(CacheEntry { source, key, result });
        self.cache = kept;
    }
}

/// The first remembered fold under a key that no earlier entry has is
/// the one at the end, when the end is under that key.
proof fn lemma_lookup_last<K, R>(s: Seq<CacheEntry<K, R>>, e: CacheEntry<K, R>)
    requires
        forall|i: int| 0 <= i < s.len() ==> (#[trigger] s[i]).key != e.key,
    ensures
        cache_lookup(s.push(e), e.key) == Some(e),
    decreases s.len(),
{
    if s.len() > 0 {
        assert(s.push(e).drop_first() =~= s.drop_first().push(e));
        assert forall|i: int| 0 <= i < s.drop_first().len() implies (#[trigger] s.drop_first()[i]).key
            != e.key by {
            assert(s.drop_first()[i] == s[i + 1]);
        }
        lemma_lookup_last(s.drop_first(), e);
    }
}

/// Once a fold is remembered under a key, looking the key up finds it.
pub proof fn law_remembered_fold_is_found<K, R>(
    cache: Seq<CacheEntry<K, R>>,
    source: SourceId,
    key: K,
    result: R,
)
    ensures
        cache_lookup(
            cache.filter(|e: CacheEntry<K, R>| e.key != key).push(CacheEntry { source, key, result }),
            key,
        ) == Some(CacheEntry { source, key, result }),
{
    let kept = cache.filter(|e: CacheEntry<K, R>| e.key != key);
    assert forall|i: int| 0 <= i < kept.len() implies (#[trigger] kept[i]).key != key by {
        cache.lemma_filter_pred(|e: CacheEntry<K, R>| e.key != key, i);
    }
    lemma_lookup_last(kept, CacheEntry { source, key, result });
}

/// After a source is republished, no remembered fold of it is found.
pub proof fn law_republish_forgets_folds<K, R>(cache: Seq<CacheEntry<K, R>>, id: SourceId, key: K)
    ensures
        cache_lookup(cache.filter(|e: CacheEntry<K, R>| e.source != id), key) matches Some(e)
            ==> e.source != id,
{
    lemma_lookup_in(cache.filter(|e: CacheEntry<K, R>| e.source != id), key);
    let kept = cache.filter(|e: CacheEntry<K, R>| e.source != id);
    if let Some(e) = cache_lookup(kept, key) {
        let i = choose|i: int| 0 <= i < kept.len() && kept[i] == e;
        cache.lemma_filter_pred(|e: CacheEntry<K, R>| e.source != id, i);
    }
}

/// What a lookup finds is an entry of the cache.
proof fn lemma_lookup_in<K, R>(s: Seq<CacheEntry<K, R>>, key: K)
    ensures
        cache_lookup(s, key) matches Some(e) ==> exists|i: int| 0 <= i < s.len() && s[i] == e,
    decreases s.len(),
{
    if s.len() > 0 && s[0].key != key {
        lemma_lookup_in(s.drop_first(), key);
        if let Some(e) = cache_lookup(s.drop_first(), key) {
            let i = choose|i: int| 0 <= i < s.drop_first().len() && s.drop_first()[i] == e;
            assert(s[i + 1] == e);
        }
    }
}

} // verus!

verus! {

/// A source republished at a new generation refuses every handle minted
/// against its old generation, naming both generations.
pub proof fn law_republish_fails_closed<B>(
    sources: Map<u32, SourceEntry<B>>,
    source: SourceRef,
    batch: B,
    e: Envelope,
)
    requires
        e.source == source.id,
        e.generation != source.generation,
    ensures
        refusal(generations(sources.insert(source.id.0, SourceEntry { source, batch })), e) == Some(
            stale_message(e, source.generation),
        ),
{
    let g = generations(sources.insert(source.id.0, SourceEntry { source, batch }));
    assert(g.contains_key(source.id.0));
    assert(g[source.id.0] == source.generation);
}

/// What is registered under a fresh handle reads back through the
/// envelope it was given, as long as its source stays at the generation
/// it was minted against.
pub proof fn law_registered_reads_back<B, V>(
    sources: Map<u32, SourceEntry<B>>,
    stored: Map<u64, V>,
    e: Envelope,
    value: V,
    missing: Seq<char>,
)
    requires
        sources.contains_key(e.source.0),
        sources[e.source.0].source.generation == e.generation,
    ensures
        resolution(generations(sources), stored.insert(e.handle, value), e, missing) == Ok::<
            V,
            Seq<char>,
        >(value),
{
}

/// The last publication of a name wins: a name published twice resolves
/// to the source of the later publication, whatever it resolved to before.
pub proof fn law_last_publication_wins(
    names: Map<Seq<char>, SourceId>,
    name: Seq<char>,
    first: SourceId,
    second: SourceId,
)
    ensures
        names.insert(name, first).insert(name, second) == names.insert(name, second),
        names.insert(name, first).insert(name, second)[name] == second,
{
    assert(names.insert(name, first).insert(name, second) =~= names.insert(name, second));
}

/// A handle is never resolved against a source it was not minted for: a
/// source that is not published refuses every handle minted against it.
pub proof fn law_unpublished_source_refuses<B>(sources: Map<u32, SourceEntry<B>>, e: Envelope)
    requires
        !sources.contains_key(e.source.0),
    ensures
        refusal(generations(sources), e) == Some(no_source_message(e.source)),
{
}

} // verus!

verus! {

/// How a fold or a re-view under `key` of `source` leaves the fold cache and
/// the counters, given what it answered: a remembered fold is a cache hit;
/// a fresh fold that succeeds is an execution and is remembered.
pub open spec fn settled<B, P, R: Clone, K>(
    before: LanceRegistry<B, P, R, K>,
    after: LanceRegistry<B, P, R, K>,
    source: SourceId,
    key: K,
    out: Result<R, Z8Error>,
) -> bool {
    match cache_lookup(before.cache(), key) {
        Some(_) => {
            &&& after.cache() == before.cache()
            &&& after.counts() == (
                before.execution_count(),
                bump(before.cache_hit_count()),
                before.reinterpretation_count(),
            )
        },
        None => match out {
            Ok(res) => {
                &&& exists|kept: R|
                    {
                        &&& cloned::<R>(res, kept)
                        &&& after.cache() == before.cache().filter(
                            |e: CacheEntry<K, R>| e.key != key,
                        ).push(CacheEntry { source, key, result: kept })
                    }
                &&& after.counts() == (
                    bump(before.execution_count()),
                    before.cache_hit_count(),
                    before.reinterpretation_count(),
                )
            },
            Err(_) => {
                &&& after.cache() == before.cache()
                &&& after.counts() == before.counts()
            },
        },
    }
}

/// What opening a plan over `id` with `make` leaves and answers: an
/// unpublished source is refused with nothing minted; otherwise the plan
/// `make` built from the source's current reference is registered under
/// the next handle, at that reference's generation.
pub open spec fn opened<B, P, R, K, F: Fn(SourceRef) -> P>(
    before: LanceRegistry<B, P, R, K>,
    after: LanceRegistry<B, P, R, K>,
    id: SourceId,
    make: F,
    r: Result<Envelope, Z8Error>,
) -> bool {
    &&& after.published() == before.published()
    &&& after.results() == before.results()
    &&& after.cache() == before.cache()
    &&& after.counts() == before.counts()
    &&& !before.sources().contains_key(id.0) ==> {
        &&& r matches Err(e) && e.message() == no_source_message(id)
        &&& after.plans() == before.plans()
        &&& after.plan_sources() == before.plan_sources()
    &&& after.plan_sources() == before.plan_sources()
        &&& after.next_handle() == before.next_handle()
    }
    &&& before.sources().contains_key(id.0) ==> {
        let src = before.sources()[id.0].source;
        let h = before.next_handle();
        &&& src.id == id
        &&& r == Ok::<Envelope, Z8Error>(
            Envelope { role: Role::Plan, handle: h, generation: src.generation, source: id },
        )
        &&& !before.plans().contains_key(h) && !before.results().contains_key(h)
        &&& after.plans() == before.plans().insert(h, after.plans()[h])
        &&& after.plan_sources() == before.plan_sources().insert(h, src)
        &&& make.ensures((src,), after.plans()[h])
        &&& after.next_handle() == h + 1
    }
}

/// What rewriting the plan behind `env` with `rewrite` (handed `arg`)
/// leaves and answers: a handle that does not resolve, or a rewrite that
/// fails, mints nothing; otherwise the rewritten plan is registered under
/// the next handle, over the source the plan was made over.
pub open spec fn rewritten<B, P, R, K, A, F: Fn(&P, &A) -> Result<P, Z8Error>>(
    before: LanceRegistry<B, P, R, K>,
    after: LanceRegistry<B, P, R, K>,
    env: Envelope,
    arg: A,
    rewrite: F,
    r: Result<Envelope, Z8Error>,
) -> bool {
    &&& after.published() == before.published()
    &&& after.results() == before.results()
    &&& after.cache() == before.cache()
    &&& after.counts() == before.counts()
    &&& r is Err ==> {
        &&& after.plans() == before.plans()
        &&& after.plan_sources() == before.plan_sources()
        &&& after.next_handle() == before.next_handle()
    }
    &&& match resolution(
        generations(before.sources()),
        before.plans(),
        env,
        no_plan_message(env.handle),
    ) {
        Err(m) => r matches Err(e) && e.message() == m,
        Ok(p) => match r {
            Err(e) => rewrite.ensures((&p, &arg), Err::<P, Z8Error>(e)),
            Ok(out) => {
                let h = before.next_handle();
                let src = before.plan_sources()[env.handle];
                &&& out == (Envelope {
                    role: Role::Plan,
                    handle: h,
                    generation: src.generation,
                    source: src.id,
                })
                &&& !before.plans().contains_key(h) && !before.results().contains_key(h)
                &&& after.plans() == before.plans().insert(h, after.plans()[h])
                &&& after.plan_sources() == before.plan_sources().insert(h, src)
                &&& rewrite.ensures((&p, &arg), Ok::<P, Z8Error>(after.plans()[h]))
                &&& after.next_handle() == h + 1
            },
        },
    }
}

/// What re-viewing the result behind `env` with `review` (handed `arg`)
/// leaves and answers: a handle that does not resolve, or a re-view that fails, mints
/// and counts nothing; otherwise the new view is registered under the
/// next handle, over the same source and generation, and counted as a
/// reinterpretation when `counts`.
pub open spec fn reviewed<B, P, R, K, A, F: Fn(&R, &A) -> Result<R, Z8Error>>(
    before: LanceRegistry<B, P, R, K>,
    after: LanceRegistry<B, P, R, K>,
    env: Envelope,
    arg: A,
    review: F,
    counts: bool,
    r: Result<Envelope, Z8Error>,
) -> bool {
    &&& after.published() == before.published()
    &&& after.plans() == before.plans()
    &&& after.plan_sources() == before.plan_sources()
    &&& after.cache() == before.cache()
    &&& after.execution_count() == before.execution_count()
    &&& after.cache_hit_count() == before.cache_hit_count()
    &&& r is Err ==> {
        &&& after.results() == before.results()
        &&& after.next_handle() == before.next_handle()
        &&& after.reinterpretation_count() == before.reinterpretation_count()
    }
    &&& r is Ok ==> after.reinterpretation_count() == if counts {
        bump(before.reinterpretation_count())
    } else {
        before.reinterpretation_count()
    }
    &&& match resolution(
        generations(before.sources()),
        before.results(),
        env,
        no_result_message(env.handle),
    ) {
        Err(m) => r matches Err(e) && e.message() == m,
        Ok(x) => match r {
            Err(e) => review.ensures((&x, &arg), Err::<R, Z8Error>(e)),
            Ok(out) => {
                let h = before.next_handle();
                &&& out == (Envelope {
                    role: Role::Result,
                    handle: h,
                    generation: env.generation,
                    source: env.source,
                })
                &&& !before.plans().contains_key(h) && !before.results().contains_key(h)
                &&& after.results() == before.results().insert(
                    h,
                    after.results()[h],
                )
                &&& review.ensures((&x, &arg), Ok::<R, Z8Error>(after.results()[h]))
                &&& after.next_handle() == h + 1
            },
        },
    }
}

/// What executing the plan behind `env` leaves and answers: a handle that
/// does not resolve mints and counts nothing; otherwise the fold remembered
/// under the plan's key (`key_of`) is re-viewed, or the plan is folded over
/// the current batch of the source it was made over, as `settled` counts
/// and remembers it, and an answer is registered under the next handle as
/// a result over that source.
pub open spec fn executed<
    B,
    P,
    R: Clone,
    K,
    H: Fn(&P) -> K,
    F: Fn(&P, &B) -> Result<R, Z8Error>,
    G: Fn(&R, &P) -> Result<R, Z8Error>,
>(
    before: LanceRegistry<B, P, R, K>,
    after: LanceRegistry<B, P, R, K>,
    env: Envelope,
    key_of: H,
    reinterpret: G,
    fold: F,
    r: Result<Envelope, Z8Error>,
) -> bool {
    &&& after.published() == before.published()
    &&& after.plans() == before.plans()
    &&& after.plan_sources() == before.plan_sources()
    &&& r is Err ==> after.results() == before.results() && after.next_handle()
        == before.next_handle()
    &&& match resolution(
        generations(before.sources()),
        before.plans(),
        env,
        no_plan_message(env.handle),
    ) {
        Err(m) => {
            &&& r matches Err(e) && e.message() == m
            &&& after.cache() == before.cache()
            &&& after.counts() == before.counts()
        },
        Ok(p) => {
            let h = before.next_handle();
            let src = before.plan_sources()[env.handle];
            let out = match r {
                Ok(_) => Ok::<R, Z8Error>(after.results()[h]),
                Err(e) => Err::<R, Z8Error>(e),
            };
            exists|key: K|
                #![trigger cache_lookup(before.cache(), key)]
                {
                    &&& key_of.ensures((&p,), key)
                    &&& settled(before, after, src.id, key, out)
                    &&& cache_lookup(before.cache(), key) matches Some(hit)
                        ==> reinterpret.ensures((&hit.result, &p), out)
                    &&& cache_lookup(before.cache(), key) is None && before.sources().contains_key(
                        src.id.0,
                    ) ==> fold.ensures((&p, &before.sources()[src.id.0].batch), out)
                    &&& cache_lookup(before.cache(), key) is None && !before.sources().contains_key(
                        src.id.0,
                    ) ==> (r matches Err(e) && e.message() == no_source_message(src.id))
                    &&& r matches Ok(o) ==> {
                        &&& o == (Envelope {
                            role: Role::Result,
                            handle: h,
                            generation: src.generation,
                            source: src.id,
                        })
                        &&& !before.plans().contains_key(h)
                        &&& !before.results().contains_key(h)
                        &&& after.results() == before.results().insert(
                            h,
                            after.results()[h],
                        )
                        &&& after.next_handle() == h + 1
                    }
                }
        },
    }
}

impl<B, P, R: Clone, K: PartialEq> LanceRegistry<B, P, R, K> {
    /// Re-views the fold remembered under `key`, or folds `plan` over the
    /// current batch of `source`; says whether the cache answered.
    fn fold_or_reuse<F, G>(&self, source: SourceId, plan: &P, key: &K, reinterpret: G, fold: F) -> (out: (
        Result<R, Z8Error>,
        bool,
    )) where
        F: Fn(&P, &B) -> Result<R, Z8Error>,
        G: Fn(&R, &P) -> Result<R, Z8Error>,

        requires
            obeys_concrete_eq::<K>(),
            forall|x: &R, p: &P| #[trigger] reinterpret.requires((x, p)),
            forall|p: &P, b: &B| #[trigger] fold.requires((p, b)),
        ensures
            out.1 == cache_lookup(self.cache(), *key) is Some,
            cache_lookup(self.cache(), *key) matches Some(hit) ==> reinterpret.ensures(
                (&hit.result, plan),
                out.0,
            ),
            cache_lookup(self.cache(), *key) is None && !self.sources().contains_key(source.0) ==> (
            out.0 matches Err(e) && e.message() == no_source_message(source)),
            cache_lookup(self.cache(), *key) is None && self.sources().contains_key(source.0)
                ==> fold.ensures((plan, &self.sources()[source.0].batch), out.0),
    {
        match self.cached(key) {
            Some(hit) => {
                return (reinterpret(hit, plan), true);
            },
            None => {},
        }
        match self.sources.get(&source.0) {
            None => (Err(no_source(source)), false),
            Some(entry) => (fold(plan, &entry.batch), false),
        }
    }

    /// Counts what `fold_or_reuse` did and remembers a fresh fold.
    fn settle(&mut self, source: SourceId, key: K, hit: bool, out: &Result<R, Z8Error>)
        requires
            obeys_concrete_eq::<K>(),
            hit == cache_lookup(old(self).cache(), key) is Some,
        ensures
            settled(*old(self), *final(self), source, key, *out),
            final(self).published() == old(self).published(),
            final(self).plans() == old(self).plans(),
            final(self).plan_sources() == old(self).plan_sources(),
            final(self).results() == old(self).results(),
            final(self).next_handle() == old(self).next_handle(),
    {
        proof {
            use_type_invariant(&*self);
        }
        if hit {
            self.cache_hits = bumped(self.cache_hits);
            return;
        }
        match out {
            Err(_) => {},
            Ok(res) => {
                let kept = res.clone();
                let ghost witness = kept;
                assert(cloned::<R>(*res, witness));
                self.remember(source, key, kept);
                self.executions = bumped(self.executions);
                assert(self.cache@ == old(self).cache@.filter(|e: CacheEntry<K, R>| e.key != key).push(
                    CacheEntry { source, key, result: witness },
                ));
            },
        }
    }

    /// Executes `plan` over `source`, or re-views a remembered fold whose
    /// physical key matches. `reinterpret` re-views a remembered fold for
    /// the plan; `fold` folds the plan over the source's current batch.
    /// A fresh fold is remembered under `key` for the source and counted as
    /// an execution; an answer from the cache is counted as a hit.
    pub fn execute<F, G>(
        &mut self,
        source: SourceId,
        plan: &P,
        key: K,
        reinterpret: G,
        fold: F,
    ) -> (r: Result<R, Z8Error>) where
        F: Fn(&P, &B) -> Result<R, Z8Error>,
        G: Fn(&R, &P) -> Result<R, Z8Error>,

        requires
            obeys_concrete_eq::<K>(),
            forall|x: &R, p: &P| #[trigger] reinterpret.requires((x, p)),
            forall|p: &P, b: &B| #[trigger] fold.requires((p, b)),
        ensures
            final(self).published() == old(self).published(),
            final(self).plans() == old(self).plans(),
            final(self).plan_sources() == old(self).plan_sources(),
            final(self).results() == old(self).results(),
            final(self).next_handle() == old(self).next_handle(),
            settled(*old(self), *final(self), source, key, r),
            cache_lookup(old(self).cache(), key) matches Some(hit) ==> reinterpret.ensures(
                (&hit.result, plan),
                r,
            ),
            cache_lookup(old(self).cache(), key) is None && !old(self).sources().contains_key(source.0)
                ==> (r matches Err(e) && e.message() == no_source_message(source)),
            cache_lookup(old(self).cache(), key) is None && old(self).sources().contains_key(source.0)
                ==> fold.ensures((plan, &old(self).sources()[source.0].batch), r),
    {
        let (out, hit) = self.fold_or_reuse(source, plan, &key, reinterpret, fold);
        self.settle(source, key, hit, &out);
        out
    }
}

} // verus!

verus! {

impl<B, P, R, K> LanceRegistry<B, P, R, K> {
    /// Opens a fresh plan over source `id` as it stands now: `make` builds
    /// it from the source's current reference, and it is registered under
    /// the next handle.
    pub fn open_plan<F>(&mut self, id: SourceId, make: F) -> (r: Result<Envelope, Z8Error>) where
        F: Fn(SourceRef) -> P,

        requires
            old(self).next_handle() < u64::MAX,
            forall|s: SourceRef| #[trigger] make.requires((s,)),
        ensures
            opened(*old(self), *final(self), id, make, r),

    {
        let src = match self.current(id) {
            Ok(s) => s,
            Err(e) => return Err(e),
        };
        let plan = make(src);
        Ok(self.put_plan(src, plan))
    }

    /// Rewrites the plan behind `env` with `rewrite`, handed `arg`, and
    /// registers the new plan under the next handle, over the source the
    /// plan was made over. A handle that does not resolve, or a rewrite
    /// that fails, mints nothing.
    pub fn rewrite_plan<A, F>(&mut self, env: &Envelope, arg: &A, rewrite: F) -> (r: Result<
        Envelope,
        Z8Error,
    >) where
        F: Fn(&P, &A) -> Result<P, Z8Error>,

        requires
            old(self).next_handle() < u64::MAX,
            forall|p: &P, a: &A| #[trigger] rewrite.requires((p, a)),
        ensures
            rewritten(*old(self), *final(self), *env, *arg, rewrite, r),
    {
        proof {
            use_type_invariant(&*self);
        }
        let out = match self.plan(env) {
            Err(e) => return Err(e),
            Ok(p) => rewrite(p, arg),
        };
        let src = match self.plans.sources.get(&env.handle) {
            Some(s) => *s,
            None => return Err(Z8Error::Internal(concat2("no lance plan handle ", decimal(env.handle).as_str()))),
        };
        match out {
            Err(e) => Err(e),
            Ok(np) => Ok(self.put_plan(src, np)),
        }
    }

    /// Re-views the result behind `env` with `review` and registers the new
    /// result under the next handle, over the same source and generation;
    /// a re-view that `counts` is counted as a reinterpretation. A handle
    /// that does not resolve, or a re-view that fails, mints nothing.
    pub fn review_result<A, F>(&mut self, env: &Envelope, arg: &A, review: F, counts: bool) -> (r:
        Result<Envelope, Z8Error>) where
        F: Fn(&R, &A) -> Result<R, Z8Error>,

        requires
            old(self).next_handle() < u64::MAX,
            forall|x: &R, a: &A| #[trigger] review.requires((x, a)),
        ensures
            reviewed(*old(self), *final(self), *env, *arg, review, counts, r),
    {
        let out = match self.result(env) {
            Err(e) => return Err(e),
            Ok(x) => review(x, arg),
        };
        match out {
            Err(e) => Err(e),
            Ok(nr) => {
                proof {
                    use_type_invariant(&*self);
                }
                if counts {
                    self.reinterpretations = bumped(self.reinterpretations);
                }
                Ok(self.put_result(env.source_ref(), nr))
            },
        }
    }
}

} // verus!

verus! {

impl<B, P, R: Clone, K: PartialEq> LanceRegistry<B, P, R, K> {
    /// Executes the plan behind `env`: re-views the fold remembered under
    /// its physical key (`key_of`), or folds it over the current batch of
    /// the source it was made over, and registers the answer under the next
    /// handle as a result over that source. A handle that does not resolve
    /// mints nothing and counts nothing.
    pub fn execute_plan<H, F, G>(
        &mut self,
        env: &Envelope,
        key_of: H,
        reinterpret: G,
        fold: F,
    ) -> (r: Result<Envelope, Z8Error>) where
        H: Fn(&P) -> K,
        F: Fn(&P, &B) -> Result<R, Z8Error>,
        G: Fn(&R, &P) -> Result<R, Z8Error>,

        requires
            old(self).next_handle() < u64::MAX,
            obeys_concrete_eq::<K>(),
            forall|p: &P| #[trigger] key_of.requires((p,)),
            forall|x: &R, p: &P| #[trigger] reinterpret.requires((x, p)),
            forall|p: &P, b: &B| #[trigger] fold.requires((p, b)),
        ensures
            executed(*old(self), *final(self), *env, key_of, reinterpret, fold, r),

    {
        proof {
            use_type_invariant(&*self);
        }
        let ghost p0 = old(self).plans()[env.handle];
        let (out, hit, key, src) = match self.plan(env) {
            Err(e) => return Err(e),
            Ok(p) => {
                let src = match self.plans.sources.get(&env.handle) {
                    Some(s) => *s,
                    None => return Err(Z8Error::Internal(concat2("no lance plan handle ", decimal(env.handle).as_str()))),
                };
                let key = key_of(p);
                assert(key_of.ensures((&p0,), key));
                let (out, hit) = self.fold_or_reuse(src.id, p, &key, reinterpret, fold);
                (out, hit, key, src)
            },
        };
        let ghost k = key;
        let ghost o = out;
        self.settle(src.id, key, hit, &out);
        let r = match out {
            Err(e) => Err(e),
            Ok(res) => Ok(self.put_result(src, res)),
        };
        proof {
            let h = old(self).next_handle();
            let outv = match &r {
                Ok(_) => Ok::<R, Z8Error>(self.results()[h]),
                Err(e) => Err::<R, Z8Error>(*e),
            };
            assert(outv == o);
            assert(settled(*old(self), *self, src.id, k, outv));
            assert(key_of.ensures((&p0,), k));
            assert(cache_lookup(old(self).cache(), k) matches Some(hit) ==> reinterpret.ensures(
                (&hit.result, &p0),
                outv,
            ));
        }
        r
    }
}

} // verus!

verus! {

impl<B, P, R, K> Default for LanceRegistry<B, P, R, K> {
    fn default() -> (r: Self)
        ensures
            r.sources() == Map::<u32, SourceEntry<B>>::empty(),
            r.plans() == Map::<u64, P>::empty(),
            r.results() == Map::<u64, R>::empty(),
            r.cache().len() == 0,
            r.next_handle() == 1,
            r.counts() == (0u64, 0u64, 0u64),
    {
        Self::new()
    }
}

} // verus!
