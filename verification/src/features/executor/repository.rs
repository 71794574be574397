//! The vendor registry: which vendors are available and which models each
//! of them serves.

use super::config::ExecutorConfig;
use super::error::ExecutorError;
use vstd::prelude::*;

verus! {

/// A registered vendor: its id and the models it serves.
pub struct VendorEntry {
    pub vendor_id: String,
    pub supported_models: Vec<String>,
}

impl VendorEntry {
    /// A vendor entry.
    pub fn new(vendor_id: String, supported_models: Vec<String>) -> (e: VendorEntry)
        ensures
            e.vendor_id == vendor_id,
            e.supported_models == supported_models,
    {
        VendorEntry { vendor_id, supported_models }
    }

    /// The vendor identifier.
    pub fn vendor_id(&self) -> (r: &str)
        ensures
            r@ == self.vendor_id@,
    {
        self.vendor_id.as_str()
    }

    /// Whether the vendor serves `model`.
    pub fn supports_model(&self, model: &str) -> (r: bool)
        ensures
            r == self.supported_models.deep_view().contains(model@),
    {
        let n = self.supported_models.len();
        let mut i: usize = 0;
        while i < n
            invariant
                n == self.supported_models@.len(),
                i <= n,
                forall|j: int| 0 <= j < i ==> self.supported_models@[j]@ != model@,
            decreases n - i,
        {
            if crate::text::same_text(self.supported_models[i].as_str(), model) {
                assert(self.supported_models.deep_view()[i as int] == model@);
                return true;
            }
            i = i + 1;
        }
        assert forall|j: int| 0 <= j < self.supported_models.deep_view().len() implies
            self.supported_models.deep_view()[j] != model@ by {
            assert(self.supported_models@[j]@ != model@);
        }
        false
    }
}

/// The registry as a map from vendor id to the models served.
pub open spec fn entries_map(es: Seq<VendorEntry>) -> Map<Seq<char>, Seq<Seq<char>>>
    decreases es.len(),
{
    if es.len() == 0 {
        Map::empty()
    } else {
        entries_map(es.drop_last()).insert(
            es.last().vendor_id@,
            es.last().supported_models.deep_view(),
        )
    }
}

/// No two entries share a vendor id.
pub open spec fn ids_distinct(es: Seq<VendorEntry>) -> bool {
    forall|i: int, j: int|
        0 <= i < es.len() && 0 <= j < es.len() && i != j ==> es[i].vendor_id@ != es[j].vendor_id@
}

proof fn lemma_entries_map_lookup(es: Seq<VendorEntry>)
    requires
        ids_distinct(es),
    ensures
        entries_map(es).dom().finite(),
        entries_map(es).len() == es.len(),
        forall|i: int|
            0 <= i < es.len() ==> #[trigger] entries_map(es).contains_key(es[i].vendor_id@)
                && entries_map(es)[es[i].vendor_id@] == es[i].supported_models.deep_view(),
        forall|k: Seq<char>|
            #[trigger] entries_map(es).contains_key(k) ==> exists|i: int|
                0 <= i < es.len() && es[i].vendor_id@ == k,
    decreases es.len(),
{
    if es.len() > 0 {
        let p = es.drop_last();
        assert(ids_distinct(p)) by {
            assert forall|i: int, j: int|
                0 <= i < p.len() && 0 <= j < p.len() && i != j implies p[i].vendor_id@
                != p[j].vendor_id@ by {
                assert(es[i] == p[i] && es[j] == p[j]);
            }
        }
        lemma_entries_map_lookup(p);
        let last = es.last();
        assert(!entries_map(p).contains_key(last.vendor_id@)) by {
            if entries_map(p).contains_key(last.vendor_id@) {
                let i = choose|i: int| 0 <= i < p.len() && p[i].vendor_id@ == last.vendor_id@;
                assert(es[i] == p[i]);
                assert(es[es.len() - 1] == last);
            }
        }
        assert forall|i: int| 0 <= i < es.len() implies #[trigger] entries_map(
            es,
        ).contains_key(es[i].vendor_id@) && entries_map(es)[es[i].vendor_id@]
            == es[i].supported_models.deep_view() by {
            if i < es.len() - 1 {
                assert(es[i] == p[i]);
                assert(es[i].vendor_id@ != last.vendor_id@);
            }
        }
        assert forall|k: Seq<char>| #[trigger] entries_map(es).contains_key(k) implies exists|
            i: int,
        | 0 <= i < es.len() && es[i].vendor_id@ == k by {
            if k == last.vendor_id@ {
                assert(es[es.len() - 1].vendor_id@ == k);
            } else {
                let i = choose|i: int| 0 <= i < p.len() && p[i].vendor_id@ == k;
                assert(es[i] == p[i]);
            }
        }
    }
}

/// Registry of the vendors available for execution.
pub struct ExecutorRepository {
    vendors: Vec<VendorEntry>,
}

impl View for ExecutorRepository {
    type V = Map<Seq<char>, Seq<Seq<char>>>;

    closed spec fn view(&self) -> Map<Seq<char>, Seq<Seq<char>>> {
        entries_map(self.vendors@)
    }
}

impl ExecutorRepository {
    /// Vendor ids are unique.
    pub closed spec fn wf(&self) -> bool {
        ids_distinct(self.vendors@)
    }

    /// A registry without vendors.
    pub fn new() -> (r: ExecutorRepository)
        ensures
            r.wf(),
            r@ == Map::<Seq<char>, Seq<Seq<char>>>::empty(),
    {
        ExecutorRepository { vendors: Vec::new() }
    }

    /// Registers a vendor, replacing any vendor with the same id.
    pub fn register(&mut self, entry: VendorEntry)
        requires
            old(self).wf(),
        ensures
            final(self).wf(),
            final(self)@ == old(self)@.insert(entry.vendor_id@, entry.supported_models.deep_view()),
    {
        let ghost old_vendors = self.vendors@;
        proof {
            lemma_entries_map_lookup(old_vendors);
        }
        let n = self.vendors.len();
        let mut i: usize = 0;
        let mut found: Option<usize> = None;
        while i < n
            invariant
                n == self.vendors@.len(),
                self.vendors@ == old_vendors,
                i <= n,
                found is None ==> forall|j: int|
                    0 <= j < i ==> self.vendors@[j].vendor_id@ != entry.vendor_id@,
                found matches Some(k) ==> k < n && self.vendors@[k as int].vendor_id@
                    == entry.vendor_id@,
            decreases n - i,
        {
            if found.is_none() && crate::text::same_text(
                self.vendors[i].vendor_id.as_str(),
                entry.vendor_id.as_str(),
            ) {
                found = Some(i);
            }
            i = i + 1;
        }
        match found {
            Some(k) => {
                let ghost key = entry.vendor_id@;
                let ghost val = entry.supported_models.deep_view();
                self.vendors.set(k, entry);
                proof {
                    let es = self.vendors@;
                    assert(ids_distinct(es)) by {
                        assert forall|a: int, b: int|
                            0 <= a < es.len() && 0 <= b < es.len() && a != b implies es[a].vendor_id@
                            != es[b].vendor_id@ by {
                            if a != k && b != k {
                                assert(es[a] == old_vendors[a] && es[b] == old_vendors[b]);
                            } else if a == k {
                                assert(es[b] == old_vendors[b]);
                            } else {
                                assert(es[a] == old_vendors[a]);
                            }
                        }
                    }
                    lemma_entries_map_lookup(es);
                    let m = old(self)@.insert(key, val);
                    assert(entries_map(es) =~= m) by {
                        assert forall|x: Seq<char>| #[trigger] m.contains_key(x) implies entries_map(
                            es,
                        ).contains_key(x) && entries_map(es)[x] == m[x] by {
                            if x != key {
                                let j = choose|j: int|
                                    0 <= j < old_vendors.len() && old_vendors[j].vendor_id@ == x;
                                assert(es[j] == old_vendors[j]);
                            } else {
                                assert(es[k as int].vendor_id@ == key);
                            }
                        }
                        assert forall|x: Seq<char>|
                            #[trigger] entries_map(es).contains_key(x) implies m.contains_key(x) by {
                            let j = choose|j: int| 0 <= j < es.len() && es[j].vendor_id@ == x;
                            if j != k {
                                assert(es[j] == old_vendors[j]);
                            }
                        }
                    }
                }
            },
            None => {
                self.vendors.push(entry);
                proof {
                    let es = self.vendors@;
                    assert(es.drop_last() =~= old_vendors);
                    assert(ids_distinct(es)) by {
                        assert forall|a: int, b: int|
                            0 <= a < es.len() && 0 <= b < es.len() && a != b implies es[a].vendor_id@
                            != es[b].vendor_id@ by {
                            if a < n && b < n {
                                assert(es[a] == old_vendors[a] && es[b] == old_vendors[b]);
                            } else if a < n {
                                assert(es[a] == old_vendors[a]);
                            } else {
                                assert(es[b] == old_vendors[b]);
                            }
                        }
                    }
                }
            },
        }
    }

    /// Builds the registry from the configuration: the OpenAI vendor is
    /// registered, with the models that its configuration lists, exactly when
    /// it is configured; a configuration without any vendor is refused.
    pub fn from_config(config: &ExecutorConfig) -> (r: Result<ExecutorRepository, ExecutorError>)
        ensures
            match config.openai {
                Some(o) => r matches Ok(repo) && repo.wf() && repo@ == Map::<
                    Seq<char>,
                    Seq<Seq<char>>,
                >::empty().insert("openai"@, o.supported_models.deep_view()),
                None => r matches Err(e) && e is NoVendorsConfigured,
            },
    {
        let mut repo = ExecutorRepository::new();
        match &config.openai {
            Some(o) => {
                let models = clone_strings(&o.supported_models);
                repo.register(VendorEntry::new(String::from_str("openai"), models));
            },
            None => {},
        }
        if repo.vendor_count() == 0 {
            return Err(ExecutorError::NoVendorsConfigured);
        }
        proof { reveal_strlit("openai"); }
        Ok(repo)
    }

    /// Number of registered vendors.
    pub fn vendor_count(&self) -> (n: usize)
        requires
            self.wf(),
        ensures
            n == self@.len(),
    {
        proof {
            lemma_entries_map_lookup(self.vendors@);
        }
        self.vendors.len()
    }

    /// The vendor registered under `vendor_id`. Ids are case-sensitive.
    pub fn get_vendor(&self, vendor_id: &str) -> (r: Result<&VendorEntry, ExecutorError>)
        requires
            self.wf(),
        ensures
            match r {
                Ok(v) => self@.contains_key(vendor_id@) && v.vendor_id@ == vendor_id@
                    && v.supported_models.deep_view() == self@[vendor_id@],
                Err(e) => !self@.contains_key(vendor_id@) && e@ == super::error::ExecutorErrorView::UnsupportedVendor(vendor_id@),
            },
    {
        proof {
            lemma_entries_map_lookup(self.vendors@);
        }
        let n = self.vendors.len();
        let mut i: usize = 0;
        while i < n
            invariant
                n == self.vendors@.len(),
                i <= n,
                forall|j: int| 0 <= j < i ==> self.vendors@[j].vendor_id@ != vendor_id@,
                self.wf(),
            decreases n - i,
        {
            if crate::text::same_text(self.vendors[i].vendor_id.as_str(), vendor_id) {
                proof {
                    lemma_entries_map_lookup(self.vendors@);
                    assert(entries_map(self.vendors@).contains_key(
                        self.vendors@[i as int].vendor_id@,
                    ));
                }
                return Ok(&self.vendors[i]);
            }
            i = i + 1;
        }
        proof {
            if entries_map(self.vendors@).contains_key(vendor_id@) {
                let j = choose|j: int|
                    0 <= j < self.vendors@.len() && self.vendors@[j].vendor_id@ == vendor_id@;
            }
        }
        Err(ExecutorError::UnsupportedVendor(vendor_id.to_string()))
    }
}

/// Copies a list of strings.
pub fn clone_strings(v: &Vec<String>) -> (r: Vec<String>)
    ensures
        r.deep_view() == v.deep_view(),
{
    let mut r: Vec<String> = Vec::new();
    let n = v.len();
    let mut i: usize = 0;
    while i < n
        invariant
            n == v@.len(),
            i <= n,
            r@ == v@.take(i as int),
        decreases n - i,
    {
        r.push(v[i].clone());
        assert(r@ =~= v@.take(i + 1));
        i = i + 1;
    }
    assert(v@.take(n as int) =~= v@);
    r
}

} // verus!
