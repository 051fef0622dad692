//! The metadata cache: a process-lifetime mapping from package identifier to
//! an immutable snapshot of that package's known versions. Entries are
//! created lazily on a read, replaced on a publish, and never evicted
//! otherwise — an explicit simplicity-over-bounded-memory tradeoff.

use std::sync::Arc;
use vstd::prelude::*;
use crate::codec::{views_of, wf_all};
use crate::manifest::{Manifest, ManifestView};
use crate::package_name::{PackageName, PackageNameView};

verus! {

/// An immutable snapshot of every known version of one package, in publish
/// order.
#[derive(Debug)]
pub struct PackageMetadata {
    pub versions: Vec<Manifest>,
}

impl View for PackageMetadata {
    type V = Seq<ManifestView>;

    open spec fn view(&self) -> Seq<ManifestView> {
        views_of(self.versions@)
    }
}

impl Default for PackageMetadata {
    fn default() -> (r: Self)
        ensures
            r@ == Seq::<ManifestView>::empty(),
    {
        let r = PackageMetadata { versions: Vec::new() };
        proof {
            assert(r@ =~= Seq::<ManifestView>::empty());
        }
        r
    }
}

/// Relies on Arc::clone: a new handle on the same shared snapshot.
#[verifier::external_body]
pub(crate) fn share(meta: &Arc<PackageMetadata>) -> (r: Arc<PackageMetadata>)
    ensures
        r == *meta,
{
    Arc::clone(meta)
}

struct CacheEntry {
    name: PackageName,
    meta: Arc<PackageMetadata>,
}

/// The mapping an entry list stands for; a later entry for the same key would
/// win, but the cache keeps its keys unique.
spec fn map_of(s: Seq<CacheEntry>) -> Map<PackageNameView, Seq<ManifestView>>
    decreases s.len(),
{
    if s.len() == 0 {
        Map::empty()
    } else {
        map_of(s.drop_last()).insert(s.last().name@, s.last().meta@)
    }
}

spec fn unique_keys(s: Seq<CacheEntry>) -> bool {
    forall|i: int, j: int| 0 <= i < j < s.len() ==> s[i].name@ != s[j].name@
}

proof fn lemma_map_entries(s: Seq<CacheEntry>)
    requires
        unique_keys(s),
    ensures
        forall|k: PackageNameView|
            map_of(s).dom().contains(k) <==> exists|i: int| 0 <= i < s.len() && s[i].name@ == k,
        forall|i: int| 0 <= i < s.len() ==> map_of(s)[s[i].name@] == s[i].meta@,
    decreases s.len(),
{
    if s.len() > 0 {
        let front = s.drop_last();
        lemma_map_entries(front);
        assert(forall|i: int| 0 <= i < front.len() ==> front[i] == s[i]);
        assert(forall|i: int| 0 <= i < s.len() - 1 ==> s[i].name@ != s.last().name@);
        assert forall|k: PackageNameView| map_of(s).dom().contains(k) implies exists|i: int|
            0 <= i < s.len() && s[i].name@ == k by {
            if k == s.last().name@ {
                assert(s[s.len() - 1].name@ == k);
            } else {
                assert(map_of(front).dom().contains(k));
                let i = choose|i: int| 0 <= i < front.len() && front[i].name@ == k;
                assert(s[i].name@ == k);
            }
        }
        assert forall|k: PackageNameView| (exists|i: int|
            0 <= i < s.len() && s[i].name@ == k) implies map_of(s).dom().contains(k) by {
            let i = choose|i: int| 0 <= i < s.len() && s[i].name@ == k;
            if i < s.len() - 1 {
                assert(front[i].name@ == k);
            }
        }
        assert forall|i: int| 0 <= i < s.len() implies map_of(s)[s[i].name@] == s[i].meta@ by {
            if i < s.len() - 1 {
                assert(front[i].name@ == s[i].name@ && front[i].meta@ == s[i].meta@);
                assert(s[i].name@ != s.last().name@);
            }
        }
    }
}

/// The in-memory package cache.
pub struct MetadataCache {
    entries: Vec<CacheEntry>,
}

impl View for MetadataCache {
    type V = Map<PackageNameView, Seq<ManifestView>>;

    closed spec fn view(&self) -> Map<PackageNameView, Seq<ManifestView>> {
        map_of(self.entries@)
    }
}

impl MetadataCache {
    /// The cache keeps one entry per package identifier, and every cached
    /// snapshot holds only well-formed manifests.
    pub closed spec fn wf(&self) -> bool {
        unique_keys(self.entries@) && (forall|j: int|
            0 <= j < self.entries@.len() ==> wf_all(#[trigger] self.entries@[j].meta@))
    }

    /// An empty cache.
    pub fn new() -> (r: MetadataCache)
        ensures
            r.wf(),
            r@ == Map::<PackageNameView, Seq<ManifestView>>::empty(),
    {
        MetadataCache { entries: Vec::new() }
    }

    fn position_of(&self, name: &PackageName) -> (r: Option<usize>)
        ensures
            match r {
                Some(i) => i < self.entries@.len() && self.entries@[i as int].name@ == name@,
                None => forall|j: int|
                    0 <= j < self.entries@.len() ==> self.entries@[j].name@ != name@,
            },
    {
        let mut i: usize = 0;
        while i < self.entries.len()
            invariant
                0 <= i <= self.entries@.len(),
                forall|j: int| 0 <= j < i ==> self.entries@[j].name@ != name@,
            decreases self.entries@.len() - i,
        {
            if self.entries[i].name.same_as(name) {
                return Some(i);
            }
            i += 1;
        }
        None
    }

    /// A shared handle on the cached snapshot for a package, if one exists.
    pub fn lookup(&self, name: &PackageName) -> (r: Option<Arc<PackageMetadata>>)
        requires
            self.wf(),
        ensures
            match r {
                Some(md) => self@.dom().contains(name@) && md@ == self@[name@] && wf_all(md@),
                None => !self@.dom().contains(name@),
            },
    {
        proof {
            lemma_map_entries(self.entries@);
        }
        match self.position_of(name) {
            Some(i) => Some(share(&self.entries[i].meta)),
            None => None,
        }
    }

    /// Drops a package's entry, if any: the next read misses and goes to the
    /// mirror.
    pub fn invalidate(&mut self, name: &PackageName)
        requires
            old(self).wf(),
        ensures
            final(self).wf(),
            final(self)@ == old(self)@.remove(name@),
    {
        let ghost s0 = self.entries@;
        let mut kept: Vec<CacheEntry> = Vec::new();
        let mut i: usize = 0;
        proof {
            assert(s0.take(0) =~= Seq::<CacheEntry>::empty());
            assert(map_of(kept@) =~= map_of(s0.take(0)).remove(name@));
        }
        while i < self.entries.len()
            invariant
                0 <= i <= self.entries@.len(),
                self.entries@ == s0,
                unique_keys(s0),
                unique_keys(kept@),
                forall|j: int| 0 <= j < s0.len() ==> wf_all(#[trigger] s0[j].meta@),
                forall|j: int| 0 <= j < kept@.len() ==> wf_all(#[trigger] kept@[j].meta@),
                map_of(kept@) == map_of(s0.take(i as int)).remove(name@),
                forall|j: int| 0 <= j < kept@.len() ==> kept@[j].name@ != name@,
                forall|j: int|
                    0 <= j < kept@.len() ==> exists|x: int|
                        0 <= x < i && s0[x].name@ == #[trigger] kept@[j].name@,
            decreases self.entries@.len() - i,
        {
            let keep = !self.entries[i].name.same_as(name);
            proof {
                assert(s0.take(i + 1).drop_last() =~= s0.take(i as int));
                assert(s0.take(i + 1).last() == s0[i as int]);
            }
            if keep {
                let e = &self.entries[i];
                let entry = CacheEntry { name: e.name.duplicate(), meta: share(&e.meta) };
                let ghost kept0 = kept@;
                kept.push(entry);
                proof {
                    assert(kept@.drop_last() =~= kept0);
                    assert(map_of(kept@) == map_of(kept0).insert(s0[i as int].name@, s0[i as int].meta@));
                    assert(map_of(kept@) =~= map_of(s0.take(i + 1)).remove(name@));
                }
            } else {
                proof {
                    assert(map_of(s0.take(i + 1)).remove(name@) =~= map_of(s0.take(i as int)).remove(
                        name@,
                    ));
                }
            }
            i += 1;
        }
        proof {
            assert(s0.take(s0.len() as int) =~= s0);
        }
        self.entries = kept;
    }

    /// Stores a fresh snapshot for a package, replacing any cached one.
    pub fn store(&mut self, name: &PackageName, meta: Arc<PackageMetadata>)
        requires
            old(self).wf(),
            wf_all(meta@),
        ensures
            final(self).wf(),
            final(self)@ == old(self)@.insert(name@, meta@),
    {
        self.invalidate(name);
        let ghost s1 = self.entries@;
        let entry = CacheEntry { name: name.duplicate(), meta };
        self.entries.push(entry);
        proof {
            lemma_map_entries(s1);
            assert(!map_of(s1).dom().contains(name@));
            assert(forall|j: int| 0 <= j < s1.len() ==> s1[j].name@ != name@);
            assert(unique_keys(self.entries@));
            assert(self.entries@.drop_last() =~= s1);
            assert(map_of(self.entries@) == map_of(s1).insert(name@, self.entries@.last().meta@));
            assert(map_of(s1) =~= old(self)@.remove(name@));
            assert(old(self)@.remove(name@).insert(name@, self.entries@.last().meta@) =~= old(
                self,
            )@.insert(name@, self.entries@.last().meta@));
        }
    }
}

} // verus!
