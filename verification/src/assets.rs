//! Cache of loaded assets keyed by path. Generic over the resource type so
//! the caching behaviour does not depend on the GPU; the engine instantiates
//! it with textures.

use vstd::prelude::*;

verus! {

/// The map that a list of distinct `(path, resource)` entries describes.
pub open spec fn entries_map<V>(entries: Seq<(String, V)>) -> Map<Seq<char>, V>
    decreases entries.len(),
{
    if entries.len() == 0 {
        Map::empty()
    } else {
        entries_map(entries.drop_last()).insert(entries.last().0@, entries.last().1)
    }
}

/// No path occurs twice among the entries.
pub open spec fn paths_distinct<V>(entries: Seq<(String, V)>) -> bool {
    forall|i: int, j: int|
        0 <= i < j < entries.len() ==> (#[trigger] entries[i]).0@ != (#[trigger] entries[j]).0@
}

/// A path is in the described map exactly when some entry carries it, and
/// then the map gives that entry's resource.
proof fn lemma_entries_map<V>(entries: Seq<(String, V)>)
    requires
        paths_distinct(entries),
    ensures
        forall|k: Seq<char>|
            #[trigger] entries_map(entries).contains_key(k) <==> exists|i: int|
                0 <= i < entries.len() && (#[trigger] entries[i]).0@ == k,
        forall|i: int|
            0 <= i < entries.len() ==> #[trigger] entries_map(entries)[entries[i].0@]
                == entries[i].1,
    decreases entries.len(),
{
    if entries.len() > 0 {
        let rest = entries.drop_last();
        assert(paths_distinct(rest));
        lemma_entries_map(rest);
        assert(entries_map(entries) == entries_map(rest).insert(
            entries.last().0@,
            entries.last().1,
        ));
        assert forall|k: Seq<char>|
            #[trigger] entries_map(entries).contains_key(k) <==> exists|i: int|
                0 <= i < entries.len() && (#[trigger] entries[i]).0@ == k by {
            if entries_map(entries).contains_key(k) && k != entries.last().0@ {
                assert(entries_map(rest).contains_key(k));
                let i = choose|i: int| 0 <= i < rest.len() && (#[trigger] rest[i]).0@ == k;
                assert(entries[i] == rest[i]);
            }
            if exists|i: int| 0 <= i < entries.len() && (#[trigger] entries[i]).0@ == k {
                let i = choose|i: int| 0 <= i < entries.len() && (#[trigger] entries[i]).0@ == k;
                if i < entries.len() - 1 {
                    assert(rest[i] == entries[i]);
                }
            }
        }
        assert forall|i: int| 0 <= i < entries.len() implies #[trigger] entries_map(
            entries,
        )[entries[i].0@] == entries[i].1 by {
            if i < entries.len() - 1 {
                assert(rest[i] == entries[i]);
                assert(entries[i].0@ != entries[entries.len() - 1].0@);
            }
        }
    }
}

/// Cache of loaded resources keyed by path.
pub struct AssetServer<V> {
    entries: Vec<(String, V)>,
}

impl<V> AssetServer<V> {
    #[verifier::type_invariant]
    closed spec fn inv(&self) -> bool {
        paths_distinct(self.entries@)
    }
}

impl<V> View for AssetServer<V> {
    type V = Map<Seq<char>, V>;

    /// The cached resources, by path.
    closed spec fn view(&self) -> Map<Seq<char>, V> {
        entries_map(self.entries@)
    }
}

impl<V> Default for AssetServer<V> {
    fn default() -> (server: Self)
        ensures
            server@ == Map::<Seq<char>, V>::empty(),
    {
        AssetServer { entries: Vec::new() }
    }
}

impl<V> AssetServer<V> {
    /// The position of `path` among the entries, if it is cached.
    fn find(&self, path: &String) -> (found: Option<usize>)
        ensures
            match found {
                Some(i) => {
                    &&& i < self.entries@.len()
                    &&& self@.contains_key(path@)
                    &&& self@[path@] == self.entries@[i as int].1
                },
                None => !self@.contains_key(path@),
            },
    {
        proof {
            use_type_invariant(self);
            lemma_entries_map(self.entries@);
        }
        let mut i: usize = 0;
        while i < self.entries.len()
            invariant
                i <= self.entries@.len(),
                forall|j: int| 0 <= j < i ==> (#[trigger] self.entries@[j]).0@ != path@,
            decreases self.entries@.len() - i,
        {
            if self.entries[i].0 == *path {
                proof {
                    use_type_invariant(self);
                    lemma_entries_map(self.entries@);
                }
                return Some(i);
            }
            i = i + 1;
        }
        proof {
            use_type_invariant(self);
            lemma_entries_map(self.entries@);
        }
        None
    }

    /// Caches `value` under a path that is not cached yet.
    fn insert_new(&mut self, path: String, value: V)
        requires
            !old(self)@.contains_key(path@),
        ensures
            final(self)@ == old(self)@.insert(path@, value),
    {
        proof {
            use_type_invariant(&*self);
            lemma_entries_map(self.entries@);
        }
        let mut entries: Vec<(String, V)> = Vec::new();
        std::mem::swap(&mut entries, &mut self.entries);
        let ghost before = entries@;
        entries.push((path, value));
        proof {
            assert(entries@.drop_last() =~= before);
            assert(paths_distinct(entries@)) by {
                assert forall|a: int, b: int|
                    0 <= a < b < entries@.len() implies (#[trigger] entries@[a]).0@
                    != (#[trigger] entries@[b]).0@ by {
                    if b == entries@.len() - 1 {
                        assert(entries@[a] == before[a]);
                    } else {
                        assert(entries@[a] == before[a]);
                        assert(entries@[b] == before[b]);
                    }
                }
            }
        }
        self.entries = entries;
    }
}

impl<V: Clone> AssetServer<V> {
    /// Returns the cached resource for `path`, loading it through `load` on
    /// first access only. A cached path is answered with a clone of the
    /// cached resource and leaves the cache as it was; `load` need not be
    /// callable then, and it is not called. An unknown path is loaded once,
    /// cached, and answered with a clone of what was loaded.
    pub fn entry<F: FnOnce(&str) -> V>(&mut self, path: &str, load: F) -> (resource: V)
        requires
            !old(self)@.contains_key(path@) ==> load.requires((path,)),
        ensures
            final(self)@.contains_key(path@),
            cloned(final(self)@[path@], resource),
            old(self)@.contains_key(path@) ==> final(self)@ == old(self)@,
            !old(self)@.contains_key(path@) ==> {
                &&& final(self)@ == old(self)@.insert(path@, final(self)@[path@])
                &&& load.ensures((path,), final(self)@[path@])
            },
    {
        let key = path.to_owned();
        match self.find(&key) {
            Some(i) => self.entries[i].1.clone(),
            None => {
                let loaded = load(path);
                let resource = loaded.clone();
                self.insert_new(key, loaded);
                resource
            },
        }
    }

    /// Like [`Self::entry`] for a load that can fail: a cached path is
    /// answered with a clone of the cached resource without calling `load`;
    /// an unknown path is loaded once, and only a successful load is cached
    /// and answered with a clone of it. A failed load leaves the cache as it
    /// was and its error is returned, so a later call tries again.
    pub fn try_entry<E, F: FnOnce(&str) -> Result<V, E>>(
        &mut self,
        path: &str,
        load: F,
    ) -> (resource: Result<V, E>)
        requires
            !old(self)@.contains_key(path@) ==> load.requires((path,)),
        ensures
            old(self)@.contains_key(path@) ==> {
                &&& final(self)@ == old(self)@
                &&& resource matches Ok(r) && cloned(old(self)@[path@], r)
            },
            !old(self)@.contains_key(path@) ==> match resource {
                Ok(r) => {
                    &&& final(self)@ == old(self)@.insert(path@, final(self)@[path@])
                    &&& load.ensures((path,), Ok::<V, E>(final(self)@[path@]))
                    &&& cloned(final(self)@[path@], r)
                },
                Err(e) => {
                    &&& final(self)@ == old(self)@
                    &&& load.ensures((path,), Err::<V, E>(e))
                },
            },
    {
        let key = path.to_owned();
        match self.find(&key) {
            Some(i) => Ok(self.entries[i].1.clone()),
            None => match load(path) {
                Ok(loaded) => {
                    let resource = loaded.clone();
                    self.insert_new(key, loaded);
                    Ok(resource)
                },
                Err(e) => Err(e),
            },
        }
    }
}

} // verus!
