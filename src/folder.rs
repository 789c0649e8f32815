//! The view projector: it turns the structural changes of a folder's view map
//! into cache updates, change notifications and index updates.
use vstd::prelude::*;

verus! {

/// How a view lays out its content.
#[derive(Clone, Copy, Debug, PartialEq, Eq, Structural)]
pub enum ViewLayout {
    Document,
    Grid,
    Board,
    Calendar,
    Chat,
}

/// A view as rebuilt from the store: its identity, name, place in the
/// hierarchy, layout and timestamps.
#[derive(Clone, Debug, PartialEq, Eq)]
pub struct FolderView {
    pub id: String,
    pub parent_view_id: String,
    pub name: String,
    pub layout: ViewLayout,
    pub created_at: i64,
    pub last_edited_time: i64,
}

impl FolderView {
    /// A copy of the view.
    pub fn clone_view(&self) -> (r: Self)
        ensures
            r == *self,
    {
        FolderView {
            id: self.id.clone(),
            parent_view_id: self.parent_view_id.clone(),
            name: self.name.clone(),
            layout: self.layout,
            created_at: self.created_at,
            last_edited_time: self.last_edited_time,
        }
    }
}

/// The part of a view that the search index receives.
#[derive(Clone, Debug, PartialEq, Eq)]
pub struct ViewIndexContent {
    pub id: String,
    pub name: String,
}

impl ViewIndexContent {
    /// The index content of a view.
    pub fn from_view(v: &FolderView) -> (r: Self)
        ensures
            r.id == v.id,
            r.name == v.name,
    {
        ViewIndexContent { id: v.id.clone(), name: v.name.clone() }
    }
}

/// A change of views, as subscribers receive it.
#[derive(Clone, Debug)]
pub enum ViewChange {
    DidCreateView { view: FolderView },
    DidDeleteView { views: Vec<FolderView> },
    DidUpdate { view: FolderView },
}

/// An update for the search index.
#[derive(Clone, Debug)]
pub enum IndexContent {
    Create(ViewIndexContent),
    Update(ViewIndexContent),
    Delete(Vec<String>),
}

/// One entry change of the watched map, with the view already rebuilt from the
/// store's current state where there is one (`None`: it could not be rebuilt).
pub enum EntryChange {
    Inserted(Option<FolderView>),
    Updated(Option<FolderView>),
    Removed(Vec<String>),
    /// A change to a node that is not a map: text, an array, a fragment.
    Unrelated,
}

/// What one entry change produces: at most one change and one index update.
pub struct Projection {
    pub change: Option<ViewChange>,
    pub index: Option<IndexContent>,
}

/// The views of the cache, each under its id.
#[verifier::external_body]
pub struct ViewCache {
    map: dashmap::DashMap<String, FolderView>,
}

/// The views that a cache holds, by id.
pub uninterp spec fn cached_views(c: ViewCache) -> Map<Seq<char>, FolderView>;

impl ViewCache {
    /// Relies on dashmap::DashMap::new: the new map is empty.
    #[verifier::external_body]
    pub(crate) fn new() -> (r: Self)
        ensures
            cached_views(r).dom() == Set::<Seq<char>>::empty(),
    {
        ViewCache { map: dashmap::DashMap::new() }
    }

    /// Relies on dashmap::DashMap::insert: afterwards `k` holds `v`, the rest is unchanged.
    #[verifier::external_body]
    pub(crate) fn insert(&mut self, k: String, v: FolderView)
        ensures
            cached_views(*final(self)) == cached_views(*old(self)).insert(k@, v),
    {
        self.map.insert(k, v);
    }

    /// Relies on dashmap::DashMap::remove: the view under `k` is taken out and returned.
    #[verifier::external_body]
    pub(crate) fn remove(&mut self, k: &str) -> (r: Option<FolderView>)
        ensures
            cached_views(*final(self)) == cached_views(*old(self)).remove(k@),
            cached_views(*old(self)).contains_key(k@) ==> r == Some(cached_views(*old(self))[k@]),
            !cached_views(*old(self)).contains_key(k@) ==> r is None,
    {
        self.map.remove(k).map(|(_, v)| v)
    }

    /// Relies on dashmap::DashMap::get: a copy of the view under `k`, if any.
    #[verifier::external_body]
    pub(crate) fn get(&self, k: &str) -> (r: Option<FolderView>)
        ensures
            cached_views(*self).contains_key(k@) ==> r == Some(cached_views(*self)[k@]),
            !cached_views(*self).contains_key(k@) ==> r is None,
    {
        self.map.get(k).map(|e| e.value().clone())
    }

    /// Relies on dashmap::DashMap::len: the number of views held.
    #[verifier::external_body]
    pub(crate) fn len(&self) -> (r: usize)
        ensures
            r == cached_views(*self).dom().len(),
    {
        self.map.len()
    }
}

/// The cache after removing `keys` in order, and the views that were taken out.
pub open spec fn remove_keys(m: Map<Seq<char>, FolderView>, keys: Seq<Seq<char>>) -> (Map<
    Seq<char>,
    FolderView,
>, Seq<FolderView>)
    decreases keys.len(),
{
    if keys.len() == 0 {
        (m, Seq::empty())
    } else {
        let (rest, taken) = remove_keys(m, keys.drop_last());
        let k = keys.last();
        if rest.contains_key(k) {
            (rest.remove(k), taken.push(rest[k]))
        } else {
            (rest, taken)
        }
    }
}

/// Whether `ids` are the ids of `views`, in order.
pub open spec fn ids_of(ids: Seq<String>, views: Seq<FolderView>) -> bool {
    ids.map_values(|s: String| s@) == views.map_values(|v: FolderView| v.id@)
}

/// Whether `p` is what a rebuilt view `v` produces as a create (or else update).
pub open spec fn announces(p: Projection, v: FolderView, create: bool) -> bool {
    &&& if create {
        p.change matches Some(ViewChange::DidCreateView { view }) && view == v
    } else {
        p.change matches Some(ViewChange::DidUpdate { view }) && view == v
    }
    &&& if create {
        p.index matches Some(IndexContent::Create(c)) && c.id == v.id && c.name == v.name
    } else {
        p.index matches Some(IndexContent::Update(c)) && c.id == v.id && c.name == v.name
    }
}

/// Whether `p` reports the removal of `taken`: nothing when no view was
/// cached, else the views themselves and their ids.
pub open spec fn announces_removal(p: Projection, taken: Seq<FolderView>) -> bool {
    if taken.len() == 0 {
        p.change is None && p.index is None
    } else {
        &&& p.change matches Some(ViewChange::DidDeleteView { views }) && views@ == taken
        &&& p.index matches Some(IndexContent::Delete(ids)) && ids_of(ids@, taken)
    }
}

/// The projector: the cache of rebuilt views.
pub struct ViewProjector {
    cache: ViewCache,
}

impl ViewProjector {
    /// The views that the cache holds, by id.
    pub closed spec fn views(&self) -> Map<Seq<char>, FolderView> {
        cached_views(self.cache)
    }

    /// The cached view with id `id`, if any.
    pub fn get_view(&self, id: &str) -> (r: Option<FolderView>)
        ensures
            self.views().contains_key(id@) ==> r == Some(self.views()[id@]),
            !self.views().contains_key(id@) ==> r is None,
    {
        self.cache.get(id)
    }

    /// The number of cached views.
    pub fn view_count(&self) -> (r: usize)
        ensures
            r == self.views().dom().len(),
    {
        self.cache.len()
    }

    /// A projector with an empty cache.
    pub fn new() -> (r: Self)
        ensures
            r.views().dom() == Set::<Seq<char>>::empty(),
    {
        ViewProjector { cache: ViewCache::new() }
    }

    fn announce(&mut self, v: FolderView, create: bool) -> (r: Projection)
        ensures
            final(self).views() == old(self).views().insert(v.id@, v),
            announces(r, v, create),
    {
        let index = ViewIndexContent::from_view(&v);
        self.cache.insert(v.id.clone(), v.clone_view());
        if create {
            Projection {
                change: Some(ViewChange::DidCreateView { view: v }),
                index: Some(IndexContent::Create(index)),
            }
        } else {
            Projection {
                change: Some(ViewChange::DidUpdate { view: v }),
                index: Some(IndexContent::Update(index)),
            }
        }
    }

    /// Applies one entry change. A rebuilt view replaces the cached one and is
    /// announced; a view that could not be rebuilt changes nothing. Removed keys
    /// take their cached views out, and those views are announced together;
    /// keys that were not cached are skipped.
    pub fn apply(&mut self, e: EntryChange) -> (r: Projection)
        ensures
            match e {
                EntryChange::Inserted(Some(v)) => final(self).views()
                    == old(self).views().insert(v.id@, v) && announces(r, v, true),
                EntryChange::Updated(Some(v)) => final(self).views()
                    == old(self).views().insert(v.id@, v) && announces(r, v, false),
                EntryChange::Removed(keys) => {
                    let (rest, taken) = remove_keys(
                        old(self).views(),
                        keys@.map_values(|k: String| k@),
                    );
                    final(self).views() == rest && announces_removal(r, taken)
                },
                _ => final(self).views() == old(self).views()
                    && r.change is None && r.index is None,
            },
    {
        match e {
            EntryChange::Inserted(Some(v)) => self.announce(v, true),
            EntryChange::Updated(Some(v)) => self.announce(v, false),
            EntryChange::Removed(keys) => self.remove_all(&keys),
            _ => Projection { change: None, index: None },
        }
    }

    fn remove_all(&mut self, keys: &Vec<String>) -> (r: Projection)
        ensures
            ({
                let (rest, taken) = remove_keys(
                    old(self).views(),
                    keys@.map_values(|k: String| k@),
                );
                final(self).views() == rest && announces_removal(r, taken)
            }),
    {
        let ghost ks = keys@.map_values(|k: String| k@);
        let mut views: Vec<FolderView> = Vec::new();
        let mut ids: Vec<String> = Vec::new();
        let mut i: usize = 0;
        assert(ids@.map_values(|s: String| s@) =~= views@.map_values(|v: FolderView| v.id@));
        while i < keys.len()
            invariant
                i <= keys@.len(),
                ks == keys@.map_values(|k: String| k@),
                remove_keys(old(self).views(), ks.subrange(0, i as int)) == (
                self.views(),
                views@,
                ),
                ids_of(ids@, views@),
            decreases keys@.len() - i,
        {
            assert(ks.subrange(0, i + 1).drop_last() == ks.subrange(0, i as int));
            assert(ks.subrange(0, i + 1).last() == keys@[i as int]@);
            match self.cache.remove(keys[i].as_str()) {
                Some(v) => {
                    let ghost before_ids = ids@;
                    let ghost before_views = views@;
                    ids.push(v.id.clone());
                    views.push(v);
                    assert(ids@.map_values(|s: String| s@) == before_ids.map_values(|s: String| s@).push(
                        v.id@,
                    ));
                    assert(views@.map_values(|w: FolderView| w.id@) == before_views.map_values(
                        |w: FolderView| w.id@,
                    ).push(v.id@));
                },
                None => {
                    assert(self.views() =~= self.views().remove(keys@[i as int]@));
                },
            }
            i = i + 1;
        }
        assert(ks.subrange(0, keys@.len() as int) == ks);
        if views.len() == 0 {
            Projection { change: None, index: None }
        } else {
            Projection {
                change: Some(ViewChange::DidDeleteView { views }),
                index: Some(IndexContent::Delete(ids)),
            }
        }
    }
}

} // verus!
