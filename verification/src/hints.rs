//! The size resolver: reconciles each element's measured-size hint with its
//! sizing policy and the pixel dimensions of its backing asset.
//!
//! The hint store is keyed by node identity and read by the host's layout
//! solver; one reconciliation pass per frame inserts, updates or removes
//! each element's entry. An element whose asset is not loaded yet is left
//! untouched and retried next frame.

use vstd::prelude::*;
use std::collections::HashMap;
use crate::model::{AtlasInfo, ExactAtlasImage, ExactImage, ExactSize};

verus! {

/// The measured-size-hint store: node identity to hinted pixel size.
pub struct HintStore {
    m: HashMap<u64, (u32, u32)>,
}

impl View for HintStore {
    type V = Map<u64, (u32, u32)>;

    closed spec fn view(&self) -> Map<u64, (u32, u32)> {
        self.m@
    }
}

/// The hint stored for `entity`, if any.
pub open spec fn lookup(m: Map<u64, (u32, u32)>, entity: u64) -> Option<(u32, u32)> {
    if m.contains_key(entity) {
        Some(m[entity])
    } else {
        None
    }
}

impl HintStore {
    pub fn new() -> (s: HintStore)
        ensures
            s@ == Map::<u64, (u32, u32)>::empty(),
    {
        HintStore { m: HashMap::new() }
    }

    /// Inserts the hint for `entity`, or updates it in place.
    pub fn set(&mut self, entity: u64, size: (u32, u32))
        ensures
            final(self)@ == old(self)@.insert(entity, size),
    {
        broadcast use vstd::std_specs::hash::group_hash_axioms;

        self.m.insert(entity, size);
    }

    /// Removes the hint for `entity`, if present.
    pub fn remove(&mut self, entity: u64)
        ensures
            final(self)@ == old(self)@.remove(entity),
    {
        broadcast use vstd::std_specs::hash::group_hash_axioms;

        self.m.remove(&entity);
    }

    /// Reads the hint for `entity`.
    pub fn get(&self, entity: u64) -> (r: Option<(u32, u32)>)
        ensures
            r == lookup(self@, entity),
    {
        broadcast use vstd::std_specs::hash::group_hash_axioms;

        match self.m.get(&entity) {
            Some(size) => Some(*size),
            None => None,
        }
    }
}

/// The two aspect-preserving policies are the ones that publish a
/// measured-size hint.
pub open spec fn wants_hint(sizing: ExactSize) -> bool {
    match sizing {
        ExactSize::AttemptPreserveAspectRatio => true,
        ExactSize::ForcePreserveAspectRatio => true,
        _ => false,
    }
}

/// The hint an element holds after one reconciliation pass, from its sizing
/// policy, the pixel size of its backing asset (`None` while unloaded) and
/// the hint it held before.
pub open spec fn hint_after(
    sizing: ExactSize,
    asset: Option<(u32, u32)>,
    prev: Option<(u32, u32)>,
) -> Option<(u32, u32)> {
    match asset {
        None => prev,
        Some(size) => if wants_hint(sizing) {
            Some(size)
        } else {
            None
        },
    }
}

/// Any sizing policy other than the two aspect-preserving ones leaves no
/// hint after a reconciliation pass that saw the asset loaded, whatever was
/// stored before.
pub proof fn lemma_other_policies_clear_hint(
    sizing: ExactSize,
    size: (u32, u32),
    prev: Option<(u32, u32)>,
)
    requires
        !wants_hint(sizing),
    ensures
        hint_after(sizing, Some(size), prev) == None::<(u32, u32)>,
{
}

/// Under an aspect-preserving policy, once the asset is loaded the hint
/// equals the asset's pixel size, whatever was stored before — so a stale
/// hint is updated the pass after the asset's dimensions change.
pub proof fn lemma_aspect_policies_track_asset(
    sizing: ExactSize,
    size: (u32, u32),
    prev: Option<(u32, u32)>,
)
    requires
        wants_hint(sizing),
    ensures
        hint_after(sizing, Some(size), prev) == Some(size),
{
}

/// One element as the size resolver sees it: its node identity, the element
/// itself, and the pixel size of its backing image if that is loaded.
pub struct ImageSizeEntry {
    pub entity: u64,
    pub image: ExactImage,
    /// Pixel dimensions of the backing image; `None` while it is unloaded.
    pub texture_size: Option<(u32, u32)>,
}

/// True when some entry among the first `upto` carries this node identity.
pub open spec fn has_image_entity(s: Seq<ImageSizeEntry>, upto: int, entity: u64) -> bool {
    exists|j: int| 0 <= j < upto && (#[trigger] s[j]).entity == entity
}

/// Entries come from a host entity query, which yields each node at most
/// once. The host passes only nodes that are exclusively image elements —
/// not simultaneously a text label or a generic image widget — so the hints
/// written here cannot double-size a node.
pub open spec fn distinct_image_entities(s: Seq<ImageSizeEntry>) -> bool {
    forall|i: int, j: int|
        #![trigger s[i], s[j]]
        0 <= i < j < s.len() ==> s[i].entity != s[j].entity
}

/// One reconciliation pass over whole-image elements.
///
/// For every entry whose backing image is loaded: under an
/// aspect-preserving policy the stored hint becomes the image's pixel size
/// (inserted or updated in place), under any other policy it is removed.
/// Entries whose image is unloaded, and nodes that no entry names, keep
/// their stored state.
pub fn exact_image_system(entries: &Vec<ImageSizeEntry>, store: &mut HintStore)
    requires
        distinct_image_entities(entries@),
    ensures
        forall|i: int|
            0 <= i < entries@.len() ==> #[trigger] lookup(final(store)@, entries@[i].entity)
                == hint_after(
                entries@[i].image.size,
                entries@[i].texture_size,
                lookup(old(store)@, entries@[i].entity),
            ),
        forall|entity: u64|
            !has_image_entity(entries@, entries@.len() as int, entity) ==> #[trigger] lookup(
                final(store)@,
                entity,
            ) == lookup(old(store)@, entity),
{
    let ghost m0 = store@;
    let n: usize = entries.len();
    let mut i: usize = 0;
    while i < n
        invariant
            i <= n,
            n == entries@.len(),
            distinct_image_entities(entries@),
            forall|j: int|
                0 <= j < i ==> #[trigger] lookup(store@, entries@[j].entity) == hint_after(
                    entries@[j].image.size,
                    entries@[j].texture_size,
                    lookup(m0, entries@[j].entity),
                ),
            forall|entity: u64|
                !has_image_entity(entries@, i as int, entity) ==> #[trigger] lookup(store@, entity)
                    == lookup(m0, entity),
        decreases n - i,
    {
        let ghost s_before = store@;
        let e = &entries[i];
        match e.texture_size {
            None => {},
            Some(size) => {
                if matches!(
                    e.image.size,
                    ExactSize::AttemptPreserveAspectRatio | ExactSize::ForcePreserveAspectRatio
                ) {
                    store.set(e.entity, size);
                } else {
                    store.remove(e.entity);
                }
            },
        }
        proof {
            let i_ = i as int;
            assert(!has_image_entity(entries@, i_, entries@[i_].entity)) by {
                if has_image_entity(entries@, i_, entries@[i_].entity) {
                    let jj = choose|jj: int|
                        0 <= jj < i_ && (#[trigger] entries@[jj]).entity == entries@[i_].entity;
                    assert(entries@[jj].entity != entries@[i_].entity);
                }
            }
            assert(lookup(s_before, entries@[i_].entity) == lookup(m0, entries@[i_].entity));
            assert forall|entity: u64|
                !has_image_entity(entries@, i_ + 1, entity) implies #[trigger] lookup(
                store@,
                entity,
            ) == lookup(m0, entity) by {
                assert(!has_image_entity(entries@, i_, entity)) by {
                    if has_image_entity(entries@, i_, entity) {
                        let jj = choose|jj: int|
                            0 <= jj < i_ && (#[trigger] entries@[jj]).entity == entity;
                        assert(0 <= jj < i_ + 1 && entries@[jj].entity == entity);
                        assert(has_image_entity(entries@, i_ + 1, entity));
                    }
                }
                assert(entries@[i_].entity != entity) by {
                    if entries@[i_].entity == entity {
                        assert(0 <= i_ < i_ + 1 && entries@[i_].entity == entity);
                        assert(has_image_entity(entries@, i_ + 1, entity));
                    }
                }
                assert(lookup(s_before, entity) == lookup(m0, entity));
                assert(lookup(store@, entity) == lookup(s_before, entity));
            }
            assert forall|j: int|
                0 <= j < i_ + 1 implies #[trigger] lookup(store@, entries@[j].entity) == hint_after(
                entries@[j].image.size,
                entries@[j].texture_size,
                lookup(m0, entries@[j].entity),
            ) by {
                if j < i_ {
                    assert(entries@[j].entity != entries@[i_].entity);
                    assert(lookup(store@, entries@[j].entity) == lookup(
                        s_before,
                        entries@[j].entity,
                    ));
                }
            }
        }
        i += 1;
    }
}

/// One element as the atlas size resolver sees it: its node identity, the
/// element itself, and the atlas contents if the atlas resource is loaded.
pub struct AtlasSizeEntry {
    pub entity: u64,
    pub image: ExactAtlasImage,
    /// Contents of the referenced atlas; `None` while it is unloaded.
    pub atlas: Option<AtlasInfo>,
}

impl AtlasSizeEntry {
    /// The element's sub-rectangle lies within the atlas's table, with its
    /// corners in order.
    pub open spec fn wf(self) -> bool {
        match self.atlas {
            None => true,
            Some(a) => {
                &&& self.image.index < a.textures@.len()
                &&& a.textures@[self.image.index as int].min_x
                    <= a.textures@[self.image.index as int].max_x
                &&& a.textures@[self.image.index as int].min_y
                    <= a.textures@[self.image.index as int].max_y
            },
        }
    }

    /// Pixel size of the element's sub-rectangle, once the atlas is loaded.
    pub open spec fn slot_size(self) -> Option<(u32, u32)> {
        match self.atlas {
            None => None,
            Some(a) => Some(
                (
                    a.textures@[self.image.index as int].spec_width(),
                    a.textures@[self.image.index as int].spec_height(),
                ),
            ),
        }
    }
}

pub open spec fn has_atlas_entity(s: Seq<AtlasSizeEntry>, upto: int, entity: u64) -> bool {
    exists|j: int| 0 <= j < upto && (#[trigger] s[j]).entity == entity
}

pub open spec fn distinct_atlas_entities(s: Seq<AtlasSizeEntry>) -> bool {
    forall|i: int, j: int|
        #![trigger s[i], s[j]]
        0 <= i < j < s.len() ==> s[i].entity != s[j].entity
}

/// One reconciliation pass over atlas elements: as
/// [`exact_image_system`], except that the compared size is the pixel size
/// of the element's sub-rectangle within its atlas, available once the
/// atlas resource is loaded.
pub fn exact_atlas_image_system(entries: &Vec<AtlasSizeEntry>, store: &mut HintStore)
    requires
        distinct_atlas_entities(entries@),
        forall|i: int| 0 <= i < entries@.len() ==> (#[trigger] entries@[i]).wf(),
    ensures
        forall|i: int|
            0 <= i < entries@.len() ==> #[trigger] lookup(final(store)@, entries@[i].entity)
                == hint_after(
                entries@[i].image.size,
                entries@[i].slot_size(),
                lookup(old(store)@, entries@[i].entity),
            ),
        forall|entity: u64|
            !has_atlas_entity(entries@, entries@.len() as int, entity) ==> #[trigger] lookup(
                final(store)@,
                entity,
            ) == lookup(old(store)@, entity),
{
    let ghost m0 = store@;
    let n: usize = entries.len();
    let mut i: usize = 0;
    while i < n
        invariant
            i <= n,
            n == entries@.len(),
            distinct_atlas_entities(entries@),
            forall|j: int| 0 <= j < entries@.len() ==> (#[trigger] entries@[j]).wf(),
            forall|j: int|
                0 <= j < i ==> #[trigger] lookup(store@, entries@[j].entity) == hint_after(
                    entries@[j].image.size,
                    entries@[j].slot_size(),
                    lookup(m0, entries@[j].entity),
                ),
            forall|entity: u64|
                !has_atlas_entity(entries@, i as int, entity) ==> #[trigger] lookup(store@, entity)
                    == lookup(m0, entity),
        decreases n - i,
    {
        let ghost s_before = store@;
        let e = &entries[i];
        match &e.atlas {
            None => {},
            Some(a) => {
                let rect = a.textures[e.image.index];
                let size = (rect.max_x - rect.min_x, rect.max_y - rect.min_y);
                if matches!(
                    e.image.size,
                    ExactSize::AttemptPreserveAspectRatio | ExactSize::ForcePreserveAspectRatio
                ) {
                    store.set(e.entity, size);
                } else {
                    store.remove(e.entity);
                }
            },
        }
        proof {
            let i_ = i as int;
            assert(!has_atlas_entity(entries@, i_, entries@[i_].entity)) by {
                if has_atlas_entity(entries@, i_, entries@[i_].entity) {
                    let jj = choose|jj: int|
                        0 <= jj < i_ && (#[trigger] entries@[jj]).entity == entries@[i_].entity;
                    assert(entries@[jj].entity != entries@[i_].entity);
                }
            }
            assert(lookup(s_before, entries@[i_].entity) == lookup(m0, entries@[i_].entity));
            assert forall|entity: u64|
                !has_atlas_entity(entries@, i_ + 1, entity) implies #[trigger] lookup(
                store@,
                entity,
            ) == lookup(m0, entity) by {
                assert(!has_atlas_entity(entries@, i_, entity)) by {
                    if has_atlas_entity(entries@, i_, entity) {
                        let jj = choose|jj: int|
                            0 <= jj < i_ && (#[trigger] entries@[jj]).entity == entity;
                        assert(0 <= jj < i_ + 1 && entries@[jj].entity == entity);
                        assert(has_atlas_entity(entries@, i_ + 1, entity));
                    }
                }
                assert(entries@[i_].entity != entity) by {
                    if entries@[i_].entity == entity {
                        assert(0 <= i_ < i_ + 1 && entries@[i_].entity == entity);
                        assert(has_atlas_entity(entries@, i_ + 1, entity));
                    }
                }
                assert(lookup(s_before, entity) == lookup(m0, entity));
                assert(lookup(store@, entity) == lookup(s_before, entity));
            }
            assert forall|j: int|
                0 <= j < i_ + 1 implies #[trigger] lookup(store@, entries@[j].entity) == hint_after(
                entries@[j].image.size,
                entries@[j].slot_size(),
                lookup(m0, entries@[j].entity),
            ) by {
                if j < i_ {
                    assert(entries@[j].entity != entries@[i_].entity);
                    assert(lookup(store@, entries@[j].entity) == lookup(
                        s_before,
                        entries@[j].entity,
                    ));
                }
            }
        }
        i += 1;
    }
}

} // verus!
