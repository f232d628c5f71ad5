//! The client's mirror of the game state, kept up to date from snapshots.

use std::collections::hash_map::Entry;
use std::collections::HashMap;
use vstd::prelude::*;
use crate::being::{BeingView, LivingBeing};
use crate::state::GameStateResponse;
use crate::table::views_of;

verus! {

broadcast use vstd::std_specs::hash::group_hash_axioms;

/// What the client attaches to a being of its own accord. Snapshots never
/// touch it.
#[derive(Clone, Copy, Debug, PartialEq, Eq, Structural)]
pub struct Presentation {
    /// The handle of the sprite that shows the being, once one was made.
    pub sprite_id: Option<u128>,
    /// Whether the being was drawn at least once.
    pub has_been_rendered: bool,
}

impl Presentation {
    /// The presentation of a being that the client has only just heard of.
    pub open spec fn initial() -> Presentation {
        Presentation { sprite_id: None, has_been_rendered: false }
    }

    pub fn new() -> (presentation: Presentation)
        ensures
            presentation == Presentation::initial(),
    {
        Presentation { sprite_id: None, has_been_rendered: false }
    }
}

/// An entry of the cache as the contracts see it.
pub struct CachedView {
    pub being: BeingView,
    pub presentation: Presentation,
}

impl CachedView {
    /// The entry for a being seen for the first time.
    pub open spec fn fresh(incoming: BeingView) -> CachedView {
        CachedView { being: incoming, presentation: Presentation::initial() }
    }

    /// This entry after a snapshot reported the being again: health and
    /// position follow the snapshot, everything else stays.
    pub open spec fn refreshed(self, incoming: BeingView) -> CachedView {
        CachedView {
            being: BeingView {
                health: incoming.health,
                x: incoming.x,
                y: incoming.y,
                ..self.being
            },
            presentation: self.presentation,
        }
    }

    /// This entry once the client made a sprite for the being.
    pub open spec fn with_sprite(self, sprite_id: u128) -> CachedView {
        CachedView {
            presentation: Presentation { sprite_id: Some(sprite_id), ..self.presentation },
            ..self
        }
    }

    /// This entry once the client drew the being.
    pub open spec fn rendered(self) -> CachedView {
        CachedView {
            presentation: Presentation { has_been_rendered: true, ..self.presentation },
            ..self
        }
    }
}

/// Every entry sits under the id of its being.
pub open spec fn keyed(cache: Map<u64, CachedView>) -> bool {
    forall|id: u64| cache.contains_key(id) ==> (#[trigger] cache[id]).being.id == id
}

/// The cache after one being of a snapshot was merged: an update of the entry
/// with that id if there is one, a fresh entry if not.
pub open spec fn merge_one(cache: Map<u64, CachedView>, incoming: BeingView) -> Map<
    u64,
    CachedView,
> {
    if cache.contains_key(incoming.id) {
        cache.insert(incoming.id, cache[incoming.id].refreshed(incoming))
    } else {
        cache.insert(incoming.id, CachedView::fresh(incoming))
    }
}

/// The cache after the beings of a snapshot were merged, first to last.
pub open spec fn merge_all(cache: Map<u64, CachedView>, beings: Seq<BeingView>) -> Map<
    u64,
    CachedView,
>
    decreases beings.len(),
{
    if beings.len() == 0 {
        cache
    } else {
        merge_one(merge_all(cache, beings.drop_last()), beings.last())
    }
}

/// The ids for which merging the beings made a fresh entry, in the order in
/// which the entries were made.
pub open spec fn created_ids(cache: Map<u64, CachedView>, beings: Seq<BeingView>) -> Seq<u64>
    decreases beings.len(),
{
    if beings.len() == 0 {
        Seq::empty()
    } else {
        let earlier = created_ids(cache, beings.drop_last());
        if merge_all(cache, beings.drop_last()).contains_key(beings.last().id) {
            earlier
        } else {
            earlier.push(beings.last().id)
        }
    }
}

/// A being as the client holds it.
#[derive(Debug)]
pub struct CachedBeing {
    pub being: LivingBeing,
    pub presentation: Presentation,
}

impl View for CachedBeing {
    type V = CachedView;

    open spec fn view(&self) -> CachedView {
        CachedView { being: self.being@, presentation: self.presentation }
    }
}

/// The client's picture of the game, keyed by the id of the being.
pub struct ClientStateCache {
    entries: HashMap<u64, CachedBeing>,
}

/// The entries of a map as the contracts see them.
pub open spec fn entry_views(entries: Map<u64, CachedBeing>) -> Map<u64, CachedView> {
    entries.map_values(|entry: CachedBeing| entry@)
}

impl View for ClientStateCache {
    type V = Map<u64, CachedView>;

    closed spec fn view(&self) -> Map<u64, CachedView> {
        entry_views(self.entries@)
    }
}

impl ClientStateCache {
    /// Every entry sits under the id of its being.
    #[verifier::type_invariant]
    pub open spec fn wf(&self) -> bool {
        keyed(self@)
    }

    pub fn new() -> (cache: ClientStateCache)
        ensures
            cache@ == Map::<u64, CachedView>::empty(),
    {
        let entries: HashMap<u64, CachedBeing> = HashMap::new();
        proof {
            assert(entry_views(entries@) =~= Map::<u64, CachedView>::empty());
        }
        ClientStateCache { entries }
    }

    /// How many beings the client knows.
    pub fn len(&self) -> (n: usize)
        ensures
            self@.dom().finite(),
            n == self@.dom().len(),
    {
        proof {
            assert(self@.dom() =~= self.entries@.dom());
        }
        self.entries.len()
    }

    /// The entry of the being with this id.
    pub fn get(&self, id: u64) -> (found: Option<&CachedBeing>)
        ensures
            match found {
                Some(entry) => self@.contains_key(id) && entry@ == self@[id] && entry@.being.id
                    == id,
                None => !self@.contains_key(id),
            },
    {
        proof {
            use_type_invariant(self);
        }
        self.entries.get(&id)
    }

    /// Records the sprite that the client made for a being. The result tells
    /// whether the cache knows the being; if it does not, nothing changes.
    pub fn attach_sprite(&mut self, id: u64, sprite_id: u128) -> (known: bool)
        ensures
            known == old(self)@.contains_key(id),
            known ==> final(self)@ == old(self)@.insert(id, old(self)@[id].with_sprite(sprite_id)),
            !known ==> final(self)@ == old(self)@,
    {
        proof {
            use_type_invariant(&*self);
        }
        let ghost before = self@;
        let mut entries: HashMap<u64, CachedBeing> = HashMap::new();
        std::mem::swap(&mut entries, &mut self.entries);
        let known = match entries.entry(id) {
            Entry::Occupied(mut occupied) => {
                let entry = occupied.get_mut();
                entry.presentation.sprite_id = Some(sprite_id);
                true
            },
            Entry::Vacant(_) => false,
        };
        proof {
            let after = entry_views(entries@);
            if known {
                assert(after =~= before.insert(id, before[id].with_sprite(sprite_id)));
            } else {
                assert(after =~= before);
            }
        }
        self.entries = entries;
        known
    }

    /// Records that the client drew a being. The result tells whether the
    /// cache knows the being; if it does not, nothing changes.
    pub fn mark_rendered(&mut self, id: u64) -> (known: bool)
        ensures
            known == old(self)@.contains_key(id),
            known ==> final(self)@ == old(self)@.insert(id, old(self)@[id].rendered()),
            !known ==> final(self)@ == old(self)@,
    {
        proof {
            use_type_invariant(&*self);
        }
        let ghost before = self@;
        let mut entries: HashMap<u64, CachedBeing> = HashMap::new();
        std::mem::swap(&mut entries, &mut self.entries);
        let known = match entries.entry(id) {
            Entry::Occupied(mut occupied) => {
                let entry = occupied.get_mut();
                entry.presentation.has_been_rendered = true;
                true
            },
            Entry::Vacant(_) => false,
        };
        proof {
            let after = entry_views(entries@);
            if known {
                assert(after =~= before.insert(id, before[id].rendered()));
            } else {
                assert(after =~= before);
            }
        }
        self.entries = entries;
        known
    }

    /// Merges a snapshot. A being that the cache knows gets the snapshot's
    /// health and position and keeps its presentation; a being that it does
    /// not know gets a fresh entry. No entry is removed. The result lists the
    /// ids of the fresh entries.
    pub fn merge(&mut self, snapshot: &GameStateResponse) -> (created: Vec<u64>)
        ensures
            final(self)@ == merge_all(old(self)@, snapshot.beings()),
            created@ == created_ids(old(self)@, snapshot.beings()),
            forall|id: u64| old(self)@.contains_key(id) ==> final(self)@.contains_key(id),
    {
        proof {
            use_type_invariant(&*self);
        }
        let ghost before = self@;
        let ghost incoming = snapshot.beings();
        let mut entries: HashMap<u64, CachedBeing> = HashMap::new();
        std::mem::swap(&mut entries, &mut self.entries);
        let mut created: Vec<u64> = Vec::new();
        let mut i: usize = 0;
        while i < snapshot.living_beings.len()
            invariant
                i <= snapshot.living_beings.len(),
                incoming == views_of(snapshot.living_beings@),
                keyed(before),
                entry_views(entries@) == merge_all(before, incoming.take(i as int)),
                created@ == created_ids(before, incoming.take(i as int)),
            decreases snapshot.living_beings.len() - i,
        {
            let being = &snapshot.living_beings[i];
            let ghost earlier = entry_views(entries@);
            proof {
                assert(incoming.take(i + 1).drop_last() =~= incoming.take(i as int));
                assert(incoming.take(i + 1).last() == being@);
            }
            match entries.entry(being.id) {
                Entry::Occupied(mut occupied) => {
                    let entry = occupied.get_mut();
                    entry.being.health = being.health;
                    entry.being.position = being.position;
                },
                Entry::Vacant(vacant) => {
                    vacant.insert(
                        CachedBeing { being: being.clone(), presentation: Presentation::new() },
                    );
                    created.push(being.id);
                },
            }
            proof {
                assert(entry_views(entries@) =~= merge_one(earlier, being@));
            }
            i += 1;
        }
        proof {
            assert(incoming.take(i as int) =~= incoming);
            lemma_merge_keeps_keyed(before, incoming);
            lemma_merge_keeps_ids(before, incoming);
        }
        self.entries = entries;
        created
    }
}

/// A merge removes no id.
proof fn lemma_merge_keeps_ids(cache: Map<u64, CachedView>, beings: Seq<BeingView>)
    ensures
        forall|id: u64| cache.contains_key(id) ==> merge_all(cache, beings).contains_key(id),
    decreases beings.len(),
{
    if beings.len() > 0 {
        lemma_merge_keeps_ids(cache, beings.drop_last());
    }
}

/// A merge keeps every entry under the id of its being.
pub proof fn lemma_merge_keeps_keyed(cache: Map<u64, CachedView>, beings: Seq<BeingView>)
    requires
        keyed(cache),
    ensures
        keyed(merge_all(cache, beings)),
    decreases beings.len(),
{
    if beings.len() > 0 {
        lemma_merge_keeps_keyed(cache, beings.drop_last());
    }
}

} // verus!
