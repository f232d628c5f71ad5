//! The table of living beings that the server is the authority for.

use vstd::prelude::*;
use crate::being::{BeingView, LivingBeing};

verus! {

/// The beings of a vector as the contracts see them.
pub open spec fn views_of(beings: Seq<LivingBeing>) -> Seq<BeingView> {
    beings.map_values(|b: LivingBeing| b@)
}

/// No two beings of the sequence share an id.
pub open spec fn distinct_ids(beings: Seq<BeingView>) -> bool {
    forall|i: int, j: int| 0 <= i < j < beings.len() ==> beings[i].id != beings[j].id
}

/// Some being of the sequence has this id.
pub open spec fn has_id(beings: Seq<BeingView>, id: u64) -> bool {
    exists|i: int| 0 <= i < beings.len() && #[trigger] beings[i].id == id
}

/// Every being of the sequence stays on the board after the step.
pub open spec fn all_can_move(beings: Seq<BeingView>, x_diff: int, y_diff: int) -> bool {
    forall|i: int| 0 <= i < beings.len() ==> (#[trigger] beings[i]).can_move(x_diff, y_diff)
}

/// The sequence after every being made the step.
pub open spec fn all_moved(beings: Seq<BeingView>, x_diff: int, y_diff: int) -> Seq<BeingView> {
    beings.map_values(|b: BeingView| b.moved(x_diff, y_diff))
}

/// The beings of the game in the order in which they joined. The order
/// matters: an action hits the being at index 0.
pub struct EntityTable {
    beings: Vec<LivingBeing>,
}

impl View for EntityTable {
    type V = Seq<BeingView>;

    closed spec fn view(&self) -> Seq<BeingView> {
        views_of(self.beings@)
    }
}

impl EntityTable {
    /// A table is well formed when ids identify its beings.
    #[verifier::type_invariant]
    pub open spec fn wf(&self) -> bool {
        distinct_ids(self@)
    }

    /// What a table holds fits the machine types of a being.
    pub proof fn lemma_bounded(&self)
        ensures
            forall|i: int| 0 <= i < self@.len() ==> (#[trigger] self@[i]).bounded(),
    {
    }

    pub fn new() -> (table: EntityTable)
        ensures
            table@ == Seq::<BeingView>::empty(),
    {
        EntityTable { beings: Vec::new() }
    }

    pub fn len(&self) -> (n: usize)
        ensures
            n == self@.len(),
    {
        self.beings.len()
    }

    pub fn is_empty(&self) -> (empty: bool)
        ensures
            empty == (self@.len() == 0),
    {
        self.beings.len() == 0
    }

    /// The being at `index`, if the table is that long.
    pub fn get(&self, index: usize) -> (found: Option<&LivingBeing>)
        ensures
            match found {
                Some(being) => index < self@.len() && being@ == self@[index as int],
                None => index >= self@.len(),
            },
    {
        if index < self.beings.len() {
            Some(&self.beings[index])
        } else {
            None
        }
    }

    /// The index of the being with this id.
    pub fn find(&self, id: u64) -> (found: Option<usize>)
        ensures
            match found {
                Some(index) => index < self@.len() && self@[index as int].id == id,
                None => !has_id(self@, id),
            },
    {
        let mut i: usize = 0;
        while i < self.beings.len()
            invariant
                i <= self.beings.len(),
                forall|k: int| 0 <= k < i ==> (#[trigger] self@[k]).id != id,
            decreases self.beings.len() - i,
        {
            if self.beings[i].id == id {
                return Some(i);
            }
            i += 1;
        }
        None
    }

    pub fn contains(&self, id: u64) -> (present: bool)
        ensures
            present == has_id(self@, id),
    {
        self.find(id).is_some()
    }

    /// Adds a being at the end, unless its id is taken: then the table stays
    /// as it is and the result is `false`.
    pub fn insert(&mut self, being: LivingBeing) -> (inserted: bool)
        ensures
            inserted == !has_id(old(self)@, being.id),
            inserted ==> final(self)@ == old(self)@.push(being@),
            !inserted ==> final(self)@ == old(self)@,
    {
        proof {
            use_type_invariant(&*self);
        }
        if self.contains(being.id) {
            return false;
        }
        let ghost before = self.beings@;
        let mut beings: Vec<LivingBeing> = Vec::new();
        std::mem::swap(&mut beings, &mut self.beings);
        beings.push(being);
        proof {
            assert(views_of(beings@) =~= views_of(before).push(being@));
        }
        self.beings = beings;
        true
    }

    /// Changes the health of the being at `index` by `diff`, never below
    /// zero.
    pub fn update_health(&mut self, index: usize, diff: i32)
        requires
            index < old(self)@.len(),
            old(self)@[index as int].health + diff <= u32::MAX,
        ensures
            final(self)@ == old(self)@.update(
                index as int,
                old(self)@[index as int].with_health_change(diff as int),
            ),
    {
        proof {
            use_type_invariant(&*self);
        }
        let ghost before = self.beings@;
        let mut beings: Vec<LivingBeing> = Vec::new();
        std::mem::swap(&mut beings, &mut self.beings);
        beings[index].update_health(diff);
        proof {
            assert(views_of(beings@) =~= views_of(before).update(
                index as int,
                views_of(before)[index as int].with_health_change(diff as int),
            ));
            lemma_same_ids(views_of(before), views_of(beings@));
        }
        self.beings = beings;
    }

    /// Whether every being stays on the board after the step.
    pub fn can_move_all(&self, x_diff: i32, y_diff: i32) -> (fits: bool)
        ensures
            fits == all_can_move(self@, x_diff as int, y_diff as int),
    {
        let mut i: usize = 0;
        while i < self.beings.len()
            invariant
                i <= self.beings.len(),
                forall|k: int| 0 <= k < i ==> (#[trigger] self@[k]).can_move(
                    x_diff as int,
                    y_diff as int,
                ),
            decreases self.beings.len() - i,
        {
            if !self.beings[i].can_move(x_diff, y_diff) {
                assert(!self@[i as int].can_move(x_diff as int, y_diff as int));
                return false;
            }
            i += 1;
        }
        true
    }

    /// Moves every being by `(x_diff, y_diff)`.
    pub fn move_all(&mut self, x_diff: i32, y_diff: i32)
        requires
            all_can_move(old(self)@, x_diff as int, y_diff as int),
        ensures
            final(self)@ == all_moved(old(self)@, x_diff as int, y_diff as int),
    {
        proof {
            use_type_invariant(&*self);
        }
        let ghost before = self.beings@;
        let mut beings: Vec<LivingBeing> = Vec::new();
        std::mem::swap(&mut beings, &mut self.beings);
        let mut i: usize = 0;
        while i < beings.len()
            invariant
                i <= beings.len(),
                beings@.len() == before.len(),
                all_can_move(views_of(before), x_diff as int, y_diff as int),
                forall|k: int| 0 <= k < i ==> (#[trigger] beings@[k])@ == before[k]@.moved(
                    x_diff as int,
                    y_diff as int,
                ),
                forall|k: int| i <= k < before.len() ==> #[trigger] beings@[k] == before[k],
            decreases beings.len() - i,
        {
            assert(views_of(before)[i as int].can_move(x_diff as int, y_diff as int));
            beings[i].move_it(x_diff, y_diff);
            i += 1;
        }
        proof {
            assert(views_of(beings@) =~= all_moved(views_of(before), x_diff as int, y_diff as int));
            lemma_same_ids(views_of(before), views_of(beings@));
        }
        self.beings = beings;
    }

    /// A copy of the beings, in table order.
    pub fn to_vec(&self) -> (copy: Vec<LivingBeing>)
        ensures
            views_of(copy@) == self@,
    {
        let mut copy: Vec<LivingBeing> = Vec::new();
        let mut i: usize = 0;
        while i < self.beings.len()
            invariant
                i <= self.beings.len(),
                copy@.len() == i,
                forall|k: int| 0 <= k < i ==> #[trigger] copy@[k] == self.beings@[k],
            decreases self.beings.len() - i,
        {
            copy.push(self.beings[i].clone());
            i += 1;
        }
        proof {
            assert(views_of(copy@) =~= views_of(self.beings@));
        }
        copy
    }
}

/// Two sequences that agree on the ids, index by index, agree on whether ids
/// are distinct and on which ids occur.
pub proof fn lemma_same_ids(a: Seq<BeingView>, b: Seq<BeingView>)
    requires
        a.len() == b.len(),
        forall|i: int| 0 <= i < a.len() ==> (#[trigger] a[i]).id == b[i].id,
    ensures
        distinct_ids(a) == distinct_ids(b),
        forall|id: u64| has_id(a, id) == has_id(b, id),
{
    if distinct_ids(a) {
        assert forall|i: int, j: int| 0 <= i < j < b.len() implies b[i].id != b[j].id by {
            assert(a[i].id != a[j].id);
        }
    }
    if distinct_ids(b) {
        assert forall|i: int, j: int| 0 <= i < j < a.len() implies a[i].id != a[j].id by {
            assert(b[i].id != b[j].id);
        }
    }
    assert forall|id: u64| has_id(a, id) == has_id(b, id) by {
        if has_id(a, id) {
            let i = choose|i: int| 0 <= i < a.len() && #[trigger] a[i].id == id;
            assert(b[i].id == id);
        }
        if has_id(b, id) {
            let i = choose|i: int| 0 <= i < b.len() && #[trigger] b[i].id == id;
            assert(a[i].id == id);
        }
    }
}

} // verus!
