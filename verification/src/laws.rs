//! What holds of the library whatever the requests: laws that relate several
//! operations, proved over the models that the contracts use.

use vstd::prelude::*;
use crate::action::Spell;
use crate::being::BeingView;
use crate::cache::{keyed, lemma_merge_keeps_keyed, merge_all, merge_one, CachedView};
use crate::session::{Reaction, SessionEvent, SessionState, SessionView};
use crate::state::{Mutation, StateView, Step, TICK_X_DIFF, TICK_Y_DIFF};
use crate::table::{distinct_ids, has_id};

verus! {

/// How many of the actions with these tags a state with a target accepts.
pub open spec fn accepted(tags: Seq<i32>) -> nat
    decreases tags.len(),
{
    if tags.len() == 0 {
        0
    } else if Spell::of_tag(tags.last()) is Some {
        accepted(tags.drop_last()) + 1
    } else {
        accepted(tags.drop_last())
    }
}

/// Damage never drives health below zero: a hit at least as hard as the
/// health that is left leaves exactly zero, a weaker one leaves the
/// difference.
pub proof fn lemma_damage_clamps_at_zero(being: BeingView, damage: nat)
    ensures
        being.with_health_change(-(damage as int)).health == if damage >= being.health {
            0
        } else {
            being.health - damage
        },
        being.with_health_change(-(damage as int)).health <= being.health,
{
}

/// No mutation is lost: a state serves any number of actions one by one, and
/// whatever their order, its revision grows by one for each action that it
/// accepts and by nothing else. Actions change neither which beings there
/// are nor the next id.
pub proof fn lemma_actions_count_revisions(state: StateView, tags: Seq<i32>)
    ensures
        state.after_actions(tags).revision == state.revision + if state.beings.len() > 0 {
            accepted(tags)
        } else {
            0
        },
        state.after_actions(tags).beings.len() == state.beings.len(),
        state.after_actions(tags).next_id == state.next_id,
    decreases tags.len(),
{
    let mutations = tags.map_values(|tag: i32| Mutation::Action(tag));
    if tags.len() > 0 {
        lemma_actions_count_revisions(state, tags.drop_last());
        assert(mutations.drop_last() =~= tags.drop_last().map_values(
            |tag: i32| Mutation::Action(tag),
        ));
        assert(mutations.last() == Mutation::Action(tags.last()));
    }
}

/// No update is lost: after `N` actions that all carry the tag of a spell,
/// served in any order by a state that has a target, the revision is the
/// initial revision plus `N`.
pub proof fn lemma_no_lost_updates(state: StateView, tags: Seq<i32>)
    requires
        state.beings.len() > 0,
        forall|i: int| 0 <= i < tags.len() ==> Spell::of_tag(#[trigger] tags[i]) is Some,
    ensures
        state.after_actions(tags).revision == state.revision + tags.len(),
{
    lemma_actions_count_revisions(state, tags);
    lemma_all_accepted(tags);
}

/// Tags that all stand for spells are all accepted.
proof fn lemma_all_accepted(tags: Seq<i32>)
    requires
        forall|i: int| 0 <= i < tags.len() ==> Spell::of_tag(#[trigger] tags[i]) is Some,
    ensures
        accepted(tags) == tags.len(),
    decreases tags.len(),
{
    if tags.len() > 0 {
        lemma_all_accepted(tags.drop_last());
    }
}

/// After `count` ticks every being stands `count` steps further along both
/// axes: one that started at `(50, 50)` stands at `(50 + 10 * count,
/// 50 + 10 * count)`. Each tick is committed, and ticks change nothing else
/// of a being.
pub proof fn lemma_ticks_move_every_being(state: StateView, count: nat)
    ensures
        state.after_ticks(count).revision == state.revision + count,
        state.after_ticks(count).next_id == state.next_id,
        state.after_ticks(count).beings.len() == state.beings.len(),
        forall|i: int|
            0 <= i < state.beings.len() ==> {
                let after = #[trigger] state.after_ticks(count).beings[i];
                &&& after.x == state.beings[i].x + TICK_X_DIFF * count
                &&& after.y == state.beings[i].y + TICK_Y_DIFF * count
                &&& after == state.beings[i].moved(TICK_X_DIFF * count, TICK_Y_DIFF * count)
            },
    decreases count,
{
    let ticks = Seq::new(count, |i: int| Mutation::Tick);
    if count > 0 {
        let fewer = (count - 1) as nat;
        lemma_ticks_move_every_being(state, fewer);
        assert(ticks.drop_last() =~= Seq::new(fewer, |i: int| Mutation::Tick));
        assert(ticks.last() == Mutation::Tick);
        assert(state.after_ticks(count) == state.after_ticks(fewer).after_tick());
        assert forall|i: int| 0 <= i < state.beings.len() implies ({
            let after = #[trigger] state.after_ticks(count).beings[i];
            &&& after.x == state.beings[i].x + TICK_X_DIFF * count
            &&& after.y == state.beings[i].y + TICK_Y_DIFF * count
            &&& after == state.beings[i].moved(TICK_X_DIFF * count, TICK_Y_DIFF * count)
        }) by {
            let earlier = state.after_ticks(fewer).beings[i];
            assert(state.after_ticks(count).beings[i] == earlier.moved(
                TICK_X_DIFF as int,
                TICK_Y_DIFF as int,
            ));
        }
    }
}

/// A registration hands out an id that no being had before, keeps the state
/// well formed, and leaves every earlier being and the revision as they
/// were.
pub proof fn lemma_register_is_fresh(state: StateView, name: Seq<char>)
    requires
        state.wf(),
        state.next_id < u64::MAX,
    ensures
        !has_id(state.beings, state.newcomer(name).id),
        state.after_register(name).wf(),
        state.after_register(name).revision == state.revision,
        state.after_register(name).beings.len() == state.beings.len() + 1,
        state.after_register(name).beings.last() == state.newcomer(name),
        forall|i: int|
            0 <= i < state.beings.len() ==> #[trigger] state.after_register(name).beings[i]
                == state.beings[i],
{
}

/// No mutation lowers the revision; an accepted action and a tick raise it by
/// exactly one, a refused action and a registration leave it.
pub proof fn lemma_revision_steps(state: StateView, mutation: Mutation)
    ensures
        state.after(mutation).revision == state.revision + match mutation {
            Mutation::Action(tag) => if state.verdict(tag) is Ok {
                1nat
            } else {
                0nat
            },
            Mutation::Tick => 1nat,
            Mutation::Register(_) => 0nat,
        },
{
}

/// Whatever happens between two snapshots, the later one does not carry a
/// smaller revision: the revisions that a streaming client sees never
/// decrease.
pub proof fn lemma_sampled_revisions_never_decrease(state: StateView, steps: Seq<Step>)
    ensures
        state.after_steps(steps).revision >= state.revision,
        forall|i: int|
            0 <= i < state.sampled(steps).len() ==> state.revision <= (#[trigger] state.sampled(
                steps,
            )[i]) <= state.after_steps(steps).revision,
        forall|i: int, j: int|
            0 <= i <= j < state.sampled(steps).len() ==> state.sampled(steps)[i] <= state.sampled(
                steps,
            )[j],
    decreases steps.len(),
{
    if steps.len() > 0 {
        lemma_sampled_revisions_never_decrease(state, steps.drop_last());
        let earlier = state.after_steps(steps.drop_last());
        let seen = state.sampled(steps.drop_last());
        match steps.last() {
            Step::Mutate(mutation) => {
                lemma_revision_steps(earlier, mutation);
                assert(state.sampled(steps) == seen);
            },
            Step::Sample => {
                assert(state.sampled(steps) == seen.push(earlier.revision));
                assert forall|i: int| 0 <= i < state.sampled(steps).len() implies state.revision
                    <= (#[trigger] state.sampled(steps)[i]) <= earlier.revision by {
                    if i < seen.len() {
                        assert(state.sampled(steps)[i] == seen[i]);
                    }
                }
                assert forall|i: int, j: int|
                    0 <= i <= j < state.sampled(steps).len() implies state.sampled(steps)[i]
                    <= state.sampled(steps)[j] by {
                    if j < seen.len() {
                        assert(state.sampled(steps)[i] == seen[i]);
                        assert(state.sampled(steps)[j] == seen[j]);
                    } else if i < seen.len() {
                        assert(state.sampled(steps)[i] == seen[i]);
                    }
                }
            },
        }
    }
}

/// Merging the same id twice keeps one entry for it. The second merge adds
/// no entry, and the entry shows the health and the position that came
/// last.
pub proof fn lemma_merge_twice_updates(
    cache: Map<u64, CachedView>,
    first: BeingView,
    second: BeingView,
)
    requires
        first.id == second.id,
    ensures
        ({
            let once = merge_all(cache, seq![first]);
            let twice = merge_all(once, seq![second]);
            &&& twice.dom() == once.dom()
            &&& once.dom() == cache.dom().insert(first.id)
            &&& twice[first.id].being.x == second.x
            &&& twice[first.id].being.y == second.y
            &&& twice[first.id].being.health == second.health
            &&& twice[first.id].presentation == once[first.id].presentation
            &&& forall|id: u64| id != first.id && cache.contains_key(id) ==> twice[id] == cache[id]
        }),
{
    lemma_merge_single(cache, first);
    let once = merge_all(cache, seq![first]);
    lemma_merge_single(once, second);
    let twice = merge_all(once, seq![second]);
    assert(twice.dom() =~= once.dom());
    assert(once.dom() =~= cache.dom().insert(first.id));
}

/// Merging a snapshot of one being is one step of merging.
pub proof fn lemma_merge_single(cache: Map<u64, CachedView>, being: BeingView)
    ensures
        merge_all(cache, seq![being]) == merge_one(cache, being),
{
    let beings = seq![being];
    assert(beings.drop_last() =~= Seq::<BeingView>::empty());
    assert(merge_all(cache, beings.drop_last()) == cache);
}

/// A merge never forgets a being: every id that the cache knew is still
/// there, with the presentation it had, and every id of the snapshot is
/// there too.
pub proof fn lemma_merge_keeps_entries(cache: Map<u64, CachedView>, beings: Seq<BeingView>)
    ensures
        forall|id: u64|
            cache.contains_key(id) ==> #[trigger] merge_all(cache, beings).contains_key(id)
                && merge_all(cache, beings)[id].presentation == cache[id].presentation,
        forall|i: int|
            0 <= i < beings.len() ==> merge_all(cache, beings).contains_key(
                (#[trigger] beings[i]).id,
            ),
        forall|id: u64|
            #[trigger] merge_all(cache, beings).contains_key(id) ==> cache.contains_key(id)
                || has_id(beings, id),
    decreases beings.len(),
{
    if beings.len() > 0 {
        let earlier = beings.drop_last();
        lemma_merge_keeps_entries(cache, earlier);
        assert forall|i: int| 0 <= i < beings.len() implies merge_all(cache, beings).contains_key(
            (#[trigger] beings[i]).id,
        ) by {
            if i < beings.len() - 1 {
                assert(earlier[i] == beings[i]);
            }
        }
        assert forall|id: u64| #[trigger]
            merge_all(cache, beings).contains_key(id) implies cache.contains_key(id) || has_id(
            beings,
            id,
        ) by {
            if id == beings.last().id {
                assert(beings[beings.len() - 1].id == id);
            } else if !cache.contains_key(id) {
                assert(has_id(earlier, id));
                let i = choose|i: int| 0 <= i < earlier.len() && #[trigger] earlier[i].id == id;
                assert(beings[i].id == id);
            }
        }
    }
}

/// After a merge the cache mirrors the snapshot: for every being of a
/// snapshot in which ids identify the beings, the entry with its id shows
/// the health and the position that the snapshot gives.
pub proof fn lemma_merge_mirrors_snapshot(cache: Map<u64, CachedView>, beings: Seq<BeingView>)
    requires
        keyed(cache),
        distinct_ids(beings),
    ensures
        keyed(merge_all(cache, beings)),
        forall|i: int|
            0 <= i < beings.len() ==> {
                let entry = merge_all(cache, beings)[(#[trigger] beings[i]).id];
                &&& merge_all(cache, beings).contains_key(beings[i].id)
                &&& entry.being.id == beings[i].id
                &&& entry.being.health == beings[i].health
                &&& entry.being.x == beings[i].x
                &&& entry.being.y == beings[i].y
            },
    decreases beings.len(),
{
    lemma_merge_keeps_keyed(cache, beings);
    if beings.len() > 0 {
        let earlier = beings.drop_last();
        lemma_merge_mirrors_snapshot(cache, earlier);
        assert forall|i: int| 0 <= i < beings.len() implies ({
            let entry = merge_all(cache, beings)[(#[trigger] beings[i]).id];
            &&& merge_all(cache, beings).contains_key(beings[i].id)
            &&& entry.being.id == beings[i].id
            &&& entry.being.health == beings[i].health
            &&& entry.being.x == beings[i].x
            &&& entry.being.y == beings[i].y
        }) by {
            if i < beings.len() - 1 {
                assert(earlier[i] == beings[i]);
                assert(beings[i].id != beings[beings.len() - 1].id);
            }
        }
    }
}

/// A terminated session stays as it is whatever happens, and asks for
/// nothing more.
pub proof fn lemma_terminated_is_final(session: SessionView, events: Seq<SessionEvent>)
    requires
        session.state == SessionState::Terminated,
    ensures
        session.after_all(events) == session,
        session.pushes(events) == 0,
    decreases events.len(),
{
    if events.len() > 0 {
        lemma_terminated_is_final(session, events.drop_last());
    }
}

/// A session holds at most one snapshot back. Whatever the events, the
/// snapshots handed out exceed those that the queue took by one while a push
/// is pending and by none otherwise: a client that does not drain its queue
/// stops its session from making snapshots, and none is made to be dropped
/// while the session lives.
pub proof fn lemma_one_snapshot_in_flight(session: SessionView, events: Seq<SessionEvent>)
    requires
        session.wf(),
        !session.in_flight,
    ensures
        session.after_all(events).wf(),
        session.after_all(events).in_flight ==> session.pushes(events) == session.deliveries(
            events,
        ) + 1,
        session.after_all(events).state != SessionState::Terminated && !session.after_all(
            events,
        ).in_flight ==> session.pushes(events) == session.deliveries(events),
        session.deliveries(events) <= session.pushes(events) <= session.deliveries(events) + 1,
    decreases events.len(),
{
    if events.len() > 0 {
        lemma_one_snapshot_in_flight(session, events.drop_last());
    }
}

/// A session with a budget hands out no more snapshots than the budget
/// allows, and what is left of the budget is what was not handed out.
pub proof fn lemma_budget_bounds_pushes(
    session: SessionView,
    budget: nat,
    events: Seq<SessionEvent>,
)
    requires
        session.wf(),
        session.budget == Some(budget),
        !session.in_flight,
    ensures
        session.pushes(events) <= budget,
        session.after_all(events).budget == Some((budget - session.pushes(events)) as nat),
    decreases events.len(),
{
    if events.len() > 0 {
        lemma_budget_bounds_pushes(session, budget, events.drop_last());
        lemma_one_snapshot_in_flight(session, events.drop_last());
    }
}

} // verus!
