//! The authoritative game state: the table of beings and the revision that
//! counts its committed mutations.

use vstd::prelude::*;
use vstd::string::*;
use crate::action::{ack_text, Action, ActionResult, GameError, Spell};
use crate::being::{BeingView, Class, LivingBeing, INITIAL_HEALTH, SPAWN_X, SPAWN_Y};
use crate::table::{all_can_move, all_moved, distinct_ids, has_id, views_of, EntityTable};

verus! {

/// The id of the monster that every game starts with.
pub const SEED_ID: u64 = 1;

/// How far a simulation tick moves every being to the right.
pub const TICK_X_DIFF: i32 = 10;

/// How far a simulation tick moves every being down.
pub const TICK_Y_DIFF: i32 = 10;

/// The name of the monster that every game starts with.
pub open spec fn seed_name() -> Seq<char> {
    "Murloc du chaos"@
}

/// The game state as the contracts see it.
pub struct StateView {
    /// How many mutations were committed.
    pub revision: nat,
    /// The id that the next registered player gets.
    pub next_id: nat,
    /// The beings, in the order in which they joined.
    pub beings: Seq<BeingView>,
}

impl StateView {
    /// Ids identify the beings, and every id in use lies below the next one
    /// to hand out.
    pub open spec fn wf(self) -> bool {
        &&& distinct_ids(self.beings)
        &&& self.next_id <= u64::MAX
        &&& forall|i: int|
            0 <= i < self.beings.len() ==> (#[trigger] self.beings[i]).id < self.next_id
    }

    /// The state in which every game starts: one monster, nothing committed.
    pub open spec fn seed() -> StateView {
        StateView {
            revision: 0,
            next_id: (SEED_ID + 1) as nat,
            beings: seq![
                BeingView {
                    id: SEED_ID,
                    name: seed_name(),
                    health: INITIAL_HEALTH as nat,
                    x: SPAWN_X as nat,
                    y: SPAWN_Y as nat,
                    class: Class::Golem,
                },
            ],
        }
    }

    /// A game without beings: nothing committed, and the first id still to
    /// hand out.
    pub open spec fn empty() -> StateView {
        StateView { revision: 0, next_id: SEED_ID as nat, beings: Seq::empty() }
    }

    /// The being that a newly registered player gets.
    pub open spec fn newcomer(self, name: Seq<char>) -> BeingView {
        BeingView {
            id: self.next_id as u64,
            name,
            health: INITIAL_HEALTH as nat,
            x: SPAWN_X as nat,
            y: SPAWN_Y as nat,
            class: Class::Mage,
        }
    }

    /// How the server judges an action with this tag: the spell to cast, or
    /// the reason to refuse. A missing target is found before a bad tag.
    pub open spec fn verdict(self, tag: i32) -> Result<Spell, GameError> {
        if self.beings.len() == 0 {
            Err(GameError::NoTarget)
        } else {
            match Spell::of_tag(tag) {
                Some(spell) => Ok(spell),
                None => Err(GameError::InvalidAction),
            }
        }
    }

    /// The state after one more committed mutation that changed nothing
    /// else.
    pub open spec fn after_inc(self) -> StateView {
        StateView { revision: self.revision + 1, ..self }
    }

    /// The state after an action with this tag was submitted. An accepted
    /// action hits the being at index 0 and is committed; a refused one
    /// leaves the state as it was.
    pub open spec fn after_action(self, tag: i32) -> StateView {
        match self.verdict(tag) {
            Ok(spell) => StateView {
                revision: self.revision + 1,
                beings: self.beings.update(
                    0,
                    self.beings[0].with_health_change(-(spell.spec_damage() as int)),
                ),
                ..self
            },
            Err(_) => self,
        }
    }

    /// Whether every being stays on the board during the next tick.
    pub open spec fn can_tick(self) -> bool {
        all_can_move(self.beings, TICK_X_DIFF as int, TICK_Y_DIFF as int)
    }

    /// The state after a simulation tick.
    pub open spec fn after_tick(self) -> StateView {
        StateView {
            revision: self.revision + 1,
            beings: all_moved(self.beings, TICK_X_DIFF as int, TICK_Y_DIFF as int),
            ..self
        }
    }

    /// The state after a player of this name registered. The revision stays:
    /// only actions and ticks count as mutations.
    pub open spec fn after_register(self, name: Seq<char>) -> StateView {
        StateView {
            next_id: self.next_id + 1,
            beings: self.beings.push(self.newcomer(name)),
            ..self
        }
    }
}

/// A request that changes the game state.
pub enum Mutation {
    /// A player submitted an action with this tag.
    Action(i32),
    /// The simulation advanced.
    Tick,
    /// A player of this name joined.
    Register(Seq<char>),
}

/// What happens at the server, as far as the revisions that clients see are
/// concerned.
pub enum Step {
    /// The state was asked to change.
    Mutate(Mutation),
    /// A session took a snapshot.
    Sample,
}

impl StateView {
    /// The state after one request.
    pub open spec fn after(self, mutation: Mutation) -> StateView {
        match mutation {
            Mutation::Action(tag) => self.after_action(tag),
            Mutation::Tick => self.after_tick(),
            Mutation::Register(name) => self.after_register(name),
        }
    }

    /// The state after the requests were served one by one, first to last.
    pub open spec fn after_all(self, mutations: Seq<Mutation>) -> StateView
        decreases mutations.len(),
    {
        if mutations.len() == 0 {
            self
        } else {
            self.after_all(mutations.drop_last()).after(mutations.last())
        }
    }

    /// The state after the actions with these tags were served one by one.
    pub open spec fn after_actions(self, tags: Seq<i32>) -> StateView {
        self.after_all(tags.map_values(|tag: i32| Mutation::Action(tag)))
    }

    /// The state after `count` ticks.
    pub open spec fn after_ticks(self, count: nat) -> StateView {
        self.after_all(Seq::new(count, |i: int| Mutation::Tick))
    }

    /// The state after the steps were taken one by one.
    pub open spec fn after_steps(self, steps: Seq<Step>) -> StateView
        decreases steps.len(),
    {
        if steps.len() == 0 {
            self
        } else {
            let earlier = self.after_steps(steps.drop_last());
            match steps.last() {
                Step::Mutate(mutation) => earlier.after(mutation),
                Step::Sample => earlier,
            }
        }
    }

    /// The revisions of the snapshots taken during the steps, in the order
    /// in which they were taken.
    pub open spec fn sampled(self, steps: Seq<Step>) -> Seq<nat>
        decreases steps.len(),
    {
        if steps.len() == 0 {
            Seq::empty()
        } else {
            let earlier = self.sampled(steps.drop_last());
            match steps.last() {
                Step::Mutate(_) => earlier,
                Step::Sample => earlier.push(self.after_steps(steps.drop_last()).revision),
            }
        }
    }
}

/// A copy of the game state at one revision, for a client.
#[derive(Debug)]
pub struct GameStateResponse {
    pub counter: u64,
    pub living_beings: Vec<LivingBeing>,
}

impl GameStateResponse {
    /// The beings of the snapshot as the contracts see them.
    pub open spec fn beings(&self) -> Seq<BeingView> {
        views_of(self.living_beings@)
    }
}

/// The single source of truth of a game. Every mutation takes `&mut self`, so
/// no mutation sees another half done; the program around the library decides
/// who waits for whom.
pub struct StateManager {
    counter: u64,
    next_id: u64,
    living_beings: EntityTable,
}

impl View for StateManager {
    type V = StateView;

    closed spec fn view(&self) -> StateView {
        StateView {
            revision: self.counter as nat,
            next_id: self.next_id as nat,
            beings: self.living_beings@,
        }
    }
}

impl StateManager {
    /// Ids identify the beings, and the next id to hand out lies above every
    /// id in use.
    #[verifier::type_invariant]
    pub open spec fn wf(&self) -> bool {
        self@.wf()
    }

    /// The state in which every game starts.
    pub fn new() -> (state: StateManager)
        ensures
            state@ == StateView::seed(),
    {
        let mut living_beings = EntityTable::new();
        let seed = LivingBeing::spawn(SEED_ID, String::from_str("Murloc du chaos"), Class::Golem);
        living_beings.insert(seed);
        proof {
            assert(living_beings@ =~= StateView::seed().beings);
        }
        StateManager { counter: 0, next_id: SEED_ID + 1, living_beings }
    }

    /// A game without beings, not even the monster.
    pub fn empty() -> (state: StateManager)
        ensures
            state@ == StateView::empty(),
    {
        StateManager { counter: 0, next_id: SEED_ID, living_beings: EntityTable::new() }
    }

    /// The current revision.
    pub fn revision(&self) -> (revision: u64)
        ensures
            revision == self@.revision,
    {
        self.counter
    }

    /// The id that the next registered player gets.
    pub fn next_id(&self) -> (id: u64)
        ensures
            id == self@.next_id,
    {
        self.next_id
    }

    /// The beings, for reading.
    pub fn living_beings(&self) -> (table: &EntityTable)
        ensures
            table@ == self@.beings,
    {
        &self.living_beings
    }

    /// Counts one committed mutation.
    pub fn inc(&mut self)
        requires
            old(self)@.revision < u64::MAX,
        ensures
            final(self)@ == old(self)@.after_inc(),
    {
        proof {
            use_type_invariant(&*self);
        }
        self.counter = self.counter + 1;
    }

    /// Applies a player's action. An accepted action takes the spell's
    /// damage from the being at index 0, commits, and is acknowledged with
    /// the new revision. On an empty table the action fails with `NoTarget`;
    /// otherwise a tag that stands for no spell fails with `InvalidAction`. A
    /// failed action changes nothing.
    pub fn apply(&mut self, action: &Action) -> (result: Result<ActionResult, GameError>)
        requires
            old(self)@.revision < u64::MAX,
        ensures
            final(self)@ == old(self)@.after_action(action.spell),
            match result {
                Ok(ack) => {
                    &&& old(self)@.verdict(action.spell) is Ok
                    &&& ack.revision == old(self)@.revision + 1
                    &&& ack.message@ == ack_text(action.spell as nat, ack.revision as nat)
                },
                Err(error) => old(self)@.verdict(action.spell) == Err::<Spell, GameError>(error),
            },
    {
        proof {
            use_type_invariant(&*self);
        }
        if self.living_beings.is_empty() {
            return Err(GameError::NoTarget);
        }
        let spell = match Spell::from_tag(action.spell) {
            Some(spell) => spell,
            None => {
                return Err(GameError::InvalidAction);
            },
        };
        let damage: i32 = -(spell.damage() as i32);
        let mut beings = EntityTable::new();
        std::mem::swap(&mut beings, &mut self.living_beings);
        proof {
            beings.lemma_bounded();
        }
        beings.update_health(0, damage);
        self.living_beings = beings;
        self.inc();
        Ok(ActionResult::new(spell, self.counter))
    }

    /// Whether `tick` may be called: every being can make the step.
    pub fn can_tick(&self) -> (fits: bool)
        ensures
            fits == self@.can_tick(),
    {
        self.living_beings.can_move_all(TICK_X_DIFF, TICK_Y_DIFF)
    }

    /// Advances the simulation: every being makes the fixed step, and the
    /// tick is committed.
    pub fn tick(&mut self)
        requires
            old(self)@.revision < u64::MAX,
            old(self)@.can_tick(),
        ensures
            final(self)@ == old(self)@.after_tick(),
    {
        proof {
            use_type_invariant(&*self);
        }
        let mut beings = EntityTable::new();
        std::mem::swap(&mut beings, &mut self.living_beings);
        beings.move_all(TICK_X_DIFF, TICK_Y_DIFF);
        self.living_beings = beings;
        self.inc();
    }

    /// Registers a player and returns the id of the being made for them. The
    /// id was never used before; two players may share a name.
    pub fn register(&mut self, player_name: String) -> (id: u64)
        requires
            old(self)@.next_id < u64::MAX,
        ensures
            final(self)@ == old(self)@.after_register(player_name@),
            id == old(self)@.next_id,
            !has_id(old(self)@.beings, id),
    {
        proof {
            use_type_invariant(&*self);
        }
        let id = self.next_id;
        let mut beings = EntityTable::new();
        std::mem::swap(&mut beings, &mut self.living_beings);
        let inserted = beings.insert(LivingBeing::spawn(id, player_name, Class::Mage));
        assert(inserted);
        self.next_id = id + 1;
        self.living_beings = beings;
        id
    }

    /// A copy of the beings with the current revision. It shares nothing with
    /// the state, so it can be sent while the state moves on.
    pub fn snapshot(&self) -> (snapshot: GameStateResponse)
        ensures
            snapshot.counter == self@.revision,
            snapshot.beings() == self@.beings,
    {
        GameStateResponse { counter: self.counter, living_beings: self.living_beings.to_vec() }
    }
}

} // verus!
