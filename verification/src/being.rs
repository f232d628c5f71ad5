//! Living beings: the entities that the server owns and the clients mirror.

use vstd::prelude::*;

verus! {

/// Health that every being starts with.
pub const INITIAL_HEALTH: u32 = 100;

/// Horizontal coordinate at which every being starts.
pub const SPAWN_X: u32 = 50;

/// Vertical coordinate at which every being starts.
pub const SPAWN_Y: u32 = 50;

/// A point of the game board.
#[derive(Clone, Copy, Debug, PartialEq, Eq, Structural)]
pub struct Position {
    pub x: u32,
    pub y: u32,
}

impl Position {
    pub fn new(x: u32, y: u32) -> (p: Position)
        ensures
            p.x == x,
            p.y == y,
    {
        Position { x, y }
    }
}

/// The wire tag of `Class::Mage`.
pub const MAGE_TAG: i32 = 0;

/// The wire tag of `Class::Golem`.
pub const GOLEM_TAG: i32 = 1;

/// What a being looks like on a client. The server stores the tag and never
/// reads it.
#[derive(Clone, Copy, Debug, PartialEq, Eq, Structural)]
pub enum Class {
    Golem,
    Mage,
}

impl Class {
    /// The class that a wire tag stands for: a golem for the golem's tag, a
    /// mage for every other.
    pub open spec fn of_tag(tag: i32) -> Class {
        if tag == GOLEM_TAG {
            Class::Golem
        } else {
            Class::Mage
        }
    }

    pub open spec fn spec_tag(self) -> i32 {
        match self {
            Class::Golem => GOLEM_TAG,
            Class::Mage => MAGE_TAG,
        }
    }

    pub fn from_tag(tag: i32) -> (class: Class)
        ensures
            class == Class::of_tag(tag),
    {
        if tag == GOLEM_TAG {
            Class::Golem
        } else {
            Class::Mage
        }
    }

    #[verifier::when_used_as_spec(spec_tag)]
    pub fn tag(self) -> (tag: i32)
        ensures
            tag == self.spec_tag(),
            Class::of_tag(tag) == self,
    {
        match self {
            Class::Golem => GOLEM_TAG,
            Class::Mage => MAGE_TAG,
        }
    }
}

/// A being as the contracts see it: its name as a sequence of characters, its
/// numbers as mathematical naturals.
pub struct BeingView {
    pub id: u64,
    pub name: Seq<char>,
    pub health: nat,
    pub x: nat,
    pub y: nat,
    pub class: Class,
}

impl BeingView {
    /// The numbers of this being fit the machine types that hold them.
    pub open spec fn bounded(self) -> bool {
        &&& self.health <= u32::MAX
        &&& self.x <= u32::MAX
        &&& self.y <= u32::MAX
    }

    /// Health after a change of `diff`, which never falls below zero.
    pub open spec fn clamped_health(self, diff: int) -> nat {
        if self.health + diff < 0 {
            0
        } else {
            (self.health + diff) as nat
        }
    }

    /// This being after its health changed by `diff`.
    pub open spec fn with_health_change(self, diff: int) -> BeingView {
        BeingView { health: self.clamped_health(diff), ..self }
    }

    /// Whether a step of `(x_diff, y_diff)` keeps this being on the board,
    /// whose coordinates are 32-bit unsigned numbers.
    pub open spec fn can_move(self, x_diff: int, y_diff: int) -> bool {
        &&& 0 <= self.x + x_diff <= u32::MAX
        &&& 0 <= self.y + y_diff <= u32::MAX
    }

    /// This being after a step of `(x_diff, y_diff)`.
    pub open spec fn moved(self, x_diff: int, y_diff: int) -> BeingView {
        BeingView { x: (self.x + x_diff) as nat, y: (self.y + y_diff) as nat, ..self }
    }
}

/// A game entity: a seed monster or a registered player.
#[derive(Debug)]
pub struct LivingBeing {
    pub id: u64,
    pub name: String,
    pub health: u32,
    pub position: Position,
    pub class: Class,
}

impl View for LivingBeing {
    type V = BeingView;

    open spec fn view(&self) -> BeingView {
        BeingView {
            id: self.id,
            name: self.name@,
            health: self.health as nat,
            x: self.position.x as nat,
            y: self.position.y as nat,
            class: self.class,
        }
    }
}

impl Clone for LivingBeing {
    fn clone(&self) -> (copy: LivingBeing)
        ensures
            copy == *self,
    {
        LivingBeing {
            id: self.id,
            name: self.name.clone(),
            health: self.health,
            position: self.position,
            class: self.class,
        }
    }
}

impl LivingBeing {
    /// A being at full health on the spawn point.
    pub fn spawn(id: u64, name: String, class: Class) -> (being: LivingBeing)
        ensures
            being@ == (BeingView {
                id,
                name: name@,
                health: INITIAL_HEALTH as nat,
                x: SPAWN_X as nat,
                y: SPAWN_Y as nat,
                class,
            }),
    {
        LivingBeing {
            id,
            name,
            health: INITIAL_HEALTH,
            position: Position::new(SPAWN_X, SPAWN_Y),
            class,
        }
    }

    /// Changes the health by `diff`. Damage beyond the remaining health
    /// leaves exactly zero.
    pub fn update_health(&mut self, diff: i32)
        requires
            old(self).health + diff <= u32::MAX,
        ensures
            final(self)@ == old(self)@.with_health_change(diff as int),
    {
        let changed: i64 = self.health as i64 + diff as i64;
        if changed < 0 {
            self.health = 0;
        } else {
            self.health = changed as u32;
        }
    }

    /// Moves the being by `(x_diff, y_diff)`.
    pub fn move_it(&mut self, x_diff: i32, y_diff: i32)
        requires
            old(self)@.can_move(x_diff as int, y_diff as int),
        ensures
            final(self)@ == old(self)@.moved(x_diff as int, y_diff as int),
    {
        let x: i64 = self.position.x as i64 + x_diff as i64;
        let y: i64 = self.position.y as i64 + y_diff as i64;
        self.position = Position::new(x as u32, y as u32);
    }

    /// Whether `move_it` may be called with this step.
    pub fn can_move(&self, x_diff: i32, y_diff: i32) -> (fits: bool)
        ensures
            fits == self@.can_move(x_diff as int, y_diff as int),
    {
        let x: i64 = self.position.x as i64 + x_diff as i64;
        let y: i64 = self.position.y as i64 + y_diff as i64;
        0 <= x && x <= u32::MAX as i64 && 0 <= y && y <= u32::MAX as i64
    }
}

} // verus!
