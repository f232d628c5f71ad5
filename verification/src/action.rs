//! Player actions, the spells they carry, and what the server answers.

use vstd::prelude::*;
use vstd::string::*;
use crate::text::{decimal, push_decimal};

verus! {

/// The wire tag of `Spell::Fireball`.
pub const FIREBALL_TAG: i32 = 0;

/// The wire tag of `Spell::FrostBall`.
pub const FROST_BALL_TAG: i32 = 1;

/// A spell that a player can cast.
#[derive(Clone, Copy, Debug, PartialEq, Eq, Structural)]
pub enum Spell {
    Fireball,
    FrostBall,
}

impl Spell {
    /// The spell that a wire tag stands for, if it stands for one.
    pub open spec fn of_tag(tag: i32) -> Option<Spell> {
        if tag == FIREBALL_TAG {
            Some(Spell::Fireball)
        } else if tag == FROST_BALL_TAG {
            Some(Spell::FrostBall)
        } else {
            None
        }
    }

    pub open spec fn spec_tag(self) -> i32 {
        match self {
            Spell::Fireball => FIREBALL_TAG,
            Spell::FrostBall => FROST_BALL_TAG,
        }
    }

    /// The health that the spell takes from its target.
    pub open spec fn spec_damage(self) -> nat {
        match self {
            Spell::Fireball => 30,
            Spell::FrostBall => 20,
        }
    }

    /// The spell that a key casts: `1` or `&` a fireball, `2` or `é` a frost
    /// ball, the two keys being the same one on a French keyboard.
    pub open spec fn of_key(key: char) -> Option<Spell> {
        if key == '1' || key == '&' {
            Some(Spell::Fireball)
        } else if key == '2' || key == 'é' {
            Some(Spell::FrostBall)
        } else {
            None
        }
    }

    pub fn from_key(key: char) -> (spell: Option<Spell>)
        ensures
            spell == Spell::of_key(key),
    {
        if key == '1' || key == '&' {
            Some(Spell::Fireball)
        } else if key == '2' || key == 'é' {
            Some(Spell::FrostBall)
        } else {
            None
        }
    }

    pub fn from_tag(tag: i32) -> (spell: Option<Spell>)
        ensures
            spell == Spell::of_tag(tag),
    {
        if tag == FIREBALL_TAG {
            Some(Spell::Fireball)
        } else if tag == FROST_BALL_TAG {
            Some(Spell::FrostBall)
        } else {
            None
        }
    }

    #[verifier::when_used_as_spec(spec_tag)]
    pub fn tag(self) -> (tag: i32)
        ensures
            tag == self.spec_tag(),
            Spell::of_tag(tag) == Some(self),
    {
        match self {
            Spell::Fireball => FIREBALL_TAG,
            Spell::FrostBall => FROST_BALL_TAG,
        }
    }

    pub fn damage(self) -> (damage: u32)
        ensures
            damage == self.spec_damage(),
    {
        match self {
            Spell::Fireball => 30,
            Spell::FrostBall => 20,
        }
    }
}

/// What a player submits: the tag of a spell, as it came over the wire. It
/// names no target.
#[derive(Clone, Copy, Debug, PartialEq, Eq, Structural)]
pub struct Action {
    pub spell: i32,
}

impl Action {
    pub fn new(spell: Spell) -> (action: Action)
        ensures
            action.spell == spell.spec_tag(),
    {
        Action { spell: spell.tag() }
    }
}

/// Why the server refused a request or ended a session.
#[derive(Clone, Copy, Debug, PartialEq, Eq, Structural)]
pub enum GameError {
    /// The action carries a tag that stands for no spell.
    InvalidAction,
    /// There is no being for the action to hit.
    NoTarget,
    /// The client of a session is gone.
    SessionClosed,
    /// A registration was refused. Nothing refuses one today.
    RegistrationFailure,
}

impl GameError {
    pub open spec fn spec_message(self) -> Seq<char> {
        match self {
            GameError::InvalidAction => "invalid action"@,
            GameError::NoTarget => "no target"@,
            GameError::SessionClosed => "session closed"@,
            GameError::RegistrationFailure => "registration failure"@,
        }
    }

    /// The error in words.
    pub fn message(&self) -> (text: String)
        ensures
            text@ == self.spec_message(),
    {
        match self {
            GameError::InvalidAction => String::from_str("invalid action"),
            GameError::NoTarget => String::from_str("no target"),
            GameError::SessionClosed => String::from_str("session closed"),
            GameError::RegistrationFailure => String::from_str("registration failure"),
        }
    }
}

/// The text of an acknowledgement: the tag of the spell and the revision that
/// the action produced.
pub open spec fn ack_text(tag: nat, revision: nat) -> Seq<char> {
    "Hello "@ + decimal(tag) + "! Counter="@ + decimal(revision)
}

/// The server's answer to an accepted action.
#[derive(Debug)]
pub struct ActionResult {
    pub message: String,
    pub revision: u64,
}

impl ActionResult {
    /// The acknowledgement of `spell`, which produced `revision`.
    pub fn new(spell: Spell, revision: u64) -> (ack: ActionResult)
        ensures
            ack.revision == revision,
            ack.message@ == ack_text(spell.spec_tag() as nat, revision as nat),
    {
        let mut message = String::from_str("Hello ");
        push_decimal(&mut message, spell.tag() as u64);
        message.append("! Counter=");
        push_decimal(&mut message, revision);
        ActionResult { message, revision }
    }
}

} // verus!
