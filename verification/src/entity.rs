//! Entity identifiers, and the kinds of thing that an entity can be.

use vstd::prelude::*;
use crate::action::{Action, Actor, RuleType};
use crate::tabletop::Race;
use crate::ui::terminal::style::Color;
use crate::ui::terminal::terminal_util::Drawable;

verus! {

/// The identifier of an entity: two category bits on top, and below them the
/// entity's sequence number within its category.
pub type EntityID = u64;

pub const ID_NO_ENTITY: EntityID = 0;

pub const ID_WORLD: EntityID = 1;

pub const ID_PLAYER: EntityID = 2;

/// A creature as it stands on the map.
pub struct Entity {
    pub id: EntityID,
    pub race: Race,
    pub pos_x: u16,
    pub pos_y: u16,
}

pub struct North;

pub struct East;

pub struct South;

pub struct West;

pub struct NorthEast;

pub struct NorthWest;

pub struct SouthEast;

pub struct SouthWest;

pub struct Up;

pub struct Down;

impl Entity {
    pub fn get_x(&self) -> (x: u16)
        ensures
            x == self.pos_x,
    {
        self.pos_x
    }

    pub fn get_y(&self) -> (y: u16)
        ensures
            y == self.pos_y,
    {
        self.pos_y
    }

    pub fn set_x(&mut self, x: u16)
        ensures
            *final(self) == (Entity { pos_x: x, ..*old(self) }),
    {
        self.pos_x = x;
    }

    pub fn set_y(&mut self, y: u16)
        ensures
            *final(self) == (Entity { pos_y: y, ..*old(self) }),
    {
        self.pos_y = y;
    }

}

impl Drawable for Entity {
    /// A creature of any race is drawn in white.
    fn get_color(&self) -> (color: Color)
        ensures
            color == Color::White,
    {
        Color::White
    }

    /// A creature of any race is drawn as an at sign.
    fn get_icon(&self) -> (icon: char)
        ensures
            icon == '@',
    {
        '@'
    }
}

impl Actor for Entity {
    /// A creature has no rules of its own yet.
    open spec fn handles(&self, rule_type: RuleType, action: Action) -> bool {
        false
    }

    fn rule(&self, rule_type: RuleType, action: Action) -> (handled: bool) {
        false
    }
}

impl Actor for North {
    /// A direction has no rules of its own yet.
    open spec fn handles(&self, rule_type: RuleType, action: Action) -> bool {
        false
    }

    fn rule(&self, rule_type: RuleType, action: Action) -> (handled: bool) {
        false
    }
}

impl Actor for East {
    /// A direction has no rules of its own yet.
    open spec fn handles(&self, rule_type: RuleType, action: Action) -> bool {
        false
    }

    fn rule(&self, rule_type: RuleType, action: Action) -> (handled: bool) {
        false
    }
}

impl Actor for South {
    /// A direction has no rules of its own yet.
    open spec fn handles(&self, rule_type: RuleType, action: Action) -> bool {
        false
    }

    fn rule(&self, rule_type: RuleType, action: Action) -> (handled: bool) {
        false
    }
}

impl Actor for West {
    /// A direction has no rules of its own yet.
    open spec fn handles(&self, rule_type: RuleType, action: Action) -> bool {
        false
    }

    fn rule(&self, rule_type: RuleType, action: Action) -> (handled: bool) {
        false
    }
}

impl Actor for NorthEast {
    /// A direction has no rules of its own yet.
    open spec fn handles(&self, rule_type: RuleType, action: Action) -> bool {
        false
    }

    fn rule(&self, rule_type: RuleType, action: Action) -> (handled: bool) {
        false
    }
}

impl Actor for NorthWest {
    /// A direction has no rules of its own yet.
    open spec fn handles(&self, rule_type: RuleType, action: Action) -> bool {
        false
    }

    fn rule(&self, rule_type: RuleType, action: Action) -> (handled: bool) {
        false
    }
}

impl Actor for SouthEast {
    /// A direction has no rules of its own yet.
    open spec fn handles(&self, rule_type: RuleType, action: Action) -> bool {
        false
    }

    fn rule(&self, rule_type: RuleType, action: Action) -> (handled: bool) {
        false
    }
}

impl Actor for SouthWest {
    /// A direction has no rules of its own yet.
    open spec fn handles(&self, rule_type: RuleType, action: Action) -> bool {
        false
    }

    fn rule(&self, rule_type: RuleType, action: Action) -> (handled: bool) {
        false
    }
}

impl Actor for Up {
    /// A direction has no rules of its own yet.
    open spec fn handles(&self, rule_type: RuleType, action: Action) -> bool {
        false
    }

    fn rule(&self, rule_type: RuleType, action: Action) -> (handled: bool) {
        false
    }
}

impl Actor for Down {
    /// A direction has no rules of its own yet.
    open spec fn handles(&self, rule_type: RuleType, action: Action) -> bool {
        false
    }

    fn rule(&self, rule_type: RuleType, action: Action) -> (handled: bool) {
        false
    }
}

} // verus!
