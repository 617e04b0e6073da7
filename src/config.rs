use crate::characters::{Fighter, Mage, Monster};
use crate::entity::Entity;
use vstd::prelude::*;

verus! {

/// An unnamed entity with all stats at zero and no weapon.
pub open spec fn is_blank(e: Entity) -> bool {
    &&& e.name@ == Seq::<char>::empty()
    &&& e.life_points == 0
    &&& e.dexterity == 0
    &&& e.strength == 0
    &&& e.weapon.is_none()
}

impl Default for Entity {
    /// An unnamed entity with all stats at zero and no weapon.
    fn default() -> (e: Entity)
        ensures
            is_blank(e),
    {
        Entity::new(String::new(), 0, 0, 0, None)
    }
}

impl Default for Fighter {
    /// A fighter of default stats and no endurance.
    fn default() -> (f: Fighter)
        ensures
            is_blank(f.entity),
            f.endurance == 0,
    {
        Fighter::new(Entity::default(), 0)
    }
}

impl Default for Mage {
    /// A mage of default stats and no magic power.
    fn default() -> (m: Mage)
        ensures
            is_blank(m.entity),
            m.magic_power == 0,
    {
        Mage::new(Entity::default(), 0)
    }
}

impl Default for Monster {
    /// A monster of default stats.
    fn default() -> (m: Monster)
        ensures
            is_blank(m.entity),
    {
        Monster::new(Entity::default())
    }
}

/// The character the player plays.
#[derive(Debug)]
pub enum PlayerType {
    Fighter(Fighter),
    Mage(Mage),
}

impl Default for PlayerType {
    /// A default fighter.
    fn default() -> (p: PlayerType)
        ensures
            p is Fighter,
            p->Fighter_0.endurance == 0,
            is_blank(p->Fighter_0.entity),
    {
        PlayerType::Fighter(Fighter::default())
    }
}

/// The two sides of a fight: the player's character and the monster.
#[derive(Debug)]
pub struct Config {
    pub player: PlayerType,
    pub enemy: Monster,
}

impl Default for Config {
    /// A default fighter against a default monster.
    fn default() -> (c: Config)
        ensures
            c.player is Fighter,
            c.player->Fighter_0.endurance == 0,
            is_blank(c.player->Fighter_0.entity),
            is_blank(c.enemy.entity),
    {
        Config { player: PlayerType::default(), enemy: Monster::default() }
    }
}

impl Config {
    /// The default configuration, for when none was saved before.
    pub fn _new() -> (c: Config)
        ensures
            c.player is Fighter,
            c.player->Fighter_0.endurance == 0,
            is_blank(c.player->Fighter_0.entity),
            is_blank(c.enemy.entity),
    {
        Config::default()
    }
}

} // verus!
