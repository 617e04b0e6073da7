use vstd::prelude::*;

verus! {

/// Material of a weapon. `Wood` is the weakest and `Diamond` the strongest.
#[derive(Debug, Clone, Copy, PartialEq, Eq, Structural)]
pub enum Material {
    Wood,
    Stone,
    Iron,
    Gold,
    MagicOre,
    Diamond,
}

/// The damage modifier of a material: 1 for `Wood` up to 6 for `Diamond`.
pub open spec fn material_modifier(m: Material) -> nat {
    match m {
        Material::Wood => 1,
        Material::Stone => 2,
        Material::Iron => 3,
        Material::Gold => 4,
        Material::MagicOre => 5,
        Material::Diamond => 6,
    }
}

impl Material {
    /// The damage modifier of the material.
    pub fn calc_modifier(&self) -> (r: usize)
        ensures
            r == material_modifier(*self),
            1 <= r <= 6,
    {
        match self {
            Material::Wood => 1,
            Material::Stone => 2,
            Material::Iron => 3,
            Material::Gold => 4,
            Material::MagicOre => 5,
            Material::Diamond => 6,
        }
    }
}

/// A weapon has a material and a spell power (when it is seen as a staff).
#[derive(Debug)]
pub struct Weapon {
    pub material: Material,
    pub spell_power: usize,
}

/// The damage a weapon adds to an attack.
pub open spec fn weapon_damage(w: Weapon) -> int {
    material_modifier(w.material) + w.spell_power
}

impl Weapon {
    pub fn new(material: Material, spell_power: usize) -> (r: Weapon)
        ensures
            r.material == material,
            r.spell_power == spell_power,
    {
        Weapon { material, spell_power }
    }

    /// The damage modifier of the weapon: material modifier plus spell power.
    pub fn calc_damage(&self) -> (r: usize)
        requires
            weapon_damage(*self) <= usize::MAX,
        ensures
            r == weapon_damage(*self),
    {
        self.material.calc_modifier() + self.spell_power
    }
}

/// The stat block of every living thing in the game: the player and the enemies.
#[derive(Debug)]
pub struct Entity {
    pub name: String,
    pub life_points: usize,
    pub dexterity: usize,
    pub strength: usize,
    pub weapon: Option<Weapon>,
}

/// What a weapon, if any, adds to an attack.
pub open spec fn held_weapon_damage(w: Option<Weapon>) -> int {
    match w {
        Some(w) => weapon_damage(w),
        None => 0,
    }
}

/// The base attack damage of an entity: strength plus the weapon's damage.
pub open spec fn base_damage(e: Entity) -> int {
    e.strength + held_weapon_damage(e.weapon)
}

/// Life points after taking `dmg` damage: never below zero.
pub open spec fn life_after(life: nat, dmg: nat) -> nat {
    if dmg >= life {
        0
    } else {
        (life - dmg) as nat
    }
}

/// The entity `e` after taking `dmg` damage.
pub open spec fn damaged(e: Entity, dmg: nat) -> Entity {
    Entity {
        name: e.name,
        life_points: life_after(e.life_points as nat, dmg) as usize,
        dexterity: e.dexterity,
        strength: e.strength,
        weapon: e.weapon,
    }
}

impl Entity {
    pub fn new(
        name: String,
        life_points: usize,
        dexterity: usize,
        strength: usize,
        weapon: Option<Weapon>,
    ) -> (r: Entity)
        ensures
            r.name == name,
            r.life_points == life_points,
            r.dexterity == dexterity,
            r.strength == strength,
            r.weapon == weapon,
    {
        Entity { name, life_points, dexterity, strength, weapon }
    }

    /// Subtracts `dmg` from the life points, stopping at zero.
    /// Returns whether the entity is defeated (has no life points left).
    pub fn apply_dmg(&mut self, dmg: usize) -> (defeated: bool)
        ensures
            final(self).life_points == life_after(old(self).life_points as nat, dmg as nat),
            defeated == (final(self).life_points == 0),
            *final(self) == damaged(*old(self), dmg as nat),
    {
        self.life_points = self.life_points.saturating_sub(dmg);
        self.life_points == 0
    }

    /// The base attack damage: strength plus the weapon's damage, if any.
    pub fn base_attack_damage(&self) -> (r: usize)
        requires
            base_damage(*self) <= usize::MAX,
        ensures
            r == base_damage(*self),
    {
        match &self.weapon {
            Some(weapon) => weapon.calc_damage() + self.strength,
            None => self.strength,
        }
    }

    /// The base attack damage, or `None` where it does not fit a `usize`.
    pub fn checked_base_damage(&self) -> (r: Option<usize>)
        ensures
            r == (if base_damage(*self) <= usize::MAX {
                Some(base_damage(*self) as usize)
            } else {
                None::<usize>
            }),
    {
        match &self.weapon {
            Some(weapon) => {
                let m = weapon.material.calc_modifier();
                match m.checked_add(weapon.spell_power) {
                    Some(w) => w.checked_add(self.strength),
                    None => None,
                }
            },
            None => Some(self.strength),
        }
    }
}

} // verus!
