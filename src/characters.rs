use crate::combatant::{hit_enemy, flee_turn, Action, Combatant, HasEntity, Turn};
use crate::dice::GameRules;
use crate::entity::{base_damage, held_weapon_damage, Entity};
use vstd::prelude::*;

verus! {

/// A fighter (player) whose endurance multiplies their attack damage.
#[derive(Debug)]
pub struct Fighter {
    pub entity: Entity,
    pub endurance: usize,
}

impl Fighter {
    pub fn new(entity: Entity, endurance: usize) -> (r: Fighter)
        ensures
            r.entity == entity,
            r.endurance == endurance,
    {
        Fighter { entity, endurance }
    }
}

impl HasEntity for Fighter {
    open spec fn entity_view(&self) -> Entity {
        self.entity
    }

    open spec fn with_entity(&self, e: Entity) -> Fighter {
        Fighter { entity: e, endurance: self.endurance }
    }

    fn entity(&self) -> (r: &Entity) {
        &self.entity
    }

    fn entity_mut(&mut self) -> (r: &mut Entity) {
        &mut self.entity
    }

    proof fn lemma_with_entity(&self, e: Entity) {
    }
}

impl Combatant for Fighter {
    /// Strength plus weapon damage, times endurance.
    open spec fn damage(&self) -> int {
        base_damage(self.entity) * self.endurance
    }

    open spec fn heal_amount(&self) -> int {
        0
    }

    open spec fn menu(&self) -> Seq<Action> {
        seq![Action::Attack, Action::Flee]
    }

    open spec fn chosen(&self, choice: usize) -> Action {
        if choice == 0 {
            Action::Attack
        } else {
            Action::Flee
        }
    }

    open spec fn allows(&self, choice: usize) -> bool {
        &&& choice < 2
        &&& choice == 0 ==> self.damage() <= usize::MAX
    }

    fn attack_damage(&self) -> (r: usize) {
        if self.endurance == 0 {
            proof {
                assert(base_damage(self.entity) * 0 == 0) by (nonlinear_arith);
            }
            0
        } else {
            proof {
                assert(base_damage(self.entity) <= base_damage(self.entity) * self.endurance)
                    by (nonlinear_arith)
                    requires
                        self.endurance >= 1,
                        base_damage(self.entity) >= 0,
                ;
            }
            self.entity.base_attack_damage() * self.endurance
        }
    }

    fn actions(&self) -> (r: Vec<Action>) {
        let r = vec![Action::Attack, Action::Flee];
        proof {
            assert(r@ =~= self.menu());
        }
        r
    }

    fn allows_choice(&self, choice: usize) -> (r: bool) {
        if choice >= 2 {
            false
        } else if choice == 1 || self.endurance == 0 {
            proof {
                assert(base_damage(self.entity) * 0 == 0) by (nonlinear_arith);
            }
            true
        } else {
            match self.entity.checked_base_damage() {
                Some(b) => {
                    proof {
                        assert(b * self.endurance == self.endurance * b) by (nonlinear_arith);
                    }
                    self.endurance.checked_mul(b).is_some()
                },
                None => {
                    proof {
                        assert(base_damage(self.entity) <= base_damage(self.entity)
                            * self.endurance) by (nonlinear_arith)
                            requires
                                self.endurance >= 1,
                                base_damage(self.entity) >= 0,
                        ;
                    }
                    false
                },
            }
        }
    }

    fn select_action<E: HasEntity>(
        &mut self,
        choice: usize,
        enemy: &mut E,
        game_rules: &mut GameRules,
    ) -> (t: Turn) {
        if choice == 0 {
            hit_enemy(self.attack_damage(), enemy)
        } else {
            flee_turn(game_rules)
        }
    }
}

/// The spell power of a weapon, if any.
pub open spec fn spell_power_of(w: Option<crate::entity::Weapon>) -> int {
    match w {
        Some(w) => w.spell_power as int,
        None => 0,
    }
}

/// A mage (player) who can also heal themselves.
#[derive(Debug)]
pub struct Mage {
    pub entity: Entity,
    pub magic_power: usize,
}

impl Mage {
    pub fn new(entity: Entity, magic_power: usize) -> (r: Mage)
        ensures
            r.entity == entity,
            r.magic_power == magic_power,
    {
        Mage { entity, magic_power }
    }

    /// The life points one heal restores: magic power times the weapon's
    /// spell power, and 0 without a weapon.
    pub fn get_heal_lp(&self) -> (r: usize)
        requires
            self.heal_amount() <= usize::MAX,
        ensures
            r == self.heal_amount(),
            r == self.magic_power * spell_power_of(self.entity.weapon),
    {
        let weapon_power = match &self.entity.weapon {
            Some(weapon) => weapon.spell_power,
            None => 0,
        };
        self.magic_power * weapon_power
    }

    /// Adds the heal amount to the mage's own life points.
    pub fn heal(&mut self)
        requires
            old(self).entity.life_points + old(self).heal_amount() <= usize::MAX,
        ensures
            final(self).entity.life_points == old(self).entity.life_points
                + old(self).heal_amount(),
            old(self).heal_amount() > 0 ==> final(self).entity.life_points
                > old(self).entity.life_points,
            final(self).magic_power == old(self).magic_power,
            final(self).entity == (Entity {
                life_points: final(self).entity.life_points,
                ..old(self).entity
            }),
    {
        proof {
            assert(self.heal_amount() >= 0) by (nonlinear_arith)
                requires
                    self.magic_power >= 0,
                    spell_power_of(self.entity.weapon) >= 0,
                    self.heal_amount() == self.magic_power * spell_power_of(self.entity.weapon),
            ;
        }
        let heal_lp = self.get_heal_lp();
        self.entity.life_points = self.entity.life_points + heal_lp;
    }

    /// The heal amount, or `None` where it does not fit a `usize`.
    pub fn checked_heal_lp(&self) -> (r: Option<usize>)
        ensures
            r == (if self.heal_amount() <= usize::MAX {
                Some(self.heal_amount() as usize)
            } else {
                None::<usize>
            }),
    {
        match &self.entity.weapon {
            Some(weapon) => self.magic_power.checked_mul(weapon.spell_power),
            None => Some(0),
        }
    }
}

impl HasEntity for Mage {
    open spec fn entity_view(&self) -> Entity {
        self.entity
    }

    open spec fn with_entity(&self, e: Entity) -> Mage {
        Mage { entity: e, magic_power: self.magic_power }
    }

    fn entity(&self) -> (r: &Entity) {
        &self.entity
    }

    fn entity_mut(&mut self) -> (r: &mut Entity) {
        &mut self.entity
    }

    proof fn lemma_with_entity(&self, e: Entity) {
    }
}

impl Combatant for Mage {
    open spec fn damage(&self) -> int {
        base_damage(self.entity)
    }

    /// Magic power times the weapon's spell power; 0 without a weapon.
    open spec fn heal_amount(&self) -> int {
        self.magic_power * spell_power_of(self.entity.weapon)
    }

    open spec fn menu(&self) -> Seq<Action> {
        seq![Action::Attack, Action::Heal, Action::Flee]
    }

    open spec fn chosen(&self, choice: usize) -> Action {
        if choice == 0 {
            Action::Attack
        } else if choice == 1 {
            Action::Heal
        } else {
            Action::Flee
        }
    }

    open spec fn allows(&self, choice: usize) -> bool {
        &&& choice < 3
        &&& choice == 0 ==> self.damage() <= usize::MAX
        &&& choice == 1 ==> self.entity.life_points + self.heal_amount() <= usize::MAX
    }

    fn attack_damage(&self) -> (r: usize) {
        self.entity.base_attack_damage()
    }

    fn actions(&self) -> (r: Vec<Action>) {
        let r = vec![Action::Attack, Action::Heal, Action::Flee];
        proof {
            assert(r@ =~= self.menu());
        }
        r
    }

    fn allows_choice(&self, choice: usize) -> (r: bool) {
        if choice >= 3 {
            false
        } else if choice == 0 {
            self.entity.checked_base_damage().is_some()
        } else if choice == 1 {
            match self.checked_heal_lp() {
                Some(h) => self.entity.life_points.checked_add(h).is_some(),
                None => {
                    proof {
                        assert(self.heal_amount() >= 0) by (nonlinear_arith)
                            requires
                                self.magic_power >= 0,
                                spell_power_of(self.entity.weapon) >= 0,
                                self.heal_amount() == self.magic_power * spell_power_of(
                                    self.entity.weapon,
                                ),
                        ;
                    }
                    false
                },
            }
        } else {
            true
        }
    }

    fn select_action<E: HasEntity>(
        &mut self,
        choice: usize,
        enemy: &mut E,
        game_rules: &mut GameRules,
    ) -> (t: Turn) {
        if choice == 0 {
            hit_enemy(self.attack_damage(), enemy)
        } else if choice == 1 {
            let amount = self.get_heal_lp();
            self.heal();
            Turn::Healed { amount }
        } else {
            flee_turn(game_rules)
        }
    }
}

/// A monster, which the player fights against.
#[derive(Debug)]
pub struct Monster {
    pub entity: Entity,
}

impl Monster {
    pub fn new(entity: Entity) -> (r: Monster)
        ensures
            r.entity == entity,
    {
        Monster { entity }
    }
}

impl HasEntity for Monster {
    open spec fn entity_view(&self) -> Entity {
        self.entity
    }

    open spec fn with_entity(&self, e: Entity) -> Monster {
        Monster { entity: e }
    }

    fn entity(&self) -> (r: &Entity) {
        &self.entity
    }

    fn entity_mut(&mut self) -> (r: &mut Entity) {
        &mut self.entity
    }

    proof fn lemma_with_entity(&self, e: Entity) {
    }
}

impl Combatant for Monster {
    open spec fn damage(&self) -> int {
        base_damage(self.entity)
    }

    open spec fn heal_amount(&self) -> int {
        0
    }

    open spec fn menu(&self) -> Seq<Action> {
        seq![Action::Attack]
    }

    /// A monster always attacks, whatever the chooser answered.
    open spec fn chosen(&self, choice: usize) -> Action {
        Action::Attack
    }

    open spec fn allows(&self, choice: usize) -> bool {
        self.damage() <= usize::MAX
    }

    fn attack_damage(&self) -> (r: usize) {
        self.entity.base_attack_damage()
    }

    fn actions(&self) -> (r: Vec<Action>) {
        let r = vec![Action::Attack];
        proof {
            assert(r@ =~= self.menu());
        }
        r
    }

    fn allows_choice(&self, choice: usize) -> (r: bool) {
        self.entity.checked_base_damage().is_some()
    }

    fn select_action<E: HasEntity>(
        &mut self,
        choice: usize,
        enemy: &mut E,
        game_rules: &mut GameRules,
    ) -> (t: Turn) {
        hit_enemy(self.attack_damage(), enemy)
    }
}

/// A monster is offered only the attack, and attacks whatever the chooser answers.
pub proof fn lemma_monster_always_attacks(m: Monster, choice: usize)
    ensures
        m.menu() == seq![Action::Attack],
        m.chosen(choice) == Action::Attack,
{
}


/// Attack damage: a fighter deals (strength + weapon damage) * endurance, a
/// mage and a monster strength + weapon damage, where a missing weapon adds 0.
pub proof fn lemma_attack_damage(f: Fighter, m: Mage, o: Monster)
    ensures
        f.damage() == (f.entity.strength + held_weapon_damage(f.entity.weapon)) * f.endurance,
        m.damage() == m.entity.strength + held_weapon_damage(m.entity.weapon),
        o.damage() == o.entity.strength + held_weapon_damage(o.entity.weapon),
        f.entity.weapon.is_none() ==> f.damage() == f.entity.strength * f.endurance,
        m.entity.weapon.is_none() ==> m.damage() == m.entity.strength,
        o.entity.weapon.is_none() ==> o.damage() == o.entity.strength,
{
}

/// A mage's second action is the heal, which restores magic power times the
/// weapon's spell power (0 without a weapon); a heal turn never ends the fight.
pub proof fn lemma_heal_turn(m: Mage, amount: usize)
    ensures
        m.chosen(1) == Action::Heal,
        m.heal_amount() == m.magic_power * spell_power_of(m.entity.weapon),
        m.entity.weapon.is_none() ==> m.heal_amount() == 0,
        !(Turn::Healed { amount }).ends(),
{
}

} // verus!
