use crate::dice::{shows_top, GameRules};
use crate::entity::{damaged, life_after, Entity};
use vstd::prelude::*;

verus! {

/// What a combatant can do on its turn.
#[derive(Debug, Clone, Copy, PartialEq, Eq, Structural)]
pub enum Action {
    Attack,
    Heal,
    Flee,
}

/// What happened on one turn.
#[derive(Debug, Clone, Copy, PartialEq, Eq, Structural)]
pub enum Turn {
    /// The opponent was hit for `damage`; `defeated` when it has no life left.
    Attacked { damage: usize, defeated: bool },
    /// The combatant healed itself by `amount`.
    Healed { amount: usize },
    /// The combatant tried to flee.
    Fled { success: bool },
}

impl Turn {
    /// Whether the turn ends the fight: the opponent is defeated or the flight succeeded.
    pub open spec fn ends(self) -> bool {
        match self {
            Turn::Attacked { defeated, .. } => defeated,
            Turn::Healed { .. } => false,
            Turn::Fled { success } => success,
        }
    }

    pub fn ends_fight(&self) -> (r: bool)
        ensures
            r == self.ends(),
    {
        match self {
            Turn::Attacked { defeated, .. } => *defeated,
            Turn::Healed { .. } => false,
            Turn::Fled { success } => *success,
        }
    }
}

/// The opponent `e1` is `e0` hit for `dmg`, and `t` reports that hit.
pub open spec fn hit<E: HasEntity>(e0: E, e1: E, dmg: int, t: Turn) -> bool {
    let after = damaged(e0.entity_view(), dmg as nat);
    &&& e1 == e0.with_entity(after)
    &&& t == Turn::Attacked { damage: dmg as usize, defeated: after.life_points == 0 }
}

/// `t` reports a flight with an `n`-sided die: it succeeded exactly when
/// the die showed its highest face.
pub open spec fn fled(n: nat, t: Turn) -> bool {
    exists|r: nat| 1 <= r <= n && t == Turn::Fled { success: #[trigger] shows_top(r, n) }
}

/// Everything that carries a stat block, and can so be hit.
pub trait HasEntity: Sized {
    /// The stat block.
    spec fn entity_view(&self) -> Entity;

    /// The same value with its stat block replaced by `e`.
    spec fn with_entity(&self, e: Entity) -> Self;

    /// Gets a reference of the entity.
    fn entity(&self) -> (r: &Entity)
        ensures
            *r == self.entity_view(),
    ;

    /// Gets a mutable reference of the entity.
    fn entity_mut(&mut self) -> (r: &mut Entity)
        ensures
            *r == old(self).entity_view(),
            *final(self) == old(self).with_entity(*final(r)),
            final(self).entity_view() == *final(r),
    ;

    /// Replacing the stat block gives exactly that stat block, and putting
    /// back the own stat block changes nothing.
    proof fn lemma_with_entity(&self, e: Entity)
        ensures
            self.with_entity(e).entity_view() == e,
            self.with_entity(self.entity_view()) == *self,
    ;
}

/// Everything that fights: the player's characters and the monsters.
pub trait Combatant: HasEntity {

    /// The damage one attack of the combatant deals.
    spec fn damage(&self) -> int;

    /// The life points one heal of the combatant restores.
    spec fn heal_amount(&self) -> int;

    /// The actions offered to whoever chooses for the combatant, in order.
    spec fn menu(&self) -> Seq<Action>;

    /// The action that the chooser's answer `choice` stands for.
    spec fn chosen(&self, choice: usize) -> Action;

    /// Whether the combatant can carry out `choice` within machine integers.
    spec fn allows(&self, choice: usize) -> bool;

    /// The damage of one attack.
    fn attack_damage(&self) -> (r: usize)
        requires
            self.damage() <= usize::MAX,
        ensures
            r == self.damage(),
    ;

    /// The actions offered on a turn, in order.
    fn actions(&self) -> (r: Vec<Action>)
        ensures
            r@ == self.menu(),
    ;

    /// Whether `choice` can be carried out (see `allows`).
    fn allows_choice(&self, choice: usize) -> (r: bool)
        ensures
            r == self.allows(choice),
    ;

    /// Carries out the action that `choice` stands for against `enemy`.
    fn select_action<E: HasEntity>(
        &mut self,
        choice: usize,
        enemy: &mut E,
        game_rules: &mut GameRules,
    ) -> (t: Turn)
        requires
            old(self).allows(choice),
            old(game_rules).wf(),
        ensures
            final(game_rules).wf(),
            final(game_rules).dice.n == old(game_rules).dice.n,
            match old(self).chosen(choice) {
                Action::Attack => {
                    let after = damaged(old(enemy).entity_view(), old(self).damage() as nat);
                    &&& *final(enemy) == old(enemy).with_entity(after)
                    &&& final(enemy).entity_view() == after
                    &&& *final(game_rules) == *old(game_rules)
                    &&& t == Turn::Attacked {
                        damage: old(self).damage() as usize,
                        defeated: after.life_points == 0,
                    }
                    &&& *final(self) == *old(self)
                },
                Action::Heal => {
                    &&& *final(self) == old(self).with_entity(
                        Entity {
                            life_points: (old(self).entity_view().life_points
                                + old(self).heal_amount()) as usize,
                            ..old(self).entity_view()
                        },
                    )
                    &&& *final(enemy) == *old(enemy)
                    &&& *final(game_rules) == *old(game_rules)
                    &&& t == Turn::Healed { amount: old(self).heal_amount() as usize }
                },
                Action::Flee => {
                    &&& fled(old(game_rules).dice.n as nat, t)
                    &&& *final(self) == *old(self)
                    &&& *final(enemy) == *old(enemy)
                },
            },
    ;

    /// Attacks `enemy` with the damage of `attack_damage`.
    /// Returns whether the enemy is defeated.
    fn attack<E: HasEntity>(&mut self, enemy: &mut E) -> (defeated: bool)
        requires
            old(self).damage() <= usize::MAX,
        ensures
            *final(self) == *old(self),
            *final(enemy) == old(enemy).with_entity(
                damaged(old(enemy).entity_view(), old(self).damage() as nat),
            ),
            final(enemy).entity_view() == damaged(
                old(enemy).entity_view(),
                old(self).damage() as nat,
            ),
            defeated == (life_after(
                old(enemy).entity_view().life_points as nat,
                old(self).damage() as nat,
            ) == 0),
            old(self).damage() == 0 ==> *final(enemy) == *old(enemy),
    {
        let dmg = self.attack_damage();
        let defeated = enemy.entity_mut().apply_dmg(dmg);
        proof {
            if dmg == 0 {
                let e0 = old(enemy).entity_view();
                assert(damaged(e0, 0) == e0);
                old(enemy).lemma_with_entity(e0);
            }
        }
        defeated
    }
}

/// Hits `enemy` for `damage` and reports the hit.
pub(crate) fn hit_enemy<E: HasEntity>(damage: usize, enemy: &mut E) -> (t: Turn)
    ensures
        hit(*old(enemy), *final(enemy), damage as int, t),
        final(enemy).entity_view() == damaged(old(enemy).entity_view(), damage as nat),
{
    let defeated = enemy.entity_mut().apply_dmg(damage);
    Turn::Attacked { damage, defeated }
}

/// Tries to flee: succeeds when the rules' die shows its highest face.
pub(crate) fn flee_turn(game_rules: &mut GameRules) -> (t: Turn)
    requires
        old(game_rules).wf(),
    ensures
        final(game_rules).wf(),
        final(game_rules).dice.n == old(game_rules).dice.n,
        fled(old(game_rules).dice.n as nat, t),
{
    let success = game_rules.dice.throw_dice();
    Turn::Fled { success }
}

} // verus!
