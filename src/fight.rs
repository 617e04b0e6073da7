use crate::combatant::HasEntity;
use crate::dice::{scaled, GameRules};
use vstd::prelude::*;

verus! {

/// Fight order: who acts first in every round.
#[derive(Debug, Clone, Copy, PartialEq, Eq, Structural)]
pub enum Ordering {
    /// The initiator of the fight (the player).
    Player,
    /// The opponent.
    Enemy,
}

/// The first mover, given the initiator's scaled roll and the opponent's dexterity.
pub open spec fn first_mover(roll: nat, enemy_dexterity: nat) -> Ordering {
    if roll > enemy_dexterity {
        Ordering::Player
    } else {
        Ordering::Enemy
    }
}

/// The initiator moves first exactly when its scaled roll beats the
/// opponent's (unscaled) dexterity.
pub fn initiative(roll: usize, enemy_dexterity: usize) -> (o: Ordering)
    ensures
        o == first_mover(roll as nat, enemy_dexterity as nat),
{
    if roll > enemy_dexterity {
        Ordering::Player
    } else {
        Ordering::Enemy
    }
}

impl Ordering {
    pub open spec fn other(self) -> Ordering {
        match self {
            Ordering::Player => Ordering::Enemy,
            Ordering::Enemy => Ordering::Player,
        }
    }

    /// The side that does not hold this order.
    pub fn opposite(&self) -> (o: Ordering)
        ensures
            o == self.other(),
    {
        match self {
            Ordering::Player => Ordering::Enemy,
            Ordering::Enemy => Ordering::Player,
        }
    }
}

/// The state of one fight. The order is fixed at the start; in each round the
/// first mover acts, then the second, until a turn ends the fight.
#[derive(Debug, Clone, Copy, PartialEq, Eq, Structural)]
pub struct Fight {
    pub ordering: Ordering,
    /// The number of the current round, from 1.
    pub round: u64,
    /// Whether the second mover of the round is next.
    pub second: bool,
    /// Whether the fight is over.
    pub resolved: bool,
}

/// The fight after a turn that ended the fight exactly when `ended`.
pub open spec fn step(f: Fight, ended: bool) -> Fight {
    if ended {
        Fight { resolved: true, ..f }
    } else if !f.second {
        Fight { second: true, ..f }
    } else {
        Fight {
            second: false,
            round: if f.round < u64::MAX {
                (f.round + 1) as u64
            } else {
                f.round
            },
            ..f
        }
    }
}

/// The fight after a run of turns, each ending the fight or not, in order.
/// A resolved fight takes no more turns.
pub open spec fn run(f: Fight, turns: Seq<bool>) -> Fight
    decreases turns.len(),
{
    if turns.len() == 0 || f.resolved {
        f
    } else {
        run(step(f, turns[0]), turns.drop_first())
    }
}

impl Fight {
    /// Who acts next.
    pub open spec fn actor(self) -> Ordering {
        if self.second {
            self.ordering.other()
        } else {
            self.ordering
        }
    }

    /// A fight in its first round, with `ordering` fixed.
    pub fn new(ordering: Ordering) -> (f: Fight)
        ensures
            f == (Fight { ordering, round: 1, second: false, resolved: false }),
    {
        Fight { ordering, round: 1, second: false, resolved: false }
    }

    /// Starts a fight: the initiator rolls the rules' die on its dexterity,
    /// and moves first exactly when that scaled roll beats the opponent's dexterity.
    pub fn start<A: HasEntity, B: HasEntity>(
        initiator: &A,
        opponent: &B,
        game_rules: &mut GameRules,
    ) -> (f: Fight)
        requires
            old(game_rules).wf(),
        ensures
            final(game_rules).wf(),
            final(game_rules).dice.n == old(game_rules).dice.n,
            f.round == 1,
            !f.second,
            !f.resolved,
            exists|r: nat|
                1 <= r <= old(game_rules).dice.n && f.ordering == first_mover(
                    #[trigger] scaled(
                        r,
                        old(game_rules).dice.n as nat,
                        initiator.entity_view().dexterity as nat,
                    ),
                    opponent.entity_view().dexterity as nat,
                ),
    {
        let roll = game_rules.dice.apply_dice_roll(initiator.entity().dexterity);
        Fight::new(initiative(roll, opponent.entity().dexterity))
    }

    /// Who acts next.
    pub fn next_actor(&self) -> (o: Ordering)
        ensures
            o == self.actor(),
    {
        if self.second {
            self.ordering.opposite()
        } else {
            self.ordering
        }
    }

    /// Records a turn, which ended the fight exactly when `ended`.
    pub fn advance(&mut self, ended: bool)
        requires
            !old(self).resolved,
        ensures
            *final(self) == step(*old(self), ended),
            final(self).ordering == old(self).ordering,
            final(self).resolved == ended,
    {
        if ended {
            self.resolved = true;
        } else if !self.second {
            self.second = true;
        } else {
            self.second = false;
            if self.round < u64::MAX {
                self.round = self.round + 1;
            }
        }
    }
}

/// The fight order never changes: whatever turns are played, the fight keeps
/// the order it started with, and each round opens with the same first mover.
pub proof fn lemma_order_fixed(f: Fight, turns: Seq<bool>)
    ensures
        run(f, turns).ordering == f.ordering,
        !run(f, turns).second ==> run(f, turns).actor() == f.ordering,
    decreases turns.len(),
{
    if turns.len() > 0 && !f.resolved {
        lemma_order_fixed(step(f, turns[0]), turns.drop_first());
    }
}

/// Only a turn that ends the fight resolves it, and it is resolved at once.
pub proof fn lemma_resolved_by_ending_turn(f: Fight, ended: bool)
    requires
        !f.resolved,
    ensures
        step(f, ended).resolved == ended,
        !ended ==> step(f, ended).actor() == f.actor().other(),
{
}

} // verus!
