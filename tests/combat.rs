use simple_fantasy_game::characters::{Fighter, Mage, Monster};
use simple_fantasy_game::combatant::{Action, Combatant, HasEntity, Turn};
use simple_fantasy_game::config::{Config, PlayerType};
use simple_fantasy_game::dice::{scale_roll, shows_top_face, Dice, Difficulty, GameRules};
use simple_fantasy_game::entity::{Entity, Material, Weapon};
use simple_fantasy_game::fight::{initiative, Fight, Ordering};

fn entity(life: usize, dex: usize, strength: usize, weapon: Option<Weapon>) -> Entity {
    Entity::new("x".to_string(), life, dex, strength, weapon)
}

fn seeded_rules(n: usize, seed: u64) -> GameRules {
    GameRules::with_dice(Dice::with_seed(n, seed))
}

#[test]
fn apply_dmg_subtracts() {
    let mut e = entity(10, 0, 0, None);
    assert!(!e.apply_dmg(3));
    assert_eq!(e.life_points, 7);
}

#[test]
fn apply_dmg_saturates_at_zero() {
    let mut e = entity(5, 0, 0, None);
    assert!(e.apply_dmg(9));
    assert_eq!(e.life_points, 0);
    assert!(e.apply_dmg(0));
    assert_eq!(e.life_points, 0);
}

#[test]
fn apply_dmg_exact_kill() {
    let mut e = entity(4, 0, 0, None);
    assert!(e.apply_dmg(4));
    assert_eq!(e.life_points, 0);
    let mut big = entity(usize::MAX, 0, 0, None);
    assert!(!big.apply_dmg(1));
    assert_eq!(big.life_points, usize::MAX - 1);
}

#[test]
fn material_modifiers() {
    let all = [
        Material::Wood,
        Material::Stone,
        Material::Iron,
        Material::Gold,
        Material::MagicOre,
        Material::Diamond,
    ];
    for (i, m) in all.iter().enumerate() {
        assert_eq!(m.calc_modifier(), i + 1);
    }
}

#[test]
fn weapon_damage_is_modifier_plus_spell_power() {
    assert_eq!(Weapon::new(Material::Gold, 7).calc_damage(), 11);
    assert_eq!(Weapon::new(Material::Wood, 0).calc_damage(), 1);
}

#[test]
fn scale_roll_values() {
    assert_eq!(scale_roll(6, 6, 10), 10);
    assert_eq!(scale_roll(3, 6, 10), 5);
    assert_eq!(scale_roll(1, 3, 10), 3);
    assert_eq!(scale_roll(2, 3, 10), 6);
    assert_eq!(scale_roll(1, 9, 0), 0);
    assert_eq!(scale_roll(5, 5, usize::MAX), usize::MAX);
    assert_eq!(scale_roll(1, 2, usize::MAX), usize::MAX / 2);
}

#[test]
fn scale_roll_reaches_value_only_on_top_face() {
    for n in 1..=9usize {
        for r in 1..=n {
            for value in 0..=40usize {
                let s = scale_roll(r, n, value);
                assert!(s <= value);
                if value > 0 {
                    assert_eq!(s == value, r == n);
                }
            }
        }
    }
}

#[test]
fn apply_dice_roll_stays_in_range() {
    let mut dice = Dice::with_seed(6, 7);
    let mut reached_top = false;
    for _ in 0..2000 {
        let s = dice.apply_dice_roll(12);
        assert!(s <= 12);
        assert_eq!(s % 2, 0);
        if s == 12 {
            reached_top = true;
        }
    }
    assert!(reached_top);
    assert_eq!(dice.n, 6);
}

#[test]
fn throw_dice_frequency_near_one_in_n() {
    for n in [3usize, 6, 9] {
        let mut dice = Dice::with_seed(n, 42);
        let trials = 9000;
        let hits = (0..trials).filter(|_| dice.throw_dice()).count();
        let freq = hits as f64 / trials as f64;
        let expected = 1.0 / n as f64;
        assert!((freq - expected).abs() < 0.03, "n={n} freq={freq}");
    }
}

#[test]
fn one_sided_die_always_hits() {
    let mut dice = Dice::new(1).expect("os seed");
    for _ in 0..50 {
        assert!(dice.throw_dice());
        assert_eq!(dice.apply_dice_roll(17), 17);
    }
}

#[test]
fn difficulty_to_sides() {
    assert_eq!(Difficulty::from_i(0), Difficulty::Easy);
    assert_eq!(Difficulty::from_i(1), Difficulty::Normal);
    assert_eq!(Difficulty::from_i(2), Difficulty::Hard);
    assert_eq!(Difficulty::Easy.to_dice_n(), 3);
    assert_eq!(Difficulty::Normal.to_dice_n(), 6);
    assert_eq!(Difficulty::Hard.to_dice_n(), 9);
    assert_eq!(GameRules::new(Difficulty::Hard).expect("os seed").dice.n, 9);
}

#[test]
fn fighter_attack_damage_multiplies_endurance() {
    let f = Fighter::new(entity(10, 0, 2, Some(Weapon::new(Material::Iron, 1))), 3);
    assert_eq!(f.attack_damage(), 18);
    let bare = Fighter::new(entity(10, 0, 4, None), 5);
    assert_eq!(bare.attack_damage(), 20);
    let tired = Fighter::new(entity(10, 0, 4, None), 0);
    assert_eq!(tired.attack_damage(), 0);
}

#[test]
fn mage_and_monster_attack_damage_is_base() {
    let m = Mage::new(entity(10, 0, 2, Some(Weapon::new(Material::Iron, 1))), 9);
    assert_eq!(m.attack_damage(), 6);
    let o = Monster::new(entity(10, 0, 2, Some(Weapon::new(Material::Diamond, 0))));
    assert_eq!(o.attack_damage(), 8);
    let plain = Monster::new(entity(10, 0, 3, None));
    assert_eq!(plain.attack_damage(), 3);
}

#[test]
fn mage_heal_amount() {
    let m = Mage::new(entity(5, 0, 0, Some(Weapon::new(Material::Wood, 3))), 2);
    assert_eq!(m.get_heal_lp(), 6);
    let unarmed = Mage::new(entity(5, 0, 0, None), 2);
    assert_eq!(unarmed.get_heal_lp(), 0);
}

#[test]
fn mage_heal_raises_life() {
    let mut m = Mage::new(entity(5, 0, 0, Some(Weapon::new(Material::Wood, 3))), 2);
    m.heal();
    assert_eq!(m.entity.life_points, 11);
    m.heal();
    assert_eq!(m.entity.life_points, 17);
}

#[test]
fn scenario_mage_heals() {
    let mut mage = Mage::new(entity(5, 0, 1, Some(Weapon::new(Material::Stone, 3))), 2);
    let mut monster = Monster::new(entity(8, 0, 1, None));
    let mut rules = seeded_rules(6, 1);
    assert_eq!(mage.actions(), vec![Action::Attack, Action::Heal, Action::Flee]);
    let t = mage.select_action(1, &mut monster, &mut rules);
    assert_eq!(t, Turn::Healed { amount: 6 });
    assert!(!t.ends_fight());
    assert_eq!(mage.entity.life_points, 11);
    assert_eq!(monster.entity.life_points, 8);
}

#[test]
fn monster_always_attacks() {
    let mut rules = seeded_rules(3, 2);
    for choice in [0usize, 1, 2, 7, usize::MAX] {
        let mut monster = Monster::new(entity(5, 0, 2, None));
        let mut fighter = Fighter::new(entity(10, 0, 1, None), 1);
        let t = monster.select_action(choice, &mut fighter, &mut rules);
        assert_eq!(t, Turn::Attacked { damage: 2, defeated: false });
        assert_eq!(fighter.entity.life_points, 8);
    }
    assert_eq!(Monster::new(entity(1, 0, 0, None)).actions(), vec![Action::Attack]);
}

#[test]
fn fighter_menu_is_attack_and_flee() {
    let f = Fighter::new(entity(1, 0, 1, None), 1);
    assert_eq!(f.actions(), vec![Action::Attack, Action::Flee]);
    assert!(f.allows_choice(0));
    assert!(f.allows_choice(1));
    assert!(!f.allows_choice(2));
}

#[test]
fn allows_choice_rejects_overflow() {
    let f = Fighter::new(entity(1, 0, usize::MAX, None), 2);
    assert!(!f.allows_choice(0));
    assert!(f.allows_choice(1));
    let m = Mage::new(entity(usize::MAX, 0, 1, Some(Weapon::new(Material::Wood, 1))), 1);
    assert!(m.allows_choice(0));
    assert!(!m.allows_choice(1));
    assert!(m.allows_choice(2));
    assert!(!m.allows_choice(3));
    let o = Monster::new(entity(1, 0, usize::MAX, Some(Weapon::new(Material::Wood, 0))));
    assert!(!o.allows_choice(0));
}

#[test]
fn initiative_compares_roll_with_dexterity() {
    assert_eq!(initiative(5, 4), Ordering::Player);
    assert_eq!(initiative(4, 4), Ordering::Enemy);
    assert_eq!(initiative(0, 0), Ordering::Enemy);
    assert_eq!(initiative(3, 9), Ordering::Enemy);
}

#[test]
fn fight_order_is_fixed() {
    let mut fight = Fight::new(Ordering::Enemy);
    assert_eq!(fight.next_actor(), Ordering::Enemy);
    fight.advance(false);
    assert_eq!(fight.next_actor(), Ordering::Player);
    assert_eq!(fight.round, 1);
    fight.advance(false);
    assert_eq!(fight.round, 2);
    assert_eq!(fight.next_actor(), Ordering::Enemy);
    assert_eq!(fight.ordering, Ordering::Enemy);
    fight.advance(true);
    assert!(fight.resolved);
    assert_eq!(fight.ordering, Ordering::Enemy);
}

#[test]
fn fight_start_rolls_initiative() {
    // A one-sided die gives the full dexterity, which beats a lower one.
    let fighter = Fighter::new(entity(10, 5, 1, None), 1);
    let monster = Monster::new(entity(10, 4, 1, None));
    let mut rules = GameRules::with_dice(Dice::new(1).expect("os seed"));
    let fight = Fight::start(&fighter, &monster, &mut rules);
    assert_eq!(fight.ordering, Ordering::Player);
    let even = Monster::new(entity(10, 5, 1, None));
    let fight = Fight::start(&fighter, &even, &mut rules);
    assert_eq!(fight.ordering, Ordering::Enemy);
}

#[test]
fn scenario_fighter_defeats_monster() {
    let mut fighter = Fighter::new(entity(10, 0, 2, None), 1);
    let mut monster = Monster::new(entity(2, 0, 1, None));
    let mut rules = seeded_rules(6, 3);
    let mut fight = Fight::new(Ordering::Player);
    assert_eq!(fight.next_actor(), Ordering::Player);
    let t = fighter.select_action(0, &mut monster, &mut rules);
    assert_eq!(t, Turn::Attacked { damage: 2, defeated: true });
    assert_eq!(monster.entity.life_points, 0);
    fight.advance(t.ends_fight());
    assert!(fight.resolved);
    assert_eq!(fight.round, 1);
    assert_eq!(fighter.entity().life_points, 10);
}

#[test]
fn scenario_flee_one_in_three() {
    let mut fighter = Fighter::new(entity(10, 0, 2, None), 1);
    let mut monster = Monster::new(entity(20, 0, 1, None));
    let mut rules = seeded_rules(Difficulty::Easy.to_dice_n(), 11);
    let mut successes = 0;
    for _ in 0..3000 {
        match fighter.select_action(1, &mut monster, &mut rules) {
            Turn::Fled { success } => {
                if success {
                    successes += 1;
                }
            }
            other => panic!("unexpected turn {other:?}"),
        }
    }
    assert_eq!(monster.entity.life_points, 20);
    let rate = successes as f64 / 3000.0;
    assert!((rate - 1.0 / 3.0).abs() < 0.04, "rate={rate}");
}

#[test]
fn entity_mut_changes_only_entity() {
    let mut f = Fighter::new(entity(10, 0, 2, None), 4);
    f.entity_mut().life_points = 3;
    assert_eq!(f.entity.life_points, 3);
    assert_eq!(f.endurance, 4);
}

#[test]
fn attack_applies_damage() {
    let mut m = Mage::new(entity(10, 0, 2, Some(Weapon::new(Material::Wood, 1))), 1);
    let mut o = Monster::new(entity(10, 0, 1, None));
    assert!(!m.attack(&mut o));
    assert_eq!(o.entity.life_points, 6);
    assert!(!m.attack(&mut o));
    assert_eq!(o.entity.life_points, 2);
    assert!(m.attack(&mut o));
    assert_eq!(o.entity.life_points, 0);
}

#[test]
fn default_config() {
    let c = Config::_new();
    match c.player {
        PlayerType::Fighter(f) => {
            assert_eq!(f.endurance, 0);
            assert_eq!(f.entity.life_points, 0);
            assert_eq!(f.entity.name, "");
        }
        PlayerType::Mage(_) => panic!("expected a fighter"),
    }
    assert_eq!(c.enemy.entity.life_points, 0);
    assert!(c.enemy.entity.weapon.is_none());
}

#[test]
fn turn_ends_fight() {
    assert!(Turn::Attacked { damage: 3, defeated: true }.ends_fight());
    assert!(!Turn::Attacked { damage: 3, defeated: false }.ends_fight());
    assert!(!Turn::Healed { amount: 9 }.ends_fight());
    assert!(Turn::Fled { success: true }.ends_fight());
    assert!(!Turn::Fled { success: false }.ends_fight());
}

#[test]
fn ordering_opposite() {
    assert_eq!(Ordering::Player.opposite(), Ordering::Enemy);
    assert_eq!(Ordering::Enemy.opposite(), Ordering::Player);
}

#[test]
fn heal_without_magic_power_keeps_life() {
    let mut m = Mage::new(entity(5, 0, 0, Some(Weapon::new(Material::Wood, 3))), 0);
    m.heal();
    assert_eq!(m.entity.life_points, 5);
}

#[test]
fn checked_damage_and_heal() {
    let e = entity(1, 0, 4, Some(Weapon::new(Material::Gold, 2)));
    assert_eq!(e.base_attack_damage(), 10);
    assert_eq!(e.checked_base_damage(), Some(10));
    let huge = entity(1, 0, usize::MAX, Some(Weapon::new(Material::Wood, 0)));
    assert_eq!(huge.checked_base_damage(), None);
    let m = Mage::new(entity(1, 0, 0, Some(Weapon::new(Material::Wood, 4))), 5);
    assert_eq!(m.checked_heal_lp(), Some(20));
    let big = Mage::new(entity(1, 0, 0, Some(Weapon::new(Material::Wood, usize::MAX))), 2);
    assert_eq!(big.checked_heal_lp(), None);
}

#[test]
fn top_face_only_on_n() {
    assert!(shows_top_face(3, 3));
    assert!(!shows_top_face(2, 3));
    assert!(!shows_top_face(1, 9));
    assert!(shows_top_face(1, 1));
}

#[test]
fn zero_damage_attack_leaves_enemy() {
    let mut weak = Fighter::new(entity(10, 0, 5, None), 0);
    let mut o = Monster::new(entity(7, 2, 1, None));
    assert!(!weak.attack(&mut o));
    assert_eq!(o.entity.life_points, 7);
    assert_eq!(o.entity.dexterity, 2);
}
