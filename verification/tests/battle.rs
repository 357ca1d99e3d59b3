use battle_sim::battle::{
    attack_target, copy_fleet, fire_all, keep_survivors,
    rolls_again, Battle, BattleState, DEFAULT_EXPLOSION_THRESHOLD, MAX_ROUNDS,
};
use battle_sim::dice::Dice;
use battle_sim::examples::Examples;
use battle_sim::factory::UnitFactory;
use battle_sim::kinds::{UnitKind, KIND_COUNT};
use battle_sim::tally::Tally;
use battle_sim::units::{Unit, UnitStats, FULL_CHANCE};

fn plain(kind: UnitKind) -> Unit {
    UnitFactory::new(0, 0, 0).unwrap().create(kind)
}

fn fleet(kind: UnitKind, count: usize) -> Vec<Unit> {
    vec![plain(kind); count]
}

fn script(len: usize, seed: u64) -> Vec<u64> {
    let mut state = seed;
    let mut values = Vec::new();
    for _ in 0..len {
        state = state.wrapping_mul(6364136223846793005).wrapping_add(1442695040888963407);
        values.push(state >> 33);
    }
    values
}

#[test]
fn attack_target_hits_the_chosen_unit_only() {
    let cruiser = plain(UnitKind::Cruiser);
    let mut targets = fleet(UnitKind::LightFighter, 3);
    let factor = attack_target(&cruiser, &mut targets, 1);
    assert_eq!(factor, 6);
    assert_eq!(targets[0], plain(UnitKind::LightFighter));
    assert_eq!(targets[2], plain(UnitKind::LightFighter));
    assert_eq!(targets[1].kind, UnitKind::LightFighter);
    assert_eq!(targets[1].stats.hull, 10);
    assert_eq!(targets[1].stats.shield, 0);
    assert_eq!(targets[1].stats.survival_chance, 25_000_000);
}

#[test]
fn a_roll_of_zero_ends_the_chain() {
    assert!(!rolls_again(6, 0));
    for roll in 1..6 {
        assert!(rolls_again(6, roll));
    }
    assert!(!rolls_again(1, 0));
    assert!(!rolls_again(1, 3));
    assert!(!rolls_again(0, 3));
    for factor in [2, 5, 33, 250] {
        let mut again = 0;
        for roll in 0..factor as u64 {
            if rolls_again(factor, roll) {
                again += 1;
            }
        }
        assert_eq!(again, factor - 1);
    }
}

#[test]
fn attack_random_target_draws_target_and_roll() {
    let cruiser = plain(UnitKind::Cruiser);
    let mut targets = fleet(UnitKind::LightFighter, 3);
    let mut dice = Dice::scripted(vec![5, 4, 7, 12, 99]);
    assert!(Battle::attack_random_target(&cruiser, &mut targets, &mut dice));
    assert_eq!(targets[2].stats.hull, 10);
    assert_eq!(targets[0], plain(UnitKind::LightFighter));
    assert!(!Battle::attack_random_target(&cruiser, &mut targets, &mut dice));
    assert_eq!(targets[1].stats.hull, 10);
    assert_eq!(dice.below(1000), 99);
}

#[test]
fn attack_random_target_rolls_only_with_rapid_fire() {
    let fighter = plain(UnitKind::LightFighter);
    let mut targets = fleet(UnitKind::Battleship, 2);
    let mut dice = Dice::scripted(vec![1, 77]);
    assert!(!Battle::attack_random_target(&fighter, &mut targets, &mut dice));
    assert_eq!(targets[1].stats.shield, 150);
    assert_eq!(targets[0].stats.shield, 200);
    assert_eq!(dice.below(1000), 77);
}

#[test]
fn attack_random_target_stays_inside_the_fleet() {
    let cruiser = plain(UnitKind::Cruiser);
    let mut dice = Dice::random();
    for size in 1..40 {
        let mut targets = fleet(UnitKind::RocketLauncher, size);
        for _ in 0..30 {
            Battle::attack_random_target(&cruiser, &mut targets, &mut dice);
        }
        assert_eq!(targets.len(), size);
    }
}

#[test]
fn a_turn_chains_shots_until_a_roll_fails() {
    let cruiser = plain(UnitKind::Cruiser);
    let mut targets = fleet(UnitKind::LightFighter, 3);
    let mut dice = Dice::scripted(vec![0, 3, 1, 0, 2, 5]);
    Battle::compute_unit_turn(&cruiser, &mut targets, &mut dice);
    assert_eq!(targets[0].stats.hull, 10);
    assert_eq!(targets[1].stats.hull, 10);
    assert_eq!(targets[2], plain(UnitKind::LightFighter));
    assert_eq!(dice.below(10), 2);
}

#[test]
fn a_turn_without_rapid_fire_is_one_shot() {
    let fighter = plain(UnitKind::LightFighter);
    let mut targets = fleet(UnitKind::Battleship, 4);
    let mut dice = Dice::scripted(vec![3, 1, 1, 1]);
    Battle::compute_unit_turn(&fighter, &mut targets, &mut dice);
    let hit: Vec<i32> = targets.iter().map(|u| u.stats.shield).collect();
    assert_eq!(hit, vec![200, 200, 200, 150]);
    assert_eq!(dice.below(100), 1);
    let mut random = Dice::random();
    let mut targets = fleet(UnitKind::Battleship, 4);
    for _ in 0..3 {
        Battle::compute_unit_turn(&fighter, &mut targets, &mut random);
    }
    let worn: i32 = targets.iter().map(|u| 200 - u.stats.shield).sum();
    assert_eq!(worn, 150);
}

#[test]
fn a_turn_against_an_empty_fleet_does_nothing() {
    let cruiser = plain(UnitKind::Cruiser);
    let mut targets: Vec<Unit> = Vec::new();
    let mut dice = Dice::scripted(vec![8, 9]);
    Battle::compute_unit_turn(&cruiser, &mut targets, &mut dice);
    assert!(targets.is_empty());
    assert_eq!(dice.below(10), 8);
    fire_all(&fleet(UnitKind::Cruiser, 3), &mut targets, &mut dice);
    assert!(targets.is_empty());
    assert_eq!(dice.below(10), 9);
}

#[test]
fn a_turn_with_exhausted_dice_ends_after_one_shot() {
    let deathstar = plain(UnitKind::Deathstar);
    let mut targets = fleet(UnitKind::LightFighter, 5);
    let mut dice = Dice::scripted(Vec::new());
    Battle::compute_unit_turn(&deathstar, &mut targets, &mut dice);
    assert_eq!(targets[0].stats.hull, 0);
    for unit in &targets[1..] {
        assert_eq!(*unit, plain(UnitKind::LightFighter));
    }
}

#[test]
fn fire_all_gives_every_shooter_its_turn() {
    let shooters = fleet(UnitKind::LightFighter, 3);
    let mut targets = fleet(UnitKind::Battleship, 2);
    let mut dice = Dice::scripted(vec![0, 1, 1, 42]);
    fire_all(&shooters, &mut targets, &mut dice);
    assert_eq!(targets[0].stats.shield, 150);
    assert_eq!(targets[1].stats.shield, 100);
    assert_eq!(dice.below(100), 42);
    assert_eq!(shooters, fleet(UnitKind::LightFighter, 3));
}

#[test]
fn copies_and_survivors() {
    let mut units = vec![plain(UnitKind::Cruiser), plain(UnitKind::Cruiser), plain(UnitKind::Bomber)];
    assert_eq!(copy_fleet(&units), units);
    assert_eq!(copy_fleet(&Vec::new()), Vec::new());
    units[0].receive_damage(1000);
    units[2].receive_damage(100);
    assert_eq!(units[0].stats.survival_chance, 648_148_148);
    let kept = keep_survivors(&units, 648_148_148);
    assert_eq!(kept.len(), 2);
    assert_eq!(kept[0], plain(UnitKind::Cruiser));
    assert_eq!(kept[1].kind, UnitKind::Bomber);
    assert_eq!(kept[1].stats.shield, 500);
    let kept = keep_survivors(&units, 648_148_147);
    assert_eq!(kept.len(), 3);
    assert_eq!(kept[0].stats.hull, 1750);
    assert_eq!(kept[0].stats.shield, 50);
    assert_eq!(kept[0].stats.survival_chance, FULL_CHANCE);
    assert!(keep_survivors(&units, FULL_CHANCE).is_empty());
}

#[test]
fn a_new_battle_stands_at_its_start() {
    let attackers = fleet(UnitKind::Cruiser, 2);
    let defenders = fleet(UnitKind::LightFighter, 3);
    let battle = Battle::new(attackers.clone(), defenders.clone());
    assert_eq!(battle.starting_attackers, attackers);
    assert_eq!(battle.starting_defenders, defenders);
    assert_eq!(battle.current_attackers, attackers);
    assert_eq!(battle.current_defenders, defenders);
    assert_eq!(battle.explosion_threshold, DEFAULT_EXPLOSION_THRESHOLD);
    assert_eq!(DEFAULT_EXPLOSION_THRESHOLD, 500_000_000);
    assert_eq!(battle.rounds_fought, 0);
    assert_eq!(battle.state(), BattleState::Ongoing);
    let battle = battle.with_threshold(7).with_dice(Dice::scripted(vec![1]));
    assert_eq!(battle.explosion_threshold, 7);
    assert_eq!(battle.current_attackers, attackers);
    assert_eq!(battle.starting_defenders, defenders);
}

#[test]
fn the_state_names_the_empty_side() {
    assert_eq!(Battle::new(Vec::new(), fleet(UnitKind::Cruiser, 1)).state(), BattleState::AttackersWiped);
    assert_eq!(Battle::new(fleet(UnitKind::Cruiser, 1), Vec::new()).state(), BattleState::DefendersWiped);
    assert_eq!(Battle::new(Vec::new(), Vec::new()).state(), BattleState::AttackersWiped);
}

#[test]
fn a_battle_with_an_empty_side_is_over_at_once() {
    let mut battle = Battle::new(fleet(UnitKind::Cruiser, 4), Vec::new());
    battle.run();
    assert_eq!(battle.rounds_fought, 0);
    assert_eq!(battle.current_attackers, fleet(UnitKind::Cruiser, 4));
    assert_eq!(battle.state(), BattleState::DefendersWiped);
}

#[test]
fn two_light_fighters_against_a_battleship() {
    let mut battle =
        Battle::new(fleet(UnitKind::LightFighter, 2), fleet(UnitKind::Battleship, 1));
    battle.run();
    assert!(battle.current_attackers.is_empty());
    assert_eq!(battle.current_defenders, fleet(UnitKind::Battleship, 1));
    assert_eq!(battle.rounds_fought, 2);
    assert_eq!(battle.state(), BattleState::AttackersWiped);
    let result = battle.result();
    assert_eq!(result.attackers.total(), 0);
    assert_eq!(result.defenders.total(), 1);
    assert_eq!(result.defenders.count(UnitKind::Battleship), 1);
    assert_eq!(result.attackers.count(UnitKind::LightFighter), 0);
}

#[test]
fn the_first_round_of_light_fighters_against_a_battleship() {
    let mut battle =
        Battle::new(fleet(UnitKind::LightFighter, 2), fleet(UnitKind::Battleship, 1));
    battle.compute_round();
    assert_eq!(battle.current_defenders[0].stats.shield, 100);
    assert_eq!(battle.current_defenders[0].stats.hull, 6000);
    let dead: Vec<bool> = battle.current_attackers.iter().map(|u| u.has_exploded()).collect();
    assert!(dead == vec![true, false] || dead == vec![false, true]);
    assert_eq!(battle.current_attackers.len(), 2);
    battle.round_cleanup();
    assert_eq!(battle.current_attackers, fleet(UnitKind::LightFighter, 1));
    assert_eq!(battle.current_defenders, fleet(UnitKind::Battleship, 1));
    assert_eq!(battle.rounds_fought, 0);
}

#[test]
fn a_deathstar_chains_through_fifty_light_fighters() {
    let mut draws = Vec::new();
    for target in 0..50u64 {
        draws.push(target);
        draws.push(if target == 49 { 0 } else { 1 + target });
    }
    let mut battle = Battle::new(fleet(UnitKind::Deathstar, 1), fleet(UnitKind::LightFighter, 50))
        .with_dice(Dice::scripted(draws));
    battle.run();
    assert!(battle.current_defenders.is_empty());
    assert_eq!(battle.current_attackers, fleet(UnitKind::Deathstar, 1));
    assert_eq!(battle.rounds_fought, 1);
    assert_eq!(battle.state(), BattleState::DefendersWiped);
}

#[test]
fn a_deathstar_is_never_hurt_by_light_fighters() {
    let mut battle = Battle::new(fleet(UnitKind::Deathstar, 1), fleet(UnitKind::LightFighter, 50));
    battle.run();
    assert_eq!(battle.current_attackers, fleet(UnitKind::Deathstar, 1));
    assert!(battle.current_defenders.len() <= 50 - battle.rounds_fought as usize);
    assert!(battle.rounds_fought >= 1 && battle.rounds_fought <= MAX_ROUNDS);
    assert_ne!(battle.state(), BattleState::Ongoing);
    assert_ne!(battle.state(), BattleState::AttackersWiped);
    for unit in &battle.current_defenders {
        assert_eq!(*unit, plain(UnitKind::LightFighter));
    }
}

#[test]
fn units_that_cannot_hurt_each_other_reach_the_round_limit() {
    let mut battle =
        Battle::new(fleet(UnitKind::SolarSatellite, 3), fleet(UnitKind::LargeShieldDome, 1));
    battle.run();
    assert_eq!(MAX_ROUNDS, 6);
    assert_eq!(battle.rounds_fought, 6);
    assert_eq!(battle.state(), BattleState::RoundLimitReached);
    assert_eq!(battle.current_attackers, fleet(UnitKind::SolarSatellite, 3));
    assert_eq!(battle.current_defenders, fleet(UnitKind::LargeShieldDome, 1));
    battle.run();
    assert_eq!(battle.rounds_fought, 6);
}

#[test]
fn the_explosion_threshold_decides_who_is_removed() {
    let fight = |threshold: u32| {
        let mut battle = Battle::new(fleet(UnitKind::Battleship, 1), fleet(UnitKind::Cruiser, 1))
            .with_threshold(threshold);
        battle.run();
        battle
    };
    let battle = fight(DEFAULT_EXPLOSION_THRESHOLD);
    assert_eq!(battle.rounds_fought, 2);
    assert_eq!(battle.state(), BattleState::DefendersWiped);
    assert_eq!(battle.current_attackers[0].stats.hull, 5600);
    assert_eq!(battle.current_attackers[0].stats.shield, 200);
    assert_eq!(battle.current_attackers[0].stats.survival_chance, FULL_CHANCE);
    assert_eq!(fight(700_000_000).rounds_fought, 1);
    assert_eq!(fight(648_148_148).rounds_fought, 1);
    assert_eq!(fight(648_148_147).rounds_fought, 2);
    assert_eq!(fight(0).rounds_fought, 3);
    let all_gone = fight(FULL_CHANCE);
    assert_eq!(all_gone.rounds_fought, 1);
    assert!(all_gone.current_attackers.is_empty());
    assert!(all_gone.current_defenders.is_empty());
    assert_eq!(all_gone.state(), BattleState::AttackersWiped);
}

#[test]
fn every_battle_ends_within_six_rounds() {
    for size in [1u32, 5, 40, 300] {
        let mut battle =
            Battle::new(UnitFactory::random_fleet(size), UnitFactory::random_fleet(size));
        battle.run();
        assert!(battle.rounds_fought <= 6);
        assert_ne!(battle.state(), BattleState::Ongoing);
        assert!(battle.current_attackers.len() <= size as usize);
        assert!(battle.current_defenders.len() <= size as usize);
        for unit in battle.current_attackers.iter().chain(battle.current_defenders.iter()) {
            assert!(unit.stats.hull >= 0 && unit.stats.hull <= unit.stats.base_hull);
            if battle.rounds_fought > 0 {
                assert_eq!(unit.stats.shield, unit.stats.base_shield);
                assert_eq!(unit.stats.survival_chance, FULL_CHANCE);
            }
        }
        assert_eq!(battle.starting_attackers.len(), size as usize);
    }
}

#[test]
fn reset_puts_the_starting_fleets_back() {
    let attackers = fleet(UnitKind::Battleship, 3);
    let defenders = fleet(UnitKind::Cruiser, 7);
    let mut battle = Battle::new(attackers.clone(), defenders.clone());
    battle.run();
    assert!(battle.rounds_fought > 0);
    assert_ne!(battle.current_defenders, defenders);
    battle.reset();
    assert_eq!(battle.current_attackers, attackers);
    assert_eq!(battle.current_defenders, defenders);
    assert_eq!(battle.rounds_fought, 0);
    assert_eq!(battle.starting_attackers, attackers);
    assert_eq!(battle.state(), BattleState::Ongoing);
}

#[test]
fn the_same_draws_give_the_same_battle() {
    let attackers = [fleet(UnitKind::Cruiser, 6), fleet(UnitKind::Battlecruiser, 2)].concat();
    let defenders = [fleet(UnitKind::LightFighter, 20), fleet(UnitKind::HeavyFighter, 5)].concat();
    for seed in 1..6 {
        let draws = script(400, seed);
        let mut first = Battle::new(attackers.clone(), defenders.clone())
            .with_dice(Dice::scripted(draws.clone()));
        let mut second = Battle::new(attackers.clone(), defenders.clone())
            .with_dice(Dice::scripted(draws));
        first.run();
        second.run();
        assert_eq!(first.current_attackers, second.current_attackers);
        assert_eq!(first.current_defenders, second.current_defenders);
        assert_eq!(first.rounds_fought, second.rounds_fought);
    }
}

#[test]
fn one_trial_is_one_run() {
    let attackers = [fleet(UnitKind::Cruiser, 6), fleet(UnitKind::Battlecruiser, 2)].concat();
    let defenders = [fleet(UnitKind::LightFighter, 20), fleet(UnitKind::HeavyFighter, 5)].concat();
    for seed in 1..6 {
        let draws = script(400, seed);
        let mut single = Battle::new(attackers.clone(), defenders.clone())
            .with_dice(Dice::scripted(draws.clone()));
        let mut trial = Battle::new(attackers.clone(), defenders.clone())
            .with_dice(Dice::scripted(draws));
        single.run();
        let means = trial.mean_results(1);
        assert_eq!(means.trials, 1);
        assert_eq!(trial.current_attackers, single.current_attackers);
        assert_eq!(trial.current_defenders, single.current_defenders);
        let result = single.result();
        assert_eq!(means.attackers.total(), result.attackers.total());
        assert_eq!(means.defenders.total(), result.defenders.total());
        for i in 0..KIND_COUNT {
            let kind = UnitKind::from_index(i).unwrap();
            assert_eq!(means.attackers.count(kind), result.attackers.count(kind));
            assert_eq!(means.defenders.count(kind), result.defenders.count(kind));
        }
    }
}

#[test]
fn mean_results_sum_over_the_trials() {
    let mut battle =
        Battle::new(fleet(UnitKind::LightFighter, 2), fleet(UnitKind::Battleship, 1));
    let means = battle.mean_results(3);
    assert_eq!(means.trials, 3);
    assert_eq!(means.attackers.total(), 0);
    assert_eq!(means.defenders.total(), 3);
    assert_eq!(means.defenders.count(UnitKind::Battleship), 3);
    assert_eq!(means.defenders.count(UnitKind::LightFighter), 0);
    assert_eq!(battle.current_defenders, fleet(UnitKind::Battleship, 1));
    assert!(battle.current_attackers.is_empty());
    assert_eq!(battle.starting_attackers, fleet(UnitKind::LightFighter, 2));

    let mut standoff =
        Battle::new(fleet(UnitKind::SolarSatellite, 3), fleet(UnitKind::LargeShieldDome, 1));
    let means = standoff.mean_results(5);
    assert_eq!(means.attackers.total(), 15);
    assert_eq!(means.attackers.count(UnitKind::SolarSatellite), 15);
    assert_eq!(means.defenders.count(UnitKind::LargeShieldDome), 5);
}

#[test]
fn mean_results_of_no_trials_change_nothing() {
    for rounds in [0, -1, i32::MIN] {
        let mut battle =
            Battle::new(fleet(UnitKind::LightFighter, 2), fleet(UnitKind::Battleship, 1));
        let means = battle.mean_results(rounds);
        assert_eq!(means.trials, 0);
        assert_eq!(means.attackers.total(), 0);
        assert_eq!(means.defenders.total(), 0);
        assert_eq!(means.defenders.count(UnitKind::Battleship), 0);
        assert_eq!(battle.current_attackers, fleet(UnitKind::LightFighter, 2));
        assert_eq!(battle.current_defenders, fleet(UnitKind::Battleship, 1));
        assert_eq!(battle.rounds_fought, 0);
    }
}

#[test]
fn trials_start_from_the_starting_fleets_each_time() {
    let mut battle = Battle::new(fleet(UnitKind::Battleship, 1), fleet(UnitKind::Cruiser, 1));
    battle.run();
    assert!(battle.current_defenders.is_empty());
    let means = battle.mean_results(4);
    assert_eq!(means.attackers.count(UnitKind::Battleship), 4);
    assert_eq!(means.defenders.total(), 0);
    assert_eq!(battle.rounds_fought, 2);
}

#[test]
fn a_tally_counts_by_kind() {
    let units = [fleet(UnitKind::Cruiser, 3), fleet(UnitKind::Bomber, 2), fleet(UnitKind::Cruiser, 1)].concat();
    let mut tally = Tally::of(&units);
    assert_eq!(tally.total(), 6);
    assert_eq!(tally.count(UnitKind::Cruiser), 4);
    assert_eq!(tally.count(UnitKind::Bomber), 2);
    assert_eq!(tally.count(UnitKind::Reaper), 0);
    tally.add_fleet(&fleet(UnitKind::Reaper, 5));
    assert_eq!(tally.total(), 11);
    assert_eq!(tally.count(UnitKind::Reaper), 5);
    assert_eq!(tally.count(UnitKind::Cruiser), 4);
    let empty = Tally::new();
    assert_eq!(empty.total(), 0);
    for i in 0..KIND_COUNT {
        assert_eq!(empty.count(UnitKind::from_index(i).unwrap()), 0);
    }
}

#[test]
fn units_without_a_hull_are_removed_by_the_first_hit() {
    let hulks = UnitFactory::new(0, 0, -10)
        .unwrap()
        .from_map(vec![(UnitKind::Cruiser, 3)])
        .unwrap();
    assert_eq!(hulks[0].stats, UnitStats::new(0, 50, 400));
    for threshold in [0, DEFAULT_EXPLOSION_THRESHOLD] {
        let mut battle = Battle::new(fleet(UnitKind::Battleship, 1), hulks.clone())
            .with_threshold(threshold);
        battle.run();
        assert_eq!(battle.rounds_fought, 3);
        assert!(battle.current_defenders.is_empty());
        assert_eq!(battle.state(), BattleState::DefendersWiped);
    }
}

#[test]
fn a_round_is_fought_only_while_the_battle_is_on() {
    let mut battle =
        Battle::new(fleet(UnitKind::LightFighter, 2), fleet(UnitKind::Battleship, 1));
    assert!(battle.fight_round());
    assert_eq!(battle.rounds_fought, 1);
    assert_eq!(battle.current_attackers, fleet(UnitKind::LightFighter, 1));
    assert_eq!(battle.current_defenders, fleet(UnitKind::Battleship, 1));
    assert!(battle.fight_round());
    assert_eq!(battle.rounds_fought, 2);
    assert!(battle.current_attackers.is_empty());
    assert!(!battle.fight_round());
    assert_eq!(battle.rounds_fought, 2);
    assert_eq!(battle.current_defenders, fleet(UnitKind::Battleship, 1));

    let mut standoff =
        Battle::new(fleet(UnitKind::SolarSatellite, 1), fleet(UnitKind::LargeShieldDome, 1));
    let mut rounds = 0;
    while standoff.fight_round() {
        rounds += 1;
    }
    assert_eq!(rounds, 6);
    assert_eq!(standoff.state(), BattleState::RoundLimitReached);
}

#[test]
fn a_long_script_is_followed_draw_by_draw() {
    let cruiser = plain(UnitKind::Cruiser);
    let mut targets = fleet(UnitKind::RocketLauncher, 7);
    let mut draws = Vec::new();
    for shot in 0..5000u64 {
        draws.push(shot);
        draws.push(10 * shot + 3);
    }
    draws.push(6);
    draws.push(20);
    draws.push(4);
    let mut dice = Dice::scripted(draws);
    Battle::compute_unit_turn(&cruiser, &mut targets, &mut dice);
    assert_eq!(dice.below(10), 4);
    for unit in &targets {
        assert_eq!(unit.stats.hull, 0);
    }
}

#[test]
fn the_example_is_set_up_before_it_is_fought() {
    let battle = <dyn Examples>::battle_example();
    assert_eq!(battle.rounds_fought, 0);
    assert_eq!(battle.state(), BattleState::Ongoing);
    assert_eq!(battle.current_attackers, battle.starting_attackers);
    assert_eq!(battle.current_defenders, battle.starting_defenders);
    assert_eq!(battle.current_attackers.len(), 25_000);
    assert_eq!(battle.current_defenders.len(), 84_155);
    let result = battle.result();
    assert_eq!(result.attackers.count(UnitKind::Battleship), 15_000);
    assert_eq!(result.attackers.count(UnitKind::Battlecruiser), 10_000);
    assert_eq!(result.defenders.count(UnitKind::RocketLauncher), 50_311);
    assert_eq!(result.defenders.count(UnitKind::LargeShieldDome), 1);
    assert_eq!(result.defenders.total(), 84_155);
}

#[test]
fn the_example_battle_is_fought_to_its_end() {
    let battle = <dyn Examples>::run_battle_example();
    assert_eq!(battle.starting_attackers.len(), 25_000);
    assert_eq!(battle.starting_defenders.len(), 84_155);
    assert_eq!(battle.starting_attackers[0].kind, UnitKind::Battleship);
    assert_eq!(battle.starting_attackers[0].stats, UnitStats::new(18_000, 580, 3_000));
    assert_eq!(battle.starting_attackers[24_999].kind, UnitKind::Battlecruiser);
    assert_eq!(battle.starting_defenders[0].stats, UnitStats::new(1_000, 24, 120));
    assert_eq!(battle.starting_defenders[84_154].kind, UnitKind::LargeShieldDome);
    assert_ne!(battle.state(), BattleState::Ongoing);
    assert!(battle.rounds_fought >= 1 && battle.rounds_fought <= 6);
    assert!(battle.current_attackers.len() <= 25_000);
    assert!(battle.current_defenders.len() < 84_155);
    assert_eq!(battle.explosion_threshold, DEFAULT_EXPLOSION_THRESHOLD);
}
