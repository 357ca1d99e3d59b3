use battle_sim::dice::Dice;
use battle_sim::factory::{FactoryError, UnitFactory, MIN_TECH_LEVEL};
use battle_sim::kinds::UnitKind;
use battle_sim::units::{Unit, UnitStats};

#[test]
fn scripted_dice_replay_their_values_modulo_the_bound() {
    let mut dice = Dice::scripted(vec![7, 12, 0, u64::MAX, 3]);
    assert_eq!(dice.below(10), 7);
    assert_eq!(dice.below(5), 2);
    assert_eq!(dice.below(4), 0);
    assert_eq!(dice.below(1000), u64::MAX % 1000);
    assert_eq!(dice.below(1), 0);
}

#[test]
fn scripted_dice_yield_zero_when_the_script_has_run_out() {
    let mut dice = Dice::scripted(vec![9]);
    assert_eq!(dice.below(5), 4);
    for bound in 1..20 {
        assert_eq!(dice.below(bound), 0);
    }
    let mut empty = Dice::scripted(Vec::new());
    assert_eq!(empty.below(u64::MAX), 0);
}

#[test]
fn random_dice_stay_below_the_bound() {
    let mut dice = Dice::random();
    for bound in 1..200u64 {
        for _ in 0..20 {
            assert!(dice.below(bound) < bound);
        }
    }
    assert!(dice.below(u64::MAX) < u64::MAX);
    assert_eq!(dice.below(1), 0);
}

#[test]
fn random_dice_do_not_repeat_one_value() {
    let mut dice = Dice::random();
    let first = dice.below(1_000_000_000);
    let mut differs = false;
    for _ in 0..64 {
        if dice.below(1_000_000_000) != first {
            differs = true;
        }
    }
    assert!(differs);
}

#[test]
fn a_factory_refuses_levels_below_the_lowest() {
    assert_eq!(MIN_TECH_LEVEL, -10);
    assert!(UnitFactory::new(0, 0, 0).is_ok());
    assert!(UnitFactory::new(-10, -10, -10).is_ok());
    assert!(UnitFactory::new(127, 127, 127).is_ok());
    assert_eq!(UnitFactory::new(-11, 0, 0).err(), Some(FactoryError::InvalidTechLevel));
    assert_eq!(UnitFactory::new(0, -11, 0).err(), Some(FactoryError::InvalidTechLevel));
    assert_eq!(UnitFactory::new(0, 0, -128).err(), Some(FactoryError::InvalidTechLevel));
}

#[test]
fn a_factory_remembers_its_levels() {
    let factory = UnitFactory::new(20, 19, 18).unwrap();
    let techs = factory.battle_techs();
    assert_eq!(techs.atk, 20);
    assert_eq!(techs.shield, 19);
    assert_eq!(techs.hull, 18);
}

#[test]
fn create_applies_the_levels_to_the_base_values() {
    let factory = UnitFactory::new(20, 19, 20).unwrap();
    let battleship = factory.create(UnitKind::Battleship);
    assert_eq!(battleship.kind, UnitKind::Battleship);
    assert_eq!(battleship.stats, UnitStats::new(18000, 580, 3000));
    let probe = factory.create(UnitKind::EspionageProbe);
    assert_eq!(probe.stats, UnitStats::new(300, 0, 0));
    let plain = UnitFactory::new(0, 0, 0).unwrap();
    assert_eq!(plain.create(UnitKind::Deathstar).stats, UnitStats::new(2_340_000, 50_000, 200_000));
    assert_eq!(plain.create(UnitKind::LargeShieldDome).stats, UnitStats::new(10_000, 10_000, 1));
    assert_eq!(plain.create(UnitKind::Crawler).stats, UnitStats::new(400, 1, 1));
    let weak = UnitFactory::new(-10, -5, -1).unwrap();
    assert_eq!(weak.create(UnitKind::Cruiser).stats, UnitStats::new(2430, 25, 0));
}

#[test]
fn the_three_starters_have_their_base_values() {
    assert_eq!(
        UnitFactory::light_fighter(),
        Unit::new(UnitKind::LightFighter, UnitStats::new(400, 10, 50))
    );
    assert_eq!(
        UnitFactory::heavy_fighter(),
        Unit::new(UnitKind::HeavyFighter, UnitStats::new(1000, 25, 150))
    );
    assert_eq!(UnitFactory::cruiser(), Unit::new(UnitKind::Cruiser, UnitStats::new(2700, 50, 400)));
    let plain = UnitFactory::new(0, 0, 0).unwrap();
    assert_eq!(plain.create(UnitKind::LightFighter), UnitFactory::light_fighter());
    assert_eq!(plain.create(UnitKind::HeavyFighter), UnitFactory::heavy_fighter());
    assert_eq!(plain.create(UnitKind::Cruiser), UnitFactory::cruiser());
}

#[test]
fn from_map_builds_the_order_entry_by_entry() {
    let factory = UnitFactory::new(1, 2, 3).unwrap();
    let fleet = factory
        .from_map(vec![
            (UnitKind::Cruiser, 2),
            (UnitKind::Bomber, 0),
            (UnitKind::LightFighter, 3),
            (UnitKind::Cruiser, 1),
        ])
        .unwrap();
    assert_eq!(fleet.len(), 6);
    let kinds: Vec<UnitKind> = fleet.iter().map(|u| u.kind).collect();
    assert_eq!(
        kinds,
        vec![
            UnitKind::Cruiser,
            UnitKind::Cruiser,
            UnitKind::LightFighter,
            UnitKind::LightFighter,
            UnitKind::LightFighter,
            UnitKind::Cruiser
        ]
    );
    for unit in &fleet {
        assert_eq!(*unit, factory.create(unit.kind));
    }
    assert_eq!(fleet[0].stats, UnitStats::new(3510, 60, 440));
}

#[test]
fn from_map_of_nothing_is_an_empty_fleet() {
    let factory = UnitFactory::new(0, 0, 0).unwrap();
    assert_eq!(factory.from_map(Vec::new()).unwrap(), Vec::new());
    assert_eq!(factory.from_map(vec![(UnitKind::Reaper, 0)]).unwrap(), Vec::new());
}

#[test]
fn from_map_refuses_a_negative_count() {
    let factory = UnitFactory::new(0, 0, 0).unwrap();
    assert_eq!(
        factory.from_map(vec![(UnitKind::Cruiser, 2), (UnitKind::Bomber, -1)]).err(),
        Some(FactoryError::NegativeCount)
    );
    assert_eq!(
        factory.from_map(vec![(UnitKind::Cruiser, i32::MIN)]).err(),
        Some(FactoryError::NegativeCount)
    );
}

#[test]
fn starter_units_follow_the_draw() {
    assert_eq!(UnitFactory::starter_unit(0), UnitFactory::light_fighter());
    assert_eq!(UnitFactory::starter_unit(1), UnitFactory::heavy_fighter());
    assert_eq!(UnitFactory::starter_unit(2), UnitFactory::cruiser());
}

#[test]
fn a_random_fleet_follows_its_dice() {
    let mut dice = Dice::scripted(vec![0, 1, 2, 5, 3]);
    let fleet = UnitFactory::random_fleet_from(7, &mut dice);
    let kinds: Vec<UnitKind> = fleet.iter().map(|u| u.kind).collect();
    assert_eq!(
        kinds,
        vec![
            UnitKind::LightFighter,
            UnitKind::HeavyFighter,
            UnitKind::Cruiser,
            UnitKind::Cruiser,
            UnitKind::LightFighter,
            UnitKind::LightFighter,
            UnitKind::LightFighter
        ]
    );
    let mut one = Dice::scripted(vec![4]);
    assert_eq!(UnitFactory::random_unit(&mut one), UnitFactory::heavy_fighter());
}

#[test]
fn a_random_fleet_has_its_size_and_only_starters() {
    assert!(UnitFactory::random_fleet(0).is_empty());
    let fleet = UnitFactory::random_fleet(300);
    assert_eq!(fleet.len(), 300);
    let mut seen = [false; 3];
    for unit in &fleet {
        if *unit == UnitFactory::light_fighter() {
            seen[0] = true;
        } else if *unit == UnitFactory::heavy_fighter() {
            seen[1] = true;
        } else {
            assert_eq!(*unit, UnitFactory::cruiser());
            seen[2] = true;
        }
    }
    assert_eq!(seen, [true, true, true]);
}
