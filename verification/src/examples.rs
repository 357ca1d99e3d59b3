//! A worked example: a large raid on a defended planet.

use crate::battle::{fight, state_of, Battle, BattleState, Sides, DEFAULT_EXPLOSION_THRESHOLD};
use crate::factory::{fleet_of, UnitFactory};
use crate::kinds::UnitKind;
use crate::units::{BattleTechs, Unit};
use vstd::prelude::*;

verus! {

/// The technology levels of the raiders.
pub open spec fn raider_techs() -> BattleTechs {
    BattleTechs { atk: 20, shield: 19, hull: 20 }
}

/// The technology levels of the planet.
pub open spec fn planet_techs() -> BattleTechs {
    BattleTechs { atk: 14, shield: 14, hull: 15 }
}

/// The raiding fleet, as an order to a factory.
pub open spec fn raider_order() -> Seq<(UnitKind, i32)> {
    seq![(UnitKind::Battleship, 15000i32), (UnitKind::Battlecruiser, 10000i32)]
}

/// The ships and defences of the planet, as an order to a factory.
pub open spec fn planet_order() -> Seq<(UnitKind, i32)> {
    seq![
        (UnitKind::LightFighter, 147i32),
        (UnitKind::Cruiser, 441i32),
        (UnitKind::Battleship, 60i32),
        (UnitKind::Pathfinder, 1429i32),
        (UnitKind::SmallCargo, 11479i32),
        (UnitKind::LargeCargo, 2981i32),
        (UnitKind::Recycler, 5i32),
        (UnitKind::EspionageProbe, 6717i32),
        (UnitKind::SolarSatellite, 30i32),
        (UnitKind::RocketLauncher, 50311i32),
        (UnitKind::LightLaser, 10007i32),
        (UnitKind::GaussCannon, 500i32),
        (UnitKind::PlasmaTurret, 46i32),
        (UnitKind::SmallShieldDome, 1i32),
        (UnitKind::LargeShieldDome, 1i32),
    ]
}

/// The fleets with which the example starts.
pub open spec fn example_start() -> Sides {
    Sides {
        attackers: fleet_of(raider_techs(), raider_order()),
        defenders: fleet_of(planet_techs(), planet_order()),
    }
}

/// A home for worked examples.
pub trait Examples {

}

impl dyn Examples {
    /// Builds the two fleets of the example and sets up their battle, with
    /// the default explosion threshold and dice that draw at random.
    pub fn battle_example() -> (battle: Battle)
        ensures
            battle.start() == example_start(),
            battle.sides() == example_start(),
            battle.explosion_threshold == DEFAULT_EXPLOSION_THRESHOLD,
            battle.rounds_fought == 0,
            battle.dice.history() == Seq::<u64>::empty(),
            battle.dice.pending() == Seq::<u64>::empty(),
            battle.dice.live(),
    {
        let attacker_factory: UnitFactory = UnitFactory::new(20, 19, 20).unwrap();
        let defender_factory: UnitFactory = UnitFactory::new(14, 14, 15).unwrap();
        let raiders: Vec<(UnitKind, i32)> = vec![
            (UnitKind::Battleship, 15000),
            (UnitKind::Battlecruiser, 10000),
        ];
        let planet: Vec<(UnitKind, i32)> = vec![
            (UnitKind::LightFighter, 147),
            (UnitKind::Cruiser, 441),
            (UnitKind::Battleship, 60),
            (UnitKind::Pathfinder, 1429),
            (UnitKind::SmallCargo, 11479),
            (UnitKind::LargeCargo, 2981),
            (UnitKind::Recycler, 5),
            (UnitKind::EspionageProbe, 6717),
            (UnitKind::SolarSatellite, 30),
            (UnitKind::RocketLauncher, 50311),
            (UnitKind::LightLaser, 10007),
            (UnitKind::GaussCannon, 500),
            (UnitKind::PlasmaTurret, 46),
            (UnitKind::SmallShieldDome, 1),
            (UnitKind::LargeShieldDome, 1),
        ];
        assert(raiders@ == raider_order());
        assert(planet@ == planet_order());
        let attackers: Vec<Unit> = attacker_factory.from_map(raiders).unwrap();
        let defenders: Vec<Unit> = defender_factory.from_map(planet).unwrap();
        Battle::new(attackers, defenders)
    }

    /// Builds the two fleets of the example and fights their battle to its
    /// end, with the default explosion threshold and dice that draw at
    /// random.
    pub fn run_battle_example() -> (battle: Battle)
        ensures
            battle.start() == example_start(),
            battle.explosion_threshold == DEFAULT_EXPLOSION_THRESHOLD,
            state_of(battle.sides(), battle.rounds_fought as nat) != BattleState::Ongoing,
            battle.rounds_fought <= crate::battle::MAX_ROUNDS,
            fight(example_start(), battle.dice.history(), 0, DEFAULT_EXPLOSION_THRESHOLD, 0) == (
                battle.sides(),
                battle.dice.history().len(),
                battle.rounds_fought as nat,
            ),
    {
        let mut battle: Battle = Self::battle_example();
        battle.run();
        battle
    }
}

} // verus!
