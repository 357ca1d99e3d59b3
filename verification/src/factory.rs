//! The fleet factory: units of every kind at given technology levels.

use crate::dice::{follows_itself, follows_on, pick, Dice};
use crate::kinds::UnitKind;
use crate::units::{scaled, BattleTechs, Unit, UnitStats};
use vstd::prelude::*;

verus! {

/// The lowest technology level that a factory accepts. Below it the
/// multiplier of a base value would be negative.
pub const MIN_TECH_LEVEL: i8 = -10;

/// Why a factory or a fleet could not be made.
#[derive(Debug, Clone, Copy, PartialEq, Eq)]
pub enum FactoryError {
    /// A technology level is below [`MIN_TECH_LEVEL`].
    InvalidTechLevel,
    /// A fleet was ordered with a negative number of units of some kind.
    NegativeCount,
}

/// Hull, shield and attack of a kind before any technology is applied.
pub open spec fn base_values(kind: UnitKind) -> (int, int, int) {
    match kind {
        UnitKind::LightFighter => (400, 10, 50),
        UnitKind::HeavyFighter => (1_000, 25, 150),
        UnitKind::Cruiser => (2_700, 50, 400),
        UnitKind::Battleship => (6_000, 200, 1_000),
        UnitKind::Battlecruiser => (7_000, 400, 700),
        UnitKind::Bomber => (7_500, 500, 1_000),
        UnitKind::Destroyer => (11_000, 500, 2_000),
        UnitKind::Deathstar => (2_340_000, 50_000, 200_000),
        UnitKind::Reaper => (14_000, 700, 2_800),
        UnitKind::Pathfinder => (2_300, 100, 200),
        UnitKind::RocketLauncher => (200, 20, 80),
        UnitKind::LightLaser => (200, 25, 100),
        UnitKind::HeavyLaser => (800, 100, 250),
        UnitKind::GaussCannon => (3_500, 200, 1_100),
        UnitKind::IonCannon => (800, 500, 150),
        UnitKind::PlasmaTurret => (10_000, 300, 3_000),
        UnitKind::SmallShieldDome => (2_000, 2_000, 1),
        UnitKind::LargeShieldDome => (10_000, 10_000, 1),
        UnitKind::SmallCargo => (400, 10, 5),
        UnitKind::LargeCargo => (1_200, 25, 5),
        UnitKind::ColonyShip => (3_000, 100, 50),
        UnitKind::Recycler => (1_600, 10, 1),
        UnitKind::EspionageProbe => (100, 0, 0),
        UnitKind::SolarSatellite => (200, 1, 1),
        UnitKind::Crawler => (400, 1, 1),
    }
}

/// The undamaged unit of a kind at the technology levels `techs`.
pub open spec fn made(techs: BattleTechs, kind: UnitKind) -> Unit {
    let (hull, shield, atk) = base_values(kind);
    Unit { kind, stats: UnitStats::fresh(hull, shield, atk).with_techs(techs) }
}

/// Whether every level of `techs` is one that a factory accepts.
pub open spec fn valid_techs(techs: BattleTechs) -> bool {
    techs.atk >= MIN_TECH_LEVEL && techs.shield >= MIN_TECH_LEVEL && techs.hull >= MIN_TECH_LEVEL
}

/// Technology levels of zero: every unit keeps its base values.
pub open spec fn no_techs() -> BattleTechs {
    BattleTechs { atk: 0, shield: 0, hull: 0 }
}

/// `count` units that are all `unit`; none for a count of zero or less.
pub open spec fn squad(unit: Unit, count: int) -> Seq<Unit> {
    Seq::new(
        if count < 0 {
            0
        } else {
            count as nat
        },
        |i: int| unit,
    )
}

/// The fleet that an order gives: for each entry in turn, as many units of
/// its kind as it asks for.
pub open spec fn fleet_of(techs: BattleTechs, order: Seq<(UnitKind, i32)>) -> Seq<Unit>
    decreases order.len(),
{
    if order.len() == 0 {
        Seq::empty()
    } else {
        fleet_of(techs, order.drop_last()) + squad(
            made(techs, order.last().0),
            order.last().1 as int,
        )
    }
}

/// Whether an order asks for a negative number of units of some kind.
pub open spec fn has_negative_count(order: Seq<(UnitKind, i32)>) -> bool {
    exists|i: int| 0 <= i < order.len() && (#[trigger] order[i]).1 < 0
}

/// The unit that a draw below three picks for a random fleet.
pub open spec fn starter(draw: int) -> Unit {
    if draw == 0 {
        made(no_techs(), UnitKind::LightFighter)
    } else if draw == 1 {
        made(no_techs(), UnitKind::HeavyFighter)
    } else {
        made(no_techs(), UnitKind::Cruiser)
    }
}

/// Without technology a unit keeps the values it was made with.
pub proof fn unscaled_without_techs(stats: UnitStats)
    requires
        stats.wf(),
        stats.hull == stats.base_hull,
        stats.shield == stats.base_shield,
        stats.survival_chance == crate::units::FULL_CHANCE,
    ensures
        stats.with_techs(no_techs()) == stats,
{
    assert(scaled(0, stats.base_hull as int) == stats.base_hull);
    assert(scaled(0, stats.base_shield as int) == stats.base_shield);
    assert(scaled(0, stats.base_atk as int) == stats.base_atk);
}

/// Builds units at fixed technology levels.
#[derive(Debug)]
pub struct UnitFactory {
    techs: BattleTechs,
}

impl UnitFactory {
    /// The technology levels that the factory applies.
    pub closed spec fn techs(&self) -> BattleTechs {
        self.techs
    }

    /// A factory for the given technology levels, unless one of them is
    /// below [`MIN_TECH_LEVEL`].
    pub fn new(atk: i8, shield: i8, hull: i8) -> (factory: Result<Self, FactoryError>)
        ensures
            valid_techs(BattleTechs { atk, shield, hull }) <==> factory is Ok,
            factory matches Ok(f) ==> f.techs() == (BattleTechs { atk, shield, hull }),
            factory matches Err(e) ==> e == FactoryError::InvalidTechLevel,
    {
        if atk < MIN_TECH_LEVEL || shield < MIN_TECH_LEVEL || hull < MIN_TECH_LEVEL {
            Err(FactoryError::InvalidTechLevel)
        } else {
            Ok(Self { techs: BattleTechs::new(atk, shield, hull) })
        }
    }

    /// The technology levels that the factory applies.
    pub fn battle_techs(&self) -> (techs: BattleTechs)
        ensures
            techs == self.techs(),
    {
        self.techs
    }

    /// Builds a fleet to order. The order lists kinds with the number of
    /// units wanted of each; an order with a negative number is refused.
    pub fn from_map(&self, kind_map: Vec<(UnitKind, i32)>) -> (fleet: Result<
        Vec<Unit>,
        FactoryError,
    >)
        ensures
            has_negative_count(kind_map@) <==> fleet is Err,
            fleet matches Ok(units) ==> units@ == fleet_of(self.techs(), kind_map@),
            fleet matches Err(e) ==> e == FactoryError::NegativeCount,
    {
        let mut units: Vec<Unit> = Vec::new();
        let mut i: usize = 0;
        while i < kind_map.len()
            invariant
                i <= kind_map.len(),
                units@ == fleet_of(self.techs(), kind_map@.take(i as int)),
                forall|j: int| 0 <= j < i ==> (#[trigger] kind_map@[j]).1 >= 0,
            decreases kind_map.len() - i,
        {
            let entry: (UnitKind, i32) = kind_map[i];
            if entry.1 < 0 {
                return Err(FactoryError::NegativeCount);
            }
            let unit: Unit = self.create(entry.0);
            let ghost before = units@;
            let mut n: i32 = 0;
            while n < entry.1
                invariant
                    0 <= n <= entry.1,
                    units@ == before + squad(unit, n as int),
                decreases entry.1 - n,
            {
                units.push(unit);
                n = n + 1;
            }
            proof {
                assert(kind_map@.take(i as int + 1).drop_last() == kind_map@.take(i as int));
                assert(kind_map@.take(i as int + 1).last() == entry);
            }
            i = i + 1;
        }
        proof {
            assert(kind_map@.take(i as int) == kind_map@);
        }
        Ok(units)
    }

    /// Builds one undamaged unit of the given kind.
    pub fn create(&self, kind: UnitKind) -> (unit: Unit)
        ensures
            unit == made(self.techs(), kind),
            unit.stats.wf(),
    {
        let base_stats: UnitStats = match kind {
            UnitKind::LightFighter => UnitStats::new(400, 10, 50),
            UnitKind::HeavyFighter => UnitStats::new(1_000, 25, 150),
            UnitKind::Cruiser => UnitStats::new(2_700, 50, 400),
            UnitKind::Battleship => UnitStats::new(6_000, 200, 1_000),
            UnitKind::Battlecruiser => UnitStats::new(7_000, 400, 700),
            UnitKind::Bomber => UnitStats::new(7_500, 500, 1_000),
            UnitKind::Destroyer => UnitStats::new(11_000, 500, 2_000),
            UnitKind::Deathstar => UnitStats::new(2_340_000, 50_000, 200_000),
            UnitKind::Reaper => UnitStats::new(14_000, 700, 2_800),
            UnitKind::Pathfinder => UnitStats::new(2_300, 100, 200),
            UnitKind::RocketLauncher => UnitStats::new(200, 20, 80),
            UnitKind::LightLaser => UnitStats::new(200, 25, 100),
            UnitKind::HeavyLaser => UnitStats::new(800, 100, 250),
            UnitKind::GaussCannon => UnitStats::new(3_500, 200, 1_100),
            UnitKind::IonCannon => UnitStats::new(800, 500, 150),
            UnitKind::PlasmaTurret => UnitStats::new(10_000, 300, 3_000),
            UnitKind::SmallShieldDome => UnitStats::new(2_000, 2_000, 1),
            UnitKind::LargeShieldDome => UnitStats::new(10_000, 10_000, 1),
            UnitKind::SmallCargo => UnitStats::new(400, 10, 5),
            UnitKind::LargeCargo => UnitStats::new(1_200, 25, 5),
            UnitKind::ColonyShip => UnitStats::new(3_000, 100, 50),
            UnitKind::Recycler => UnitStats::new(1_600, 10, 1),
            UnitKind::EspionageProbe => UnitStats::new(100, 0, 0),
            UnitKind::SolarSatellite => UnitStats::new(200, 1, 1),
            UnitKind::Crawler => UnitStats::new(400, 1, 1),
        };
        Unit::new(kind, base_stats.apply_techs(&self.techs))
    }

    /// A Light Fighter without technology.
    pub fn light_fighter() -> (unit: Unit)
        ensures
            unit == made(no_techs(), UnitKind::LightFighter),
            unit.stats == UnitStats::fresh(400, 10, 50),
    {
        proof {
            unscaled_without_techs(UnitStats::fresh(400, 10, 50));
        }
        Unit::new(UnitKind::LightFighter, UnitStats::new(400, 10, 50))
    }

    /// A Heavy Fighter without technology.
    pub fn heavy_fighter() -> (unit: Unit)
        ensures
            unit == made(no_techs(), UnitKind::HeavyFighter),
            unit.stats == UnitStats::fresh(1_000, 25, 150),
    {
        proof {
            unscaled_without_techs(UnitStats::fresh(1_000, 25, 150));
        }
        Unit::new(UnitKind::HeavyFighter, UnitStats::new(1_000, 25, 150))
    }

    /// A Cruiser without technology.
    pub fn cruiser() -> (unit: Unit)
        ensures
            unit == made(no_techs(), UnitKind::Cruiser),
            unit.stats == UnitStats::fresh(2_700, 50, 400),
    {
        proof {
            unscaled_without_techs(UnitStats::fresh(2_700, 50, 400));
        }
        Unit::new(UnitKind::Cruiser, UnitStats::new(2_700, 50, 400))
    }

    /// The unit that a draw below three picks: a Light Fighter for 0, a
    /// Heavy Fighter for 1, a Cruiser for anything else.
    pub fn starter_unit(draw: u64) -> (unit: Unit)
        ensures
            unit == starter(draw as int),
    {
        if draw == 0 {
            Self::light_fighter()
        } else if draw == 1 {
            Self::heavy_fighter()
        } else {
            Self::cruiser()
        }
    }

    /// One unit without technology, its kind drawn from `dice`.
    pub fn random_unit(dice: &mut Dice) -> (unit: Unit)
        ensures
            final(dice).history().len() == old(dice).history().len() + 1,
            final(dice).follows(*old(dice)),
            unit == starter(pick(final(dice).history(), old(dice).history().len(), 3)),
    {
        let draw: u64 = dice.below(3);
        Self::starter_unit(draw)
    }

    /// A fleet of `size` units without technology, the kind of each drawn
    /// from `dice`, one draw per unit.
    pub fn random_fleet_from(size: u32, dice: &mut Dice) -> (fleet: Vec<Unit>)
        ensures
            fleet.len() == size,
            final(dice).history().len() == old(dice).history().len() + size,
            final(dice).follows(*old(dice)),
            forall|i: int|
                0 <= i < size ==> #[trigger] fleet@[i] == starter(
                    pick(final(dice).history(), (old(dice).history().len() + i) as nat, 3),
                ),
    {
        let mut fleet: Vec<Unit> = Vec::new();
        let ghost first = *dice;
        let ghost start = dice.history();
        let mut n: u32 = 0;
        proof {
            follows_itself(first);
        }
        while n < size
            invariant
                n <= size,
                fleet.len() == n,
                start == first.history(),
                dice.history().len() == start.len() + n,
                dice.follows(first),
                forall|i: int|
                    0 <= i < n ==> #[trigger] fleet@[i] == starter(
                        pick(dice.history(), (start.len() + i) as nat, 3),
                    ),
            decreases size - n,
        {
            let ghost second = *dice;
            let unit: Unit = Self::random_unit(dice);
            proof {
                follows_on(first, second, *dice);
            }
            fleet.push(unit);
            n = n + 1;
        }
        fleet
    }

    /// A fleet of `size` units without technology, each a Light Fighter, a
    /// Heavy Fighter or a Cruiser picked at random.
    pub fn random_fleet(size: u32) -> (fleet: Vec<Unit>)
        ensures
            fleet.len() == size,
            forall|i: int|
                0 <= i < size ==> #[trigger] fleet@[i] == starter(0) || fleet@[i] == starter(1)
                    || fleet@[i] == starter(2),
    {
        let mut dice: Dice = Dice::random();
        Self::random_fleet_from(size, &mut dice)
    }
}

} // verus!
