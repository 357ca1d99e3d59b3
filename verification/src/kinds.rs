//! Unit kinds and the tables that are keyed by them.

use vstd::prelude::*;

verus! {

/// How many unit kinds there are.
pub const KIND_COUNT: usize = 25;

/// The largest rapid-fire factor of the table.
pub const MAX_RAPID_FIRE: i32 = 250;

/// The kind of a unit: its identity, and the key of every per-kind table.
#[derive(Debug, Clone, Copy, Hash, PartialEq, Eq, Structural)]
pub enum UnitKind {
    LightFighter,
    HeavyFighter,
    Cruiser,
    Battleship,
    Battlecruiser,
    Bomber,
    Destroyer,
    Deathstar,
    Reaper,
    Pathfinder,
    RocketLauncher,
    LightLaser,
    HeavyLaser,
    GaussCannon,
    IonCannon,
    PlasmaTurret,
    SmallShieldDome,
    LargeShieldDome,
    SmallCargo,
    LargeCargo,
    ColonyShip,
    Recycler,
    EspionageProbe,
    SolarSatellite,
    Crawler,
}

/// The position of a kind in the order of declaration.
pub open spec fn kind_index(kind: UnitKind) -> int {
    match kind {
        UnitKind::LightFighter => 0,
        UnitKind::HeavyFighter => 1,
        UnitKind::Cruiser => 2,
        UnitKind::Battleship => 3,
        UnitKind::Battlecruiser => 4,
        UnitKind::Bomber => 5,
        UnitKind::Destroyer => 6,
        UnitKind::Deathstar => 7,
        UnitKind::Reaper => 8,
        UnitKind::Pathfinder => 9,
        UnitKind::RocketLauncher => 10,
        UnitKind::LightLaser => 11,
        UnitKind::HeavyLaser => 12,
        UnitKind::GaussCannon => 13,
        UnitKind::IonCannon => 14,
        UnitKind::PlasmaTurret => 15,
        UnitKind::SmallShieldDome => 16,
        UnitKind::LargeShieldDome => 17,
        UnitKind::SmallCargo => 18,
        UnitKind::LargeCargo => 19,
        UnitKind::ColonyShip => 20,
        UnitKind::Recycler => 21,
        UnitKind::EspionageProbe => 22,
        UnitKind::SolarSatellite => 23,
        UnitKind::Crawler => 24,
    }
}

/// The name under which a kind is reported.
pub open spec fn kind_name(kind: UnitKind) -> Seq<char> {
    match kind {
        UnitKind::LightFighter => "LightFighter"@,
        UnitKind::HeavyFighter => "HeavyFighter"@,
        UnitKind::Cruiser => "Cruiser"@,
        UnitKind::Battleship => "Battleship"@,
        UnitKind::Battlecruiser => "Battlecruiser"@,
        UnitKind::Bomber => "Bomber"@,
        UnitKind::Destroyer => "Destroyer"@,
        UnitKind::Deathstar => "Deathstar"@,
        UnitKind::Reaper => "Reaper"@,
        UnitKind::Pathfinder => "Pathfinder"@,
        UnitKind::RocketLauncher => "RocketLauncher"@,
        UnitKind::LightLaser => "LightLaser"@,
        UnitKind::HeavyLaser => "HeavyLaser"@,
        UnitKind::GaussCannon => "GaussCannon"@,
        UnitKind::IonCannon => "IonCannon"@,
        UnitKind::PlasmaTurret => "PlasmaTurret"@,
        UnitKind::SmallShieldDome => "SmallShieldDome"@,
        UnitKind::LargeShieldDome => "LargeShieldDome"@,
        UnitKind::SmallCargo => "SmallCargo"@,
        UnitKind::LargeCargo => "LargeCargo"@,
        UnitKind::ColonyShip => "ColonyShip"@,
        UnitKind::Recycler => "Recycler"@,
        UnitKind::EspionageProbe => "EspionageProbe"@,
        UnitKind::SolarSatellite => "SolarSatellite"@,
        UnitKind::Crawler => "Crawler"@,
    }
}

/// The unarmed craft that almost every ship shoots down in passing.
pub open spec fn is_drone(kind: UnitKind) -> bool {
    kind == UnitKind::EspionageProbe || kind == UnitKind::SolarSatellite || kind
        == UnitKind::Crawler
}

/// The ships that carry freight or settlers rather than weapons.
pub open spec fn is_freighter(kind: UnitKind) -> bool {
    kind == UnitKind::SmallCargo || kind == UnitKind::LargeCargo || kind == UnitKind::ColonyShip
        || kind == UnitKind::Recycler
}

/// The rapid-fire factor of a Deathstar against `target`.
pub open spec fn deathstar_rapid_fire(target: UnitKind) -> int {
    if is_drone(target) || is_freighter(target) {
        250
    } else {
        match target {
            UnitKind::LightFighter | UnitKind::RocketLauncher | UnitKind::LightLaser => 200,
            UnitKind::HeavyFighter | UnitKind::HeavyLaser | UnitKind::IonCannon => 100,
            UnitKind::GaussCannon => 50,
            UnitKind::Cruiser => 33,
            UnitKind::Battleship | UnitKind::Pathfinder => 30,
            UnitKind::Bomber => 25,
            UnitKind::Battlecruiser => 15,
            UnitKind::Reaper => 10,
            UnitKind::Destroyer => 5,
            _ => 1,
        }
    }
}

/// The rapid-fire factor of `attacker` against `target`: after a shot at such
/// a target the attacker fires again with `factor - 1` chances in `factor`.
///
/// Defences other than the ion cannon have no rapid fire. Every ship but the
/// Deathstar has factor 5 against drones, and a factor of its own against the
/// few kinds it is built to hunt. Every pair that is not named has factor 1.
pub open spec fn rapid_fire(attacker: UnitKind, target: UnitKind) -> int {
    match attacker {
        UnitKind::Deathstar => deathstar_rapid_fire(target),
        UnitKind::IonCannon => if target == UnitKind::Reaper {
            2
        } else {
            1
        },
        UnitKind::RocketLauncher
        | UnitKind::LightLaser
        | UnitKind::HeavyLaser
        | UnitKind::GaussCannon
        | UnitKind::PlasmaTurret
        | UnitKind::SmallShieldDome
        | UnitKind::LargeShieldDome
        | UnitKind::EspionageProbe
        | UnitKind::SolarSatellite
        | UnitKind::Crawler => 1,
        _ => if is_drone(target) {
            5
        } else {
            match (attacker, target) {
                (UnitKind::HeavyFighter, UnitKind::SmallCargo) => 3,
                (UnitKind::Cruiser, UnitKind::LightFighter) => 6,
                (UnitKind::Cruiser, UnitKind::RocketLauncher) => 10,
                (UnitKind::Battleship, UnitKind::Pathfinder) => 5,
                (UnitKind::Battlecruiser, UnitKind::HeavyFighter) => 4,
                (UnitKind::Battlecruiser, UnitKind::Cruiser) => 4,
                (UnitKind::Battlecruiser, UnitKind::Battleship) => 7,
                (UnitKind::Battlecruiser, UnitKind::SmallCargo) => 3,
                (UnitKind::Battlecruiser, UnitKind::LargeCargo) => 3,
                (UnitKind::Bomber, UnitKind::RocketLauncher) => 20,
                (UnitKind::Bomber, UnitKind::LightLaser) => 20,
                (UnitKind::Bomber, UnitKind::HeavyLaser) => 10,
                (UnitKind::Bomber, UnitKind::IonCannon) => 10,
                (UnitKind::Bomber, UnitKind::GaussCannon) => 5,
                (UnitKind::Bomber, UnitKind::PlasmaTurret) => 5,
                (UnitKind::Destroyer, UnitKind::Battlecruiser) => 2,
                (UnitKind::Destroyer, UnitKind::LightLaser) => 10,
                (UnitKind::Reaper, UnitKind::Battleship) => 7,
                (UnitKind::Reaper, UnitKind::Bomber) => 4,
                (UnitKind::Reaper, UnitKind::Destroyer) => 3,
                (UnitKind::Pathfinder, UnitKind::LightFighter) => 3,
                (UnitKind::Pathfinder, UnitKind::HeavyFighter) => 2,
                (UnitKind::Pathfinder, UnitKind::Cruiser) => 3,
                _ => 1,
            }
        },
    }
}

/// Every rapid-fire factor lies between 1 and the largest of the table.
pub proof fn rapid_fire_in_range(attacker: UnitKind, target: UnitKind)
    ensures
        1 <= rapid_fire(attacker, target) <= MAX_RAPID_FIRE,
{
}

/// Looks up the rapid-fire factor of `attacker` against `target`.
pub fn rapid_fire_factor(attacker: UnitKind, target: UnitKind) -> (factor: i32)
    ensures
        factor == rapid_fire(attacker, target),
        1 <= factor <= MAX_RAPID_FIRE,
{
    match attacker {
        UnitKind::LightFighter => match target {
            UnitKind::EspionageProbe => 5,
            UnitKind::SolarSatellite => 5,
            UnitKind::Crawler => 5,
            _ => 1,
        },
        UnitKind::HeavyFighter => match target {
            UnitKind::EspionageProbe => 5,
            UnitKind::SolarSatellite => 5,
            UnitKind::Crawler => 5,
            UnitKind::SmallCargo => 3,
            _ => 1,
        },
        UnitKind::Cruiser => match target {
            UnitKind::EspionageProbe => 5,
            UnitKind::SolarSatellite => 5,
            UnitKind::Crawler => 5,
            UnitKind::LightFighter => 6,
            UnitKind::RocketLauncher => 10,
            _ => 1,
        },
        UnitKind::Battleship => match target {
            UnitKind::EspionageProbe => 5,
            UnitKind::SolarSatellite => 5,
            UnitKind::Crawler => 5,
            UnitKind::Pathfinder => 5,
            _ => 1,
        },
        UnitKind::Battlecruiser => match target {
            UnitKind::EspionageProbe => 5,
            UnitKind::SolarSatellite => 5,
            UnitKind::Crawler => 5,
            UnitKind::HeavyFighter => 4,
            UnitKind::Cruiser => 4,
            UnitKind::Battleship => 7,
            UnitKind::SmallCargo => 3,
            UnitKind::LargeCargo => 3,
            _ => 1,
        },
        UnitKind::Bomber => match target {
            UnitKind::EspionageProbe => 5,
            UnitKind::SolarSatellite => 5,
            UnitKind::Crawler => 5,
            UnitKind::RocketLauncher => 20,
            UnitKind::LightLaser => 20,
            UnitKind::HeavyLaser => 10,
            UnitKind::IonCannon => 10,
            UnitKind::GaussCannon => 5,
            UnitKind::PlasmaTurret => 5,
            _ => 1,
        },
        UnitKind::Destroyer => match target {
            UnitKind::EspionageProbe => 5,
            UnitKind::SolarSatellite => 5,
            UnitKind::Crawler => 5,
            UnitKind::Battlecruiser => 2,
            UnitKind::LightLaser => 10,
            _ => 1,
        },
        UnitKind::Deathstar => match target {
            UnitKind::EspionageProbe => 250,
            UnitKind::SolarSatellite => 250,
            UnitKind::Crawler => 250,
            UnitKind::LightFighter => 200,
            UnitKind::HeavyFighter => 100,
            UnitKind::Cruiser => 33,
            UnitKind::Battleship => 30,
            UnitKind::Battlecruiser => 15,
            UnitKind::Bomber => 25,
            UnitKind::Destroyer => 5,
            UnitKind::Reaper => 10,
            UnitKind::SmallCargo => 250,
            UnitKind::LargeCargo => 250,
            UnitKind::ColonyShip => 250,
            UnitKind::Recycler => 250,
            UnitKind::RocketLauncher => 200,
            UnitKind::LightLaser => 200,
            UnitKind::HeavyLaser => 100,
            UnitKind::IonCannon => 100,
            UnitKind::GaussCannon => 50,
            UnitKind::Pathfinder => 30,
            _ => 1,
        },
        UnitKind::Reaper => match target {
            UnitKind::EspionageProbe => 5,
            UnitKind::SolarSatellite => 5,
            UnitKind::Crawler => 5,
            UnitKind::Battleship => 7,
            UnitKind::Bomber => 4,
            UnitKind::Destroyer => 3,
            _ => 1,
        },
        UnitKind::Pathfinder => match target {
            UnitKind::EspionageProbe => 5,
            UnitKind::SolarSatellite => 5,
            UnitKind::Crawler => 5,
            UnitKind::LightFighter => 3,
            UnitKind::HeavyFighter => 2,
            UnitKind::Cruiser => 3,
            _ => 1,
        },
        UnitKind::IonCannon => match target {
            UnitKind::Reaper => 2,
            _ => 1,
        },
        UnitKind::SmallCargo
        | UnitKind::LargeCargo
        | UnitKind::ColonyShip
        | UnitKind::Recycler => match target {
            UnitKind::EspionageProbe => 5,
            UnitKind::SolarSatellite => 5,
            UnitKind::Crawler => 5,
            _ => 1,
        },
        _ => 1,
    }
}

impl UnitKind {
    /// The position of the kind in the order of declaration.
    pub fn index(self) -> (i: usize)
        ensures
            i == kind_index(self),
            i < KIND_COUNT,
    {
        match self {
            UnitKind::LightFighter => 0,
            UnitKind::HeavyFighter => 1,
            UnitKind::Cruiser => 2,
            UnitKind::Battleship => 3,
            UnitKind::Battlecruiser => 4,
            UnitKind::Bomber => 5,
            UnitKind::Destroyer => 6,
            UnitKind::Deathstar => 7,
            UnitKind::Reaper => 8,
            UnitKind::Pathfinder => 9,
            UnitKind::RocketLauncher => 10,
            UnitKind::LightLaser => 11,
            UnitKind::HeavyLaser => 12,
            UnitKind::GaussCannon => 13,
            UnitKind::IonCannon => 14,
            UnitKind::PlasmaTurret => 15,
            UnitKind::SmallShieldDome => 16,
            UnitKind::LargeShieldDome => 17,
            UnitKind::SmallCargo => 18,
            UnitKind::LargeCargo => 19,
            UnitKind::ColonyShip => 20,
            UnitKind::Recycler => 21,
            UnitKind::EspionageProbe => 22,
            UnitKind::SolarSatellite => 23,
            UnitKind::Crawler => 24,
        }
    }

    /// The kind at position `i` of the order of declaration, if there is one.
    pub fn from_index(i: usize) -> (kind: Option<UnitKind>)
        ensures
            i < KIND_COUNT <==> kind is Some,
            kind matches Some(k) ==> kind_index(k) == i,
    {
        match i {
            0 => Some(UnitKind::LightFighter),
            1 => Some(UnitKind::HeavyFighter),
            2 => Some(UnitKind::Cruiser),
            3 => Some(UnitKind::Battleship),
            4 => Some(UnitKind::Battlecruiser),
            5 => Some(UnitKind::Bomber),
            6 => Some(UnitKind::Destroyer),
            7 => Some(UnitKind::Deathstar),
            8 => Some(UnitKind::Reaper),
            9 => Some(UnitKind::Pathfinder),
            10 => Some(UnitKind::RocketLauncher),
            11 => Some(UnitKind::LightLaser),
            12 => Some(UnitKind::HeavyLaser),
            13 => Some(UnitKind::GaussCannon),
            14 => Some(UnitKind::IonCannon),
            15 => Some(UnitKind::PlasmaTurret),
            16 => Some(UnitKind::SmallShieldDome),
            17 => Some(UnitKind::LargeShieldDome),
            18 => Some(UnitKind::SmallCargo),
            19 => Some(UnitKind::LargeCargo),
            20 => Some(UnitKind::ColonyShip),
            21 => Some(UnitKind::Recycler),
            22 => Some(UnitKind::EspionageProbe),
            23 => Some(UnitKind::SolarSatellite),
            24 => Some(UnitKind::Crawler),
            _ => None,
        }
    }

    /// The name under which the kind is reported.
    pub fn name(self) -> (name: &'static str)
        ensures
            name@ == kind_name(self),
    {
        match self {
            UnitKind::LightFighter => "LightFighter",
            UnitKind::HeavyFighter => "HeavyFighter",
            UnitKind::Cruiser => "Cruiser",
            UnitKind::Battleship => "Battleship",
            UnitKind::Battlecruiser => "Battlecruiser",
            UnitKind::Bomber => "Bomber",
            UnitKind::Destroyer => "Destroyer",
            UnitKind::Deathstar => "Deathstar",
            UnitKind::Reaper => "Reaper",
            UnitKind::Pathfinder => "Pathfinder",
            UnitKind::RocketLauncher => "RocketLauncher",
            UnitKind::LightLaser => "LightLaser",
            UnitKind::HeavyLaser => "HeavyLaser",
            UnitKind::GaussCannon => "GaussCannon",
            UnitKind::IonCannon => "IonCannon",
            UnitKind::PlasmaTurret => "PlasmaTurret",
            UnitKind::SmallShieldDome => "SmallShieldDome",
            UnitKind::LargeShieldDome => "LargeShieldDome",
            UnitKind::SmallCargo => "SmallCargo",
            UnitKind::LargeCargo => "LargeCargo",
            UnitKind::ColonyShip => "ColonyShip",
            UnitKind::Recycler => "Recycler",
            UnitKind::EspionageProbe => "EspionageProbe",
            UnitKind::SolarSatellite => "SolarSatellite",
            UnitKind::Crawler => "Crawler",
        }
    }
}

} // verus!
