//! Units: technology levels, combat statistics and the damage rules.

use crate::kinds::{kind_name, rapid_fire, rapid_fire_factor, UnitKind, MAX_RAPID_FIRE};
use vstd::prelude::*;

verus! {

/// A survival chance of one, in parts per billion.
pub const FULL_CHANCE: u32 = 1_000_000_000;

/// `x`, or zero where `x` is negative.
pub open spec fn at_least_zero(x: int) -> int {
    if x < 0 {
        0
    } else {
        x
    }
}

/// `value` raised by a tenth of itself per technology level, rounded toward
/// zero, and held to the range of `i32`.
pub open spec fn scaled(level: int, value: int) -> int {
    let product = value * (10 + level);
    let tenth = if product >= 0 {
        product / 10
    } else {
        -((-product) / 10)
    };
    if tenth > i32::MAX {
        i32::MAX as int
    } else if tenth < i32::MIN {
        i32::MIN as int
    } else {
        tenth
    }
}

/// What a shot of strength `dmg` is worth against a unit with `shield` left of
/// a full shield of `base_shield`.
///
/// A shot stronger than the shield counts in full. A weaker one counts as the
/// whole percents of the full shield that it amounts to, which is nothing for
/// a shot under one percent.
pub open spec fn effective_damage(dmg: int, shield: int, base_shield: int) -> int {
    if dmg > shield {
        dmg
    } else if dmg > 0 && base_shield > 0 {
        (100 * dmg / base_shield) * base_shield / 100
    } else {
        0
    }
}

/// The survival chance after a hit that left `hull` of `base_hull`: none
/// where no hull is left, unchanged while the hull holds at seven tenths or
/// more, else multiplied by the share of the hull that is left, rounded
/// down.
pub open spec fn discounted(chance: int, hull: int, base_hull: int) -> int {
    if hull <= 0 {
        0
    } else if hull * 10 < base_hull * 7 {
        chance * hull / base_hull
    } else {
        chance
    }
}

/// Applies one technology level to one base value.
pub fn apply_tech(tech_level: i8, value: i32) -> (r: i32)
    ensures
        r == scaled(tech_level as int, value as int),
{
    let factor: i64 = 10 + tech_level as i64;
    assert(-0x4_0000_0000_0000 < (value as i64) * factor < 0x4_0000_0000_0000)
        by (nonlinear_arith)
        requires
            -118 <= factor <= 137,
            -0x8000_0000 <= value < 0x8000_0000,
    ;
    let product: i64 = (value as i64) * factor;
    let tenth: i64 = if product >= 0 {
        ((product as u64) / 10) as i64
    } else {
        -((((-product) as u64) / 10) as i64)
    };
    if tenth > i32::MAX as i64 {
        i32::MAX
    } else if tenth < i32::MIN as i64 {
        i32::MIN
    } else {
        tenth as i32
    }
}

/// The technology levels of one side.
#[derive(Debug, Clone, Copy, PartialEq, Eq)]
pub struct BattleTechs {
    pub atk: i8,
    pub shield: i8,
    pub hull: i8,
}

impl BattleTechs {
    pub fn new(atk: i8, shield: i8, hull: i8) -> (techs: Self)
        ensures
            techs == (BattleTechs { atk, shield, hull }),
    {
        Self { atk, shield, hull }
    }
}

/// The combat statistics of one unit.
///
/// The base values are fixed when the unit is made. `hull` and `shield` are
/// what is left of them, and `survival_chance` is the chance, in parts per
/// billion, that the unit is still there after the hits of this round.
#[derive(Debug, Clone, Copy, PartialEq, Eq)]
pub struct UnitStats {
    pub base_hull: i32,
    pub base_shield: i32,
    pub base_atk: i32,
    pub hull: i32,
    pub shield: i32,
    pub survival_chance: u32,
}

impl UnitStats {
    /// Hull and shield lie between zero and their base values, and the
    /// survival chance is at most one.
    pub open spec fn wf(&self) -> bool {
        &&& 0 <= self.hull <= self.base_hull
        &&& 0 <= self.shield <= self.base_shield
        &&& self.survival_chance <= FULL_CHANCE
    }

    /// The statistics of an undamaged unit. A negative hull or shield reads
    /// as zero.
    pub open spec fn fresh(hull: int, shield: int, atk: int) -> UnitStats {
        UnitStats {
            base_hull: at_least_zero(hull) as i32,
            base_shield: at_least_zero(shield) as i32,
            base_atk: atk as i32,
            hull: at_least_zero(hull) as i32,
            shield: at_least_zero(shield) as i32,
            survival_chance: FULL_CHANCE,
        }
    }

    /// The statistics after a shot of strength `dmg`.
    ///
    /// A shot that is worth nothing changes nothing. Otherwise the shield
    /// takes what it can, the hull takes the rest, neither falls below zero,
    /// and the survival chance is discounted by the hull that is left.
    pub open spec fn hit(self, dmg: int) -> UnitStats {
        let effective = effective_damage(dmg, self.shield as int, self.base_shield as int);
        if effective <= 0 {
            self
        } else {
            let hull = at_least_zero(self.hull - at_least_zero(effective - self.shield));
            UnitStats {
                hull: hull as i32,
                shield: at_least_zero(self.shield - effective) as i32,
                survival_chance: discounted(
                    self.survival_chance as int,
                    hull,
                    self.base_hull as int,
                ) as u32,
                ..self
            }
        }
    }

    /// The undamaged statistics that these base values give at the
    /// technology levels `techs`.
    pub open spec fn with_techs(self, techs: BattleTechs) -> UnitStats {
        Self::fresh(
            scaled(techs.hull as int, self.base_hull as int),
            scaled(techs.shield as int, self.base_shield as int),
            scaled(techs.atk as int, self.base_atk as int),
        )
    }

    /// The statistics at the start of the next round: the shield is back at
    /// its base value and the survival chance at one. The hull stays.
    pub open spec fn refreshed(self) -> UnitStats {
        UnitStats { shield: self.base_shield, survival_chance: FULL_CHANCE, ..self }
    }

    pub fn new(hull: i32, shield: i32, atk: i32) -> (stats: Self)
        ensures
            stats == Self::fresh(hull as int, shield as int, atk as int),
            stats.wf(),
    {
        let hull: i32 = if hull < 0 {
            0
        } else {
            hull
        };
        let shield: i32 = if shield < 0 {
            0
        } else {
            shield
        };
        Self {
            base_hull: hull,
            base_shield: shield,
            base_atk: atk,
            hull,
            shield,
            survival_chance: FULL_CHANCE,
        }
    }

    /// The undamaged statistics that these base values give at the
    /// technology levels `techs`.
    pub fn apply_techs(&self, techs: &BattleTechs) -> (stats: Self)
        ensures
            stats == self.with_techs(*techs),
            stats.wf(),
    {
        Self::new(
            apply_tech(techs.hull, self.base_hull),
            apply_tech(techs.shield, self.base_shield),
            apply_tech(techs.atk, self.base_atk),
        )
    }

    /// Takes a shot of strength `dmg`.
    pub fn receive_damage(&mut self, dmg: i32)
        ensures
            *final(self) == old(self).hit(dmg as int),
            old(self).wf() ==> final(self).wf(),
    {
        let effective: i64 = worth(dmg, self.shield, self.base_shield);
        if effective <= 0 {
            return ;
        }
        let shield: i64 = self.shield as i64;
        let through: i64 = if effective > shield {
            effective - shield
        } else {
            0
        };
        let hull: i64 = if self.hull as i64 > through {
            self.hull as i64 - through
        } else {
            0
        };
        let shield_left: i64 = if shield > effective {
            shield - effective
        } else {
            0
        };
        let chance: u32 = discount(self.survival_chance, hull as i32, self.base_hull);
        self.hull = hull as i32;
        self.shield = shield_left as i32;
        self.survival_chance = chance;
    }

    /// Restores the shield to its base value.
    pub fn restore_shield(&mut self)
        ensures
            *final(self) == (UnitStats { shield: old(self).base_shield, ..*old(self) }),
    {
        self.shield = self.base_shield;
    }

    /// Makes the unit ready for the next round.
    pub fn round_reset(&mut self)
        ensures
            *final(self) == old(self).refreshed(),
            final(self).shield == old(self).base_shield,
            final(self).survival_chance == FULL_CHANCE,
    {
        self.shield = self.base_shield;
        self.survival_chance = FULL_CHANCE;
    }
}

/// Computes what a shot is worth against a shield.
fn worth(dmg: i32, shield: i32, base_shield: i32) -> (effective: i64)
    ensures
        effective == effective_damage(dmg as int, shield as int, base_shield as int),
        effective <= dmg || effective == 0,
{
    if dmg > shield {
        dmg as i64
    } else if dmg > 0 && base_shield > 0 {
        let whole: u64 = 100 * (dmg as u64);
        let percent: u64 = whole / (base_shield as u64);
        assert(percent * base_shield <= whole) by (nonlinear_arith)
            requires
                percent == whole / (base_shield as u64),
                base_shield > 0,
        ;
        let prorated: u64 = (percent * (base_shield as u64)) / 100;
        prorated as i64
    } else {
        0
    }
}

/// Computes the survival chance after a hit that left `hull`.
fn discount(chance: u32, hull: i32, base_hull: i32) -> (r: u32)
    requires
        hull >= 0,
    ensures
        r == discounted(chance as int, hull as int, base_hull as int),
        r <= chance,
{
    if hull == 0 {
        0
    } else if (hull as i64) * 10 < (base_hull as i64) * 7 {
        assert(chance * hull <= 0xffff_ffff * 0x7fff_ffff) by (nonlinear_arith)
            requires
                0 <= chance <= 0xffff_ffff,
                0 <= hull <= 0x7fff_ffff,
        ;
        let product: u64 = (chance as u64) * (hull as u64);
        assert(product / (base_hull as u64) <= chance) by (nonlinear_arith)
            requires
                product == chance * hull,
                0 <= hull < base_hull,
        ;
        (product / (base_hull as u64)) as u32
    } else {
        chance
    }
}

/// A unit: a kind and its combat statistics.
#[derive(Debug, Clone, Copy, PartialEq, Eq)]
pub struct Unit {
    pub kind: UnitKind,
    pub stats: UnitStats,
}

impl Unit {
    /// The unit after a shot of `attacker`.
    pub open spec fn struck_by(self, attacker: Unit) -> Unit {
        Unit { kind: self.kind, stats: self.stats.hit(attacker.stats.base_atk as int) }
    }

    /// The unit at the start of the next round.
    pub open spec fn refreshed(self) -> Unit {
        Unit { kind: self.kind, stats: self.stats.refreshed() }
    }

    /// Whether the unit stays in its fleet: its survival chance is above
    /// `explosion_threshold`, both in parts per billion.
    pub open spec fn outlasts(self, explosion_threshold: u32) -> bool {
        explosion_threshold < self.stats.survival_chance
    }

    pub fn new(kind: UnitKind, stats: UnitStats) -> (unit: Self)
        ensures
            unit == (Unit { kind, stats }),
    {
        Unit { kind, stats }
    }

    /// Fires one shot at `unit`.
    pub fn attack(&self, unit: &mut Unit)
        ensures
            *final(unit) == old(unit).struck_by(*self),
            old(unit).stats.wf() ==> final(unit).stats.wf(),
    {
        unit.receive_damage(self.stats.base_atk)
    }

    /// Restores the shield to its base value.
    pub fn restore_shield(&mut self)
        ensures
            final(self).kind == old(self).kind,
            final(self).stats == (UnitStats {
                shield: old(self).stats.base_shield,
                ..old(self).stats
            }),
    {
        self.stats.restore_shield();
    }

    /// Makes the unit ready for the next round.
    pub fn round_reset(&mut self)
        ensures
            *final(self) == old(self).refreshed(),
    {
        self.stats.round_reset();
    }

    /// Whether the unit's survival chance is above `explosion_threshold`,
    /// both in parts per billion.
    pub fn survives(&self, explosion_threshold: u32) -> (b: bool)
        ensures
            b == self.outlasts(explosion_threshold),
    {
        explosion_threshold < self.stats.survival_chance
    }

    /// Whether no chance is left that the unit is still there.
    pub fn has_exploded(&self) -> (b: bool)
        ensures
            b == !self.outlasts(0),
    {
        self.stats.survival_chance == 0
    }

    /// The rapid-fire factor of this unit against `other`.
    pub fn get_rapidfire(&self, other: &Unit) -> (factor: i32)
        ensures
            factor == rapid_fire(self.kind, other.kind),
            1 <= factor <= MAX_RAPID_FIRE,
    {
        rapid_fire_factor(self.kind, other.kind)
    }

    /// Takes a shot of strength `dmg`.
    pub fn receive_damage(&mut self, dmg: i32)
        ensures
            final(self).kind == old(self).kind,
            final(self).stats == old(self).stats.hit(dmg as int),
            old(self).stats.wf() ==> final(self).stats.wf(),
    {
        self.stats.receive_damage(dmg)
    }

    /// The name of the unit's kind.
    pub fn to_string(&self) -> (name: String)
        ensures
            name@ == kind_name(self.kind),
    {
        self.kind.name().to_owned()
    }
}

/// The statistics after the shots `dmgs`, taken in order.
pub open spec fn after_hits(stats: UnitStats, dmgs: Seq<int>) -> UnitStats
    decreases dmgs.len(),
{
    if dmgs.len() == 0 {
        stats
    } else {
        after_hits(stats, dmgs.drop_last()).hit(dmgs.last())
    }
}

/// One shot leaves hull and shield between zero and where they stood, leaves
/// the base values alone, and does not raise the survival chance.
pub proof fn hit_wears_down(stats: UnitStats, dmg: int)
    requires
        stats.wf(),
    ensures
        stats.hit(dmg).wf(),
        0 <= stats.hit(dmg).hull <= stats.hull,
        0 <= stats.hit(dmg).shield <= stats.shield,
        stats.hit(dmg).survival_chance <= stats.survival_chance,
        stats.hit(dmg).base_hull == stats.base_hull,
        stats.hit(dmg).base_shield == stats.base_shield,
        stats.hit(dmg).base_atk == stats.base_atk,
{
    let effective = effective_damage(dmg, stats.shield as int, stats.base_shield as int);
    if effective > 0 {
        let hull = at_least_zero(stats.hull - at_least_zero(effective - stats.shield));
        discount_bounds(stats.survival_chance as int, hull, stats.base_hull as int);
    }
}

/// A discount never raises a chance, and lowers a full one.
proof fn discount_bounds(chance: int, hull: int, base_hull: int)
    requires
        0 <= chance,
        0 <= hull,
    ensures
        0 <= discounted(chance, hull, base_hull) <= chance,
        hull * 10 < base_hull * 7 && chance > 0 ==> discounted(chance, hull, base_hull) < chance,
{
    if hull > 0 && hull * 10 < base_hull * 7 {
        assert(0 <= chance * hull / base_hull <= chance && (chance > 0 ==> chance * hull
            / base_hull < chance)) by (nonlinear_arith)
            requires
                0 <= chance,
                0 <= hull < base_hull,
        ;
    }
}

/// Whatever shots a unit takes, its hull and shield never fall below zero
/// nor rise, its base values stay as they were made, and its survival chance
/// does not rise.
pub proof fn hits_wear_down(stats: UnitStats, dmgs: Seq<int>)
    requires
        stats.wf(),
    ensures
        after_hits(stats, dmgs).wf(),
        0 <= after_hits(stats, dmgs).hull <= stats.hull,
        0 <= after_hits(stats, dmgs).shield <= stats.shield,
        after_hits(stats, dmgs).survival_chance <= stats.survival_chance,
        after_hits(stats, dmgs).base_hull == stats.base_hull,
        after_hits(stats, dmgs).base_shield == stats.base_shield,
        after_hits(stats, dmgs).base_atk == stats.base_atk,
    decreases dmgs.len(),
{
    if dmgs.len() > 0 {
        hits_wear_down(stats, dmgs.drop_last());
        hit_wears_down(after_hits(stats, dmgs.drop_last()), dmgs.last());
    }
}

/// A unit that starts a round with at least seven tenths of its hull has
/// its full survival chance after the shots `dmgs` only if its hull is
/// still at seven tenths or more after them, and, where it has a hull at
/// all, whenever that is so. As the hull never rises, that is to say: if
/// and only if the hull never dropped below seven tenths.
pub proof fn full_chance_iff_hull_held(stats: UnitStats, dmgs: Seq<int>)
    requires
        stats.wf(),
        stats.survival_chance == FULL_CHANCE,
        stats.hull * 10 >= stats.base_hull * 7,
    ensures
        after_hits(stats, dmgs).survival_chance == FULL_CHANCE ==> after_hits(stats, dmgs).hull
            * 10 >= stats.base_hull * 7,
        stats.base_hull > 0 && after_hits(stats, dmgs).hull * 10 >= stats.base_hull * 7
            ==> after_hits(stats, dmgs).survival_chance == FULL_CHANCE,
    decreases dmgs.len(),
{
    if dmgs.len() > 0 {
        let before = after_hits(stats, dmgs.drop_last());
        full_chance_iff_hull_held(stats, dmgs.drop_last());
        hits_wear_down(stats, dmgs.drop_last());
        hit_wears_down(before, dmgs.last());
        let effective = effective_damage(
            dmgs.last(),
            before.shield as int,
            before.base_shield as int,
        );
        if effective > 0 {
            let hull = at_least_zero(before.hull - at_least_zero(effective - before.shield));
            discount_bounds(before.survival_chance as int, hull, before.base_hull as int);
        }
    }
}

/// A round reset gives a unit its full shield and its full survival chance
/// back, and keeps it well formed.
pub proof fn reset_restores_shield(stats: UnitStats)
    requires
        stats.wf(),
    ensures
        stats.refreshed().wf(),
        stats.refreshed().shield == stats.base_shield,
        stats.refreshed().hull == stats.hull,
        stats.refreshed().survival_chance == FULL_CHANCE,
{
}

} // verus!
