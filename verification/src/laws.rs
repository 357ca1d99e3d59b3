//! What holds of every battle, whatever the fleets and the draws.

use crate::battle::{
    campaign, fight, fight_settled, fires_again, round, side, state_of, strike, survivors,
    tallied_over, turn, units_over, volley, BattleState, Sides, MAX_ROUNDS, SHOT_LIMIT,
};
use crate::dice::{pick, pick_is_below, script_foretells, Dice};
use crate::kinds::{rapid_fire, UnitKind};
use crate::tally::count_of;
use crate::units::{hit_wears_down, Unit, FULL_CHANCE};
use vstd::prelude::*;
use vstd::set_lib::{lemma_int_range, set_int_range};

verus! {

/// The rolls below `factor` after which an attacker fires again.
pub open spec fn rolls_that_fire_again(factor: int) -> Set<int> {
    Set::new(|roll: int| 0 <= roll < factor && fires_again(factor, roll))
}

/// Of the `factor` rolls that a die can show, all but one let the attacker
/// fire again: each further shot follows with `factor - 1` chances in
/// `factor`, and with none where the factor is one.
pub proof fn all_rolls_but_one_fire_again(factor: int)
    requires
        factor >= 1,
    ensures
        rolls_that_fire_again(factor).finite(),
        rolls_that_fire_again(factor).len() == factor - 1,
{
    if factor == 1 {
        assert(rolls_that_fire_again(factor) =~= Set::<int>::empty());
    } else {
        assert(rolls_that_fire_again(factor) =~= set_int_range(1, factor));
        lemma_int_range(1, factor);
    }
}

/// A unit that has no rapid fire against any unit of a fleet fires exactly
/// one shot at it in its turn, and uses one draw for that.
pub proof fn one_shot_without_rapid_fire(
    attacker: Unit,
    targets: Seq<Unit>,
    log: Seq<u64>,
    at: nat,
    shots: nat,
)
    requires
        shots > 0,
        targets.len() > 0,
        forall|i: int|
            0 <= i < targets.len() ==> rapid_fire(attacker.kind, (#[trigger] targets[i]).kind)
                == 1,
    ensures
        turn(attacker, targets, log, at, shots) == (
            strike(attacker, targets, pick(log, at, targets.len() as int)),
            at + 1,
        ),
{
    let i = pick(log, at, targets.len() as int);
    pick_is_below(log, at, targets.len() as int);
    assert(rapid_fire(attacker.kind, targets[i].kind) == 1);
}

/// How many rolls in a row let an attacker with rapid-fire factor `factor`
/// fire again, of the rolls of a turn that starts at `at`, `limit` at most.
/// The rolls of a turn are every second draw, the first at `at + 1`.
pub open spec fn rolls_before_zero(log: Seq<u64>, at: nat, factor: int, limit: nat) -> nat
    decreases limit,
{
    if limit == 0 || !fires_again(factor, pick(log, at + 1, factor)) {
        0
    } else {
        1 + rolls_before_zero(log, at + 2, factor, (limit - 1) as nat)
    }
}

/// Against a fleet on whose every unit the attacker has the same
/// rapid-fire factor above one, a turn is one shot and then one more for
/// every roll before the first that comes up zero, up to the limit. Each
/// shot takes two draws: the target and the roll.
pub proof fn shots_follow_the_rolls(
    attacker: Unit,
    targets: Seq<Unit>,
    log: Seq<u64>,
    at: nat,
    shots: nat,
    factor: int,
)
    requires
        shots > 0,
        targets.len() > 0,
        factor > 1,
        forall|i: int|
            0 <= i < targets.len() ==> rapid_fire(attacker.kind, (#[trigger] targets[i]).kind)
                == factor,
    ensures
        turn(attacker, targets, log, at, shots).1 == at + 2 * (1 + rolls_before_zero(
            log,
            at,
            factor,
            (shots - 1) as nat,
        )),
    decreases shots,
{
    let i = pick(log, at, targets.len() as int);
    pick_is_below(log, at, targets.len() as int);
    let after = strike(attacker, targets, i);
    assert(rapid_fire(attacker.kind, targets[i].kind) == factor);
    if fires_again(factor, pick(log, at + 1, factor)) && shots > 1 {
        assert forall|j: int| 0 <= j < after.len() implies rapid_fire(
            attacker.kind,
            (#[trigger] after[j]).kind,
        ) == factor by {
            assert(after[j].kind == targets[j].kind);
        }
        shots_follow_the_rolls(attacker, after, log, at + 2, (shots - 1) as nat, factor);
    } else if shots == 1 {
        assert(turn(attacker, after, log, at + 2, 0) == (after, at + 2));
    }
}

/// Whether `after` is what shots can have made of `before`: the same kind
/// and base values, hull and shield between zero and where they stood, and
/// a survival chance that is no higher.
pub open spec fn worn(before: Unit, after: Unit) -> bool {
    &&& after.kind == before.kind
    &&& after.stats.base_hull == before.stats.base_hull
    &&& after.stats.base_shield == before.stats.base_shield
    &&& after.stats.base_atk == before.stats.base_atk
    &&& 0 <= after.stats.hull <= before.stats.hull
    &&& 0 <= after.stats.shield <= before.stats.shield
    &&& after.stats.survival_chance <= before.stats.survival_chance
    &&& after.stats.wf()
}

/// Whether `after` holds the units of `before`, each in its place and
/// worn.
pub open spec fn fleet_worn(before: Seq<Unit>, after: Seq<Unit>) -> bool {
    &&& after.len() == before.len()
    &&& forall|i: int| 0 <= i < before.len() ==> #[trigger] worn(before[i], after[i])
}

/// Whether every unit of a fleet has hull and shield between zero and
/// their base values.
pub open spec fn fleet_wf(fleet: Seq<Unit>) -> bool {
    forall|i: int| 0 <= i < fleet.len() ==> (#[trigger] fleet[i]).stats.wf()
}

/// Whether every unit of a fleet has its full shield and its full survival
/// chance.
pub open spec fn fleet_ready(fleet: Seq<Unit>) -> bool {
    forall|i: int|
        0 <= i < fleet.len() ==> (#[trigger] fleet[i]).stats.shield == fleet[i].stats.base_shield
            && fleet[i].stats.survival_chance == FULL_CHANCE
}

/// A turn removes no unit and adds none, and leaves every unit of the
/// fleet it is aimed at worn at most: no hull or shield below zero.
pub proof fn turn_wears_down(
    attacker: Unit,
    targets: Seq<Unit>,
    log: Seq<u64>,
    at: nat,
    shots: nat,
)
    requires
        fleet_wf(targets),
    ensures
        fleet_worn(targets, turn(attacker, targets, log, at, shots).0),
        fleet_wf(turn(attacker, targets, log, at, shots).0),
        at <= turn(attacker, targets, log, at, shots).1,
    decreases shots,
{
    if shots == 0 || targets.len() == 0 {
        assert forall|i: int| 0 <= i < targets.len() implies #[trigger] worn(
            targets[i],
            targets[i],
        ) by {
            assert(targets[i].stats.wf());
        }
    } else {
        let i = pick(log, at, targets.len() as int);
        pick_is_below(log, at, targets.len() as int);
        let after = strike(attacker, targets, i);
        hit_wears_down(targets[i].stats, attacker.stats.base_atk as int);
        assert forall|j: int| 0 <= j < targets.len() implies #[trigger] worn(
            targets[j],
            after[j],
        ) by {
            assert(targets[j].stats.wf());
        }
        assert forall|j: int| 0 <= j < after.len() implies (#[trigger] after[j]).stats.wf() by {
            assert(worn(targets[j], after[j]));
        }
        let factor = rapid_fire(attacker.kind, targets[i].kind);
        if factor > 1 && fires_again(factor, pick(log, at + 1, factor)) {
            turn_wears_down(attacker, after, log, at + 2, (shots - 1) as nat);
            let last = turn(attacker, after, log, at + 2, (shots - 1) as nat).0;
            assert forall|j: int| 0 <= j < targets.len() implies #[trigger] worn(
                targets[j],
                last[j],
            ) by {
                assert(worn(targets[j], after[j]));
                assert(worn(after[j], last[j]));
            }
        }
    }
}

/// A volley removes no unit and adds none, and leaves every unit of the
/// fleet it is aimed at worn at most.
pub proof fn volley_wears_down(
    shooters: Seq<Unit>,
    from: nat,
    targets: Seq<Unit>,
    log: Seq<u64>,
    at: nat,
)
    requires
        fleet_wf(targets),
    ensures
        fleet_worn(targets, volley(shooters, from, targets, log, at).0),
        fleet_wf(volley(shooters, from, targets, log, at).0),
        at <= volley(shooters, from, targets, log, at).1,
    decreases shooters.len() - from,
{
    if from >= shooters.len() {
        assert forall|i: int| 0 <= i < targets.len() implies #[trigger] worn(
            targets[i],
            targets[i],
        ) by {
            assert(targets[i].stats.wf());
        }
    } else {
        let (after, next) = turn(shooters[from as int], targets, log, at, SHOT_LIMIT as nat);
        turn_wears_down(shooters[from as int], targets, log, at, SHOT_LIMIT as nat);
        volley_wears_down(shooters, from + 1, after, log, next);
        let last = volley(shooters, from + 1, after, log, next).0;
        assert forall|j: int| 0 <= j < targets.len() implies #[trigger] worn(
            targets[j],
            last[j],
        ) by {
            assert(worn(targets[j], after[j]));
            assert(worn(after[j], last[j]));
        }
    }
}

/// The cleanup removes units and adds none. Every unit that it leaves is
/// ready for the next round: its shield is its base shield, its survival
/// chance is full.
pub proof fn survivors_are_ready(fleet: Seq<Unit>, threshold: u32)
    requires
        fleet_wf(fleet),
    ensures
        survivors(fleet, threshold).len() <= fleet.len(),
        fleet_wf(survivors(fleet, threshold)),
        fleet_ready(survivors(fleet, threshold)),
    decreases fleet.len(),
{
    if fleet.len() > 0 {
        let rest = fleet.drop_last();
        assert forall|i: int| 0 <= i < rest.len() implies (#[trigger] rest[i]).stats.wf() by {
            assert(fleet[i].stats.wf());
        }
        survivors_are_ready(rest, threshold);
        assert(fleet.last().stats.wf());
    }
}

/// A round leaves both fleets no larger than they were, with every unit
/// ready for the next round and no hull or shield below zero.
pub proof fn round_keeps_order(sides: Sides, log: Seq<u64>, at: nat, threshold: u32)
    requires
        fleet_wf(sides.attackers),
        fleet_wf(sides.defenders),
    ensures
        ({
            let (after, end) = round(sides, log, at, threshold);
            &&& after.attackers.len() <= sides.attackers.len()
            &&& after.defenders.len() <= sides.defenders.len()
            &&& fleet_wf(after.attackers)
            &&& fleet_wf(after.defenders)
            &&& fleet_ready(after.attackers)
            &&& fleet_ready(after.defenders)
            &&& at <= end
        }),
{
    let (defenders, mid) = volley(sides.attackers, 0, sides.defenders, log, at);
    volley_wears_down(sides.attackers, 0, sides.defenders, log, at);
    let (attackers, end) = volley(defenders, 0, sides.attackers, log, mid);
    volley_wears_down(defenders, 0, sides.attackers, log, mid);
    survivors_are_ready(attackers, threshold);
    survivors_are_ready(defenders, threshold);
}

/// Every battle ends: with an empty fleet or at the round limit, and after
/// no more rounds than the limit allows. Neither fleet has grown by then,
/// and no unit has hull or shield below zero. Where no round was fought the
/// fleets are as they were; else every unit is ready for a next round.
pub proof fn fight_ends(sides: Sides, log: Seq<u64>, at: nat, threshold: u32, fought: nat)
    requires
        fleet_wf(sides.attackers),
        fleet_wf(sides.defenders),
    ensures
        ({
            let (after, end, rounds) = fight(sides, log, at, threshold, fought);
            &&& state_of(after, rounds) != BattleState::Ongoing
            &&& fought <= rounds
            &&& fought <= MAX_ROUNDS ==> rounds <= MAX_ROUNDS
            &&& at <= end
            &&& after.attackers.len() <= sides.attackers.len()
            &&& after.defenders.len() <= sides.defenders.len()
            &&& fleet_wf(after.attackers)
            &&& fleet_wf(after.defenders)
            &&& rounds == fought ==> after == sides
            &&& rounds > fought ==> fleet_ready(after.attackers) && fleet_ready(after.defenders)
        }),
    decreases MAX_ROUNDS - fought,
{
    if state_of(sides, fought) == BattleState::Ongoing {
        let (next, end) = round(sides, log, at, threshold);
        round_keeps_order(sides, log, at, threshold);
        fight_ends(next, log, end, threshold, fought + 1);
    }
}

/// One trial is one run: the campaign of a single trial ends with the
/// fleets, and at the draw, with which a battle that is fought once from
/// the same starting fleets with the same draws ends, and its sums are the
/// head counts of those fleets.
pub proof fn one_trial_is_one_run(
    start: Sides,
    log: Seq<u64>,
    at: nat,
    threshold: u32,
    attacking: bool,
    kind: UnitKind,
)
    ensures
        ({
            let (outcome, end, rounds) = fight(start, log, at, threshold, 0);
            let (outcomes, last) = campaign(start, log, at, threshold, 1);
            &&& outcomes == seq![outcome]
            &&& last == end
            &&& tallied_over(outcomes, attacking, kind) == count_of(side(outcome, attacking), kind)
            &&& units_over(outcomes, attacking) == side(outcome, attacking).len()
        }),
{
    let (outcome, end, rounds) = fight(start, log, at, threshold, 0);
    reveal_with_fuel(campaign, 2);
    reveal_with_fuel(tallied_over, 2);
    reveal_with_fuel(units_over, 2);
    let outcomes = campaign(start, log, at, threshold, 1).0;
    assert(outcomes == seq![outcome]);
    assert(outcomes.drop_last() == Seq::<Sides>::empty());
    assert(outcomes.last() == outcome);
}

/// A script decides the battle: where a die that is not live, with no draw
/// made yet, has been through a battle, the battle ended as it ends with
/// the script of the die for its draws, however many of them it used.
pub proof fn a_script_decides_the_battle(
    before: Dice,
    after: Dice,
    sides: Sides,
    threshold: u32,
    fought: nat,
    outcome: Sides,
    rounds: nat,
)
    requires
        !before.live(),
        before.history().len() == 0,
        after.follows(before),
        fight_settled(sides, after.history(), 0, threshold, fought, outcome, rounds),
    ensures
        fight(sides, before.pending(), 0, threshold, fought) == (
            outcome,
            after.history().len(),
            rounds,
        ),
{
    script_foretells(before, after);
    assert(before.history() + before.pending() == before.pending());
}

} // verus!
