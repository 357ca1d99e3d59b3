//! The battle engine: shots, turns, rounds and repeated trials.

use crate::dice::{continues, follows_itself, follows_on, pick, Dice};
use crate::kinds::{rapid_fire, UnitKind, MAX_RAPID_FIRE};
use crate::tally::{count_of, Tally};
use crate::units::Unit;
use vstd::prelude::*;

verus! {

/// The number of rounds after which a battle ends whoever is left.
pub const MAX_ROUNDS: u32 = 6;

/// The number of shots that a counter of the machine can hold. A turn
/// would end after as many; no machine fires them.
pub const SHOT_LIMIT: u64 = 0xffff_ffff_ffff_ffff;

/// The explosion threshold of a battle that is given none: one half, in
/// parts per billion. A unit is removed once it is as likely lost as there.
pub const DEFAULT_EXPLOSION_THRESHOLD: u32 = 500_000_000;

/// The fleet after `attacker` has fired one shot at its unit number `i`.
pub open spec fn strike(attacker: Unit, targets: Seq<Unit>, i: int) -> Seq<Unit> {
    targets.update(i, targets[i].struck_by(attacker))
}

/// Whether an attacker with rapid-fire factor `factor` fires again after a
/// roll of `roll` below that factor: it does unless the roll is zero, and
/// never where its factor is one.
pub open spec fn fires_again(factor: int, roll: int) -> bool {
    factor > 1 && roll != 0
}

/// The turn of one unit against a fleet, with the draws of `log` from
/// position `at` on: the fleet after the turn, and the position of the first
/// draw that the turn has not used.
///
/// For each shot one draw below the fleet's size picks the target. Where
/// the rapid-fire factor against the target is above one, a second draw
/// below that factor is the roll that decides whether another shot follows.
/// The turn ends with the first shot that is not followed by another, and
/// after `shots` shots at the latest. Against an empty fleet nothing happens.
pub open spec fn turn(attacker: Unit, targets: Seq<Unit>, log: Seq<u64>, at: nat, shots: nat) -> (
    Seq<Unit>,
    nat,
)
    decreases shots,
{
    if shots == 0 || targets.len() == 0 {
        (targets, at)
    } else {
        let i = pick(log, at, targets.len() as int);
        let after = strike(attacker, targets, i);
        let factor = rapid_fire(attacker.kind, targets[i].kind);
        if factor <= 1 {
            (after, at + 1)
        } else if !fires_again(factor, pick(log, at + 1, factor)) {
            (after, at + 2)
        } else {
            turn(attacker, after, log, at + 2, (shots - 1) as nat)
        }
    }
}

/// The turns of the units of `shooters` from number `from` on, one after
/// the other, against one fleet: the fleet after them, and the position of
/// the first draw that they have not used.
pub open spec fn volley(
    shooters: Seq<Unit>,
    from: nat,
    targets: Seq<Unit>,
    log: Seq<u64>,
    at: nat,
) -> (Seq<Unit>, nat)
    decreases shooters.len() - from,
{
    if from >= shooters.len() {
        (targets, at)
    } else {
        let (after, next) = turn(shooters[from as int], targets, log, at, SHOT_LIMIT as nat);
        volley(shooters, from + 1, after, log, next)
    }
}

/// Whether `log` holds all the draws of a turn that starts at `at`, so that
/// the turn ends with `after` at the end of `log` however the log goes on.
pub open spec fn turn_settled(
    attacker: Unit,
    targets: Seq<Unit>,
    log: Seq<u64>,
    at: nat,
    shots: nat,
    after: Seq<Unit>,
) -> bool {
    forall|later: Seq<u64>| #[trigger]
        continues(later, log) ==> turn(attacker, targets, later, at, shots) == (after, log.len())
}

/// Whether `log` holds all the draws of a volley that starts at `at`, so
/// that the volley ends with `after` at the end of `log` however the log
/// goes on.
pub open spec fn volley_settled(
    shooters: Seq<Unit>,
    from: nat,
    targets: Seq<Unit>,
    log: Seq<u64>,
    at: nat,
    after: Seq<Unit>,
) -> bool {
    forall|later: Seq<u64>| #[trigger]
        continues(later, log) ==> volley(shooters, from, targets, later, at) == (after, log.len())
}

/// Fires one shot of `unit` at the unit number `index` of `targets`, and
/// returns the rapid-fire factor of `unit` against it.
pub fn attack_target(unit: &Unit, targets: &mut Vec<Unit>, index: usize) -> (factor: i32)
    requires
        index < old(targets).len(),
    ensures
        final(targets)@ == strike(*unit, old(targets)@, index as int),
        factor == rapid_fire(unit.kind, old(targets)@[index as int].kind),
        1 <= factor <= MAX_RAPID_FIRE,
{
    let mut target: Unit = targets[index];
    unit.attack(&mut target);
    let factor: i32 = unit.get_rapidfire(&target);
    targets[index] = target;
    factor
}

/// Decides from a roll below `factor` whether another shot follows.
pub fn rolls_again(factor: i32, roll: u64) -> (again: bool)
    ensures
        again == fires_again(factor as int, roll as int),
{
    factor > 1 && roll != 0
}

impl Battle {
    /// Fires one shot of `unit` at a target drawn from `dice`, and tells
    /// whether another shot follows. That takes one draw below the size of the
    /// fleet, and a second draw below the rapid-fire factor where that is
    /// above one.
    pub fn attack_random_target(unit: &Unit, targets: &mut Vec<Unit>, dice: &mut Dice) -> (again: bool)
        requires
            old(targets).len() > 0,
        ensures
            final(dice).follows(*old(dice)),
            ({
                let log = final(dice).history();
                let at = old(dice).history().len();
                let i = pick(log, at, old(targets).len() as int);
                let factor = rapid_fire(unit.kind, old(targets)@[i].kind);
                &&& final(targets)@ == strike(*unit, old(targets)@, i)
                &&& factor <= 1 ==> !again && log.len() == at + 1
                &&& factor > 1 ==> again == fires_again(factor, pick(log, at + 1, factor))
                    && log.len() == at + 2
            }),
    {
        let ghost first = *dice;
        let index: u64 = dice.below(targets.len() as u64);
        let factor: i32 = attack_target(unit, targets, index as usize);
        if factor > 1 {
            let ghost second = *dice;
            let roll: u64 = dice.below(factor as u64);
            proof {
                follows_on(first, second, *dice);
                assert(pick(dice.history(), first.history().len(), old(targets).len() as int)
                    == index);
            }
            rolls_again(factor, roll)
        } else {
            false
        }
    }

    /// Takes the turn of `unit` against `targets`: shots at targets drawn from
    /// `dice`, until a shot is not followed by another.
    pub fn compute_unit_turn(unit: &Unit, targets: &mut Vec<Unit>, dice: &mut Dice)
        ensures
            final(dice).follows(*old(dice)),
            turn(
                *unit,
                old(targets)@,
                final(dice).history(),
                old(dice).history().len(),
                SHOT_LIMIT as nat,
            ) == (final(targets)@, final(dice).history().len()),
            turn_settled(
                *unit,
                old(targets)@,
                final(dice).history(),
                old(dice).history().len(),
                SHOT_LIMIT as nat,
                final(targets)@,
            ),
    {
        let ghost first = *dice;
        let ghost start = dice.history();
        let ghost before = targets@;
        proof {
            follows_itself(first);
        }
        if targets.len() == 0 {
            return ;
        }
        let mut shots: u64 = 0;
        let mut again: bool = true;
        while again && shots < SHOT_LIMIT
            invariant
                shots <= SHOT_LIMIT,
                targets@.len() == before.len(),
                before.len() > 0,
                start == first.history(),
                dice.follows(first),
                again ==> forall|later: Seq<u64>| #[trigger]
                    continues(later, dice.history()) ==> turn(
                        *unit,
                        before,
                        later,
                        start.len(),
                        SHOT_LIMIT as nat,
                    ) == turn(
                        *unit,
                        targets@,
                        later,
                        dice.history().len(),
                        (SHOT_LIMIT - shots) as nat,
                    ),
                !again ==> turn_settled(
                    *unit,
                    before,
                    dice.history(),
                    start.len(),
                    SHOT_LIMIT as nat,
                    targets@,
                ),
            decreases SHOT_LIMIT - shots,
        {
            let ghost log0 = dice.history();
            let ghost fleet0 = targets@;
            let ghost second = *dice;
            again = Self::attack_random_target(unit, targets, dice);
            proof {
                follows_on(first, second, *dice);
                let log1 = dice.history();
                let fleet1 = targets@;
                let left = (SHOT_LIMIT - shots) as nat;
                assert forall|later: Seq<u64>| #[trigger] continues(later, log1) implies turn(
                    *unit,
                    before,
                    later,
                    start.len(),
                    SHOT_LIMIT as nat,
                ) == (if again {
                    turn(*unit, fleet1, later, log1.len(), (left - 1) as nat)
                } else {
                    (fleet1, log1.len())
                }) by {
                    assert(continues(later, log0));
                    let i = pick(log1, log0.len(), fleet0.len() as int);
                    assert(pick(later, log0.len(), fleet0.len() as int) == i);
                    let factor = rapid_fire(unit.kind, fleet0[i].kind);
                    if factor > 1 {
                        assert(pick(later, log0.len() + 1, factor) == pick(
                            log1,
                            log0.len() + 1,
                            factor,
                        ));
                    }
                }
            }
            shots = shots + 1;
        }
        proof {
            assert(continues(dice.history(), dice.history()));
        }
    }
}

/// Lets every unit of `shooters` take its turn against `targets`, in order.
pub fn fire_all(shooters: &Vec<Unit>, targets: &mut Vec<Unit>, dice: &mut Dice)
    ensures
        final(dice).follows(*old(dice)),
        volley(shooters@, 0, old(targets)@, final(dice).history(), old(dice).history().len())
            == (final(targets)@, final(dice).history().len()),
        volley_settled(
            shooters@,
            0,
            old(targets)@,
            final(dice).history(),
            old(dice).history().len(),
            final(targets)@,
        ),
{
    let ghost first = *dice;
    let ghost start = dice.history();
    let ghost before = targets@;
    let mut n: usize = 0;
    proof {
        follows_itself(first);
    }
    while n < shooters.len()
        invariant
            n <= shooters.len(),
            start == first.history(),
            dice.follows(first),
            forall|later: Seq<u64>| #[trigger]
                continues(later, dice.history()) ==> volley(
                    shooters@,
                    0,
                    before,
                    later,
                    start.len(),
                ) == volley(shooters@, n as nat, targets@, later, dice.history().len()),
        decreases shooters.len() - n,
    {
        let ghost log0 = dice.history();
        let ghost fleet0 = targets@;
        let ghost second = *dice;
        let unit: Unit = shooters[n];
        Battle::compute_unit_turn(&unit, targets, dice);
        proof {
            follows_on(first, second, *dice);
            let log1 = dice.history();
            assert forall|later: Seq<u64>| #[trigger] continues(later, log1) implies volley(
                shooters@,
                0,
                before,
                later,
                start.len(),
            ) == volley(shooters@, (n + 1) as nat, targets@, later, log1.len()) by {
                assert(continues(later, log0));
            }
        }
        n = n + 1;
    }
    proof {
        assert(continues(dice.history(), dice.history()));
    }
}

/// The two fleets of a battle.
pub struct Sides {
    pub attackers: Seq<Unit>,
    pub defenders: Seq<Unit>,
}

/// Where a battle stands.
#[derive(Debug, Clone, Copy, PartialEq, Eq, Structural)]
pub enum BattleState {
    /// Both fleets have units and the round limit is not reached.
    Ongoing,
    /// The attacking fleet is empty.
    AttackersWiped,
    /// The defending fleet is empty, the attacking fleet is not.
    DefendersWiped,
    /// Both fleets have units left after the last round.
    RoundLimitReached,
}

/// The exchange of fire of one round: every attacker takes its turn against
/// the defenders, then every defender, as the attackers left it, takes its
/// turn against the attackers. No unit leaves its fleet during the exchange.
pub open spec fn exchange(sides: Sides, log: Seq<u64>, at: nat) -> (Sides, nat) {
    let (defenders, mid) = volley(sides.attackers, 0, sides.defenders, log, at);
    let (attackers, end) = volley(defenders, 0, sides.attackers, log, mid);
    (Sides { attackers, defenders }, end)
}

/// The units of a fleet whose survival chance is above `threshold`, in
/// their order, each made ready for the next round.
pub open spec fn survivors(fleet: Seq<Unit>, threshold: u32) -> Seq<Unit>
    decreases fleet.len(),
{
    if fleet.len() == 0 {
        Seq::empty()
    } else if fleet.last().outlasts(threshold) {
        survivors(fleet.drop_last(), threshold).push(fleet.last().refreshed())
    } else {
        survivors(fleet.drop_last(), threshold)
    }
}

/// Both fleets after the cleanup that ends a round.
pub open spec fn cleaned(sides: Sides, threshold: u32) -> Sides {
    Sides {
        attackers: survivors(sides.attackers, threshold),
        defenders: survivors(sides.defenders, threshold),
    }
}

/// One round: the exchange of fire and the cleanup.
pub open spec fn round(sides: Sides, log: Seq<u64>, at: nat, threshold: u32) -> (Sides, nat) {
    let (after, end) = exchange(sides, log, at);
    (cleaned(after, threshold), end)
}

/// Where a battle stands with the fleets `sides` after `fought` rounds.
pub open spec fn state_of(sides: Sides, fought: nat) -> BattleState {
    if sides.attackers.len() == 0 {
        BattleState::AttackersWiped
    } else if sides.defenders.len() == 0 {
        BattleState::DefendersWiped
    } else if fought >= MAX_ROUNDS {
        BattleState::RoundLimitReached
    } else {
        BattleState::Ongoing
    }
}

/// A battle that stands at `sides` after `fought` rounds, fought to its
/// end with the draws of `log` from position `at` on: the fleets at the
/// end, the position of the first draw that was not used, and the number of
/// rounds fought by then.
pub open spec fn fight(sides: Sides, log: Seq<u64>, at: nat, threshold: u32, fought: nat) -> (
    Sides,
    nat,
    nat,
)
    decreases MAX_ROUNDS - fought,
{
    if state_of(sides, fought) != BattleState::Ongoing {
        (sides, at, fought)
    } else {
        let (next, end) = round(sides, log, at, threshold);
        fight(next, log, end, threshold, fought + 1)
    }
}

/// Whether `log` holds all the draws of an exchange that starts at `at`.
pub open spec fn exchange_settled(sides: Sides, log: Seq<u64>, at: nat, after: Sides) -> bool {
    forall|later: Seq<u64>| #[trigger]
        continues(later, log) ==> exchange(sides, later, at) == (after, log.len())
}

/// Whether `log` holds all the draws of a round that starts at `at`.
pub open spec fn round_settled(
    sides: Sides,
    log: Seq<u64>,
    at: nat,
    threshold: u32,
    after: Sides,
) -> bool {
    forall|later: Seq<u64>| #[trigger]
        continues(later, log) ==> round(sides, later, at, threshold) == (after, log.len())
}

/// Whether `log` holds all the draws of a battle that is fought to its end
/// from position `at` on.
pub open spec fn fight_settled(
    sides: Sides,
    log: Seq<u64>,
    at: nat,
    threshold: u32,
    fought: nat,
    after: Sides,
    rounds: nat,
) -> bool {
    forall|later: Seq<u64>| #[trigger]
        continues(later, log) ==> fight(sides, later, at, threshold, fought) == (
            after,
            log.len(),
            rounds,
        )
}

/// The attacking fleet of `sides` if `attacking`, else the defending one.
pub open spec fn side(sides: Sides, attacking: bool) -> Seq<Unit> {
    if attacking {
        sides.attackers
    } else {
        sides.defenders
    }
}

/// `trials` battles, each fought to its end from the fleets `start`, with
/// the draws of `log` from position `at` on, one battle after the other:
/// the fleets at the end of each, and the position of the first draw that
/// was not used.
pub open spec fn campaign(start: Sides, log: Seq<u64>, at: nat, threshold: u32, trials: nat) -> (
    Seq<Sides>,
    nat,
)
    decreases trials,
{
    if trials == 0 {
        (Seq::empty(), at)
    } else {
        let (outcome, end, rounds) = fight(start, log, at, threshold, 0);
        let (rest, last) = campaign(start, log, end, threshold, (trials - 1) as nat);
        (seq![outcome] + rest, last)
    }
}

/// The units of `kind` that one side has left, summed over `outcomes`.
pub open spec fn tallied_over(outcomes: Seq<Sides>, attacking: bool, kind: UnitKind) -> nat
    decreases outcomes.len(),
{
    if outcomes.len() == 0 {
        0
    } else {
        tallied_over(outcomes.drop_last(), attacking, kind) + count_of(
            side(outcomes.last(), attacking),
            kind,
        )
    }
}

/// The units that one side has left, summed over `outcomes`.
pub open spec fn units_over(outcomes: Seq<Sides>, attacking: bool) -> nat
    decreases outcomes.len(),
{
    if outcomes.len() == 0 {
        0
    } else {
        units_over(outcomes.drop_last(), attacking) + side(outcomes.last(), attacking).len()
    }
}

/// Whether `log` holds all the draws of a campaign that starts at `at`.
pub open spec fn campaign_settled(
    start: Sides,
    log: Seq<u64>,
    at: nat,
    threshold: u32,
    trials: nat,
    outcomes: Seq<Sides>,
) -> bool {
    forall|later: Seq<u64>| #[trigger]
        continues(later, log) ==> campaign(start, later, at, threshold, trials) == (
            outcomes,
            log.len(),
        )
}

/// What is left of both fleets, summed over a number of trials. The mean
/// of a count is the count divided by `trials`.
#[derive(Debug, Clone)]
pub struct MeanResults {
    pub trials: u32,
    pub attackers: Tally,
    pub defenders: Tally,
}

impl MeanResults {
    /// Whether the sums are those of `outcomes`.
    pub open spec fn sums_up(&self, outcomes: Seq<Sides>) -> bool {
        &&& self.trials == outcomes.len()
        &&& self.attackers.wf()
        &&& self.defenders.wf()
        &&& self.attackers.headcount() == units_over(outcomes, true)
        &&& self.defenders.headcount() == units_over(outcomes, false)
        &&& forall|kind: UnitKind|
            self.attackers.tallied(kind) == tallied_over(outcomes, true, kind)
        &&& forall|kind: UnitKind|
            self.defenders.tallied(kind) == tallied_over(outcomes, false, kind)
    }
}

/// Copies a fleet.
pub fn copy_fleet(fleet: &Vec<Unit>) -> (copy: Vec<Unit>)
    ensures
        copy@ == fleet@,
{
    let mut copy: Vec<Unit> = Vec::new();
    let mut i: usize = 0;
    while i < fleet.len()
        invariant
            i <= fleet.len(),
            copy@ == fleet@.take(i as int),
        decreases fleet.len() - i,
    {
        copy.push(fleet[i]);
        i = i + 1;
    }
    proof {
        assert(fleet@.take(i as int) == fleet@);
    }
    copy
}

/// Collects the units of a fleet that stay for the next round.
pub fn keep_survivors(fleet: &Vec<Unit>, explosion_threshold: u32) -> (kept: Vec<Unit>)
    ensures
        kept@ == survivors(fleet@, explosion_threshold),
{
    let mut kept: Vec<Unit> = Vec::new();
    let mut i: usize = 0;
    while i < fleet.len()
        invariant
            i <= fleet.len(),
            kept@ == survivors(fleet@.take(i as int), explosion_threshold),
        decreases fleet.len() - i,
    {
        let mut unit: Unit = fleet[i];
        proof {
            assert(fleet@.take(i as int + 1).drop_last() == fleet@.take(i as int));
            assert(fleet@.take(i as int + 1).last() == unit);
        }
        if unit.survives(explosion_threshold) {
            unit.round_reset();
            kept.push(unit);
        }
        i = i + 1;
    }
    proof {
        assert(fleet@.take(i as int) == fleet@);
    }
    kept
}

/// The head counts of both fleets.
#[derive(Debug, Clone)]
pub struct BattleResult {
    pub attackers: Tally,
    pub defenders: Tally,
}

/// A battle between two fleets.
///
/// The starting fleets are kept as they were given, for the next reset.
/// The current fleets are what is left of them after `rounds_fought`
/// rounds. A unit leaves its fleet in the cleanup of a round when its
/// survival chance is at or below `explosion_threshold`, both in parts per
/// billion.
pub struct Battle {
    pub starting_attackers: Vec<Unit>,
    pub starting_defenders: Vec<Unit>,
    pub current_attackers: Vec<Unit>,
    pub current_defenders: Vec<Unit>,
    pub explosion_threshold: u32,
    pub rounds_fought: u32,
    pub dice: Dice,
}

impl Battle {
    /// The current fleets.
    pub open spec fn sides(&self) -> Sides {
        Sides { attackers: self.current_attackers@, defenders: self.current_defenders@ }
    }

    /// The starting fleets.
    pub open spec fn start(&self) -> Sides {
        Sides { attackers: self.starting_attackers@, defenders: self.starting_defenders@ }
    }

    /// Whether `other` has the same starting fleets and explosion
    /// threshold.
    pub open spec fn same_setup(&self, other: &Battle) -> bool {
        &&& self.start() == other.start()
        &&& self.explosion_threshold == other.explosion_threshold
    }

    /// A battle between the given fleets, with the default explosion
    /// threshold and dice that draw at random.
    pub fn new(attackers: Vec<Unit>, defenders: Vec<Unit>) -> (battle: Self)
        ensures
            battle.start() == (Sides { attackers: attackers@, defenders: defenders@ }),
            battle.sides() == battle.start(),
            battle.explosion_threshold == DEFAULT_EXPLOSION_THRESHOLD,
            battle.rounds_fought == 0,
            battle.dice.history() == Seq::<u64>::empty(),
            battle.dice.pending() == Seq::<u64>::empty(),
            battle.dice.live(),
    {
        let current_attackers: Vec<Unit> = copy_fleet(&attackers);
        let current_defenders: Vec<Unit> = copy_fleet(&defenders);
        Self {
            starting_attackers: attackers,
            starting_defenders: defenders,
            current_attackers,
            current_defenders,
            explosion_threshold: DEFAULT_EXPLOSION_THRESHOLD,
            rounds_fought: 0,
            dice: Dice::random(),
        }
    }

    /// The same battle with another explosion threshold, in parts per
    /// billion.
    pub fn with_threshold(self, explosion_threshold: u32) -> (battle: Self)
        ensures
            battle.start() == self.start(),
            battle.sides() == self.sides(),
            battle.explosion_threshold == explosion_threshold,
            battle.rounds_fought == self.rounds_fought,
            battle.dice == self.dice,
    {
        Self {
            starting_attackers: self.starting_attackers,
            starting_defenders: self.starting_defenders,
            current_attackers: self.current_attackers,
            current_defenders: self.current_defenders,
            explosion_threshold,
            rounds_fought: self.rounds_fought,
            dice: self.dice,
        }
    }

    /// The same battle with other dice.
    pub fn with_dice(self, dice: Dice) -> (battle: Self)
        ensures
            battle.start() == self.start(),
            battle.sides() == self.sides(),
            battle.explosion_threshold == self.explosion_threshold,
            battle.rounds_fought == self.rounds_fought,
            battle.dice == dice,
    {
        Self {
            starting_attackers: self.starting_attackers,
            starting_defenders: self.starting_defenders,
            current_attackers: self.current_attackers,
            current_defenders: self.current_defenders,
            explosion_threshold: self.explosion_threshold,
            rounds_fought: self.rounds_fought,
            dice,
        }
    }

    /// Where the battle stands.
    pub fn state(&self) -> (state: BattleState)
        ensures
            state == state_of(self.sides(), self.rounds_fought as nat),
    {
        if self.current_attackers.len() == 0 {
            BattleState::AttackersWiped
        } else if self.current_defenders.len() == 0 {
            BattleState::DefendersWiped
        } else if self.rounds_fought >= MAX_ROUNDS {
            BattleState::RoundLimitReached
        } else {
            BattleState::Ongoing
        }
    }

    /// The head counts of the current fleets.
    pub fn result(&self) -> (result: BattleResult)
        ensures
            result.attackers.wf(),
            result.defenders.wf(),
            result.attackers.headcount() == self.sides().attackers.len(),
            result.defenders.headcount() == self.sides().defenders.len(),
            forall|kind: UnitKind|
                result.attackers.tallied(kind) == count_of(self.sides().attackers, kind),
            forall|kind: UnitKind|
                result.defenders.tallied(kind) == count_of(self.sides().defenders, kind),
    {
        BattleResult {
            attackers: Tally::of(&self.current_attackers),
            defenders: Tally::of(&self.current_defenders),
        }
    }

    /// Puts the starting fleets back in place of the current ones.
    pub fn reset(&mut self)
        ensures
            final(self).sides() == old(self).start(),
            final(self).rounds_fought == 0,
            final(self).same_setup(old(self)),
            final(self).dice == old(self).dice,
    {
        self.current_attackers = copy_fleet(&self.starting_attackers);
        self.current_defenders = copy_fleet(&self.starting_defenders);
        self.rounds_fought = 0;
    }

    /// Lets both fleets fire: the attackers first, then the defenders.
    pub fn compute_round(&mut self)
        ensures
            final(self).same_setup(old(self)),
            final(self).rounds_fought == old(self).rounds_fought,
            final(self).dice.follows(old(self).dice),
            exchange(old(self).sides(), final(self).dice.history(), old(self).dice.history().len())
                == (final(self).sides(), final(self).dice.history().len()),
            exchange_settled(
                old(self).sides(),
                final(self).dice.history(),
                old(self).dice.history().len(),
                final(self).sides(),
            ),
    {
        let ghost log0 = self.dice.history();
        fire_all(&self.current_attackers, &mut self.current_defenders, &mut self.dice);
        let ghost log1 = self.dice.history();
        let ghost second = self.dice;
        fire_all(&self.current_defenders, &mut self.current_attackers, &mut self.dice);
        proof {
            follows_on(old(self).dice, second, self.dice);
            let log2 = self.dice.history();
            assert forall|later: Seq<u64>| #[trigger] continues(later, log2) implies exchange(
                old(self).sides(),
                later,
                log0.len(),
            ) == (self.sides(), log2.len()) by {
                assert(continues(later, log1));
            }
            assert(continues(log2, log2));
        }
    }

    /// Ends a round: removes the units whose survival chance is at or
    /// below the explosion threshold, and makes the others ready for the
    /// next round.
    pub fn round_cleanup(&mut self)
        ensures
            final(self).sides() == cleaned(old(self).sides(), old(self).explosion_threshold),
            final(self).same_setup(old(self)),
            final(self).rounds_fought == old(self).rounds_fought,
            final(self).dice == old(self).dice,
    {
        self.current_attackers = keep_survivors(&self.current_attackers, self.explosion_threshold);
        self.current_defenders = keep_survivors(&self.current_defenders, self.explosion_threshold);
    }

    /// Fights one round, unless the battle is over: the exchange of fire,
    /// the cleanup, and one round more on the count. Tells whether a round
    /// was fought.
    pub fn fight_round(&mut self) -> (fought: bool)
        ensures
            final(self).same_setup(old(self)),
            final(self).dice.follows(old(self).dice),
            fought == (state_of(old(self).sides(), old(self).rounds_fought as nat)
                == BattleState::Ongoing),
            fought ==> final(self).rounds_fought == old(self).rounds_fought + 1 && round(
                old(self).sides(),
                final(self).dice.history(),
                old(self).dice.history().len(),
                old(self).explosion_threshold,
            ) == (final(self).sides(), final(self).dice.history().len()) && round_settled(
                old(self).sides(),
                final(self).dice.history(),
                old(self).dice.history().len(),
                old(self).explosion_threshold,
                final(self).sides(),
            ),
            !fought ==> final(self).sides() == old(self).sides() && final(self).rounds_fought
                == old(self).rounds_fought && final(self).dice == old(self).dice,
    {
        if self.rounds_fought >= MAX_ROUNDS || self.current_attackers.len() == 0
            || self.current_defenders.len() == 0 {
            proof {
                follows_itself(self.dice);
            }
            return false;
        }
        self.compute_round();
        self.round_cleanup();
        self.rounds_fought = self.rounds_fought + 1;
        true
    }

    /// Fights the battle to its end: round after round until a fleet is
    /// empty or the round limit is reached.
    pub fn run(&mut self)
        ensures
            final(self).same_setup(old(self)),
            final(self).dice.follows(old(self).dice),
            state_of(final(self).sides(), final(self).rounds_fought as nat)
                != BattleState::Ongoing,
            old(self).rounds_fought <= final(self).rounds_fought,
            old(self).rounds_fought <= MAX_ROUNDS ==> final(self).rounds_fought <= MAX_ROUNDS,
            fight(
                old(self).sides(),
                final(self).dice.history(),
                old(self).dice.history().len(),
                old(self).explosion_threshold,
                old(self).rounds_fought as nat,
            ) == (
                final(self).sides(),
                final(self).dice.history().len(),
                final(self).rounds_fought as nat,
            ),
            fight_settled(
                old(self).sides(),
                final(self).dice.history(),
                old(self).dice.history().len(),
                old(self).explosion_threshold,
                old(self).rounds_fought as nat,
                final(self).sides(),
                final(self).rounds_fought as nat,
            ),
    {
        let ghost first = self.dice;
        let ghost log0 = self.dice.history();
        proof {
            follows_itself(first);
        }
        loop
            invariant
                self.same_setup(old(self)),
                first == old(self).dice,
                log0 == first.history(),
                self.dice.follows(first),
                old(self).rounds_fought <= self.rounds_fought,
                old(self).rounds_fought <= MAX_ROUNDS ==> self.rounds_fought <= MAX_ROUNDS,
                forall|later: Seq<u64>| #[trigger]
                    continues(later, self.dice.history()) ==> fight(
                        old(self).sides(),
                        later,
                        log0.len(),
                        old(self).explosion_threshold,
                        old(self).rounds_fought as nat,
                    ) == fight(
                        self.sides(),
                        later,
                        self.dice.history().len(),
                        self.explosion_threshold,
                        self.rounds_fought as nat,
                    ),
            ensures
                state_of(self.sides(), self.rounds_fought as nat) != BattleState::Ongoing,
            decreases MAX_ROUNDS - self.rounds_fought,
        {
            let ghost second = self.dice;
            let ghost log1 = self.dice.history();
            let ghost sides1 = self.sides();
            let fought: bool = self.fight_round();
            if !fought {
                break ;
            }
            proof {
                follows_on(first, second, self.dice);
                let log2 = self.dice.history();
                assert forall|later: Seq<u64>| #[trigger] continues(later, log2) implies fight(
                    old(self).sides(),
                    later,
                    log0.len(),
                    old(self).explosion_threshold,
                    old(self).rounds_fought as nat,
                ) == fight(
                    self.sides(),
                    later,
                    log2.len(),
                    self.explosion_threshold,
                    self.rounds_fought as nat,
                ) by {
                    assert(continues(later, log1));
                    assert(round(sides1, later, log1.len(), self.explosion_threshold) == (
                        self.sides(),
                        log2.len(),
                    ));
                }
            }
        }
        proof {
            assert(continues(self.dice.history(), self.dice.history()));
        }
    }

    /// Fights the battle `rounds` times, each time from the starting
    /// fleets, and sums up what is left of either fleet. Nothing is fought
    /// for a number of zero or less.
    pub fn mean_results(&mut self, rounds: i32) -> (results: MeanResults)
        ensures
            final(self).same_setup(old(self)),
            final(self).dice.follows(old(self).dice),
            ({
                let trials = if rounds < 0 {
                    0nat
                } else {
                    rounds as nat
                };
                let (outcomes, end) = campaign(
                    old(self).start(),
                    final(self).dice.history(),
                    old(self).dice.history().len(),
                    old(self).explosion_threshold,
                    trials,
                );
                &&& outcomes.len() == trials
                &&& end == final(self).dice.history().len()
                &&& results.sums_up(outcomes)
                &&& trials > 0 ==> final(self).sides() == outcomes.last()
                &&& trials == 0 ==> final(self).sides() == old(self).sides()
                    && final(self).rounds_fought == old(self).rounds_fought
                &&& campaign_settled(
                    old(self).start(),
                    final(self).dice.history(),
                    old(self).dice.history().len(),
                    old(self).explosion_threshold,
                    trials,
                    outcomes,
                )
            }),
    {
        let ghost first = self.dice;
        let ghost log0 = self.dice.history();
        let ghost start = self.start();
        let ghost threshold = self.explosion_threshold;
        let ghost trials = if rounds < 0 {
            0nat
        } else {
            rounds as nat
        };
        let ghost mut done: Seq<Sides> = Seq::empty();
        let mut attackers: Tally = Tally::new();
        let mut defenders: Tally = Tally::new();
        let mut fought: u32 = 0;
        proof {
            follows_itself(first);
            assert forall|later: Seq<u64>| #[trigger] continues(later, log0) implies campaign(
                start,
                later,
                log0.len(),
                threshold,
                trials,
            ).0 == done + campaign(start, later, log0.len(), threshold, trials).0 by {
                assert(done + campaign(start, later, log0.len(), threshold, trials).0 == campaign(
                    start,
                    later,
                    log0.len(),
                    threshold,
                    trials,
                ).0);
            }
        }
        while (fought as i64) < (rounds as i64)
            invariant
                fought <= trials,
                trials == (if rounds < 0 {
                    0nat
                } else {
                    rounds as nat
                }),
                self.same_setup(old(self)),
                start == old(self).start(),
                threshold == old(self).explosion_threshold,
                first == old(self).dice,
                log0 == first.history(),
                self.dice.follows(first),
                done.len() == fought,
                fought > 0 ==> self.sides() == done.last(),
                fought == 0 ==> self.sides() == old(self).sides() && self.rounds_fought == old(
                    self,
                ).rounds_fought,
                attackers.wf(),
                defenders.wf(),
                attackers.headcount() == units_over(done, true),
                defenders.headcount() == units_over(done, false),
                attackers.headcount() <= fought * 0xffff_ffff_ffff_ffff,
                defenders.headcount() <= fought * 0xffff_ffff_ffff_ffff,
                forall|kind: UnitKind| attackers.tallied(kind) == tallied_over(done, true, kind),
                forall|kind: UnitKind| defenders.tallied(kind) == tallied_over(done, false, kind),
                forall|later: Seq<u64>| #[trigger]
                    continues(later, self.dice.history()) ==> campaign(
                        start,
                        later,
                        log0.len(),
                        threshold,
                        trials,
                    ).0 == done + campaign(
                        start,
                        later,
                        self.dice.history().len(),
                        threshold,
                        (trials - fought) as nat,
                    ).0 && campaign(start, later, log0.len(), threshold, trials).1 == campaign(
                        start,
                        later,
                        self.dice.history().len(),
                        threshold,
                        (trials - fought) as nat,
                    ).1,
            decreases trials - fought,
        {
            let ghost log1 = self.dice.history();
            let ghost second = self.dice;
            self.reset();
            self.run();
            attackers.add_fleet(&self.current_attackers);
            defenders.add_fleet(&self.current_defenders);
            proof {
                follows_on(first, second, self.dice);
                let log2 = self.dice.history();
                let outcome = self.sides();
                let grown = done.push(outcome);
                assert(grown.drop_last() == done);
                assert forall|later: Seq<u64>| #[trigger] continues(later, log2) implies campaign(
                    start,
                    later,
                    log0.len(),
                    threshold,
                    trials,
                ).0 == grown + campaign(
                    start,
                    later,
                    log2.len(),
                    threshold,
                    (trials - fought - 1) as nat,
                ).0 && campaign(start, later, log0.len(), threshold, trials).1 == campaign(
                    start,
                    later,
                    log2.len(),
                    threshold,
                    (trials - fought - 1) as nat,
                ).1 by {
                    assert(continues(later, log1));
                    let rest = campaign(
                        start,
                        later,
                        log2.len(),
                        threshold,
                        (trials - fought - 1) as nat,
                    ).0;
                    assert(campaign(
                        start,
                        later,
                        log1.len(),
                        threshold,
                        (trials - fought) as nat,
                    ).0 == seq![outcome] + rest);
                    assert(done + (seq![outcome] + rest) == grown + rest);
                }
                done = grown;
            }
            fought = fought + 1;
        }
        proof {
            let log = self.dice.history();
            assert forall|later: Seq<u64>| #[trigger] continues(later, log) implies campaign(
                start,
                later,
                log0.len(),
                threshold,
                trials,
            ) == (done, log.len()) by {
                assert(done + Seq::<Sides>::empty() == done);
            }
            assert(continues(log, log));
        }
        MeanResults { trials: fought, attackers, defenders }
    }
}

} // verus!
