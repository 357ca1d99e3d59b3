//! The random source of a battle.

use rand::Rng;
use vstd::arithmetic::div_mod::{lemma_mod_bound, lemma_small_mod};
use vstd::prelude::*;

verus! {

/// Draws a number below `bound` from the thread-local generator of `rand`
/// (`Rng::gen_range` on the range `0..bound`).
///
/// `gen_range` panics on an empty range, which the precondition excludes, and
/// returns a value of the range it was given. Nothing else is claimed of the
/// value: two calls with the same bound may differ. The generator also
/// panics where the operating system hands it no entropy to seed itself
/// with; no argument can exclude that, and it is taken like running out of
/// memory.
#[verifier::external_body]
fn random_below(bound: u64) -> (r: u64)
    requires
        bound > 0,
    ensures
        r < bound,
{
    rand::thread_rng().gen_range(0..bound)
}

/// The value at position `at` of `log`, or zero where the log does not
/// reach that far.
pub open spec fn value_at(log: Seq<u64>, at: int) -> int {
    if 0 <= at < log.len() {
        log[at] as int
    } else {
        0
    }
}

/// Whether `later` reads like `log` at every position that `log` reaches.
/// Beyond its own end a log reads as zero.
pub open spec fn continues(later: Seq<u64>, log: Seq<u64>) -> bool {
    forall|i: int|
        #![trigger value_at(later, i)]
        #![trigger log[i]]
        0 <= i < log.len() ==> value_at(later, i) == log[i]
}

/// The draw at position `at` of `log`, read as a number below `bound`: the
/// remainder of the value there.
pub open spec fn pick(log: Seq<u64>, at: nat, bound: int) -> int {
    value_at(log, at as int) % bound
}

/// A draw below a positive bound is a number from zero up to the bound.
pub proof fn pick_is_below(log: Seq<u64>, at: nat, bound: int)
    requires
        bound > 0,
    ensures
        0 <= pick(log, at, bound) < bound,
{
    lemma_mod_bound(value_at(log, at as int), bound);
}

/// A source of random draws that remembers every value it has drawn from.
///
/// A die first replays its script, one value per draw, each reduced modulo
/// the bound that was asked for. When the script has run out, a live die
/// draws from the thread-local generator, and any other die yields zero.
pub struct Dice {
    script: Vec<u64>,
    cursor: usize,
    live: bool,
    drawn: Ghost<Seq<u64>>,
}

impl Dice {
    /// The value behind every draw made so far, oldest first: a value of
    /// the script as it stands there, a number from the generator, or zero.
    pub closed spec fn history(&self) -> Seq<u64> {
        self.drawn@
    }

    /// The part of the script that has not been replayed yet.
    pub closed spec fn pending(&self) -> Seq<u64> {
        if self.cursor <= self.script@.len() {
            self.script@.skip(self.cursor as int)
        } else {
            Seq::empty()
        }
    }

    /// Whether the die turns to the generator once its script has run out.
    pub closed spec fn live(&self) -> bool {
        self.live
    }

    /// Whether this die is `before` some draws later: it is as live as
    /// `before`, its history is that of `before` and then one value for
    /// each draw, and its script is shorter by as many values as were left
    /// to replay. The values drawn from are those of the script while it
    /// lasted, and zero afterwards if the die is not live.
    pub open spec fn follows(&self, before: Dice) -> bool {
        let at = before.history().len() as int;
        let script = before.pending();
        let made = self.history().len() - at;
        &&& made >= 0
        &&& continues(self.history(), before.history())
        &&& self.live() == before.live()
        &&& self.pending() == script.skip(
            if made <= script.len() {
                made
            } else {
                script.len() as int
            },
        )
        &&& forall|p: int|
            at <= p < self.history().len() ==> (p - at < script.len() ==> (
            #[trigger] self.history()[p]) == script[p - at]) && (p - at >= script.len()
                && !before.live() ==> self.history()[p] == 0)
    }

    /// A die that draws every value from the thread-local generator.
    pub fn random() -> (dice: Dice)
        ensures
            dice.history() == Seq::<u64>::empty(),
            dice.pending() == Seq::<u64>::empty(),
            dice.live(),
    {
        Dice { script: Vec::new(), cursor: 0, live: true, drawn: Ghost(Seq::empty()) }
    }

    /// A die that replays `values` and yields zero afterwards.
    pub fn scripted(values: Vec<u64>) -> (dice: Dice)
        ensures
            dice.history() == Seq::<u64>::empty(),
            dice.pending() == values@,
            !dice.live(),
    {
        Dice { script: values, cursor: 0, live: false, drawn: Ghost(Seq::empty()) }
    }

    /// Draws a number below `bound` and appends the value it was drawn
    /// from to the history.
    pub fn below(&mut self, bound: u64) -> (r: u64)
        requires
            bound > 0,
        ensures
            r < bound,
            r == pick(final(self).history(), old(self).history().len(), bound as int),
            final(self).history().len() == old(self).history().len() + 1,
            final(self).follows(*old(self)),
    {
        let ghost before = *self;
        let raw: u64 = if self.cursor < self.script.len() {
            let value: u64 = self.script[self.cursor];
            self.cursor = self.cursor + 1;
            value
        } else if self.live {
            random_below(bound)
        } else {
            0
        };
        proof {
            if raw < bound {
                lemma_small_mod(raw as nat, bound as nat);
            }
        }
        self.drawn = Ghost(self.drawn@.push(raw));
        proof {
            assert(self.pending() == before.pending().skip(
                if 1 <= before.pending().len() {
                    1
                } else {
                    0
                },
            ));
        }
        raw % bound
    }
}

/// A die is what it is, no draw later.
pub proof fn follows_itself(dice: Dice)
    ensures
        dice.follows(dice),
        continues(dice.history(), dice.history()),
{
    assert(dice.pending().skip(0) == dice.pending());
}

/// Draws after draws are draws: a die that follows one that follows a
/// third follows the third.
pub proof fn follows_on(first: Dice, second: Dice, third: Dice)
    requires
        second.follows(first),
        third.follows(second),
    ensures
        third.follows(first),
{
    let at = first.history().len() as int;
    let mid = second.history().len() as int;
    let script = first.pending();
    let made = third.history().len() - at;
    let cut = if mid - at <= script.len() {
        mid - at
    } else {
        script.len() as int
    };
    assert(second.pending() == script.skip(cut));
    assert(third.pending() == script.skip(
        if made <= script.len() {
            made
        } else {
            script.len() as int
        },
    ));
    assert forall|p: int| at <= p < third.history().len() implies (p - at < script.len() ==> (
    #[trigger] third.history()[p]) == script[p - at]) && (p - at >= script.len()
        && !first.live() ==> third.history()[p] == 0) by {
        if p < mid {
            assert(value_at(third.history(), p) == second.history()[p]);
        }
    }
}

/// A die that is not live draws from its script and from nothing else:
/// whatever it has drawn since `before`, its history reads like the history
/// of `before` with the rest of the script behind it.
pub proof fn script_foretells(before: Dice, after: Dice)
    requires
        after.follows(before),
        !before.live(),
    ensures
        continues(before.history() + before.pending(), after.history()),
{
    let told = before.history() + before.pending();
    let at = before.history().len() as int;
    assert forall|i: int| 0 <= i < after.history().len() implies value_at(told, i)
        == after.history()[i] by {
        if i < at {
            assert(value_at(after.history(), i) == before.history()[i]);
        }
    }
}

} // verus!
