use vstd::prelude::*;

verus! {

/// Running totals, exclusively owned and mutated by the aggregator.
#[derive(Clone, Copy, Debug)]
pub struct RunningStatistics {
    /// Outcomes counted so far.
    pub total: usize,
    /// How many of them were wins.
    pub wins: usize,
}

/// How many outcomes of a batch are wins.
pub open spec fn wins_of(outcomes: Seq<bool>) -> int
    decreases outcomes.len(),
{
    if outcomes.len() == 0 {
        0
    } else {
        wins_of(outcomes.drop_last()) + if outcomes.last() {
            1int
        } else {
            0int
        }
    }
}

impl RunningStatistics {
    /// The statistics invariant: wins never outnumber the trials counted.
    pub open spec fn wf(&self) -> bool {
        self.wins <= self.total
    }

    /// Trials counted that were not wins.
    pub open spec fn losses(&self) -> int {
        self.total - self.wins
    }

    /// Empty statistics, created by the aggregator before the first outcome.
    pub fn new() -> (stats: RunningStatistics)
        ensures
            stats.total == 0,
            stats.wins == 0,
            stats.wf(),
    {
        RunningStatistics { total: 0, wins: 0 }
    }

    /// Counts one received outcome.
    pub fn record(&mut self, won: bool)
        requires
            old(self).wf(),
            old(self).total < usize::MAX,
        ensures
            final(self).total == old(self).total + 1,
            final(self).wins == old(self).wins + if won {
                1int
            } else {
                0int
            },
            final(self).wf(),
    {
        if won {
            self.wins = self.wins + 1;
        }
        self.total = self.total + 1;
    }
}

/// Every trial counted is a win or a loss and nothing else: the totals always
/// split exactly into wins and losses.
pub proof fn lemma_totals_partition(stats: RunningStatistics)
    requires
        stats.wf(),
    ensures
        stats.total == stats.wins + stats.losses(),
{
}

/// Folds one drained batch of outcomes into fresh statistics: every outcome
/// counted exactly once, in any order the channel delivered them.
pub fn tally(outcomes: &Vec<bool>) -> (stats: RunningStatistics)
    ensures
        stats.total == outcomes@.len(),
        stats.wins == wins_of(outcomes@),
        stats.wf(),
{
    let mut stats = RunningStatistics::new();
    let mut idx: usize = 0;
    while idx < outcomes.len()
        invariant
            idx <= outcomes@.len(),
            stats.total == idx,
            stats.wins == wins_of(outcomes@.take(idx as int)),
            stats.wf(),
        decreases outcomes@.len() - idx,
    {
        proof {
            assert(outcomes@.take(idx + 1).drop_last() =~= outcomes@.take(idx as int));
            assert(outcomes@.take(idx + 1).last() == outcomes@[idx as int]);
        }
        stats.record(outcomes[idx]);
        idx = idx + 1;
    }
    proof {
        assert(outcomes@.take(outcomes@.len() as int) =~= outcomes@);
    }
    stats
}

/// The final report handed to the orchestrator at shutdown.
#[derive(Clone, Copy, Debug, PartialEq, Eq, Structural)]
pub enum Summary {
    /// Zero trials were observed: an explicit outcome, not a division fault.
    NoData,
    /// The observed totals and the win rate they give.
    Estimate {
        /// Winning trials.
        wins: usize,
        /// All trials.
        total: usize,
        /// The win rate as a percentage in hundredths, rounded to nearest:
        /// `6667` reads as `66.67%`.
        percent_hundredths: u64,
    },
}

/// The win rate `wins / total` as a percentage in hundredths of a percent,
/// rounded to the nearest hundredth (halves away from zero).
pub open spec fn percent_hundredths_of(wins: int, total: int) -> int
    recommends
        0 < total,
{
    (20000 * wins + total) / (2 * total)
}

/// The final summary: the exact totals and their win rate, or the distinct
/// no-data outcome when nothing was counted.
pub fn summarize(stats: &RunningStatistics) -> (summary: Summary)
    requires
        stats.wf(),
    ensures
        stats.total == 0 ==> summary is NoData,
        stats.total > 0 ==> {
            &&& summary matches Summary::Estimate { wins, total, percent_hundredths }
            &&& wins == stats.wins
            &&& total == stats.total
            &&& percent_hundredths == percent_hundredths_of(stats.wins as int, stats.total as int)
        },
{
    if stats.total == 0 {
        return Summary::NoData;
    }
    let wins_wide = stats.wins as u128;
    let total_wide = stats.total as u128;
    assert(20000 * wins_wide + total_wide <= u128::MAX) by (nonlinear_arith)
        requires
            wins_wide <= u64::MAX,
            total_wide <= u64::MAX,
    ;
    let numerator: u128 = 20000 * wins_wide + total_wide;
    let rate: u128 = numerator / (2 * total_wide);
    proof {
        lemma_percent_hundredths_bounded(wins_wide as int, total_wide as int);
    }
    Summary::Estimate { wins: stats.wins, total: stats.total, percent_hundredths: rate as u64 }
}

/// A win rate never rounds above one hundred percent.
proof fn lemma_percent_hundredths_bounded(wins: int, total: int)
    requires
        0 < total,
        0 <= wins <= total,
    ensures
        0 <= percent_hundredths_of(wins, total) <= 10000,
{
    vstd::arithmetic::div_mod::lemma_div_is_ordered(
        20000 * wins + total,
        20001 * total,
        2 * total,
    );
    assert(20001 * total == 10000 * (2 * total) + total) by (nonlinear_arith);
    vstd::arithmetic::div_mod::lemma_fundamental_div_mod_converse(
        20001 * total,
        2 * total,
        10000,
        total,
    );
    vstd::arithmetic::div_mod::lemma_div_pos_is_pos(20000 * wins + total, 2 * total);
}

} // verus!
