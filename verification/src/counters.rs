//! The counters of a run: one per counted severity and one for every line
//! handled, with the tally they must hold after any given lines.

use vstd::prelude::*;
use vstd::seq_lib::{commutative_foldl, lemma_fold_left_permutation};
use crate::category::{classifyLine, classify_spec, LogType};

verus! {

/// What a set of counters holds, as unbounded numbers. Lines of severity
/// `Other` have no count of their own: it is `total` less the other three.
pub struct Tally {
    pub info: nat,
    pub warn: nat,
    pub error: nat,
    pub total: nat,
}

impl Tally {
    /// The tally before any line.
    pub open spec fn zero() -> Tally {
        Tally { info: 0, warn: 0, error: 0, total: 0 }
    }

    /// The tally after one more line of severity `kind`.
    pub open spec fn record(self, kind: LogType) -> Tally {
        Tally {
            info: if kind == LogType::Info {
                self.info + 1
            } else {
                self.info
            },
            warn: if kind == LogType::Warn {
                self.warn + 1
            } else {
                self.warn
            },
            error: if kind == LogType::Error {
                self.error + 1
            } else {
                self.error
            },
            total: self.total + 1,
        }
    }

    /// Two tallies added count for count.
    pub open spec fn plus(self, other: Tally) -> Tally {
        Tally {
            info: self.info + other.info,
            warn: self.warn + other.warn,
            error: self.error + other.error,
            total: self.total + other.total,
        }
    }

    /// The three per-severity counts together.
    pub open spec fn severity_sum(self) -> nat {
        self.info + self.warn + self.error
    }
}

/// How many of `lines` have severity `kind`.
pub open spec fn count_of(lines: Seq<Seq<char>>, kind: LogType) -> nat {
    lines.filter(|line: Seq<char>| classify_spec(line) == kind).len()
}

/// The tally of `lines`: for each of the three counted severities the number
/// of lines that have it, and the number of lines in all.
pub open spec fn tally_of(lines: Seq<Seq<char>>) -> Tally {
    Tally {
        info: count_of(lines, LogType::Info),
        warn: count_of(lines, LogType::Warn),
        error: count_of(lines, LogType::Error),
        total: lines.len(),
    }
}

/// The tally that the shares of several workers add up to, share by share.
pub open spec fn sum_of_shares(shares: Seq<Seq<Seq<char>>>) -> Tally
    decreases shares.len(),
{
    if shares.len() == 0 {
        Tally::zero()
    } else {
        sum_of_shares(shares.drop_last()).plus(tally_of(shares.last()))
    }
}

/// The tally of no lines is zero.
pub proof fn lemma_tally_of_nothing()
    ensures
        tally_of(Seq::<Seq<char>>::empty()) == Tally::zero(),
{
    reveal(Seq::filter);
}

/// One more line moves the tally by that line's severity.
pub proof fn lemma_tally_push(lines: Seq<Seq<char>>, line: Seq<char>)
    ensures
        tally_of(lines.push(line)) == tally_of(lines).record(classify_spec(line)),
        count_of(lines.push(line), LogType::Other) == count_of(lines, LogType::Other) + (
        if classify_spec(line) == LogType::Other {
            1int
        } else {
            0int
        }),
{
    broadcast use Seq::lemma_filter_len_push;

}

/// The tally of two runs of lines, one after the other, is the sum of their
/// tallies.
pub proof fn lemma_tally_concat(first: Seq<Seq<char>>, second: Seq<Seq<char>>)
    ensures
        tally_of(first + second) == tally_of(first).plus(tally_of(second)),
{
    broadcast use Seq::filter_distributes_over_add;

}

/// Every line is counted once: the three per-severity counts and the lines of
/// severity `Other` make up the total. So the three counts never exceed the
/// total, and they reach it exactly when no line is of severity `Other`.
pub proof fn lemma_tally_accounts_for_every_line(lines: Seq<Seq<char>>)
    ensures
        tally_of(lines).severity_sum() + count_of(lines, LogType::Other) == tally_of(lines).total,
        tally_of(lines).severity_sum() <= tally_of(lines).total,
        tally_of(lines).severity_sum() == tally_of(lines).total <==> forall|i: int|
            0 <= i < lines.len() ==> classify_spec(#[trigger] lines[i]) != LogType::Other,
    decreases lines.len(),
{
    if lines.len() == 0 {
        assert(lines =~= Seq::<Seq<char>>::empty());
        lemma_tally_of_nothing();
        reveal(Seq::filter);
    } else {
        let front = lines.drop_last();
        lemma_tally_accounts_for_every_line(front);
        lemma_tally_push(front, lines.last());
        assert(front.push(lines.last()) =~= lines);
        if tally_of(lines).severity_sum() == tally_of(lines).total {
            assert forall|i: int| 0 <= i < lines.len() implies classify_spec(#[trigger] lines[i])
                != LogType::Other by {
                if i < front.len() {
                    assert(front[i] == lines[i]);
                }
            }
        }
        if forall|i: int|
            0 <= i < lines.len() ==> classify_spec(#[trigger] lines[i]) != LogType::Other {
            assert forall|i: int| 0 <= i < front.len() implies classify_spec(#[trigger] front[i])
                != LogType::Other by {
                assert(front[i] == lines[i]);
            }
        }
    }
}

/// The tally is what comes of recording the lines one by one from zero.
pub proof fn lemma_tally_is_fold(lines: Seq<Seq<char>>)
    ensures
        tally_of(lines) == lines.fold_left(
            Tally::zero(),
            |tally: Tally, line: Seq<char>| tally.record(classify_spec(line)),
        ),
    decreases lines.len(),
{
    if lines.len() == 0 {
        assert(lines =~= Seq::<Seq<char>>::empty());
        lemma_tally_of_nothing();
    } else {
        lemma_tally_is_fold(lines.drop_last());
        lemma_tally_push(lines.drop_last(), lines.last());
        assert(lines.drop_last().push(lines.last()) =~= lines);
    }
}

/// The order in which lines are counted does not show in the tally: two
/// sequences that hold the same lines the same number of times have the same
/// tally.
pub proof fn lemma_tally_ignores_order(lines: Seq<Seq<char>>, reordered: Seq<Seq<char>>)
    requires
        lines.to_multiset() == reordered.to_multiset(),
    ensures
        tally_of(lines) == tally_of(reordered),
{
    let step = |tally: Tally, line: Seq<char>| tally.record(classify_spec(line));
    assert(commutative_foldl(step));
    lemma_tally_is_fold(lines);
    lemma_tally_is_fold(reordered);
    lemma_fold_left_permutation(lines, reordered, step, Tally::zero());
}

/// What the shares add up to is the tally of the shares laid end to end.
pub proof fn lemma_sum_of_shares_is_tally(shares: Seq<Seq<Seq<char>>>)
    ensures
        sum_of_shares(shares) == tally_of(shares.flatten()),
    decreases shares.len(),
{
    if shares.len() == 0 {
        lemma_tally_of_nothing();
    } else {
        lemma_sum_of_shares_is_tally(shares.drop_last());
        shares.drop_last().lemma_flatten_push(shares.last());
        assert(shares.drop_last().push(shares.last()) =~= shares);
        lemma_tally_concat(shares.drop_last().flatten(), shares.last());
    }
}

/// However the lines sent on are dealt out among one or more workers, and in
/// whatever order each worker takes its share, the workers' tallies add up to
/// the tally of the lines sent: as many handled as sent, none lost and none
/// counted twice.
pub proof fn lemma_workers_account_for_every_line(
    sent: Seq<Seq<char>>,
    shares: Seq<Seq<Seq<char>>>,
)
    requires
        shares.len() >= 1,
        shares.flatten().to_multiset() == sent.to_multiset(),
    ensures
        sum_of_shares(shares) == tally_of(sent),
        sum_of_shares(shares).total == sent.len(),
{
    lemma_sum_of_shares_is_tally(shares);
    lemma_tally_ignores_order(shares.flatten(), sent);
}

/// The counters of a run.
#[derive(Clone, Copy, Debug, PartialEq, Eq)]
pub struct Counters {
    info: usize,
    warn: usize,
    error: usize,
    total_processed: usize,
}

impl View for Counters {
    type V = Tally;

    closed spec fn view(&self) -> Tally {
        Tally {
            info: self.info as nat,
            warn: self.warn as nat,
            error: self.error as nat,
            total: self.total_processed as nat,
        }
    }
}

impl Counters {
    /// The three per-severity counts together do not exceed the total.
    pub open spec fn wf(&self) -> bool {
        self@.severity_sum() <= self@.total
    }

    /// Whether one more line can be recorded without the total leaving the
    /// machine word.
    pub open spec fn has_room(&self) -> bool {
        self@.total < usize::MAX
    }

    /// Counters at zero.
    pub fn new() -> (counters: Counters)
        ensures
            counters.wf(),
            counters@ == Tally::zero(),
    {
        Counters { info: 0, warn: 0, error: 0, total_processed: 0 }
    }

    /// Whether one more line can be recorded.
    pub fn can_record(&self) -> (room: bool)
        ensures
            room == self.has_room(),
    {
        self.total_processed < usize::MAX
    }

    /// Counts one line of severity `kind`.
    pub fn record(&mut self, kind: LogType)
        requires
            old(self).wf(),
            old(self).has_room(),
        ensures
            final(self).wf(),
            final(self)@ == old(self)@.record(kind),
    {
        match kind {
            LogType::Info => {
                self.info = self.info + 1;
            },
            LogType::Warn => {
                self.warn = self.warn + 1;
            },
            LogType::Error => {
                self.error = self.error + 1;
            },
            LogType::Other => {},
        }
        self.total_processed = self.total_processed + 1;
    }

    /// Classifies one line and counts it.
    pub fn record_line(&mut self, line: &str)
        requires
            old(self).wf(),
            old(self).has_room(),
        ensures
            final(self).wf(),
            final(self)@ == old(self)@.record(classify_spec(line@)),
    {
        let kind = classifyLine(line);
        self.record(kind);
    }

    /// The number of `Info` lines counted.
    pub fn info_count(&self) -> (count: usize)
        ensures
            count == self@.info,
    {
        self.info
    }

    /// The number of `Warn` lines counted.
    pub fn warn_count(&self) -> (count: usize)
        ensures
            count == self@.warn,
    {
        self.warn
    }

    /// The number of `Error` lines counted.
    pub fn error_count(&self) -> (count: usize)
        ensures
            count == self@.error,
    {
        self.error
    }

    /// The number of lines counted, of whatever severity.
    pub fn total_processed(&self) -> (count: usize)
        ensures
            count == self@.total,
    {
        self.total_processed
    }
}

} // verus!
