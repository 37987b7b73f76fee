//! The run itself: the dispatcher that decides line by line what is sent on,
//! the worker that counts what it receives, and the result of a whole run.

use vstd::prelude::*;
use crate::category::classify_spec;
use crate::counters::{lemma_tally_of_nothing, lemma_tally_push, tally_of, Counters, Tally};
use crate::filter::FilterCriteria;

verus! {

/// The characters of each of a sequence of lines.
pub open spec fn texts(lines: Seq<String>) -> Seq<Seq<char>> {
    lines.map_values(|line: String| line@)
}

/// The lines that `criteria` keep, in the order in which they stand.
pub open spec fn kept_lines(lines: Seq<Seq<char>>, criteria: FilterCriteria) -> Seq<Seq<char>> {
    lines.filter(|line: Seq<char>| criteria.keeps(line))
}

/// One more line is kept or dropped on its own, after the lines before it.
pub proof fn lemma_kept_lines_push(
    lines: Seq<Seq<char>>,
    line: Seq<char>,
    criteria: FilterCriteria,
)
    ensures
        kept_lines(lines.push(line), criteria) == if criteria.keeps(line) {
            kept_lines(lines, criteria).push(line)
        } else {
            kept_lines(lines, criteria)
        },
{
    broadcast use Seq::lemma_filter_push;

}

/// The dispatcher of one run: it holds the criteria and the number of lines
/// it has sent on so far, which is at every moment the number of lines
/// offered to it that the criteria keep.
pub struct Dispatcher {
    criteria: FilterCriteria,
    total_lines: usize,
    offered: Ghost<Seq<Seq<char>>>,
}

impl Dispatcher {
    #[verifier::type_invariant]
    spec fn counts_what_it_keeps(&self) -> bool {
        self.total_lines == kept_lines(self.offered@, self.criteria).len()
    }

    /// The criteria of the run.
    pub closed spec fn criteria(&self) -> FilterCriteria {
        self.criteria
    }

    /// Every line offered so far, in the order of offering.
    pub closed spec fn offered(&self) -> Seq<Seq<char>> {
        self.offered@
    }

    /// The lines sent on so far, in the order of sending: those of the lines
    /// offered that the criteria keep.
    pub open spec fn sent(&self) -> Seq<Seq<char>> {
        kept_lines(self.offered(), self.criteria())
    }

    /// Whether one more line can be sent on without the count leaving the
    /// machine word.
    pub open spec fn has_room(&self) -> bool {
        self.sent().len() < usize::MAX
    }

    /// A dispatcher that has been offered nothing yet.
    pub fn new(criteria: FilterCriteria) -> (dispatcher: Dispatcher)
        ensures
            dispatcher.criteria() == criteria,
            dispatcher.offered() == Seq::<Seq<char>>::empty(),
            dispatcher.sent() == Seq::<Seq<char>>::empty(),
    {
        proof {
            reveal(Seq::filter);
        }
        Dispatcher { criteria, total_lines: 0, offered: Ghost(Seq::empty()) }
    }

    /// Whether one more line can be offered.
    pub fn can_offer(&self) -> (room: bool)
        ensures
            room == self.has_room(),
    {
        proof {
            use_type_invariant(self);
        }
        self.total_lines < usize::MAX
    }

    /// Decides whether the next line of the source is sent on, and counts it
    /// if it is.
    pub fn offer(&mut self, line: &str) -> (forward: bool)
        requires
            old(self).has_room(),
        ensures
            forward == old(self).criteria().keeps(line@),
            final(self).criteria() == old(self).criteria(),
            final(self).offered() == old(self).offered().push(line@),
            final(self).sent() == if forward {
                old(self).sent().push(line@)
            } else {
                old(self).sent()
            },
    {
        proof {
            use_type_invariant(&*self);
            lemma_kept_lines_push(self.offered@, line@, self.criteria);
        }
        let forward = self.criteria.passes(line);
        note_offer(&mut self.total_lines, &mut self.offered, Ghost(line@), forward);
        forward
    }

    /// The number of lines sent on so far.
    pub fn total_lines(&self) -> (count: usize)
        ensures
            count == self.sent().len(),
    {
        proof {
            use_type_invariant(self);
        }
        self.total_lines
    }
}

/// Adds an offered line to the record of offers, and one to the count if the
/// line is sent on.
fn note_offer(
    total_lines: &mut usize,
    offered: &mut Ghost<Seq<Seq<char>>>,
    line: Ghost<Seq<char>>,
    forward: bool,
)
    requires
        forward ==> *old(total_lines) < usize::MAX,
    ensures
        *final(total_lines) == *old(total_lines) + (if forward {
            1int
        } else {
            0int
        }),
        final(offered)@ == old(offered)@.push(line@),
    no_unwind
{
    if forward {
        *total_lines = *total_lines + 1;
    }
    proof {
        *offered = Ghost(offered@.push(line@));
    }
}

/// Where a worker stands: still taking lines, or done for good.
#[derive(Clone, Copy, Debug, PartialEq, Eq, Structural)]
pub enum WorkerState {
    Running,
    Terminated,
}

/// What a worker in `state` does to a tally on `received`: a running worker
/// counts a line it is given; on the end of the queue, or once terminated,
/// the tally stays as it is.
pub open spec fn worker_effect(state: WorkerState, received: Option<&str>, tally: Tally) -> Tally {
    match (state, received) {
        (WorkerState::Running, Some(line)) => tally.record(classify_spec(line@)),
        _ => tally,
    }
}

/// Where a worker in `state` stands after `received`: it runs on after a
/// line, and terminates when the queue is closed and empty (`None`).
pub open spec fn worker_next(state: WorkerState, received: Option<&str>) -> WorkerState {
    match (state, received) {
        (WorkerState::Running, Some(_)) => WorkerState::Running,
        _ => WorkerState::Terminated,
    }
}

/// One step of a worker: `received` is the line taken from the queue, or
/// `None` once the queue is closed and empty.
pub fn worker_step(state: WorkerState, received: Option<&str>, counters: &mut Counters) -> (next:
    WorkerState)
    requires
        old(counters).wf(),
        state == WorkerState::Running && received is Some ==> old(counters).has_room(),
    ensures
        next == worker_next(state, received),
        final(counters).wf(),
        final(counters)@ == worker_effect(state, received, old(counters)@),
{
    match state {
        WorkerState::Running => match received {
            Some(line) => {
                counters.record_line(line);
                WorkerState::Running
            },
            None => WorkerState::Terminated,
        },
        WorkerState::Terminated => WorkerState::Terminated,
    }
}

/// The lines of `lines` that `criteria` keep, in their order.
pub fn filter_lines(lines: &Vec<String>, criteria: &FilterCriteria) -> (kept: Vec<String>)
    ensures
        texts(kept@) == kept_lines(texts(lines@), *criteria),
{
    let mut kept: Vec<String> = Vec::new();
    let mut i: usize = 0;
    proof {
        reveal(Seq::filter);
        assert(texts(lines@.take(0)) =~= Seq::<Seq<char>>::empty());
        assert(texts(kept@) =~= Seq::<Seq<char>>::empty());
    }
    while i < lines.len()
        invariant
            i <= lines.len(),
            texts(kept@) == kept_lines(texts(lines@.take(i as int)), *criteria),
        decreases lines.len() - i,
    {
        let ghost before = kept@;
        let forward = criteria.passes(lines[i].as_str());
        if forward {
            kept.push(lines[i].clone());
        }
        proof {
            let seen = texts(lines@.take(i as int));
            assert(texts(lines@.take(i + 1)) =~= seen.push(lines@[i as int]@));
            lemma_kept_lines_push(seen, lines@[i as int]@, *criteria);
            if forward {
                assert(texts(kept@) =~= texts(before).push(lines@[i as int]@));
            }
        }
        i = i + 1;
    }
    proof {
        assert(lines@.take(i as int) =~= lines@);
    }
    kept
}

/// The counters after every line of `lines` has been counted.
pub fn count_lines(lines: &Vec<String>) -> (counters: Counters)
    ensures
        counters.wf(),
        counters@ == tally_of(texts(lines@)),
{
    let mut counters = Counters::new();
    let mut i: usize = 0;
    proof {
        lemma_tally_of_nothing();
        assert(texts(lines@.take(0)) =~= Seq::<Seq<char>>::empty());
    }
    while i < lines.len()
        invariant
            i <= lines.len(),
            counters.wf(),
            counters@ == tally_of(texts(lines@.take(i as int))),
        decreases lines.len() - i,
    {
        counters.record_line(lines[i].as_str());
        proof {
            let seen = texts(lines@.take(i as int));
            assert(texts(lines@.take(i + 1)) =~= seen.push(lines@[i as int]@));
            lemma_tally_push(seen, lines@[i as int]@);
        }
        i = i + 1;
    }
    proof {
        assert(lines@.take(i as int) =~= lines@);
    }
    counters
}

/// The figures that a run reports.
#[derive(Clone, Copy, Debug, PartialEq, Eq)]
pub struct Summary {
    /// Lines that the dispatcher sent on.
    pub total_lines: usize,
    /// Lines that the workers counted.
    pub total_processed: usize,
    /// Lines counted as `Info`.
    pub info: usize,
    /// Lines counted as `Warn`.
    pub warn: usize,
    /// Lines counted as `Error`.
    pub error: usize,
}

/// The report of a run from what the dispatcher sent and the workers counted.
pub fn summarize(total_lines: usize, counters: &Counters) -> (summary: Summary)
    ensures
        summary.total_lines == total_lines,
        summary.total_processed == counters@.total,
        summary.info == counters@.info,
        summary.warn == counters@.warn,
        summary.error == counters@.error,
{
    Summary {
        total_lines,
        total_processed: counters.total_processed(),
        info: counters.info_count(),
        warn: counters.warn_count(),
        error: counters.error_count(),
    }
}

/// A whole run over `lines`: the lines kept, in their order, and the figures
/// reported. As many lines are counted as are sent on, and the counts are
/// those of the kept lines.
pub fn analyze(lines: &Vec<String>, criteria: &FilterCriteria) -> (run: (Vec<String>, Summary))
    ensures
        texts(run.0@) == kept_lines(texts(lines@), *criteria),
        run.1.total_lines == run.0@.len(),
        run.1.total_processed == run.1.total_lines,
        run.1.info == tally_of(texts(run.0@)).info,
        run.1.warn == tally_of(texts(run.0@)).warn,
        run.1.error == tally_of(texts(run.0@)).error,
{
    let kept = filter_lines(lines, criteria);
    let counters = count_lines(&kept);
    let summary = summarize(kept.len(), &counters);
    (kept, summary)
}

} // verus!
