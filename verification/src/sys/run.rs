//! How a run of a plan goes on or stops.
//!
//! The library runs nothing. Whoever runs a plan executes one command at a
//! time, in order, and reports what became of it; the rules here say what
//! comes next. That keeps the decisions apart from the host, and lets a run be
//! played against a script of outcomes.
//!
//! A plan may be run on a host that still holds what an earlier run put
//! there. A command that finds in place what it was to put there is refused by
//! its tool, and that refusal is no failure: nothing is missing. So an
//! installation can be repeated.

use super::plan::{Policy, Step};
use vstd::prelude::*;

verus! {

/// What became of a command.
#[derive(Clone, Copy, Debug, PartialEq, Eq, Structural)]
pub enum Outcome {
    /// The command did what it was asked.
    Succeeded,
    /// The tool refused the command because what it was to put in place is
    /// there already: the set, the chain, the range, the rule or the route.
    AlreadyExists,
    /// The command failed for any other reason.
    Failed,
}

/// Where a run stands.
#[derive(Clone, Copy, Debug, PartialEq, Eq, Structural)]
pub enum Progress {
    /// The step at `index` is the next to execute.
    Run { index: usize },
    /// Nothing is left to execute and nothing that was needed has failed.
    Done,
    /// The step at `index` was needed and failed; the run is over.
    Failed { index: usize },
}

/// `needle` stands in `haystack` at position `at`.
pub open spec fn occurs_at(haystack: Seq<char>, needle: Seq<char>, at: int) -> bool {
    0 <= at && at + needle.len() <= haystack.len() && haystack.subrange(at, at + needle.len())
        == needle
}

/// `needle` stands somewhere in `haystack`.
pub open spec fn contains_text(haystack: Seq<char>, needle: Seq<char>) -> bool {
    exists|at: int| occurs_at(haystack, needle, at)
}

/// The message says that what the command was to put in place is there
/// already. The tools say so in three ways: a set or a chain `already exists`,
/// a range of a set is `already added`, and for a policy rule or a route the
/// kernel answers `File exists`.
pub open spec fn reports_existing(stderr: Seq<char>) -> bool {
    contains_text(stderr, "already exists"@) || contains_text(stderr, "already added"@)
        || contains_text(stderr, "File exists"@)
}

/// The outcome of a command by its exit and what it wrote to standard error.
pub open spec fn spec_outcome(succeeded: bool, stderr: Seq<char>) -> Outcome {
    if succeeded {
        Outcome::Succeeded
    } else if reports_existing(stderr) {
        Outcome::AlreadyExists
    } else {
        Outcome::Failed
    }
}

/// The outcome leaves in place what the command was to put there: the command
/// did it, or found it done.
pub open spec fn in_place(outcome: Outcome) -> bool {
    outcome == Outcome::Succeeded || outcome == Outcome::AlreadyExists
}

/// The outcome ends the run: the step was needed, and what it was to put in
/// place is not there. Every failure of a needed step ends the run but the
/// one that finds its work done.
pub open spec fn fatal(step: Step, outcome: Outcome) -> bool {
    step.policy == Policy::FailFast && !in_place(outcome)
}

/// Where a run of the plan begins.
pub open spec fn spec_start(plan: Seq<Step>) -> Progress {
    if plan.len() == 0 {
        Progress::Done
    } else {
        Progress::Run { index: 0 }
    }
}

/// Where a run stands once the step at `index` has had its outcome. Past the
/// end of the plan there is nothing to run.
pub open spec fn spec_advance(plan: Seq<Step>, index: usize, outcome: Outcome) -> Progress {
    if index >= plan.len() {
        Progress::Done
    } else if fatal(plan[index as int], outcome) {
        Progress::Failed { index }
    } else if index + 1 < plan.len() {
        Progress::Run { index: (index + 1) as usize }
    } else {
        Progress::Done
    }
}

/// Where a run stands after the given outcomes, one for each step executed,
/// beginning at `progress`. Outcomes past the end of the run are not looked
/// at.
pub open spec fn run_from(plan: Seq<Step>, progress: Progress, outcomes: Seq<Outcome>) -> Progress
    decreases outcomes.len(),
{
    match progress {
        Progress::Run { index } => if outcomes.len() == 0 {
            progress
        } else {
            run_from(plan, spec_advance(plan, index, outcomes[0]), outcomes.drop_first())
        },
        _ => progress,
    }
}

/// Where a run of the plan stands after the given outcomes.
pub open spec fn run(plan: Seq<Step>, outcomes: Seq<Outcome>) -> Progress {
    run_from(plan, spec_start(plan), outcomes)
}

fn text_occurs_at(haystack: &str, needle: &str, at: usize, h: usize, n: usize) -> (r: bool)
    requires
        h == haystack@.len(),
        n == needle@.len(),
        at + n <= h,
    ensures
        r == occurs_at(haystack@, needle@, at as int),
{
    let ghost window = haystack@.subrange(at as int, at + n);
    let mut k: usize = 0;
    while k < n
        invariant
            k <= n,
            h == haystack@.len(),
            n == needle@.len(),
            at + n <= h,
            window == haystack@.subrange(at as int, at + n),
            forall|j: int| 0 <= j < k ==> window[j] == needle@[j],
        decreases n - k,
    {
        if haystack.get_char(at + k) != needle.get_char(k) {
            assert(window[k as int] != needle@[k as int]);
            return false;
        }
        k += 1;
    }
    assert(window =~= needle@);
    true
}

/// Whether `needle` stands somewhere in `haystack`.
pub fn text_contains(haystack: &str, needle: &str) -> (r: bool)
    ensures
        r == contains_text(haystack@, needle@),
{
    let h = haystack.unicode_len();
    let n = needle.unicode_len();
    if n > h {
        return false;
    }
    let last = h - n;
    let mut at: usize = 0;
    loop
        invariant
            at <= last,
            last == h - n,
            h == haystack@.len(),
            n == needle@.len(),
            forall|j: int| 0 <= j < at ==> !occurs_at(haystack@, needle@, j),
        decreases last - at,
    {
        if text_occurs_at(haystack, needle, at, h, n) {
            return true;
        }
        if at == last {
            return false;
        }
        at += 1;
    }
}

impl Outcome {
    /// The outcome of a command by its exit and what it wrote to standard
    /// error. A refusal that says that what was to be put in place is there
    /// already is told apart from every other failure.
    pub fn of(succeeded: bool, stderr: &str) -> (r: Outcome)
        ensures
            r == spec_outcome(succeeded, stderr@),
    {
        if succeeded {
            Outcome::Succeeded
        } else if text_contains(stderr, "already exists") || text_contains(stderr, "already added")
            || text_contains(stderr, "File exists") {
            Outcome::AlreadyExists
        } else {
            Outcome::Failed
        }
    }
}

impl Step {
    /// Whether this outcome of the step ends the run.
    pub fn is_fatal(&self, outcome: Outcome) -> (r: bool)
        ensures
            r == fatal(*self, outcome),
    {
        let needed = match self.policy {
            Policy::FailFast => true,
            Policy::BestEffort => false,
        };
        let failed = match outcome {
            Outcome::Succeeded => false,
            Outcome::AlreadyExists => false,
            Outcome::Failed => true,
        };
        needed && failed
    }
}

/// Begins a run: names the first step to execute, or finds nothing to do.
pub fn start(plan: &Vec<Step>) -> (r: Progress)
    ensures
        r == spec_start(plan@),
{
    if plan.len() == 0 {
        Progress::Done
    } else {
        Progress::Run { index: 0 }
    }
}

/// Takes the outcome of the step at `index` and says how the run goes on. A
/// needed step that failed ends it and is named; after any other outcome,
/// that of a command that found its work done among them, the next step is
/// due, or the run is done.
pub fn advance(plan: &Vec<Step>, index: usize, outcome: Outcome) -> (r: Progress)
    ensures
        r == spec_advance(plan@, index, outcome),
{
    if index >= plan.len() {
        Progress::Done
    } else if plan[index].is_fatal(outcome) {
        Progress::Failed { index }
    } else if index + 1 < plan.len() {
        Progress::Run { index: index + 1 }
    } else {
        Progress::Done
    }
}

/// Plays a run of the plan against a script: `outcomes` holds what becomes of
/// each step that gets its turn, in order. Says where the run stands when the
/// script, or the run, is over.
pub fn replay(plan: &Vec<Step>, outcomes: &Vec<Outcome>) -> (r: Progress)
    ensures
        r == run(plan@, outcomes@),
{
    let mut progress = start(plan);
    let mut i: usize = 0;
    assert(outcomes@.subrange(0, outcomes.len() as int) =~= outcomes@);
    while i < outcomes.len()
        invariant
            i <= outcomes.len(),
            run(plan@, outcomes@) == run_from(
                plan@,
                progress,
                outcomes@.subrange(i as int, outcomes.len() as int),
            ),
        decreases outcomes.len() - i,
    {
        let ghost rest = outcomes@.subrange(i as int, outcomes.len() as int);
        match progress {
            Progress::Run { index } => {
                assert(rest[0] == outcomes@[i as int]);
                assert(rest.drop_first() =~= outcomes@.subrange(i + 1, outcomes.len() as int));
                progress = advance(plan, index, outcomes[i]);
            },
            _ => {
                return progress;
            },
        }
        i += 1;
    }
    progress
}

} // verus!
