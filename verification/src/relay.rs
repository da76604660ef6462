//! The relay of a running build: what each event from the packaging tool
//! means for the listener and for the run.

use vstd::prelude::*;
use crate::error::BuildError;
use crate::text::{texts, lemma_texts_push};

verus! {

/// One event from the running tool.
pub enum ProcessEvent {
    /// A line on standard output.
    Stdout(String),
    /// A line on standard error.
    Stderr(String),
    /// The tool reported an error; the text is the cause.
    Error(String),
    /// The tool ended, with its exit code where it has one.
    Terminated(Option<i32>),
    /// Anything else.
    Other,
}

/// How the run goes on after an event.
pub enum Outcome {
    /// The run goes on: wait for the next event.
    Continue,
    /// The run has ended well.
    Done,
    /// The run has ended with an error.
    Failed(BuildError),
}

/// What to do about one event: the line to hand to the listener, if any,
/// and how the run goes on.
pub struct RelayStep {
    pub line: Option<String>,
    pub outcome: Outcome,
}

/// What a whole run came to: how many events were taken, the lines handed
/// to the listener, and the error that ended the run, if one did.
pub struct RunReport {
    pub taken: usize,
    pub lines: Vec<String>,
    pub failure: Option<BuildError>,
}

/// The line that the listener gets for an event.
pub open spec fn line_of(e: ProcessEvent) -> Option<Seq<char>> {
    match e {
        ProcessEvent::Stdout(l) => Some("stdout: "@ + l@),
        ProcessEvent::Stderr(l) => Some("stderr: "@ + l@),
        ProcessEvent::Error(cause) => Some("error: "@ + cause@),
        _ => None,
    }
}

/// Whether an exit code stands for success: zero, or none at all.
pub open spec fn exit_ok(code: Option<i32>) -> bool {
    match code {
        Some(c) => c == 0,
        None => true,
    }
}

/// How the run goes on after an event.
pub open spec fn outcome_of(e: ProcessEvent) -> Outcome {
    match e {
        ProcessEvent::Error(cause) => Outcome::Failed(BuildError::Command(cause)),
        ProcessEvent::Terminated(code) => if exit_ok(code) {
            Outcome::Done
        } else {
            Outcome::Failed(BuildError::NonZeroExit)
        },
        _ => Outcome::Continue,
    }
}

/// Whether an event ends the run.
pub open spec fn ends_run(e: ProcessEvent) -> bool {
    outcome_of(e) != Outcome::Continue
}

/// The error that an event ends the run with, if it does.
pub open spec fn failure_of(e: ProcessEvent) -> Option<BuildError> {
    match outcome_of(e) {
        Outcome::Failed(err) => Some(err),
        _ => None,
    }
}

/// The lines that the listener gets for a list of events, in order.
pub open spec fn lines_of(events: Seq<ProcessEvent>) -> Seq<Seq<char>>
    decreases events.len(),
{
    if events.len() == 0 {
        Seq::empty()
    } else {
        match line_of(events.last()) {
            Some(l) => lines_of(events.drop_last()).push(l),
            None => lines_of(events.drop_last()),
        }
    }
}

/// Whether a run over `events` takes exactly the first `taken` of them: up
/// to and with the first event that ends the run, or all where none does.
pub open spec fn run_takes(events: Seq<ProcessEvent>, taken: int) -> bool {
    &&& 0 <= taken <= events.len()
    &&& forall|k: int| 0 <= k < taken - 1 ==> !ends_run(#[trigger] events[k])
    &&& (taken == events.len() || (taken > 0 && ends_run(events[taken - 1])))
}

/// The error that a run taking the first `taken` events ends with, if any.
pub open spec fn run_failure(events: Seq<ProcessEvent>, taken: int) -> Option<BuildError> {
    if 0 < taken <= events.len() {
        failure_of(events[taken - 1])
    } else {
        None
    }
}

/// Decides what to do about one event. Output lines are handed on, tagged
/// by their stream, and the run goes on. An error is handed on and ends the
/// run. The end of the tool ends the run: well where the exit code is zero
/// or missing, with an error otherwise. Other events change nothing.
pub fn relay_step(event: ProcessEvent) -> (r: RelayStep)
    ensures
        r.outcome == outcome_of(event),
        match r.line {
            Some(l) => line_of(event) == Some(l@),
            None => line_of(event).is_none(),
        },
{
    match event {
        ProcessEvent::Stdout(l) => RelayStep {
            line: Some("stdout: ".to_owned().concat(l.as_str())),
            outcome: Outcome::Continue,
        },
        ProcessEvent::Stderr(l) => RelayStep {
            line: Some("stderr: ".to_owned().concat(l.as_str())),
            outcome: Outcome::Continue,
        },
        ProcessEvent::Error(cause) => {
            let line: String = "error: ".to_owned().concat(cause.as_str());
            RelayStep { line: Some(line), outcome: Outcome::Failed(BuildError::Command(cause)) }
        },
        ProcessEvent::Terminated(code) => {
            let ok: bool = match code {
                Some(c) => c == 0,
                None => true,
            };
            if ok {
                RelayStep { line: None, outcome: Outcome::Done }
            } else {
                RelayStep { line: None, outcome: Outcome::Failed(BuildError::NonZeroExit) }
            }
        },
        ProcessEvent::Other => RelayStep { line: None, outcome: Outcome::Continue },
    }
}

/// Relays a recorded run: takes the events in order until one ends the run
/// and collects the lines for the listener. A run whose events are used up
/// without an end has ended well.
pub fn relay_all(events: Vec<ProcessEvent>) -> (r: RunReport)
    ensures
        run_takes(events@, r.taken as int),
        texts(r.lines@) == lines_of(events@.take(r.taken as int)),
        r.failure == run_failure(events@, r.taken as int),
{
    let ghost all = events@;
    let mut rest: Vec<ProcessEvent> = events;
    let total: usize = rest.len();
    let mut lines: Vec<String> = Vec::new();
    let mut taken: usize = 0;
    assert(all.take(0) =~= Seq::<ProcessEvent>::empty());
    assert(texts(lines@) =~= lines_of(all.take(0)));
    while rest.len() > 0
        invariant
            all == events@,
            all.len() == total,
            taken + rest.len() == all.len(),
            rest@ == all.skip(taken as int),
            forall|k: int| 0 <= k < taken ==> !ends_run(#[trigger] all[k]),
            texts(lines@) == lines_of(all.take(taken as int)),
        decreases rest.len(),
    {
        let event: ProcessEvent = rest.remove(0);
        assert(event == all[taken as int]);
        proof {
            assert(rest@ =~= all.skip(taken + 1));
            let next = all.take(taken + 1);
            assert(next.drop_last() =~= all.take(taken as int));
            assert(next.last() == event);
        }
        let step: RelayStep = relay_step(event);
        match step.line {
            Some(l) => {
                proof {
                    lemma_texts_push(lines@, l);
                }
                lines.push(l);
            },
            None => {},
        }
        taken = taken + 1;
        match step.outcome {
            Outcome::Continue => {},
            Outcome::Done => {
                return RunReport { taken, lines, failure: None };
            },
            Outcome::Failed(err) => {
                return RunReport { taken, lines, failure: Some(err) };
            },
        }
    }
    proof {
        if taken > 0 {
            assert(!ends_run(all[taken - 1]));
        }
    }
    RunReport { taken, lines, failure: None }
}

/// A run takes one definite number of events: two counts that both fit the
/// same events are equal.
pub proof fn lemma_run_takes_unique(events: Seq<ProcessEvent>, a: int, b: int)
    requires
        run_takes(events, a),
        run_takes(events, b),
    ensures
        a == b,
{
    if a < b {
        assert(!ends_run(events[a - 1]));
    } else if b < a {
        assert(!ends_run(events[b - 1]));
    }
}

/// A tool that ends with an exit code other than zero, after events none of
/// which ended the run, fails the run with the error for a non-zero exit,
/// and not before every line of those events has been handed on.
pub proof fn lemma_nonzero_exit_fails_after_lines(
    events: Seq<ProcessEvent>,
    code: i32,
    taken: int,
)
    requires
        events.len() > 0,
        events.last() == ProcessEvent::Terminated(Some(code)),
        code != 0,
        forall|k: int| 0 <= k < events.len() - 1 ==> !ends_run(#[trigger] events[k]),
        run_takes(events, taken),
    ensures
        taken == events.len(),
        run_failure(events, taken) == Some(BuildError::NonZeroExit),
        lines_of(events.take(taken)) == lines_of(events.drop_last()),
{
    assert(ends_run(events.last()));
    assert(run_takes(events, events.len() as int));
    lemma_run_takes_unique(events, taken, events.len() as int);
    assert(events.take(taken) =~= events);
}

} // verus!
