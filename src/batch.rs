use vstd::prelude::*;
use vstd::string::StringExecFns;

use crate::marker::{copy_string, MarkerId};
use crate::session::{
    context_text, session_action, session_start, session_step, Action, ActionView, ErrorView,
    Event, EventView, LineError, LineSession, SessionView,
};

verus! {

/// The line reported for a prefix once its unit of work is over.
pub open spec fn report_text(prefix: Seq<char>, outcome: Result<(), ErrorView>) -> Seq<char> {
    match outcome {
        Ok(()) => "done: "@ + prefix,
        Err(e) => "cannot process line: "@ + context_text(e.0),
    }
}

pub open spec fn outcome_view(outcome: &Result<(), LineError>) -> Result<(), ErrorView> {
    match outcome {
        Ok(()) => Ok(()),
        Err(e) => Err(e.view()),
    }
}

/// The line reported for a prefix: `done: <prefix>` after success, else
/// `cannot process line: <description of the failure>`.
pub fn report_line(prefix: &str, outcome: &Result<(), LineError>) -> (r: String)
    ensures
        r@ == report_text(prefix@, outcome_view(outcome)),
{
    match outcome {
        Ok(()) => {
            let mut s = String::from_str("done: ");
            s.append(prefix);
            s
        },
        Err(e) => {
            let mut s = String::from_str("cannot process line: ");
            let m = e.message();
            s.append(m.as_str());
            s
        },
    }
}

/// The outcome of what the batch asked for.
pub enum BatchEvent {
    /// The next input line, none at the end of the input, or the description
    /// of a read failure.
    LineRead(Result<Option<String>, String>),
    /// The outcome of a storage request of the current prefix.
    Storage(Event),
    /// The current prefix's line was reported.
    Reported,
}

pub enum BatchEventView {
    LineRead(Result<Option<Seq<char>>, Seq<char>>),
    Storage(EventView),
    Reported,
}

impl BatchEvent {
    pub open spec fn view(&self) -> BatchEventView {
        match self {
            BatchEvent::LineRead(Ok(Some(l))) => BatchEventView::LineRead(Ok(Some(l@))),
            BatchEvent::LineRead(Ok(None)) => BatchEventView::LineRead(Ok(None)),
            BatchEvent::LineRead(Err(c)) => BatchEventView::LineRead(Err(c@)),
            BatchEvent::Storage(e) => BatchEventView::Storage(e.view()),
            BatchEvent::Reported => BatchEventView::Reported,
        }
    }
}

/// What the batch asks for next.
pub enum BatchAction {
    /// Read the next input line.
    ReadLine,
    /// List the object versions under the prefix.
    ListVersions { prefix: String },
    /// Delete this version of this key.
    DeleteObject { key: String, version_id: String },
    /// Report this line for the current prefix.
    Print(String),
    /// The run is over: it read the whole input, or a read failed.
    Stop(Result<(), String>),
}

pub enum BatchActionView {
    ReadLine,
    ListVersions(Seq<char>),
    DeleteObject(MarkerId),
    Print(Seq<char>),
    Stop(Result<(), Seq<char>>),
}

impl BatchAction {
    pub open spec fn view(&self) -> BatchActionView {
        match self {
            BatchAction::ReadLine => BatchActionView::ReadLine,
            BatchAction::ListVersions { prefix } => BatchActionView::ListVersions(prefix@),
            BatchAction::DeleteObject { key, version_id } => BatchActionView::DeleteObject(
                (key@, version_id@),
            ),
            BatchAction::Print(s) => BatchActionView::Print(s@),
            BatchAction::Stop(Ok(())) => BatchActionView::Stop(Ok(())),
            BatchAction::Stop(Err(c)) => BatchActionView::Stop(Err(c@)),
        }
    }
}

enum BatchPhase {
    Reading,
    Working(LineSession),
    Stopped(Result<(), String>),
}

/// The batch as plain values: waiting for a line, working on a prefix, or over.
pub enum BatchView {
    Reading,
    Working(SessionView),
    Stopped(Result<(), Seq<char>>),
}

/// A run over the input lines: each line is one prefix whose unit of work is
/// done and reported before the next line is read. A failed unit of work is
/// reported and the run goes on; a failed read ends the run.
pub struct Batch {
    phase: BatchPhase,
}

/// How a batch moves on an event. An event that does not answer what the
/// batch asked for leaves it as it is.
pub open spec fn batch_step(b: BatchView, e: BatchEventView) -> BatchView {
    match (b, e) {
        (BatchView::Reading, BatchEventView::LineRead(Ok(Some(line)))) => BatchView::Working(
            session_start(line),
        ),
        (BatchView::Reading, BatchEventView::LineRead(Ok(None))) => BatchView::Stopped(Ok(())),
        (BatchView::Reading, BatchEventView::LineRead(Err(c))) => BatchView::Stopped(Err(c)),
        (BatchView::Working(s), BatchEventView::Storage(ev)) => if session_action(s) is Finish {
            b
        } else {
            BatchView::Working(session_step(s, ev))
        },
        (BatchView::Working(s), BatchEventView::Reported) => if session_action(s) is Finish {
            BatchView::Reading
        } else {
            b
        },
        _ => b,
    }
}

/// What a batch asks for in a given state.
pub open spec fn batch_action(b: BatchView) -> BatchActionView {
    match b {
        BatchView::Reading => BatchActionView::ReadLine,
        BatchView::Working(s) => match session_action(s) {
            ActionView::ListVersions(p) => BatchActionView::ListVersions(p),
            ActionView::DeleteObject(id) => BatchActionView::DeleteObject(id),
            ActionView::Finish(o) => BatchActionView::Print(report_text(s.prefix, o)),
        },
        BatchView::Stopped(r) => BatchActionView::Stop(r),
    }
}

impl Batch {
    pub closed spec fn view(&self) -> BatchView {
        match self.phase {
            BatchPhase::Reading => BatchView::Reading,
            BatchPhase::Working(s) => BatchView::Working(s.view()),
            BatchPhase::Stopped(Ok(())) => BatchView::Stopped(Ok(())),
            BatchPhase::Stopped(Err(c)) => BatchView::Stopped(Err(c@)),
        }
    }

    /// A batch that has read nothing yet.
    pub fn new() -> (r: Batch)
        ensures
            r.view() == BatchView::Reading,
    {
        Batch { phase: BatchPhase::Reading }
    }

    /// What the batch asks for now.
    pub fn action(&self) -> (r: BatchAction)
        ensures
            r.view() == batch_action(self.view()),
    {
        match &self.phase {
            BatchPhase::Reading => BatchAction::ReadLine,
            BatchPhase::Working(s) => match s.action() {
                Action::ListVersions { prefix } => BatchAction::ListVersions { prefix },
                Action::DeleteObject { key, version_id } => BatchAction::DeleteObject {
                    key,
                    version_id,
                },
                Action::Finish(o) => BatchAction::Print(report_line(s.prefix(), &o)),
            },
            BatchPhase::Stopped(Ok(())) => BatchAction::Stop(Ok(())),
            BatchPhase::Stopped(Err(c)) => BatchAction::Stop(Err(copy_string(c))),
        }
    }

    /// Takes in the outcome of what the batch asked for and returns what it
    /// asks for next.
    pub fn step(&mut self, e: BatchEvent) -> (r: BatchAction)
        ensures
            final(self).view() == batch_step(old(self).view(), e.view()),
            r.view() == batch_action(final(self).view()),
    {
        match e {
            BatchEvent::LineRead(res) => {
                if let BatchPhase::Reading = self.phase {
                    match res {
                        Ok(Some(line)) => {
                            self.phase = BatchPhase::Working(LineSession::new(line.as_str()));
                        },
                        Ok(None) => {
                            self.phase = BatchPhase::Stopped(Ok(()));
                        },
                        Err(c) => {
                            self.phase = BatchPhase::Stopped(Err(c));
                        },
                    }
                }
            },
            BatchEvent::Storage(ev) => {
                match &mut self.phase {
                    BatchPhase::Working(s) => {
                        if !s.is_finished() {
                            s.step(ev);
                        }
                    },
                    _ => {},
                }
            },
            BatchEvent::Reported => {
                let finished = match &self.phase {
                    BatchPhase::Working(s) => s.is_finished(),
                    _ => false,
                };
                if finished {
                    self.phase = BatchPhase::Reading;
                }
            },
        }
        self.action()
    }
}

} // verus!
