use vstd::prelude::*;
use vstd::string::StringExecFns;

use crate::marker::{
    copy_string, ids_of, resolve_markers, resolved_listing, ActionableMarker, DeleteMarker,
    MarkerId,
};

verus! {

/// Which request of a prefix's unit of work failed.
#[derive(Clone, Copy, PartialEq, Eq, Structural)]
pub enum ErrorKind {
    ListVersions,
    DeleteMarker,
}

/// The failure of a prefix's unit of work: the request that failed and the
/// service's description of the cause.
pub struct LineError {
    pub kind: ErrorKind,
    pub cause: String,
}

/// A failure as plain values: the request that failed and the cause.
pub type ErrorView = (ErrorKind, Seq<char>);

/// The context that a failure of each request is reported with.
pub open spec fn context_text(kind: ErrorKind) -> Seq<char> {
    match kind {
        ErrorKind::ListVersions => "get object versions"@,
        ErrorKind::DeleteMarker => "cannot delete marker"@,
    }
}

impl LineError {
    pub open spec fn view(&self) -> ErrorView {
        (self.kind, self.cause@)
    }

    /// The description of the failure: the context of the request that failed.
    pub fn message(&self) -> (r: String)
        ensures
            r@ == context_text(self.kind),
    {
        match self.kind {
            ErrorKind::ListVersions => String::from_str("get object versions"),
            ErrorKind::DeleteMarker => String::from_str("cannot delete marker"),
        }
    }
}

/// The outcome of a request, as the program around the library hands it back.
pub enum Event {
    /// The version listing came back: its delete-marker field, which may be
    /// absent, or the description of the failure.
    Listed(Result<Option<Vec<DeleteMarker>>, String>),
    /// The delete request for the pending marker came back.
    Deleted(Result<(), String>),
}

pub enum EventView {
    Listed(Result<Option<Seq<DeleteMarker>>, Seq<char>>),
    Deleted(Result<(), Seq<char>>),
}

impl Event {
    pub open spec fn view(&self) -> EventView {
        match self {
            Event::Listed(Ok(Some(v))) => EventView::Listed(Ok(Some(v@))),
            Event::Listed(Ok(None)) => EventView::Listed(Ok(None)),
            Event::Listed(Err(c)) => EventView::Listed(Err(c@)),
            Event::Deleted(Ok(())) => EventView::Deleted(Ok(())),
            Event::Deleted(Err(c)) => EventView::Deleted(Err(c@)),
        }
    }
}

/// What a prefix's unit of work asks for next.
pub enum Action {
    /// List the object versions under the prefix.
    ListVersions { prefix: String },
    /// Delete this version of this key.
    DeleteObject { key: String, version_id: String },
    /// The unit of work is over, with this outcome.
    Finish(Result<(), LineError>),
}

pub enum ActionView {
    ListVersions(Seq<char>),
    DeleteObject(MarkerId),
    Finish(Result<(), ErrorView>),
}

impl Action {
    pub open spec fn view(&self) -> ActionView {
        match self {
            Action::ListVersions { prefix } => ActionView::ListVersions(prefix@),
            Action::DeleteObject { key, version_id } => ActionView::DeleteObject(
                (key@, version_id@),
            ),
            Action::Finish(Ok(())) => ActionView::Finish(Ok(())),
            Action::Finish(Err(e)) => ActionView::Finish(Err(e.view())),
        }
    }
}

enum Phase {
    Listing,
    Deleting,
    Done,
    Failed(LineError),
}

pub enum PhaseView {
    Listing,
    Deleting,
    Done,
    Failed(ErrorView),
}

/// A prefix's unit of work as plain values: the prefix, the markers that the
/// listing resolved to, how many of them were deleted, and the phase.
pub struct SessionView {
    pub prefix: Seq<char>,
    pub markers: Seq<MarkerId>,
    pub deleted: nat,
    pub phase: PhaseView,
}

/// The unit of work for one prefix: list the versions under it, then delete
/// each resolved marker in order, stopping at the first failure.
pub struct LineSession {
    prefix: String,
    markers: Vec<ActionableMarker>,
    deleted: usize,
    phase: Phase,
}

/// The session that has not yet asked for anything.
pub open spec fn session_start(prefix: Seq<char>) -> SessionView {
    SessionView { prefix, markers: Seq::empty(), deleted: 0, phase: PhaseView::Listing }
}

/// How a session moves on an event. An event that does not answer the
/// pending request leaves the session as it is.
pub open spec fn session_step(s: SessionView, e: EventView) -> SessionView {
    match (s.phase, e) {
        (PhaseView::Listing, EventView::Listed(Err(c))) => SessionView {
            phase: PhaseView::Failed((ErrorKind::ListVersions, c)),
            ..s
        },
        (PhaseView::Listing, EventView::Listed(Ok(l))) => {
            let ms = resolved_listing(l);
            SessionView {
                markers: ms,
                deleted: 0,
                phase: if ms.len() == 0 {
                    PhaseView::Done
                } else {
                    PhaseView::Deleting
                },
                ..s
            }
        },
        (PhaseView::Deleting, EventView::Deleted(Err(c))) => SessionView {
            phase: PhaseView::Failed((ErrorKind::DeleteMarker, c)),
            ..s
        },
        (PhaseView::Deleting, EventView::Deleted(Ok(()))) => {
            let d = if s.deleted < s.markers.len() {
                s.deleted + 1
            } else {
                s.deleted
            };
            SessionView {
                deleted: d,
                phase: if d < s.markers.len() {
                    PhaseView::Deleting
                } else {
                    PhaseView::Done
                },
                ..s
            }
        },
        _ => s,
    }
}

/// What a session asks for in a given state.
pub open spec fn session_action(s: SessionView) -> ActionView {
    match s.phase {
        PhaseView::Listing => ActionView::ListVersions(s.prefix),
        PhaseView::Deleting => if s.deleted < s.markers.len() {
            ActionView::DeleteObject(s.markers[s.deleted as int])
        } else {
            ActionView::Finish(Ok(()))
        },
        PhaseView::Done => ActionView::Finish(Ok(())),
        PhaseView::Failed(e) => ActionView::Finish(Err(e)),
    }
}

impl LineSession {
    pub closed spec fn view(&self) -> SessionView {
        SessionView {
            prefix: self.prefix@,
            markers: ids_of(self.markers@),
            deleted: self.deleted as nat,
            phase: match self.phase {
                Phase::Listing => PhaseView::Listing,
                Phase::Deleting => PhaseView::Deleting,
                Phase::Done => PhaseView::Done,
                Phase::Failed(e) => PhaseView::Failed(e.view()),
            },
        }
    }

    /// Starts the unit of work for a prefix.
    pub fn new(prefix: &str) -> (r: LineSession)
        ensures
            r.view() == session_start(prefix@),
    {
        let r = LineSession {
            prefix: String::from_str(prefix),
            markers: Vec::new(),
            deleted: 0,
            phase: Phase::Listing,
        };
        proof {
            assert(ids_of(r.markers@) =~= Seq::<MarkerId>::empty());
        }
        r
    }

    /// The prefix that this unit of work is for.
    pub fn prefix(&self) -> (r: &str)
        ensures
            r@ == self.view().prefix,
    {
        self.prefix.as_str()
    }

    /// What the session asks for now.
    pub fn action(&self) -> (r: Action)
        ensures
            r.view() == session_action(self.view()),
    {
        match &self.phase {
            Phase::Listing => Action::ListVersions { prefix: copy_string(&self.prefix) },
            Phase::Deleting => {
                if self.deleted < self.markers.len() {
                    let m = &self.markers[self.deleted];
                    Action::DeleteObject {
                        key: copy_string(&m.key),
                        version_id: copy_string(&m.version_id),
                    }
                } else {
                    Action::Finish(Ok(()))
                }
            },
            Phase::Done => Action::Finish(Ok(())),
            Phase::Failed(e) => Action::Finish(
                Err(LineError { kind: e.kind, cause: copy_string(&e.cause) }),
            ),
        }
    }

    /// Whether the unit of work is over.
    pub fn is_finished(&self) -> (r: bool)
        ensures
            r == (session_action(self.view()) is Finish),
    {
        match &self.phase {
            Phase::Listing => false,
            Phase::Deleting => self.deleted >= self.markers.len(),
            Phase::Done => true,
            Phase::Failed(_) => true,
        }
    }

    /// Takes in the outcome of the pending request and returns what the
    /// session asks for next.
    pub fn step(&mut self, e: Event) -> (r: Action)
        ensures
            final(self).view() == session_step(old(self).view(), e.view()),
            r.view() == session_action(final(self).view()),
    {
        match e {
            Event::Listed(res) => {
                if let Phase::Listing = self.phase {
                    match res {
                        Err(c) => {
                            self.phase = Phase::Failed(
                                LineError { kind: ErrorKind::ListVersions, cause: c },
                            );
                        },
                        Ok(listing) => {
                            let ms = resolve_markers(&listing);
                            let empty = ms.len() == 0;
                            self.markers = ms;
                            self.deleted = 0;
                            if empty {
                                self.phase = Phase::Done;
                            } else {
                                self.phase = Phase::Deleting;
                            }
                        },
                    }
                }
            },
            Event::Deleted(res) => {
                if let Phase::Deleting = self.phase {
                    match res {
                        Err(c) => {
                            self.phase = Phase::Failed(
                                LineError { kind: ErrorKind::DeleteMarker, cause: c },
                            );
                        },
                        Ok(()) => {
                            if self.deleted < self.markers.len() {
                                self.deleted = self.deleted + 1;
                            }
                            if self.deleted >= self.markers.len() {
                                self.phase = Phase::Done;
                            }
                        },
                    }
                }
            },
        }
        self.action()
    }
}

} // verus!
