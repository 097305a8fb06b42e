//! The persistence service as a step machine.
//!
//! An operation starts with `Session::start`, which hands back the first piece
//! of disk work to perform. The host performs each `Action` and reports what
//! came of it as an `Event`; `Session::step` then decides the next action,
//! until the action is `Action::Finish`, which carries the operation's reply.

use vstd::prelude::*;
use crate::location::{document_path, document_path_of};

verus! {

/// What `load` gives back while no document has been saved.
pub const EMPTY_DOCUMENT: &'static str = "{}";

/// An operation that the host asks of the service.
#[derive(Debug, PartialEq, Eq)]
pub enum Command {
    /// Overwrite the document with this text.
    Save(String),
    /// Read the document back.
    Load,
    /// Tell where the document file is.
    Locate,
}

pub enum CommandView {
    Save(Seq<char>),
    Load,
    Locate,
}

impl View for Command {
    type V = CommandView;

    open spec fn view(&self) -> CommandView {
        match self {
            Command::Save(content) => CommandView::Save(content@),
            Command::Load => CommandView::Load,
            Command::Locate => CommandView::Locate,
        }
    }
}

/// The answer to an operation, with errors as human-readable text.
#[derive(Debug, PartialEq, Eq)]
pub enum Reply {
    Saved(Result<(), String>),
    Loaded(Result<String, String>),
    Located(String),
}

pub enum ReplyView {
    Saved(Result<(), Seq<char>>),
    Loaded(Result<Seq<char>, Seq<char>>),
    Located(Seq<char>),
}

pub open spec fn unit_result_view(r: Result<(), String>) -> Result<(), Seq<char>> {
    match r {
        Ok(()) => Ok(()),
        Err(e) => Err(e@),
    }
}

pub open spec fn text_result_view(r: Result<String, String>) -> Result<Seq<char>, Seq<char>> {
    match r {
        Ok(text) => Ok(text@),
        Err(e) => Err(e@),
    }
}

impl View for Reply {
    type V = ReplyView;

    open spec fn view(&self) -> ReplyView {
        match self {
            Reply::Saved(r) => ReplyView::Saved(unit_result_view(*r)),
            Reply::Loaded(r) => ReplyView::Loaded(text_result_view(*r)),
            Reply::Located(path) => ReplyView::Located(path@),
        }
    }
}

/// A piece of disk work that the host performs for the service.
#[derive(Debug, PartialEq, Eq)]
pub enum Action {
    /// Create the storage root with every missing parent. A root that already
    /// exists is fine, and a failure is not reported: a later read or write
    /// reports the real one.
    CreateRoot(String),
    /// Overwrite the file at the path (first) with the text (second), in full.
    Write(String, String),
    /// Find out whether a file exists at the path.
    CheckExists(String),
    /// Read the whole file at the path as text.
    Read(String),
    /// The operation is over, with this reply.
    Finish(Reply),
}

pub enum ActionView {
    CreateRoot(Seq<char>),
    Write(Seq<char>, Seq<char>),
    CheckExists(Seq<char>),
    Read(Seq<char>),
    Finish(ReplyView),
}

impl View for Action {
    type V = ActionView;

    open spec fn view(&self) -> ActionView {
        match self {
            Action::CreateRoot(dir) => ActionView::CreateRoot(dir@),
            Action::Write(path, content) => ActionView::Write(path@, content@),
            Action::CheckExists(path) => ActionView::CheckExists(path@),
            Action::Read(path) => ActionView::Read(path@),
            Action::Finish(reply) => ActionView::Finish(reply@),
        }
    }
}

/// What came of an action, as the host reports it.
#[derive(Debug, PartialEq, Eq)]
pub enum Event {
    /// The storage root was created, or already existed, or could not be made.
    RootCreated,
    /// The outcome of a write.
    Written(Result<(), String>),
    /// Whether the file exists.
    Checked(bool),
    /// The outcome of a read.
    ReadDone(Result<String, String>),
}

pub enum EventView {
    RootCreated,
    Written(Result<(), Seq<char>>),
    Checked(bool),
    ReadDone(Result<Seq<char>, Seq<char>>),
}

impl View for Event {
    type V = EventView;

    open spec fn view(&self) -> EventView {
        match self {
            Event::RootCreated => EventView::RootCreated,
            Event::Written(r) => EventView::Written(unit_result_view(*r)),
            Event::Checked(exists) => EventView::Checked(*exists),
            Event::ReadDone(r) => EventView::ReadDone(text_result_view(*r)),
        }
    }
}

/// Which action a session is waiting on.
#[derive(Clone, Copy, PartialEq, Eq, Structural, Debug)]
pub enum Phase {
    CreatingRoot,
    Writing,
    Checking,
    Reading,
    Done,
}

/// One operation in progress.
pub struct Session {
    command: Command,
    path: String,
    phase: Phase,
}

pub struct SessionView {
    pub command: CommandView,
    /// The document file's path.
    pub path: Seq<char>,
    pub phase: Phase,
}

impl View for Session {
    type V = SessionView;

    closed spec fn view(&self) -> SessionView {
        SessionView { command: self.command@, path: self.path@, phase: self.phase }
    }
}

/// The session that `command` starts on the storage root `root`, and its first
/// action: every operation first makes sure that the root exists.
pub open spec fn start_of(command: CommandView, root: Seq<char>) -> (SessionView, ActionView) {
    (
        SessionView { command, path: document_path_of(root), phase: Phase::CreatingRoot },
        ActionView::CreateRoot(root),
    )
}

impl SessionView {
    /// Whether `event` answers the action that the session waits on.
    pub open spec fn awaits(self, event: EventView) -> bool {
        match self.phase {
            Phase::CreatingRoot => event is RootCreated,
            Phase::Writing => event is Written,
            Phase::Checking => event is Checked,
            Phase::Reading => event is ReadDone,
            Phase::Done => false,
        }
    }

    /// The session after `event`, and the next action.
    /// Once the root is there, a save writes the document in full, a load asks
    /// whether it exists and a locate answers with the path at once. A load of
    /// a document that does not exist gives `EMPTY_DOCUMENT`, one that exists is
    /// read; a write or read answers with what came of it, errors included.
    pub open spec fn step(self, event: EventView) -> (SessionView, ActionView) {
        let done = SessionView { phase: Phase::Done, ..self };
        match event {
            EventView::RootCreated => match self.command {
                CommandView::Save(content) => (
                    SessionView { phase: Phase::Writing, ..self },
                    ActionView::Write(self.path, content),
                ),
                CommandView::Load => (
                    SessionView { phase: Phase::Checking, ..self },
                    ActionView::CheckExists(self.path),
                ),
                CommandView::Locate => (done, ActionView::Finish(ReplyView::Located(self.path))),
            },
            EventView::Written(r) => (done, ActionView::Finish(ReplyView::Saved(r))),
            EventView::Checked(exists) => if exists {
                (SessionView { phase: Phase::Reading, ..self }, ActionView::Read(self.path))
            } else {
                (done, ActionView::Finish(ReplyView::Loaded(Ok(EMPTY_DOCUMENT@))))
            },
            EventView::ReadDone(r) => (done, ActionView::Finish(ReplyView::Loaded(r))),
        }
    }
}

impl Session {
    /// Starts `command` on the storage root `root`.
    pub fn start(command: Command, root: &str) -> (r: (Session, Action))
        ensures
            (r.0@, r.1@) == start_of(command@, root@),
    {
        let path = document_path(root);
        (Session { command, path, phase: Phase::CreatingRoot }, Action::CreateRoot(root.to_owned()))
    }

    /// Whether `event` answers the action that the session waits on.
    pub fn awaits(&self, event: &Event) -> (r: bool)
        ensures
            r == self@.awaits(event@),
    {
        match self.phase {
            Phase::CreatingRoot => matches!(event, Event::RootCreated),
            Phase::Writing => matches!(event, Event::Written(_)),
            Phase::Checking => matches!(event, Event::Checked(_)),
            Phase::Reading => matches!(event, Event::ReadDone(_)),
            Phase::Done => false,
        }
    }

    /// Takes in what came of the last action and decides the next one.
    pub fn step(&mut self, event: Event) -> (r: Action)
        requires
            old(self)@.awaits(event@),
        ensures
            (final(self)@, r@) == old(self)@.step(event@),
    {
        match event {
            Event::RootCreated => match &self.command {
                Command::Save(content) => {
                    self.phase = Phase::Writing;
                    Action::Write(self.path.clone(), content.clone())
                },
                Command::Load => {
                    self.phase = Phase::Checking;
                    Action::CheckExists(self.path.clone())
                },
                Command::Locate => {
                    self.phase = Phase::Done;
                    Action::Finish(Reply::Located(self.path.clone()))
                },
            },
            Event::Written(r) => {
                self.phase = Phase::Done;
                Action::Finish(Reply::Saved(r))
            },
            Event::Checked(exists) => {
                if exists {
                    self.phase = Phase::Reading;
                    Action::Read(self.path.clone())
                } else {
                    self.phase = Phase::Done;
                    Action::Finish(Reply::Loaded(Ok(EMPTY_DOCUMENT.to_owned())))
                }
            },
            Event::ReadDone(r) => {
                self.phase = Phase::Done;
                Action::Finish(Reply::Loaded(r))
            },
        }
    }
}

} // verus!
