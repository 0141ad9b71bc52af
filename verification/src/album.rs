//! Adding remote files to an album.
//!
//! [`add_to_album`] normalizes the album and the files and plans the
//! batch; [`AddToAlbum::step`] is handed what the last command led to and
//! answers with the next command. The session is acquired first; an album
//! that does not normalize ends the batch right after. Each file gets a
//! spinner when its call starts, and the spinner is cleared when the call
//! has ended, however it ended, before its slot is given up. At most
//! [`CEILING`](crate::pipeline::CEILING) calls are in flight. The first
//! failure ends the batch.

use vstd::prelude::*;
use vstd::string::StringExecFns;
use crate::error::{Error, ErrorKind, ErrorView};
use crate::normalize::{
    album_view, codes, normalize_album, normalize_files, normalized_album, normalized_files,
    AlbumReference, FileReference,
};
use crate::pipeline::{
    count, lemma_count_fresh, lemma_count_pending, lemma_count_total, lemma_count_update,
    lemma_fresh_is_wf, lemma_transitions_preserve_wf, Pipeline, PipelineView, TaskState, CEILING,
};
use crate::text::{join3, texts};

verus! {

/// What the driver reports after it has carried out a command.
#[derive(Debug, PartialEq, Eq)]
pub enum AlbumEvent {
    /// The shared session was asked for: it is there, or it was refused
    /// for the given reason.
    Session(Result<(), String>),
    /// The spinner is up and the call that was to start is under way.
    Started,
    /// The call for `task` has ended: well, or for the given reason not.
    Completed { task: usize, outcome: Result<(), String> },
    /// The spinner that was to be cleared is gone.
    Cleared,
}

/// What the driver is to do next.
#[derive(Debug, PartialEq, Eq)]
pub enum AlbumCommand {
    /// Acquire the shared session.
    Authenticate,
    /// Put up a spinner that shows `label`, then start adding the file
    /// `file` to the album at `album`; this is the `task`-th call of the batch.
    Start { task: usize, album: String, file: String, label: String },
    /// Wait until one of the calls in flight ends.
    Await,
    /// Finish and clear the spinner of `task`.
    Clear { task: usize },
    /// The batch is over: nothing is left to do.
    Finish,
    /// The event does not answer the last command; nothing has changed.
    Rejected,
}

/// An [`AlbumCommand`] with its strings as sequences of characters.
pub enum AlbumCommandView {
    Authenticate,
    Start { task: nat, album: Seq<char>, file: Seq<char>, label: Seq<char> },
    Await,
    Clear { task: nat },
    Finish,
    Rejected,
}

impl View for AlbumCommand {
    type V = AlbumCommandView;

    open spec fn view(&self) -> AlbumCommandView {
        match *self {
            AlbumCommand::Authenticate => AlbumCommandView::Authenticate,
            AlbumCommand::Start { task, album, file, label } => AlbumCommandView::Start {
                task: task as nat,
                album: album@,
                file: file@,
                label: label@,
            },
            AlbumCommand::Await => AlbumCommandView::Await,
            AlbumCommand::Clear { task } => AlbumCommandView::Clear { task: task as nat },
            AlbumCommand::Finish => AlbumCommandView::Finish,
            AlbumCommand::Rejected => AlbumCommandView::Rejected,
        }
    }
}

/// Which answer a batch of additions is waiting for.
pub enum AlbumPhase {
    /// For the session.
    Authenticating,
    /// For the confirmation that a call has started.
    Starting,
    /// For a call in flight to end.
    Awaiting,
    /// For the spinner of `task` to be cleared; its call ended with `outcome`.
    Clearing { task: nat, outcome: Result<(), Seq<char>> },
    /// For nothing: the batch is over.
    Finished,
}

/// What the spinner of a file shows.
pub open spec fn spinner_label(file: Seq<char>) -> Seq<char> {
    "Uploading '"@ + file + "' to album"@
}

/// The mathematical model of an [`AddToAlbum`].
pub struct AddToAlbumView {
    /// The album's canonical URL, or why the album reference has none.
    pub album: Result<Seq<char>, ErrorView>,
    /// The codes of the files to add, in input order; task `i` adds `files[i]`.
    pub files: Seq<Seq<char>>,
    /// Which answer the batch is waiting for.
    pub phase: AlbumPhase,
    /// Which calls are waiting, in flight or settled.
    pub pipeline: PipelineView,
    /// The failure that ended the batch, if one did.
    pub failure: Option<ErrorView>,
}

impl AddToAlbumView {
    /// The batch before anything has happened: the references are
    /// normalized, and the session is being asked for.
    pub open spec fn start(album: Seq<char>, files: Seq<Seq<char>>) -> AddToAlbumView {
        AddToAlbumView {
            album: normalized_album(album),
            files: normalized_files(files),
            phase: AlbumPhase::Authenticating,
            pipeline: PipelineView::fresh(normalized_files(files).len()),
            failure: None,
        }
    }

    /// There is one task per file and the pipeline is well-formed; past
    /// the session the album has a URL, unless its want of one ended the
    /// batch; and a spinner is only being cleared for a call that still
    /// holds its slot.
    pub open spec fn wf(self) -> bool {
        &&& self.pipeline.wf()
        &&& self.pipeline.states.len() == self.files.len()
        &&& self.album is Err ==> self.phase is Authenticating || self.phase is Finished
        &&& self.phase matches AlbumPhase::Clearing { task, .. } ==> self.pipeline.can_complete(
            task as int,
        )
    }

    /// Starts the next call if one may start; else waits for one in
    /// flight; else, with nothing in flight, ends the batch.
    pub open spec fn schedule(self) -> (AddToAlbumView, AlbumCommandView) {
        if self.pipeline.can_dispatch() {
            (
                AddToAlbumView {
                    phase: AlbumPhase::Starting,
                    pipeline: self.pipeline.dispatch(),
                    ..self
                },
                AlbumCommandView::Start {
                    task: self.pipeline.next,
                    album: self.album->Ok_0,
                    file: self.files[self.pipeline.next as int],
                    label: spinner_label(self.files[self.pipeline.next as int]),
                },
            )
        } else if self.pipeline.in_flight() > 0 {
            (AddToAlbumView { phase: AlbumPhase::Awaiting, ..self }, AlbumCommandView::Await)
        } else {
            (AddToAlbumView { phase: AlbumPhase::Finished, ..self }, AlbumCommandView::Finish)
        }
    }

    /// Ends the batch with a failure. Nothing further starts.
    pub open spec fn fail(self, error: ErrorView) -> (AddToAlbumView, AlbumCommandView) {
        (
            AddToAlbumView {
                phase: AlbumPhase::Finished,
                pipeline: self.pipeline.halt(),
                failure: Some(error),
                ..self
            },
            AlbumCommandView::Finish,
        )
    }

    /// The state after `event` and the command that answers it.
    pub open spec fn step(self, event: AlbumEvent) -> (AddToAlbumView, AlbumCommandView) {
        match (self.phase, event) {
            (AlbumPhase::Authenticating, AlbumEvent::Session(Ok(_))) => match self.album {
                Ok(_) => self.schedule(),
                Err(error) => self.fail(error),
            },
            (AlbumPhase::Authenticating, AlbumEvent::Session(Err(reason))) => self.fail(
                ErrorView { kind: ErrorKind::Authentication, message: reason@ },
            ),
            (AlbumPhase::Starting, AlbumEvent::Started) => self.schedule(),
            (AlbumPhase::Awaiting, AlbumEvent::Completed { task, outcome }) => {
                if self.pipeline.can_complete(task as int) {
                    (
                        AddToAlbumView {
                            phase: AlbumPhase::Clearing {
                                task: task as nat,
                                outcome: match outcome {
                                    Ok(_) => Ok(()),
                                    Err(reason) => Err(reason@),
                                },
                            },
                            ..self
                        },
                        AlbumCommandView::Clear { task: task as nat },
                    )
                } else {
                    (self, AlbumCommandView::Rejected)
                }
            },
            (AlbumPhase::Clearing { task, outcome }, AlbumEvent::Cleared) => match outcome {
                Ok(_) => AddToAlbumView {
                    pipeline: self.pipeline.complete(task as int, true),
                    ..self
                }.schedule(),
                Err(reason) => AddToAlbumView {
                    pipeline: self.pipeline.complete(task as int, false),
                    ..self
                }.fail(ErrorView { kind: ErrorKind::Transport, message: reason }),
            },
            (AlbumPhase::Finished, _) => (self, AlbumCommandView::Finish),
            _ => (self, AlbumCommandView::Rejected),
        }
    }

    /// What the batch returns once it is over: nothing, or the failure
    /// that ended it.
    pub open spec fn outcome(self) -> Option<Result<(), ErrorView>> {
        if self.phase is Finished {
            Some(
                match self.failure {
                    Some(error) => Err(error),
                    None => Ok(()),
                },
            )
        } else {
            None
        }
    }

    /// The state that `events` lead to, one step each.
    pub open spec fn after(self, events: Seq<AlbumEvent>) -> AddToAlbumView
        decreases events.len(),
    {
        if events.len() == 0 {
            self
        } else {
            self.after(events.drop_last()).step(events.last()).0
        }
    }

    /// While no failure has ended the batch: nothing has been halted, no
    /// call has failed, and the batch is over only when every call has
    /// started and none is in flight.
    pub open spec fn on_course(self) -> bool {
        self.failure is None ==> {
            &&& !self.pipeline.halted
            &&& count(self.pipeline.states, TaskState::Failed) == 0
            &&& self.phase is Finished ==> self.pipeline.next == self.files.len()
                && self.pipeline.in_flight() == 0
        }
    }

    /// Until the session is there nothing has started, and a batch that
    /// ended for want of a session or of an album never started anything.
    pub open spec fn gated(self) -> bool {
        &&& self.phase is Authenticating ==> self.failure is None && self.pipeline.next == 0
        &&& self.failure matches Some(error) ==> self.phase is Finished && (error.kind
            == ErrorKind::Authentication || self.album is Err ==> self.pipeline.next == 0)
    }
}

/// Every step leads from a well-formed batch to a well-formed batch.
pub proof fn lemma_step_preserves_wf(state: AddToAlbumView, event: AlbumEvent)
    requires
        state.wf(),
    ensures
        state.step(event).0.wf(),
{
    lemma_transitions_preserve_wf(state.pipeline, 0, true);
    match (state.phase, event) {
        (AlbumPhase::Clearing { task, outcome }, AlbumEvent::Cleared) => {
            lemma_transitions_preserve_wf(state.pipeline, task as int, outcome is Ok);
            lemma_transitions_preserve_wf(
                state.pipeline.complete(task as int, outcome is Ok),
                task as int,
                true,
            );
        },
        _ => {},
    }
}

/// The concurrency ceiling holds throughout: whatever the references and
/// whatever is reported, in whatever order, at no point are more than
/// [`CEILING`] calls in flight.
pub proof fn lemma_ceiling_is_never_exceeded(
    album: Seq<char>,
    files: Seq<Seq<char>>,
    events: Seq<AlbumEvent>,
)
    ensures
        AddToAlbumView::start(album, files).after(events).wf(),
        AddToAlbumView::start(album, files).after(events).pipeline.in_flight() <= CEILING,
    decreases events.len(),
{
    let start = AddToAlbumView::start(album, files);
    if events.len() == 0 {
        lemma_fresh_is_wf(normalized_files(files).len());
    } else {
        lemma_ceiling_is_never_exceeded(album, files, events.drop_last());
        lemma_step_preserves_wf(start.after(events.drop_last()), events.last());
    }
}

/// Nothing is added without a session and an album: while the session is
/// being asked for no call has started, and in a batch that ended because
/// the session was refused, or whose album reference does not normalize,
/// none ever did.
pub proof fn lemma_nothing_starts_without_session(
    album: Seq<char>,
    files: Seq<Seq<char>>,
    events: Seq<AlbumEvent>,
)
    ensures
        AddToAlbumView::start(album, files).after(events).gated(),
        AddToAlbumView::start(album, files).after(events).album == normalized_album(album),
    decreases events.len(),
{
    if events.len() > 0 {
        lemma_nothing_starts_without_session(album, files, events.drop_last());
        lemma_ceiling_is_never_exceeded(album, files, events.drop_last());
    }
}

/// A batch that ends without a failure has added every file that has a
/// canonical form: every call is done.
pub proof fn lemma_success_covers_every_file(
    album: Seq<char>,
    files: Seq<Seq<char>>,
    events: Seq<AlbumEvent>,
)
    ensures
        AddToAlbumView::start(album, files).after(events).outcome() == Some(Ok::<(), ErrorView>(()))
            ==> count(
            AddToAlbumView::start(album, files).after(events).pipeline.states,
            TaskState::Done,
        ) == normalized_files(files).len(),
{
    let end = AddToAlbumView::start(album, files).after(events);
    lemma_stays_on_course(album, files, events);
    lemma_ceiling_is_never_exceeded(album, files, events);
    if end.outcome() == Some(Ok::<(), ErrorView>(())) {
        lemma_count_pending(end.pipeline.states, end.pipeline.next);
        lemma_count_total(end.pipeline.states);
    }
}

proof fn lemma_stays_on_course(album: Seq<char>, files: Seq<Seq<char>>, events: Seq<AlbumEvent>)
    ensures
        AddToAlbumView::start(album, files).after(events).on_course(),
        AddToAlbumView::start(album, files).after(events).files == normalized_files(files),
    decreases events.len(),
{
    let start = AddToAlbumView::start(album, files);
    if events.len() == 0 {
        lemma_count_fresh(normalized_files(files).len(), TaskState::Failed);
    } else {
        let before = start.after(events.drop_last());
        lemma_stays_on_course(album, files, events.drop_last());
        lemma_ceiling_is_never_exceeded(album, files, events.drop_last());
        lemma_step_stays_on_course(before, events.last());
    }
}

proof fn lemma_step_stays_on_course(state: AddToAlbumView, event: AlbumEvent)
    requires
        state.wf(),
        state.on_course(),
    ensures
        state.step(event).0.on_course(),
        state.step(event).0.files == state.files,
{
    let next = state.pipeline.next as int;
    if state.pipeline.can_dispatch() {
        lemma_count_update(state.pipeline.states, next, TaskState::InFlight, TaskState::Failed);
    }
    match (state.phase, event) {
        (AlbumPhase::Clearing { task, outcome }, AlbumEvent::Cleared) => {
            let settled = state.pipeline.complete(task as int, true);
            lemma_count_update(
                state.pipeline.states,
                task as int,
                TaskState::Done,
                TaskState::Failed,
            );
            if settled.can_dispatch() {
                lemma_count_update(
                    settled.states,
                    settled.next as int,
                    TaskState::InFlight,
                    TaskState::Failed,
                );
            }
        },
        _ => {},
    }
}

enum Phase {
    Authenticating,
    Starting,
    Awaiting,
    Clearing { task: usize, outcome: Result<(), String> },
    Finished,
}

/// A batch of additions to an album under way.
pub struct AddToAlbum {
    album: Result<AlbumReference, Error>,
    files: Vec<FileReference>,
    phase: Phase,
    pipeline: Pipeline,
    failure: Option<Error>,
}

impl View for AddToAlbum {
    type V = AddToAlbumView;

    closed spec fn view(&self) -> AddToAlbumView {
        AddToAlbumView {
            album: album_view(self.album),
            files: codes(self.files@),
            phase: match self.phase {
                Phase::Authenticating => AlbumPhase::Authenticating,
                Phase::Starting => AlbumPhase::Starting,
                Phase::Awaiting => AlbumPhase::Awaiting,
                Phase::Clearing { task, outcome } => AlbumPhase::Clearing {
                    task: task as nat,
                    outcome: match outcome {
                        Ok(_) => Ok(()),
                        Err(reason) => Err(reason@),
                    },
                },
                Phase::Finished => AlbumPhase::Finished,
            },
            pipeline: self.pipeline@,
            failure: match self.failure {
                Some(error) => Some(error@),
                None => None,
            },
        }
    }
}

/// Plans the addition of `files` to `album`, each given as a bare code or
/// as a full URL, and gives the first command: to acquire the shared
/// session. The references are normalized here; files that have no
/// canonical form are left out. Nothing else has happened yet.
pub fn add_to_album(album: &str, files: Vec<String>) -> (r: (AddToAlbum, AlbumCommand))
    ensures
        r.0@ == AddToAlbumView::start(album@, texts(files@)),
        r.0@.wf(),
        r.1@ == AlbumCommandView::Authenticate,
{
    let album = normalize_album(album);
    let files = normalize_files(files);
    let pipeline = Pipeline::new(files.len());
    (
        AddToAlbum { album, files, phase: Phase::Authenticating, pipeline, failure: None },
        AlbumCommand::Authenticate,
    )
}

impl AddToAlbum {
    #[verifier::type_invariant]
    spec fn inv(self) -> bool {
        self@.wf()
    }

    fn schedule(self) -> (r: (AddToAlbum, AlbumCommand))
        requires
            self@.album is Ok,
        ensures
            (r.0@, r.1@) == self@.schedule(),
            r.0@.wf(),
    {
        proof {
            use_type_invariant(&self);
        }
        let AddToAlbum { album, files, phase: _, pipeline, failure } = self;
        let (pipeline, started) = pipeline.dispatch();
        match started {
            Some(task) => {
                assert(files@.len() == files.len());
                let url = match &album {
                    Ok(reference) => String::from_str(reference.as_str()),
                    Err(_) => unreached(),
                };
                let file = String::from_str(files[task].as_str());
                let label = join3("Uploading '", files[task].as_str(), "' to album");
                assert(file@ == codes(files@)[task as int]);
                (
                    AddToAlbum { album, files, phase: Phase::Starting, pipeline, failure },
                    AlbumCommand::Start { task, album: url, file, label },
                )
            },
            None => {
                if pipeline.in_flight() > 0 {
                    (
                        AddToAlbum { album, files, phase: Phase::Awaiting, pipeline, failure },
                        AlbumCommand::Await,
                    )
                } else {
                    (
                        AddToAlbum { album, files, phase: Phase::Finished, pipeline, failure },
                        AlbumCommand::Finish,
                    )
                }
            },
        }
    }

    fn fail(self, error: Error) -> (r: (AddToAlbum, AlbumCommand))
        ensures
            (r.0@, r.1@) == self@.fail(error@),
            r.0@.wf(),
    {
        proof {
            use_type_invariant(&self);
        }
        let AddToAlbum { album, files, phase: _, pipeline, failure: _ } = self;
        let pipeline = pipeline.halt();
        (
            AddToAlbum { album, files, phase: Phase::Finished, pipeline, failure: Some(error) },
            AlbumCommand::Finish,
        )
    }

    /// Takes what the last command led to and answers with the next
    /// command. An event that does not answer the last command changes
    /// nothing and is answered with [`AlbumCommand::Rejected`].
    pub fn step(self, event: AlbumEvent) -> (r: (AddToAlbum, AlbumCommand))
        ensures
            (r.0@, r.1@) == self@.step(event),
            r.0@.wf(),
    {
        proof {
            use_type_invariant(&self);
            lemma_step_preserves_wf(self@, event);
        }
        let AddToAlbum { album, files, phase, pipeline, failure } = self;
        match phase {
            Phase::Authenticating => match event {
                AlbumEvent::Session(Ok(_)) => {
                    let rejected = match &album {
                        Ok(_) => None,
                        Err(error) => Some(Error::new(error.kind, error.message.clone())),
                    };
                    let batch = AddToAlbum {
                        album,
                        files,
                        phase: Phase::Authenticating,
                        pipeline,
                        failure,
                    };
                    match rejected {
                        None => batch.schedule(),
                        Some(error) => batch.fail(error),
                    }
                },
                AlbumEvent::Session(Err(reason)) => AddToAlbum {
                    album,
                    files,
                    phase: Phase::Authenticating,
                    pipeline,
                    failure,
                }.fail(Error::new(ErrorKind::Authentication, reason)),
                _ => (
                    AddToAlbum { album, files, phase: Phase::Authenticating, pipeline, failure },
                    AlbumCommand::Rejected,
                ),
            },
            Phase::Starting => match event {
                AlbumEvent::Started => AddToAlbum {
                    album,
                    files,
                    phase: Phase::Starting,
                    pipeline,
                    failure,
                }.schedule(),
                _ => (
                    AddToAlbum { album, files, phase: Phase::Starting, pipeline, failure },
                    AlbumCommand::Rejected,
                ),
            },
            Phase::Awaiting => match event {
                AlbumEvent::Completed { task, outcome } => match pipeline.state(task) {
                    Some(TaskState::InFlight) => (
                        AddToAlbum {
                            album,
                            files,
                            phase: Phase::Clearing { task, outcome },
                            pipeline,
                            failure,
                        },
                        AlbumCommand::Clear { task },
                    ),
                    _ => (
                        AddToAlbum { album, files, phase: Phase::Awaiting, pipeline, failure },
                        AlbumCommand::Rejected,
                    ),
                },
                _ => (
                    AddToAlbum { album, files, phase: Phase::Awaiting, pipeline, failure },
                    AlbumCommand::Rejected,
                ),
            },
            Phase::Clearing { task, outcome } => match event {
                AlbumEvent::Cleared => match outcome {
                    Ok(_) => {
                        let (pipeline, _) = pipeline.complete(task, true);
                        AddToAlbum {
                            album,
                            files,
                            phase: Phase::Awaiting,
                            pipeline,
                            failure,
                        }.schedule()
                    },
                    Err(reason) => {
                        let (pipeline, _) = pipeline.complete(task, false);
                        AddToAlbum {
                            album,
                            files,
                            phase: Phase::Awaiting,
                            pipeline,
                            failure,
                        }.fail(Error::new(ErrorKind::Transport, reason))
                    },
                },
                _ => (
                    AddToAlbum {
                        album,
                        files,
                        phase: Phase::Clearing { task, outcome },
                        pipeline,
                        failure,
                    },
                    AlbumCommand::Rejected,
                ),
            },
            Phase::Finished => (
                AddToAlbum { album, files, phase: Phase::Finished, pipeline, failure },
                AlbumCommand::Finish,
            ),
        }
    }

    /// The number of calls in flight; never more than
    /// [`CEILING`](crate::pipeline::CEILING).
    pub fn in_flight(&self) -> (n: usize)
        ensures
            n == self@.pipeline.in_flight(),
            n <= CEILING,
    {
        self.pipeline.in_flight()
    }

    /// What the batch returns, once it is over: nothing, or the failure
    /// that ended it. `None` while the batch is under way.
    pub fn into_result(self) -> (result: Option<Result<(), Error>>)
        ensures
            match self@.outcome() {
                None => result is None,
                Some(Ok(_)) => result == Some(Ok::<(), Error>(())),
                Some(Err(error)) => result matches Some(Err(found)) && found@ == error,
            },
    {
        let AddToAlbum { album: _, files: _, phase, pipeline: _, failure } = self;
        match phase {
            Phase::Finished => match failure {
                Some(error) => Some(Err(error)),
                None => Some(Ok(())),
            },
            _ => None,
        }
    }
}

} // verus!
