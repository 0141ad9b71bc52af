//! Uploading a list of local files.
//!
//! [`upload_files`] plans the batch; [`Upload::step`] is handed what the
//! last command led to and answers with the next command. The session is
//! acquired once, before anything is uploaded. At most
//! [`CEILING`](crate::pipeline::CEILING) uploads are in flight. Each upload
//! that succeeds is reported with one printed line, in the order of
//! completion, and its URL is collected in that order. The first failure,
//! of an upload or of the output, ends the batch: nothing further starts,
//! and what is still in flight is left to finish unobserved.

use vstd::prelude::*;
use crate::error::{Error, ErrorKind, ErrorView};
use crate::pipeline::{
    count, lemma_count_fresh, lemma_count_pending, lemma_count_total, lemma_count_update,
    lemma_fresh_is_wf, lemma_transitions_preserve_wf, Pipeline, PipelineView, TaskState, CEILING,
};
use crate::text::{join3, lemma_texts_push, texts};

verus! {

/// What the driver reports after it has carried out a command.
#[derive(Debug, PartialEq, Eq)]
pub enum UploadEvent {
    /// The shared session was asked for: it is there, or it was refused
    /// for the given reason.
    Session(Result<(), String>),
    /// The upload that was to start is under way.
    Started,
    /// The upload of `task` has ended: with the file's URL, or with the
    /// reason why it failed.
    Completed { task: usize, outcome: Result<String, String> },
    /// The line that was to be printed is out, or could not be written
    /// for the given reason.
    Printed(Result<(), String>),
}

/// What the driver is to do next.
#[derive(Debug, PartialEq, Eq)]
pub enum UploadCommand {
    /// Acquire the shared session.
    Authenticate,
    /// Start uploading the file at `path`, the `task`-th of the batch.
    Start { task: usize, path: String },
    /// Wait until one of the uploads in flight ends.
    Await,
    /// Print `line` as a permanent line of output.
    Print { line: String },
    /// The batch is over: nothing is left to do.
    Finish,
    /// The event does not answer the last command; nothing has changed.
    Rejected,
}

/// An [`UploadCommand`] with its strings as sequences of characters.
pub enum UploadCommandView {
    Authenticate,
    Start { task: nat, path: Seq<char> },
    Await,
    Print { line: Seq<char> },
    Finish,
    Rejected,
}

impl View for UploadCommand {
    type V = UploadCommandView;

    open spec fn view(&self) -> UploadCommandView {
        match *self {
            UploadCommand::Authenticate => UploadCommandView::Authenticate,
            UploadCommand::Start { task, path } => UploadCommandView::Start {
                task: task as nat,
                path: path@,
            },
            UploadCommand::Await => UploadCommandView::Await,
            UploadCommand::Print { line } => UploadCommandView::Print { line: line@ },
            UploadCommand::Finish => UploadCommandView::Finish,
            UploadCommand::Rejected => UploadCommandView::Rejected,
        }
    }
}

/// Which answer an upload batch is waiting for.
pub enum UploadPhase {
    /// For the session.
    Authenticating,
    /// For the confirmation that an upload has started.
    Starting,
    /// For an upload in flight to end.
    Awaiting,
    /// For the line of the upload `task`, which ended with `url`, to be printed.
    Printing { task: nat, url: Seq<char> },
    /// For nothing: the batch is over.
    Finished,
}

/// The line that reports a finished upload: the path, a colon and a space, the URL.
pub open spec fn progress_line(path: Seq<char>, url: Seq<char>) -> Seq<char> {
    path + seq![':', ' '] + url
}

/// The mathematical model of an [`Upload`].
pub struct UploadView {
    /// The local paths, in input order; task `i` uploads `paths[i]`.
    pub paths: Seq<Seq<char>>,
    /// Which answer the batch is waiting for.
    pub phase: UploadPhase,
    /// Which uploads are waiting, in flight or settled.
    pub pipeline: PipelineView,
    /// The URLs of the uploads reported so far, in the order of completion.
    pub urls: Seq<Seq<char>>,
    /// The failure that ended the batch, if one did.
    pub failure: Option<ErrorView>,
}

impl UploadView {
    /// The batch before anything has happened: the session is being asked for.
    pub open spec fn start(paths: Seq<Seq<char>>) -> UploadView {
        UploadView {
            paths,
            phase: UploadPhase::Authenticating,
            pipeline: PipelineView::fresh(paths.len()),
            urls: Seq::empty(),
            failure: None,
        }
    }

    /// There is one task per path, the pipeline is well-formed, and a line
    /// is only being printed for an upload that still holds its slot.
    pub open spec fn wf(self) -> bool {
        &&& self.pipeline.wf()
        &&& self.pipeline.states.len() == self.paths.len()
        &&& self.phase matches UploadPhase::Printing { task, .. } ==> self.pipeline.can_complete(
            task as int,
        )
    }

    /// Starts the next upload if one may start; else waits for one in
    /// flight; else, with nothing in flight, ends the batch.
    pub open spec fn schedule(self) -> (UploadView, UploadCommandView) {
        if self.pipeline.can_dispatch() {
            (
                UploadView {
                    phase: UploadPhase::Starting,
                    pipeline: self.pipeline.dispatch(),
                    ..self
                },
                UploadCommandView::Start {
                    task: self.pipeline.next,
                    path: self.paths[self.pipeline.next as int],
                },
            )
        } else if self.pipeline.in_flight() > 0 {
            (UploadView { phase: UploadPhase::Awaiting, ..self }, UploadCommandView::Await)
        } else {
            (UploadView { phase: UploadPhase::Finished, ..self }, UploadCommandView::Finish)
        }
    }

    /// Ends the batch with a failure. Nothing further starts.
    pub open spec fn fail(self, kind: ErrorKind, message: Seq<char>) -> (
        UploadView,
        UploadCommandView,
    ) {
        (
            UploadView {
                phase: UploadPhase::Finished,
                pipeline: self.pipeline.halt(),
                failure: Some(ErrorView { kind, message }),
                ..self
            },
            UploadCommandView::Finish,
        )
    }

    /// The state after `event` and the command that answers it.
    pub open spec fn step(self, event: UploadEvent) -> (UploadView, UploadCommandView) {
        match (self.phase, event) {
            (UploadPhase::Authenticating, UploadEvent::Session(Ok(_))) => self.schedule(),
            (UploadPhase::Authenticating, UploadEvent::Session(Err(reason))) => self.fail(
                ErrorKind::Authentication,
                reason@,
            ),
            (UploadPhase::Starting, UploadEvent::Started) => self.schedule(),
            (UploadPhase::Awaiting, UploadEvent::Completed { task, outcome }) => {
                if self.pipeline.can_complete(task as int) {
                    match outcome {
                        Ok(url) => (
                            UploadView {
                                phase: UploadPhase::Printing { task: task as nat, url: url@ },
                                ..self
                            },
                            UploadCommandView::Print {
                                line: progress_line(self.paths[task as int], url@),
                            },
                        ),
                        Err(reason) => UploadView {
                            pipeline: self.pipeline.complete(task as int, false),
                            ..self
                        }.fail(ErrorKind::Transport, reason@),
                    }
                } else {
                    (self, UploadCommandView::Rejected)
                }
            },
            (UploadPhase::Printing { task, url }, UploadEvent::Printed(Ok(_))) => UploadView {
                pipeline: self.pipeline.complete(task as int, true),
                urls: self.urls.push(url),
                ..self
            }.schedule(),
            (UploadPhase::Printing { task, url }, UploadEvent::Printed(Err(reason))) => UploadView {
                pipeline: self.pipeline.complete(task as int, false),
                ..self
            }.fail(ErrorKind::Io, reason@),
            (UploadPhase::Finished, _) => (self, UploadCommandView::Finish),
            _ => (self, UploadCommandView::Rejected),
        }
    }

    /// What the batch returns once it is over: the collected URLs, or the
    /// failure that ended it.
    pub open spec fn outcome(self) -> Option<Result<Seq<Seq<char>>, ErrorView>> {
        if self.phase is Finished {
            Some(
                match self.failure {
                    Some(error) => Err(error),
                    None => Ok(self.urls),
                },
            )
        } else {
            None
        }
    }
}

/// Every step leads from a well-formed batch to a well-formed batch.
pub proof fn lemma_step_preserves_wf(state: UploadView, event: UploadEvent)
    requires
        state.wf(),
    ensures
        state.step(event).0.wf(),
{
    lemma_transitions_preserve_wf(state.pipeline, 0, true);
    match (state.phase, event) {
        (UploadPhase::Awaiting, UploadEvent::Completed { task, outcome }) => {
            lemma_transitions_preserve_wf(state.pipeline, task as int, false);
            lemma_transitions_preserve_wf(
                state.pipeline.complete(task as int, false),
                task as int,
                false,
            );
        },
        (UploadPhase::Printing { task, url }, UploadEvent::Printed(outcome)) => {
            lemma_transitions_preserve_wf(state.pipeline, task as int, outcome is Ok);
            lemma_transitions_preserve_wf(
                state.pipeline.complete(task as int, outcome is Ok),
                task as int,
                true,
            );
        },
        _ => {},
    }
}

impl UploadView {
    /// The state that `events` lead to, one step each.
    pub open spec fn after(self, events: Seq<UploadEvent>) -> UploadView
        decreases events.len(),
    {
        if events.len() == 0 {
            self
        } else {
            self.after(events.drop_last()).step(events.last()).0
        }
    }

    /// While no failure has ended the batch: nothing has been halted, no
    /// upload has failed, one URL has been collected for each upload that
    /// is done, and the batch is over only when every upload has started
    /// and none is in flight.
    pub open spec fn on_course(self) -> bool {
        self.failure is None ==> {
            &&& !self.pipeline.halted
            &&& count(self.pipeline.states, TaskState::Failed) == 0
            &&& self.urls.len() == count(self.pipeline.states, TaskState::Done)
            &&& self.phase is Finished ==> self.pipeline.next == self.paths.len()
                && self.pipeline.in_flight() == 0
        }
    }

    /// Until the session is there nothing has started, and a batch that
    /// ended for want of a session never started anything.
    pub open spec fn gated(self) -> bool {
        &&& self.phase is Authenticating ==> self.failure is None && self.pipeline.next == 0
        &&& self.failure matches Some(error) ==> self.phase is Finished && (error.kind
            == ErrorKind::Authentication ==> self.pipeline.next == 0)
    }
}

/// The concurrency ceiling holds throughout: whatever the paths and
/// whatever is reported, in whatever order, at no point are more than
/// [`CEILING`] uploads in flight.
pub proof fn lemma_ceiling_is_never_exceeded(paths: Seq<Seq<char>>, events: Seq<UploadEvent>)
    ensures
        UploadView::start(paths).after(events).wf(),
        UploadView::start(paths).after(events).pipeline.in_flight() <= CEILING,
    decreases events.len(),
{
    let start = UploadView::start(paths);
    if events.len() == 0 {
        lemma_fresh_is_wf(paths.len());
    } else {
        lemma_ceiling_is_never_exceeded(paths, events.drop_last());
        lemma_step_preserves_wf(start.after(events.drop_last()), events.last());
    }
}

/// Nothing is uploaded without a session: while the session is being
/// asked for no upload has started, and in a batch that ended because the
/// session was refused none ever did.
pub proof fn lemma_nothing_starts_without_session(
    paths: Seq<Seq<char>>,
    events: Seq<UploadEvent>,
)
    ensures
        UploadView::start(paths).after(events).gated(),
    decreases events.len(),
{
    if events.len() > 0 {
        lemma_nothing_starts_without_session(paths, events.drop_last());
    }
}

/// A batch that ends without a failure has uploaded every file: it
/// returns exactly one URL per path, and every upload is done.
pub proof fn lemma_success_covers_every_path(paths: Seq<Seq<char>>, events: Seq<UploadEvent>)
    ensures
        UploadView::start(paths).after(events).outcome() matches Some(Ok(urls)) ==> {
            &&& urls.len() == paths.len()
            &&& count(UploadView::start(paths).after(events).pipeline.states, TaskState::Done)
                == paths.len()
        },
{
    let end = UploadView::start(paths).after(events);
    lemma_stays_on_course(paths, events);
    lemma_ceiling_is_never_exceeded(paths, events);
    if end.outcome() matches Some(Ok(urls)) {
        lemma_count_pending(end.pipeline.states, end.pipeline.next);
        lemma_count_total(end.pipeline.states);
    }
}

proof fn lemma_stays_on_course(paths: Seq<Seq<char>>, events: Seq<UploadEvent>)
    ensures
        UploadView::start(paths).after(events).on_course(),
        UploadView::start(paths).after(events).paths == paths,
    decreases events.len(),
{
    let start = UploadView::start(paths);
    if events.len() == 0 {
        lemma_count_fresh(paths.len(), TaskState::Failed);
        lemma_count_fresh(paths.len(), TaskState::Done);
    } else {
        let before = start.after(events.drop_last());
        lemma_stays_on_course(paths, events.drop_last());
        lemma_ceiling_is_never_exceeded(paths, events.drop_last());
        lemma_step_stays_on_course(before, events.last());
    }
}

proof fn lemma_step_stays_on_course(state: UploadView, event: UploadEvent)
    requires
        state.wf(),
        state.on_course(),
    ensures
        state.step(event).0.on_course(),
        state.step(event).0.paths == state.paths,
{
    let next = state.pipeline.next as int;
    if state.pipeline.can_dispatch() {
        lemma_count_update(state.pipeline.states, next, TaskState::InFlight, TaskState::Done);
        lemma_count_update(state.pipeline.states, next, TaskState::InFlight, TaskState::Failed);
    }
    match (state.phase, event) {
        (UploadPhase::Printing { task, url }, UploadEvent::Printed(Ok(_))) => {
            let settled = state.pipeline.complete(task as int, true);
            lemma_count_update(state.pipeline.states, task as int, TaskState::Done, TaskState::Done);
            lemma_count_update(
                state.pipeline.states,
                task as int,
                TaskState::Done,
                TaskState::Failed,
            );
            if settled.can_dispatch() {
                lemma_count_update(
                    settled.states,
                    settled.next as int,
                    TaskState::InFlight,
                    TaskState::Done,
                );
                lemma_count_update(
                    settled.states,
                    settled.next as int,
                    TaskState::InFlight,
                    TaskState::Failed,
                );
            }
        },
        _ => {},
    }
}

enum Phase {
    Authenticating,
    Starting,
    Awaiting,
    Printing { task: usize, url: String },
    Finished,
}

/// A batch of uploads under way.
pub struct Upload {
    paths: Vec<String>,
    phase: Phase,
    pipeline: Pipeline,
    urls: Vec<String>,
    failure: Option<Error>,
}

impl View for Upload {
    type V = UploadView;

    closed spec fn view(&self) -> UploadView {
        UploadView {
            paths: texts(self.paths@),
            phase: match self.phase {
                Phase::Authenticating => UploadPhase::Authenticating,
                Phase::Starting => UploadPhase::Starting,
                Phase::Awaiting => UploadPhase::Awaiting,
                Phase::Printing { task, url } => UploadPhase::Printing {
                    task: task as nat,
                    url: url@,
                },
                Phase::Finished => UploadPhase::Finished,
            },
            pipeline: self.pipeline@,
            urls: texts(self.urls@),
            failure: match self.failure {
                Some(error) => Some(error@),
                None => None,
            },
        }
    }
}

/// Plans the upload of the files at `paths` and gives the first command:
/// to acquire the shared session. Nothing has happened yet.
pub fn upload_files(paths: Vec<String>) -> (r: (Upload, UploadCommand))
    ensures
        r.0@ == UploadView::start(texts(paths@)),
        r.0@.wf(),
        r.1@ == UploadCommandView::Authenticate,
{
    let pipeline = Pipeline::new(paths.len());
    let urls: Vec<String> = Vec::new();
    assert(texts(urls@) == Seq::<Seq<char>>::empty());
    (
        Upload { paths, phase: Phase::Authenticating, pipeline, urls, failure: None },
        UploadCommand::Authenticate,
    )
}

impl Upload {
    #[verifier::type_invariant]
    spec fn inv(self) -> bool {
        self@.wf()
    }

    fn schedule(self) -> (r: (Upload, UploadCommand))
        ensures
            (r.0@, r.1@) == self@.schedule(),
            r.0@.wf(),
    {
        proof {
            use_type_invariant(&self);
        }
        let Upload { paths, phase: _, pipeline, urls, failure } = self;
        let (pipeline, started) = pipeline.dispatch();
        match started {
            Some(task) => {
                let path = paths[task].clone();
                assert(path@ == texts(paths@)[task as int]);
                assert(paths@.len() == paths.len());
                (
                    Upload { paths, phase: Phase::Starting, pipeline, urls, failure },
                    UploadCommand::Start { task, path },
                )
            },
            None => {
                if pipeline.in_flight() > 0 {
                    (
                        Upload { paths, phase: Phase::Awaiting, pipeline, urls, failure },
                        UploadCommand::Await,
                    )
                } else {
                    (
                        Upload { paths, phase: Phase::Finished, pipeline, urls, failure },
                        UploadCommand::Finish,
                    )
                }
            },
        }
    }

    fn fail(self, kind: ErrorKind, message: String) -> (r: (Upload, UploadCommand))
        ensures
            (r.0@, r.1@) == self@.fail(kind, message@),
            r.0@.wf(),
    {
        proof {
            use_type_invariant(&self);
        }
        let Upload { paths, phase: _, pipeline, urls, failure: _ } = self;
        let pipeline = pipeline.halt();
        (
            Upload {
                paths,
                phase: Phase::Finished,
                pipeline,
                urls,
                failure: Some(Error::new(kind, message)),
            },
            UploadCommand::Finish,
        )
    }

    /// Takes what the last command led to and answers with the next
    /// command. An event that does not answer the last command changes
    /// nothing and is answered with [`UploadCommand::Rejected`].
    pub fn step(self, event: UploadEvent) -> (r: (Upload, UploadCommand))
        ensures
            (r.0@, r.1@) == self@.step(event),
            r.0@.wf(),
    {
        proof {
            use_type_invariant(&self);
            lemma_step_preserves_wf(self@, event);
        }
        let Upload { paths, phase, pipeline, urls, failure } = self;
        match phase {
            Phase::Authenticating => match event {
                UploadEvent::Session(Ok(_)) => Upload {
                    paths,
                    phase: Phase::Authenticating,
                    pipeline,
                    urls,
                    failure,
                }.schedule(),
                UploadEvent::Session(Err(reason)) => Upload {
                    paths,
                    phase: Phase::Authenticating,
                    pipeline,
                    urls,
                    failure,
                }.fail(ErrorKind::Authentication, reason),
                _ => (
                    Upload { paths, phase: Phase::Authenticating, pipeline, urls, failure },
                    UploadCommand::Rejected,
                ),
            },
            Phase::Starting => match event {
                UploadEvent::Started => Upload {
                    paths,
                    phase: Phase::Starting,
                    pipeline,
                    urls,
                    failure,
                }.schedule(),
                _ => (
                    Upload { paths, phase: Phase::Starting, pipeline, urls, failure },
                    UploadCommand::Rejected,
                ),
            },
            Phase::Awaiting => match event {
                UploadEvent::Completed { task, outcome } => {
                    match pipeline.state(task) {
                        Some(TaskState::InFlight) => match outcome {
                            Ok(url) => {
                                let line = join3(paths[task].as_str(), ": ", url.as_str());
                                proof {
                                    reveal_strlit(": ");
                                    assert(": "@ == seq![':', ' ']);
                                }
                                (
                                    Upload {
                                        paths,
                                        phase: Phase::Printing { task, url },
                                        pipeline,
                                        urls,
                                        failure,
                                    },
                                    UploadCommand::Print { line },
                                )
                            },
                            Err(reason) => {
                                let (pipeline, _) = pipeline.complete(task, false);
                                Upload {
                                    paths,
                                    phase: Phase::Awaiting,
                                    pipeline,
                                    urls,
                                    failure,
                                }.fail(ErrorKind::Transport, reason)
                            },
                        },
                        _ => (
                            Upload { paths, phase: Phase::Awaiting, pipeline, urls, failure },
                            UploadCommand::Rejected,
                        ),
                    }
                },
                _ => (
                    Upload { paths, phase: Phase::Awaiting, pipeline, urls, failure },
                    UploadCommand::Rejected,
                ),
            },
            Phase::Printing { task, url } => match event {
                UploadEvent::Printed(Ok(_)) => {
                    let (pipeline, _) = pipeline.complete(task, true);
                    let mut urls = urls;
                    proof {
                        lemma_texts_push(urls@, url);
                    }
                    urls.push(url);
                    Upload { paths, phase: Phase::Awaiting, pipeline, urls, failure }.schedule()
                },
                UploadEvent::Printed(Err(reason)) => {
                    let (pipeline, _) = pipeline.complete(task, false);
                    Upload { paths, phase: Phase::Awaiting, pipeline, urls, failure }.fail(
                        ErrorKind::Io,
                        reason,
                    )
                },
                _ => (
                    Upload { paths, phase: Phase::Printing { task, url }, pipeline, urls, failure },
                    UploadCommand::Rejected,
                ),
            },
            Phase::Finished => (
                Upload { paths, phase: Phase::Finished, pipeline, urls, failure },
                UploadCommand::Finish,
            ),
        }
    }

    /// The number of uploads in flight; never more than
    /// [`CEILING`](crate::pipeline::CEILING).
    pub fn in_flight(&self) -> (n: usize)
        ensures
            n == self@.pipeline.in_flight(),
            n <= CEILING,
    {
        self.pipeline.in_flight()
    }

    /// What the batch returns, once it is over: the URLs in the order in
    /// which the uploads were reported, or the failure that ended it.
    /// `None` while the batch is under way.
    pub fn into_result(self) -> (result: Option<Result<Vec<String>, Error>>)
        ensures
            match self@.outcome() {
                None => result is None,
                Some(Ok(urls)) => result matches Some(Ok(found)) && texts(found@) == urls,
                Some(Err(error)) => result matches Some(Err(found)) && found@ == error,
            },
    {
        let Upload { paths: _, phase, pipeline: _, urls, failure } = self;
        match phase {
            Phase::Finished => match failure {
                Some(error) => Some(Err(error)),
                None => Some(Ok(urls)),
            },
            _ => None,
        }
    }
}

} // verus!
