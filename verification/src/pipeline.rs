//! The retirement pipeline: what to do next with a message, given what has
//! happened to it so far.
//!
//! The pipeline performs no input or output. It is a state machine: the caller
//! reports an [`Event`], the pipeline moves on and answers with the [`Action`]
//! that the caller is to perform next. A message that is to be retired passes
//! through the header filter, is appended to the archive, and only then is
//! deleted from the store.

use vstd::prelude::*;
use crate::criteria::Criteria;
use crate::message::{resolved, Entry, EntryView, MailInfo, MailInfoView, ResolveError};

verus! {

/// The counts that a run reports when it ends.
#[derive(Clone, Copy, Debug, PartialEq, Eq, Structural)]
pub struct Tally {
    /// Messages written to the archive and deleted from the store.
    pub archived: usize,
    /// Messages that the retention rule keeps.
    pub kept: usize,
    /// Messages that could not be resolved.
    pub parse_errors: usize,
    /// Messages whose retirement failed on the way.
    pub move_errors: usize,
}

/// The counts as natural numbers.
pub ghost struct TallyView {
    pub archived: nat,
    pub kept: nat,
    pub parse_errors: nat,
    pub move_errors: nat,
}

impl View for Tally {
    type V = TallyView;

    open spec fn view(&self) -> TallyView {
        TallyView {
            archived: self.archived as nat,
            kept: self.kept as nat,
            parse_errors: self.parse_errors as nat,
            move_errors: self.move_errors as nat,
        }
    }
}

impl TallyView {
    /// The counts of a run that has seen no message yet.
    pub open spec fn zero() -> TallyView {
        TallyView { archived: 0, kept: 0, parse_errors: 0, move_errors: 0 }
    }

    /// Every count can still grow by one without leaving `usize`.
    pub open spec fn has_room(self) -> bool {
        &&& self.archived < usize::MAX
        &&& self.kept < usize::MAX
        &&& self.parse_errors < usize::MAX
        &&& self.move_errors < usize::MAX
    }

    /// The number of messages counted so far.
    pub open spec fn total(self) -> nat {
        self.archived + self.kept + self.parse_errors + self.move_errors
    }

    /// The counts after `verdict` has been recorded. A preview leaves them as
    /// they are; every other verdict raises the count that belongs to it.
    pub open spec fn record(self, verdict: Verdict) -> TallyView {
        match verdict {
            Verdict::Kept => TallyView { kept: self.kept + 1, ..self },
            Verdict::Preview => self,
            Verdict::Archived => TallyView { archived: self.archived + 1, ..self },
            Verdict::Unresolved(_) => TallyView { parse_errors: self.parse_errors + 1, ..self },
            Verdict::NotMoved(_) => TallyView { move_errors: self.move_errors + 1, ..self },
        }
    }
}

/// Why a retirement was abandoned.
#[derive(Clone, Copy, Debug, PartialEq, Eq, Structural)]
pub enum MoveError {
    /// The message could not be opened to feed the filter.
    FilterInput,
    /// The filter could not be started.
    FilterLaunch,
    /// The filter ran and reported failure.
    FilterExit,
    /// The archive refused the filtered message.
    Write,
    /// The message is in the archive, but the store did not delete it.
    Delete,
}

/// How the pipeline has settled one message.
#[derive(Clone, Copy, Debug, PartialEq, Eq, Structural)]
pub enum Verdict {
    /// The retention rule keeps the message.
    Kept,
    /// The message would be retired, but the run only previews.
    Preview,
    /// The message is in the archive and gone from the store.
    Archived,
    /// The message could not be resolved.
    Unresolved(ResolveError),
    /// The retirement failed; unless the error is [`MoveError::Delete`], the
    /// archive holds nothing of the message.
    NotMoved(MoveError),
}

/// What became of one run of the header filter.
#[derive(Debug)]
pub enum FilterRun {
    /// The message could not be opened.
    Unopened,
    /// The filter could not be started.
    NotLaunched,
    /// The filter ran to its end.
    Exited {
        /// Whether it reported success.
        success: bool,
        /// All that it wrote to its output.
        output: Vec<u8>,
    },
}

/// The mathematical content of a [`FilterRun`].
pub ghost enum FilterRunView {
    Unopened,
    NotLaunched,
    Exited { success: bool, output: Seq<u8> },
}

impl View for FilterRun {
    type V = FilterRunView;

    open spec fn view(&self) -> FilterRunView {
        match self {
            FilterRun::Unopened => FilterRunView::Unopened,
            FilterRun::NotLaunched => FilterRunView::NotLaunched,
            FilterRun::Exited { success, output } => FilterRunView::Exited {
                success: *success,
                output: output@,
            },
        }
    }
}

/// What the caller reports to the pipeline.
#[derive(Debug)]
pub enum Event {
    /// The traversal of the store has reached a message, resolved or not.
    Found(Result<MailInfo, ResolveError>),
    /// The header filter has been run on the message in hand.
    Filtered(FilterRun),
    /// The archive has been asked to take the filtered message; `true` if it did.
    Written(bool),
    /// The store has been asked to delete the message; `true` if it did.
    Deleted(bool),
}

/// The mathematical content of an [`Event`].
pub ghost enum EventView {
    Found(Result<MailInfoView, ResolveError>),
    Filtered(FilterRunView),
    Written(bool),
    Deleted(bool),
}

impl View for Event {
    type V = EventView;

    open spec fn view(&self) -> EventView {
        match self {
            Event::Found(Ok(mail)) => EventView::Found(Ok(mail@)),
            Event::Found(Err(e)) => EventView::Found(Err(*e)),
            Event::Filtered(run) => EventView::Filtered(run@),
            Event::Written(ok) => EventView::Written(*ok),
            Event::Deleted(ok) => EventView::Deleted(*ok),
        }
    }
}

/// What the pipeline asks the caller to do next.
#[derive(Debug)]
pub enum Action {
    /// Run the header filter on the message stored at `path`, then report
    /// [`Event::Filtered`].
    Filter { path: String },
    /// Append `bytes` to the archive, then report [`Event::Written`].
    Append { bytes: Vec<u8> },
    /// Delete the message named `id` from the store, then report
    /// [`Event::Deleted`].
    Delete { id: String },
    /// The message is settled: go on to the next one and report
    /// [`Event::Found`].
    Proceed(Verdict),
}

/// The mathematical content of an [`Action`].
pub ghost enum ActionView {
    Filter { path: Seq<char> },
    Append { bytes: Seq<u8> },
    Delete { id: Seq<char> },
    Proceed(Verdict),
}

impl View for Action {
    type V = ActionView;

    open spec fn view(&self) -> ActionView {
        match self {
            Action::Filter { path } => ActionView::Filter { path: path@ },
            Action::Append { bytes } => ActionView::Append { bytes: bytes@ },
            Action::Delete { id } => ActionView::Delete { id: id@ },
            Action::Proceed(verdict) => ActionView::Proceed(*verdict),
        }
    }
}

/// Where the pipeline stands with the message in hand.
#[derive(Debug)]
pub enum Phase {
    /// No message is in hand.
    Idle,
    /// The filter has been asked for.
    Filtering(MailInfo),
    /// The archive has been asked to take the filtered message.
    Writing(MailInfo),
    /// The store has been asked to delete the message.
    Deleting(MailInfo),
}

/// The mathematical content of a [`Phase`].
pub ghost enum PhaseView {
    Idle,
    Filtering(MailInfoView),
    Writing(MailInfoView),
    Deleting(MailInfoView),
}

impl View for Phase {
    type V = PhaseView;

    open spec fn view(&self) -> PhaseView {
        match self {
            Phase::Idle => PhaseView::Idle,
            Phase::Filtering(mail) => PhaseView::Filtering(mail@),
            Phase::Writing(mail) => PhaseView::Writing(mail@),
            Phase::Deleting(mail) => PhaseView::Deleting(mail@),
        }
    }
}

/// The mathematical content of a [`Pipeline`].
pub ghost struct PipelineView {
    pub criteria: Criteria,
    pub confirm: bool,
    pub tally: TallyView,
    pub phase: PhaseView,
}

impl PipelineView {
    /// The pipeline of a run that has seen no message yet.
    pub open spec fn start(criteria: Criteria, confirm: bool) -> PipelineView {
        PipelineView { criteria, confirm, tally: TallyView::zero(), phase: PhaseView::Idle }
    }

    /// Whether `event` answers what the pipeline last asked for.
    pub open spec fn expects(self, event: EventView) -> bool {
        match (self.phase, event) {
            (PhaseView::Idle, EventView::Found(_)) => true,
            (PhaseView::Filtering(_), EventView::Filtered(_)) => true,
            (PhaseView::Writing(_), EventView::Written(_)) => true,
            (PhaseView::Deleting(_), EventView::Deleted(_)) => true,
            _ => false,
        }
    }

    /// The pipeline once the message in hand is settled with `verdict`.
    pub open spec fn settle(self, verdict: Verdict) -> (PipelineView, ActionView) {
        (
            PipelineView { tally: self.tally.record(verdict), phase: PhaseView::Idle, ..self },
            ActionView::Proceed(verdict),
        )
    }

    /// The transition function: the pipeline after `event`, and the action it
    /// asks for. It says nothing of an event that the pipeline does not expect.
    pub open spec fn step(self, event: EventView) -> (PipelineView, ActionView)
        recommends
            self.expects(event),
    {
        match (self.phase, event) {
            (PhaseView::Idle, EventView::Found(Err(e))) => self.settle(Verdict::Unresolved(e)),
            (PhaseView::Idle, EventView::Found(Ok(mail))) => {
                if !self.criteria.retires(mail) {
                    self.settle(Verdict::Kept)
                } else if !self.confirm {
                    self.settle(Verdict::Preview)
                } else {
                    (
                        PipelineView { phase: PhaseView::Filtering(mail), ..self },
                        ActionView::Filter { path: mail.path },
                    )
                }
            },
            (PhaseView::Filtering(mail), EventView::Filtered(run)) => match run {
                FilterRunView::Unopened => self.settle(Verdict::NotMoved(MoveError::FilterInput)),
                FilterRunView::NotLaunched => self.settle(
                    Verdict::NotMoved(MoveError::FilterLaunch),
                ),
                FilterRunView::Exited { success, output } => {
                    if success {
                        (
                            PipelineView { phase: PhaseView::Writing(mail), ..self },
                            ActionView::Append { bytes: output },
                        )
                    } else {
                        self.settle(Verdict::NotMoved(MoveError::FilterExit))
                    }
                },
            },
            (PhaseView::Writing(mail), EventView::Written(ok)) => {
                if ok {
                    (
                        PipelineView { phase: PhaseView::Deleting(mail), ..self },
                        ActionView::Delete { id: mail.id },
                    )
                } else {
                    self.settle(Verdict::NotMoved(MoveError::Write))
                }
            },
            (PhaseView::Deleting(_), EventView::Deleted(ok)) => {
                if ok {
                    self.settle(Verdict::Archived)
                } else {
                    self.settle(Verdict::NotMoved(MoveError::Delete))
                }
            },
            _ => (self, arbitrary()),
        }
    }
}

/// The pipeline of one run.
#[derive(Debug)]
pub struct Pipeline {
    criteria: Criteria,
    confirm: bool,
    tally: Tally,
    phase: Phase,
}

impl View for Pipeline {
    type V = PipelineView;

    closed spec fn view(&self) -> PipelineView {
        PipelineView {
            criteria: self.criteria,
            confirm: self.confirm,
            tally: self.tally@,
            phase: self.phase@,
        }
    }
}

impl Pipeline {
    /// A previewing run never has a message in hand.
    #[verifier::type_invariant]
    spec fn previews_stay_idle(self) -> bool {
        !self.confirm ==> self.phase is Idle
    }

    /// Starts a run under the rule `criteria`. With `confirm` the run retires
    /// messages; without it the run only previews.
    pub fn new(criteria: Criteria, confirm: bool) -> (pipeline: Pipeline)
        ensures
            pipeline@ == PipelineView::start(criteria, confirm),
    {
        Pipeline {
            criteria,
            confirm,
            tally: Tally { archived: 0, kept: 0, parse_errors: 0, move_errors: 0 },
            phase: Phase::Idle,
        }
    }

    /// The counts so far.
    pub fn tally(&self) -> (tally: Tally)
        ensures
            tally@ == self@.tally,
    {
        self.tally
    }

    /// Whether every count can still grow by one.
    pub fn has_room(&self) -> (room: bool)
        ensures
            room == self@.tally.has_room(),
    {
        self.tally.archived < usize::MAX && self.tally.kept < usize::MAX
            && self.tally.parse_errors < usize::MAX && self.tally.move_errors < usize::MAX
    }

    /// Whether `event` answers what the pipeline last asked for.
    pub fn expects(&self, event: &Event) -> (expected: bool)
        ensures
            expected == self@.expects(event@),
    {
        match (&self.phase, event) {
            (Phase::Idle, Event::Found(_)) => true,
            (Phase::Filtering(_), Event::Filtered(_)) => true,
            (Phase::Writing(_), Event::Written(_)) => true,
            (Phase::Deleting(_), Event::Deleted(_)) => true,
            _ => false,
        }
    }

    /// Settles the message in hand with `verdict`.
    fn settle(self, verdict: Verdict) -> (next: (Pipeline, Action))
        requires
            self@.tally.has_room(),
        ensures
            next.0@ == self@.settle(verdict).0,
            next.1@ == self@.settle(verdict).1,
    {
        let Tally { archived, kept, parse_errors, move_errors } = self.tally;
        let tally = match verdict {
            Verdict::Kept => Tally { archived, kept: kept + 1, parse_errors, move_errors },
            Verdict::Preview => Tally { archived, kept, parse_errors, move_errors },
            Verdict::Archived => Tally { archived: archived + 1, kept, parse_errors, move_errors },
            Verdict::Unresolved(_) => Tally {
                archived,
                kept,
                parse_errors: parse_errors + 1,
                move_errors,
            },
            Verdict::NotMoved(_) => Tally {
                archived,
                kept,
                parse_errors,
                move_errors: move_errors + 1,
            },
        };
        (
            Pipeline { criteria: self.criteria, confirm: self.confirm, tally, phase: Phase::Idle },
            Action::Proceed(verdict),
        )
    }

    /// What the traversal reports of a message: how it resolves, or that the
    /// store could not hand it out.
    pub open spec fn found(entry: Option<EntryView>) -> EventView {
        match entry {
            Some(e) => EventView::Found(resolved(e)),
            None => EventView::Found(Err(ResolveError::Unreadable)),
        }
    }

    /// Takes up the next message of the traversal: resolves `entry`, or takes
    /// it as unreadable where the store could hand out none, and reports the
    /// outcome to the pipeline as [`Event::Found`].
    pub fn visit(self, entry: Option<&Entry>) -> (next: (Pipeline, Action))
        requires
            self@.phase is Idle,
            self@.tally.has_room(),
        ensures
            next.0@ == self@.step(
                Self::found(
                    match entry {
                        Some(e) => Some(e@),
                        None => None,
                    },
                ),
            ).0,
            next.1@ == self@.step(
                Self::found(
                    match entry {
                        Some(e) => Some(e@),
                        None => None,
                    },
                ),
            ).1,
    {
        let found = match entry {
            Some(e) => MailInfo::new(e),
            None => Err(ResolveError::Unreadable),
        };
        self.step(Event::Found(found))
    }

    /// Takes the pipeline one step on: records what `event` reports and
    /// returns, with the pipeline after it, the action to perform next.
    ///
    /// A message that cannot be resolved is counted as a parse error. A
    /// resolved message that the retention rule keeps is counted as kept. One
    /// that the rule retires is, in a previewing run, settled at once and
    /// counted nowhere; in a confirmed run it is filtered, then appended to
    /// the archive, then deleted from the store, each step asked for only
    /// after the one before it has succeeded. The first failure on that way
    /// settles the message as a move error, and a message whose deletion
    /// succeeds is counted as archived.
    pub fn step(self, event: Event) -> (next: (Pipeline, Action))
        requires
            self@.expects(event@),
            self@.tally.has_room(),
        ensures
            next.0@ == self@.step(event@).0,
            next.1@ == self@.step(event@).1,
            next.0@.criteria == self@.criteria,
            next.0@.confirm == self@.confirm,
            !self@.confirm ==> next.1@ is Proceed,
            next.1@ is Proceed <==> next.0@.phase is Idle,
            next.1@ is Append ==> event@ is Filtered,
            next.1@ is Delete ==> event@ == EventView::Written(true),
            next.0@.tally.archived >= self@.tally.archived,
            next.0@.tally.kept >= self@.tally.kept,
            next.0@.tally.parse_errors >= self@.tally.parse_errors,
            next.0@.tally.move_errors >= self@.tally.move_errors,
            next.0@.tally.total() <= self@.tally.total() + 1,
    {
        proof {
            use_type_invariant(&self);
        }
        let Pipeline { criteria, confirm, tally, phase } = self;
        match (phase, event) {
            (Phase::Idle, Event::Found(Err(e))) => {
                let idle = Pipeline { criteria, confirm, tally, phase: Phase::Idle };
                idle.settle(Verdict::Unresolved(e))
            },
            (Phase::Idle, Event::Found(Ok(mail))) => {
                let idle = Pipeline { criteria, confirm, tally, phase: Phase::Idle };
                if !criteria.should_archive(&mail) {
                    idle.settle(Verdict::Kept)
                } else if !confirm {
                    idle.settle(Verdict::Preview)
                } else {
                    let path = mail.path.clone();
                    (
                        Pipeline { criteria, confirm, tally, phase: Phase::Filtering(mail) },
                        Action::Filter { path },
                    )
                }
            },
            (Phase::Filtering(mail), Event::Filtered(run)) => {
                let idle = Pipeline { criteria, confirm, tally, phase: Phase::Idle };
                match run {
                    FilterRun::Unopened => idle.settle(Verdict::NotMoved(MoveError::FilterInput)),
                    FilterRun::NotLaunched => idle.settle(
                        Verdict::NotMoved(MoveError::FilterLaunch),
                    ),
                    FilterRun::Exited { success, output } => {
                        if success {
                            (
                                Pipeline { criteria, confirm, tally, phase: Phase::Writing(mail) },
                                Action::Append { bytes: output },
                            )
                        } else {
                            idle.settle(Verdict::NotMoved(MoveError::FilterExit))
                        }
                    },
                }
            },
            (Phase::Writing(mail), Event::Written(ok)) => {
                if ok {
                    let id = mail.id.clone();
                    (
                        Pipeline { criteria, confirm, tally, phase: Phase::Deleting(mail) },
                        Action::Delete { id },
                    )
                } else {
                    let idle = Pipeline { criteria, confirm, tally, phase: Phase::Idle };
                    idle.settle(Verdict::NotMoved(MoveError::Write))
                }
            },
            (Phase::Deleting(_), Event::Deleted(ok)) => {
                let idle = Pipeline { criteria, confirm, tally, phase: Phase::Idle };
                if ok {
                    idle.settle(Verdict::Archived)
                } else {
                    idle.settle(Verdict::NotMoved(MoveError::Delete))
                }
            },
            _ => unreached(),
        }
    }
}

} // verus!
