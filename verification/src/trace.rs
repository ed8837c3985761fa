//! What holds of a whole run: the laws of the pipeline over every sequence of
//! events that a caller can report.
//!
//! A run is modelled by the sequence of events reported to a pipeline that
//! started idle. [`state_at`] is the pipeline after the first `i` events and
//! [`action_at`] the action with which it answers event `i`.

use vstd::prelude::*;
use crate::criteria::Criteria;
use crate::pipeline::{ActionView, EventView, FilterRunView, PhaseView, PipelineView, TallyView};

verus! {

/// The pipeline after the first `i` of `events`, from `start` on.
pub open spec fn state_at(start: PipelineView, events: Seq<EventView>, i: nat) -> PipelineView
    decreases i,
{
    if i == 0 {
        start
    } else {
        state_at(start, events, (i - 1) as nat).step(events[i - 1]).0
    }
}

/// The action with which the pipeline answers event `i`.
pub open spec fn action_at(start: PipelineView, events: Seq<EventView>, i: nat) -> ActionView {
    state_at(start, events, i).step(events[i as int]).1
}

/// Every event answers what the pipeline asked for just before it.
pub open spec fn in_turn(start: PipelineView, events: Seq<EventView>) -> bool {
    forall|i: nat| i < events.len() ==> (#[trigger] state_at(start, events, i)).expects(
        events[i as int],
    )
}

/// The pipeline with which a second run over the same store would start.
pub open spec fn restarted(p: PipelineView) -> PipelineView {
    PipelineView { tally: TallyView::zero(), ..p }
}

/// What the events before `i` must have been for the pipeline to stand where
/// it stands after them.
spec fn history(start: PipelineView, events: Seq<EventView>, i: nat) -> bool {
    let here = state_at(start, events, i);
    &&& here.criteria == start.criteria
    &&& here.confirm == start.confirm
    &&& match here.phase {
        PhaseView::Idle => true,
        PhaseView::Filtering(mail) => {
            &&& start.confirm
            &&& start.criteria.retires(mail)
            &&& i >= 1
            &&& events[i - 1] == EventView::Found(Ok(mail))
        },
        PhaseView::Writing(mail) => {
            &&& start.confirm
            &&& start.criteria.retires(mail)
            &&& i >= 2
            &&& events[i - 2] == EventView::Found(Ok(mail))
            &&& events[i - 1] matches EventView::Filtered(
                FilterRunView::Exited { success: true, output },
            )
            &&& action_at(start, events, (i - 1) as nat) == (ActionView::Append { bytes: output })
        },
        PhaseView::Deleting(mail) => {
            &&& start.confirm
            &&& start.criteria.retires(mail)
            &&& i >= 3
            &&& events[i - 3] == EventView::Found(Ok(mail))
            &&& events[i - 1] == EventView::Written(true)
            &&& action_at(start, events, (i - 1) as nat) == (ActionView::Delete { id: mail.id })
        },
    }
}

proof fn lemma_history(start: PipelineView, events: Seq<EventView>, i: nat)
    requires
        start.phase is Idle,
        in_turn(start, events),
        i <= events.len(),
    ensures
        history(start, events, i),
    decreases i,
{
    if i > 0 {
        let before = (i - 1) as nat;
        lemma_history(start, events, before);
        assert(state_at(start, events, before).expects(events[before as int]));
    }
}

/// A previewing run asks for nothing: whatever the store holds, every event
/// is answered with [`ActionView::Proceed`], so that no filter is run, nothing
/// is appended to the archive and nothing is deleted from the store. Such a
/// run archives nothing and counts no move error.
pub proof fn law_preview_changes_nothing(criteria: Criteria, events: Seq<EventView>, i: nat)
    requires
        in_turn(PipelineView::start(criteria, false), events),
        i < events.len(),
    ensures
        action_at(PipelineView::start(criteria, false), events, i) is Proceed,
        events[i as int] is Found,
        state_at(PipelineView::start(criteria, false), events, events.len()).phase is Idle,
        state_at(PipelineView::start(criteria, false), events, events.len()).tally.archived == 0,
        state_at(PipelineView::start(criteria, false), events, events.len()).tally.move_errors
            == 0,
{
    let start = PipelineView::start(criteria, false);
    lemma_history(start, events, i);
    assert(state_at(start, events, i).expects(events[i as int]));
    lemma_preview_counts(criteria, events, events.len());
}

proof fn lemma_preview_counts(criteria: Criteria, events: Seq<EventView>, i: nat)
    requires
        in_turn(PipelineView::start(criteria, false), events),
        i <= events.len(),
    ensures
        state_at(PipelineView::start(criteria, false), events, i).phase is Idle,
        state_at(PipelineView::start(criteria, false), events, i).tally.archived == 0,
        state_at(PipelineView::start(criteria, false), events, i).tally.move_errors == 0,
    decreases i,
{
    let start = PipelineView::start(criteria, false);
    if i > 0 {
        let before = (i - 1) as nat;
        lemma_preview_counts(criteria, events, before);
        lemma_history(start, events, before);
        assert(state_at(start, events, before).expects(events[before as int]));
    }
}

/// A previewing run can be repeated: a second run that starts where the first
/// one ended, with its counts set back to zero, and that meets the same
/// messages, ends with the same counts.
pub proof fn law_preview_repeats(criteria: Criteria, events: Seq<EventView>)
    requires
        in_turn(PipelineView::start(criteria, false), events),
    ensures
        restarted(state_at(PipelineView::start(criteria, false), events, events.len()))
            == PipelineView::start(criteria, false),
        state_at(
            restarted(state_at(PipelineView::start(criteria, false), events, events.len())),
            events,
            events.len(),
        ).tally == state_at(PipelineView::start(criteria, false), events, events.len()).tally,
{
    let start = PipelineView::start(criteria, false);
    lemma_history(start, events, events.len());
    lemma_preview_counts(criteria, events, events.len());
}

/// A deletion is asked for only after the archive has taken the message:
/// where event `j` is answered with the request to delete `id`, event `j` is
/// the report that the write succeeded, the event before it is the report of
/// a successful filter run whose output was the very bytes handed to the
/// archive, and the event before that one brought the message named `id`,
/// which the retention rule retires, in a confirmed run.
pub proof fn law_delete_follows_write(
    criteria: Criteria,
    confirm: bool,
    events: Seq<EventView>,
    j: nat,
)
    requires
        in_turn(PipelineView::start(criteria, confirm), events),
        j < events.len(),
        action_at(PipelineView::start(criteria, confirm), events, j) is Delete,
    ensures
        confirm,
        j >= 2,
        events[j as int] == EventView::Written(true),
        events[j - 1] matches EventView::Filtered(FilterRunView::Exited { success: true, output })
            && action_at(PipelineView::start(criteria, confirm), events, (j - 1) as nat) == (
            ActionView::Append { bytes: output }),
        events[j - 2] matches EventView::Found(Ok(mail)) && criteria.retires(mail) && action_at(
            PipelineView::start(criteria, confirm),
            events,
            j,
        ) == (ActionView::Delete { id: mail.id }),
{
    let start = PipelineView::start(criteria, confirm);
    lemma_history(start, events, j);
    assert(state_at(start, events, j).expects(events[j as int]));
}

/// No message is deleted twice: between two requests to delete, the
/// traversal has moved on to another message.
pub proof fn law_one_delete_per_message(
    criteria: Criteria,
    confirm: bool,
    events: Seq<EventView>,
    i: nat,
    j: nat,
)
    requires
        in_turn(PipelineView::start(criteria, confirm), events),
        i < j < events.len(),
        action_at(PipelineView::start(criteria, confirm), events, i) is Delete,
        action_at(PipelineView::start(criteria, confirm), events, j) is Delete,
    ensures
        i + 2 < j,
        events[j - 2] is Found,
        events[i + 1int] is Deleted,
        action_at(PipelineView::start(criteria, confirm), events, i + 1) is Proceed,
{
    let start = PipelineView::start(criteria, confirm);
    law_delete_follows_write(criteria, confirm, events, i);
    law_delete_follows_write(criteria, confirm, events, j);
    lemma_history(start, events, i + 1);
    assert(state_at(start, events, i + 1).expects(events[i + 1int]));
}

} // verus!
