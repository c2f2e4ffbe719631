//! Whole renderings: what holds of every way through the machine of
//! [`crate::render`].
//!
//! A rendering is a run of events from the first state to the end, together
//! with the actions that the caller was given on the way. There are five
//! shapes of it, and this module states them; from the shapes follow the laws
//! that a caller may rely on: that both artifacts are removed before the
//! rendering ends, that a failed renderer fails the rendering, that a success
//! hands back what was read, and that renderings of different jobs never
//! touch the same file.

use vstd::prelude::*;
use crate::job::{lemma_jobs_do_not_collide, output_name_of, source_name_of};
use crate::render::{
    first, message_of, next, removal, tool_run, ActionView, EventView, IoStage, OutcomeView,
    RenderErrorView, StateView,
};

verus! {

/// The two artifacts of a job.
pub open spec fn job_artifacts(job: Seq<char>) -> Set<Seq<char>> {
    set![source_name_of(job), output_name_of(job)]
}

/// The artifacts that an action touches, by name.
pub open spec fn artifacts_of(action: ActionView) -> Set<Seq<char>> {
    match action {
        ActionView::WriteSource { name, .. } => set![name],
        ActionView::RunTool { source, output, .. } => set![source, output],
        ActionView::ReadOutput { name } => set![name],
        ActionView::RemoveArtifacts { source, output } => set![source, output],
        ActionView::Finish { .. } => Set::empty(),
    }
}

/// What the caller is told to do over a run of events: the state reached
/// from `state` and the actions given on the way, one for each event; `None`
/// where an event is refused.
pub open spec fn run(state: StateView, events: Seq<EventView>) -> Option<
    (StateView, Seq<ActionView>),
>
    decreases events.len(),
{
    if events.len() == 0 {
        Some((state, Seq::empty()))
    } else {
        match next(state, events.first()) {
            None => None,
            Some((then, action)) => match run(then, events.drop_first()) {
                None => None,
                Some((last, actions)) => Some((last, seq![action] + actions)),
            },
        }
    }
}

/// A whole rendering of `html` under `job`: the run of `events` from the
/// first state has come to the end, and `actions` is all that the caller
/// was told to do, the first action included.
pub open spec fn renders(
    job: Seq<char>,
    html: Seq<char>,
    events: Seq<EventView>,
    actions: Seq<ActionView>,
) -> bool {
    run(first(job, html).0, events) matches Some((last, later)) && last is Done && actions
        == seq![first(job, html).1] + later
}

/// The outcome that a whole rendering hands back.
pub open spec fn outcome_of(actions: Seq<ActionView>) -> OutcomeView
    recommends
        actions.len() > 0,
        actions.last() is Finish,
{
    actions.last()->outcome
}

/// Nothing follows the end of a rendering.
proof fn lemma_run_when_done(events: Seq<EventView>)
    requires
        run(StateView::Done, events) is Some,
    ensures
        events.len() == 0,
        run(StateView::Done, events) == Some((StateView::Done, Seq::<ActionView>::empty())),
{
}

/// From cleaning, a rendering ends in one step, as it was settled.
proof fn lemma_run_when_cleaning(
    job: Seq<char>,
    outcome: OutcomeView,
    events: Seq<EventView>,
    actions: Seq<ActionView>,
)
    requires
        run(StateView::Cleaning { job, outcome }, events) == Some((StateView::Done, actions)),
    ensures
        events == seq![EventView::CleanupAttempted],
        actions == seq![ActionView::Finish { outcome }],
{
    assert(events.len() > 0);
    lemma_run_when_done(events.drop_first());
    assert(events =~= seq![EventView::CleanupAttempted]);
    assert(actions =~= seq![ActionView::Finish { outcome }]);
}

/// From reading, a rendering ends in two steps: with the bytes read, or
/// with a failure to read.
proof fn lemma_run_when_reading(job: Seq<char>, events: Seq<EventView>, actions: Seq<ActionView>)
    requires
        run(StateView::Reading { job }, events) == Some((StateView::Done, actions)),
    ensures
        events.len() == 2,
        events[1] == EventView::CleanupAttempted,
        actions.len() == 2,
        actions[0] == removal(job),
        actions[1] is Finish,
        match events[0] {
            EventView::OutputRead { bytes } => actions[1]->outcome == Ok::<
                Seq<u8>,
                RenderErrorView,
            >(bytes),
            EventView::OutputNotRead { cause } => actions[1]->outcome == Err::<
                Seq<u8>,
                RenderErrorView,
            >(RenderErrorView::IoFailure { stage: IoStage::ReadOutput, cause }),
            _ => false,
        },
{
    assert(events.len() > 0);
    let rest = events.drop_first();
    match next(StateView::Reading { job }, events.first()) {
        Some((StateView::Cleaning { job: j, outcome }, action)) => {
            let later = run(StateView::Cleaning { job: j, outcome }, rest).unwrap().1;
            lemma_run_when_cleaning(j, outcome, rest, later);
            assert(events[1] == rest[0]);
        },
        _ => {},
    }
}

/// From running, a rendering ends in two steps where the renderer failed or
/// did not start, and in three where it succeeded.
proof fn lemma_run_when_running(job: Seq<char>, events: Seq<EventView>, actions: Seq<ActionView>)
    requires
        run(StateView::Running { job }, events) == Some((StateView::Done, actions)),
    ensures
        2 <= events.len() <= 3,
        events.last() == EventView::CleanupAttempted,
        actions.len() == events.len(),
        actions[actions.len() - 2] == removal(job),
        actions.last() is Finish,
        match events[0] {
            EventView::ToolExited { success, stderr } => if success {
                &&& events.len() == 3
                &&& actions[0] == (ActionView::ReadOutput { name: output_name_of(job) })
                &&& match events[1] {
                    EventView::OutputRead { bytes } => actions.last()->outcome == Ok::<
                        Seq<u8>,
                        RenderErrorView,
                    >(bytes),
                    EventView::OutputNotRead { cause } => actions.last()->outcome == Err::<
                        Seq<u8>,
                        RenderErrorView,
                    >(RenderErrorView::IoFailure { stage: IoStage::ReadOutput, cause }),
                    _ => false,
                }
            } else {
                &&& events.len() == 2
                &&& actions.last()->outcome == Err::<Seq<u8>, RenderErrorView>(
                    RenderErrorView::RenderFailure { stderr },
                )
            },
            EventView::ToolNotStarted { cause } => {
                &&& events.len() == 2
                &&& actions.last()->outcome == Err::<Seq<u8>, RenderErrorView>(
                    RenderErrorView::IoFailure { stage: IoStage::Launch, cause },
                )
            },
            _ => false,
        },
{
    assert(events.len() > 0);
    let rest = events.drop_first();
    match next(StateView::Running { job }, events.first()) {
        Some((StateView::Cleaning { job: j, outcome }, action)) => {
            let later = run(StateView::Cleaning { job: j, outcome }, rest).unwrap().1;
            lemma_run_when_cleaning(j, outcome, rest, later);
            assert(events[1] == rest[0]);
        },
        Some((StateView::Reading { job: j }, action)) => {
            let later = run(StateView::Reading { job: j }, rest).unwrap().1;
            lemma_run_when_reading(j, rest, later);
            assert(events[1] == rest[0]);
            assert(events[2] == rest[1]);
        },
        _ => {},
    }
}

/// The shapes of a whole rendering. It takes two to four events, the last of
/// which is the attempt to clean up; the action before the last is the
/// removal of both artifacts of the job; the last action hands the outcome
/// back; and the outcome is the one that the first refusal settled, or the
/// bytes read where nothing was refused.
pub proof fn lemma_rendering_shapes(
    job: Seq<char>,
    html: Seq<char>,
    events: Seq<EventView>,
    actions: Seq<ActionView>,
)
    requires
        renders(job, html, events, actions),
    ensures
        2 <= events.len() <= 4,
        actions.len() == events.len() + 1,
        events.last() == EventView::CleanupAttempted,
        actions[0] == (ActionView::WriteSource { name: source_name_of(job), content: html }),
        actions[actions.len() - 2] == removal(job),
        actions.last() is Finish,
        match events[0] {
            EventView::SourceNotWritten { cause } => {
                &&& events.len() == 2
                &&& outcome_of(actions) == Err::<Seq<u8>, RenderErrorView>(
                    RenderErrorView::IoFailure { stage: IoStage::CreateSource, cause },
                )
            },
            EventView::SourceWritten => {
                &&& actions[1] == tool_run(job)
                &&& match events[1] {
                    EventView::ToolNotStarted { cause } => {
                        &&& events.len() == 3
                        &&& outcome_of(actions) == Err::<Seq<u8>, RenderErrorView>(
                            RenderErrorView::IoFailure { stage: IoStage::Launch, cause },
                        )
                    },
                    EventView::ToolExited { success, stderr } => if success {
                        &&& events.len() == 4
                        &&& actions[2] == (ActionView::ReadOutput { name: output_name_of(job) })
                        &&& match events[2] {
                            EventView::OutputRead { bytes } => outcome_of(actions) == Ok::<
                                Seq<u8>,
                                RenderErrorView,
                            >(bytes),
                            EventView::OutputNotRead { cause } => outcome_of(actions) == Err::<
                                Seq<u8>,
                                RenderErrorView,
                            >(RenderErrorView::IoFailure { stage: IoStage::ReadOutput, cause }),
                            _ => false,
                        }
                    } else {
                        &&& events.len() == 3
                        &&& outcome_of(actions) == Err::<Seq<u8>, RenderErrorView>(
                            RenderErrorView::RenderFailure { stderr },
                        )
                    },
                    _ => false,
                }
            },
            _ => false,
        },
{
    let start = first(job, html).0;
    assert(events.len() > 0);
    let rest = events.drop_first();
    match next(start, events.first()) {
        Some((StateView::Cleaning { job: j, outcome }, action)) => {
            let later = run(StateView::Cleaning { job: j, outcome }, rest).unwrap().1;
            lemma_run_when_cleaning(j, outcome, rest, later);
            assert(events[1] == rest[0]);
        },
        Some((StateView::Running { job: j }, action)) => {
            let later = run(StateView::Running { job: j }, rest).unwrap().1;
            lemma_run_when_running(j, rest, later);
            assert(events[1] == rest[0]);
            assert(events[2] == rest[1]);
            if rest.len() == 3 {
                assert(events[3] == rest[2]);
            }
        },
        _ => {},
    }
}

/// Each of the five shapes is a whole rendering: one that could not write
/// its source, one whose renderer did not start, one whose renderer failed,
/// one that could not read the output, and one that succeeded.
pub proof fn lemma_shapes_are_renderings(
    job: Seq<char>,
    html: Seq<char>,
    cause: Seq<char>,
    stderr: Seq<char>,
    bytes: Seq<u8>,
)
    ensures
        renders(
            job,
            html,
            seq![EventView::SourceNotWritten { cause }, EventView::CleanupAttempted],
            seq![
                first(job, html).1,
                removal(job),
                ActionView::Finish {
                    outcome: Err(RenderErrorView::IoFailure { stage: IoStage::CreateSource, cause }),
                },
            ],
        ),
        renders(
            job,
            html,
            seq![
                EventView::SourceWritten,
                EventView::ToolNotStarted { cause },
                EventView::CleanupAttempted,
            ],
            seq![
                first(job, html).1,
                tool_run(job),
                removal(job),
                ActionView::Finish {
                    outcome: Err(RenderErrorView::IoFailure { stage: IoStage::Launch, cause }),
                },
            ],
        ),
        renders(
            job,
            html,
            seq![
                EventView::SourceWritten,
                EventView::ToolExited { success: false, stderr },
                EventView::CleanupAttempted,
            ],
            seq![
                first(job, html).1,
                tool_run(job),
                removal(job),
                ActionView::Finish { outcome: Err(RenderErrorView::RenderFailure { stderr }) },
            ],
        ),
        renders(
            job,
            html,
            seq![
                EventView::SourceWritten,
                EventView::ToolExited { success: true, stderr },
                EventView::OutputNotRead { cause },
                EventView::CleanupAttempted,
            ],
            seq![
                first(job, html).1,
                tool_run(job),
                ActionView::ReadOutput { name: output_name_of(job) },
                removal(job),
                ActionView::Finish {
                    outcome: Err(RenderErrorView::IoFailure { stage: IoStage::ReadOutput, cause }),
                },
            ],
        ),
        renders(
            job,
            html,
            seq![
                EventView::SourceWritten,
                EventView::ToolExited { success: true, stderr },
                EventView::OutputRead { bytes },
                EventView::CleanupAttempted,
            ],
            seq![
                first(job, html).1,
                tool_run(job),
                ActionView::ReadOutput { name: output_name_of(job) },
                removal(job),
                ActionView::Finish { outcome: Ok(bytes) },
            ],
        ),
{
    let start = first(job, html).0;
    let write = first(job, html).1;
    let written = EventView::SourceWritten;
    let cleaned = EventView::CleanupAttempted;
    let exited = EventView::ToolExited { success: true, stderr };
    let read = ActionView::ReadOutput { name: output_name_of(job) };

    let unwritten: OutcomeView = Err(
        RenderErrorView::IoFailure { stage: IoStage::CreateSource, cause },
    );
    lemma_run_unfolds(start, seq![EventView::SourceNotWritten { cause }, cleaned]);
    assert(seq![write] + seq![removal(job), ActionView::Finish { outcome: unwritten }] =~= seq![
        write,
        removal(job),
        ActionView::Finish { outcome: unwritten },
    ]);

    let unstarted: OutcomeView = Err(RenderErrorView::IoFailure { stage: IoStage::Launch, cause });
    lemma_run_unfolds(start, seq![written, EventView::ToolNotStarted { cause }, cleaned]);
    assert(seq![write] + seq![
        tool_run(job),
        removal(job),
        ActionView::Finish { outcome: unstarted },
    ] =~= seq![write, tool_run(job), removal(job), ActionView::Finish { outcome: unstarted }]);

    let failed: OutcomeView = Err(RenderErrorView::RenderFailure { stderr });
    lemma_run_unfolds(
        start,
        seq![written, EventView::ToolExited { success: false, stderr }, cleaned],
    );
    assert(seq![write] + seq![tool_run(job), removal(job), ActionView::Finish { outcome: failed }]
        =~= seq![write, tool_run(job), removal(job), ActionView::Finish { outcome: failed }]);

    let unread: OutcomeView = Err(
        RenderErrorView::IoFailure { stage: IoStage::ReadOutput, cause },
    );
    lemma_run_unfolds(start, seq![written, exited, EventView::OutputNotRead { cause }, cleaned]);
    assert(seq![write] + seq![
        tool_run(job),
        read,
        removal(job),
        ActionView::Finish { outcome: unread },
    ] =~= seq![write, tool_run(job), read, removal(job), ActionView::Finish { outcome: unread }]);

    let done: OutcomeView = Ok(bytes);
    lemma_run_unfolds(start, seq![written, exited, EventView::OutputRead { bytes }, cleaned]);
    assert(seq![write] + seq![
        tool_run(job),
        read,
        removal(job),
        ActionView::Finish { outcome: done },
    ] =~= seq![write, tool_run(job), read, removal(job), ActionView::Finish { outcome: done }]);
}

/// A run of up to four events, written out step by step.
proof fn lemma_run_unfolds(state: StateView, events: Seq<EventView>)
    requires
        events.len() <= 4,
    ensures
        events.len() == 0 ==> run(state, events) == Some((state, Seq::<ActionView>::empty())),
        events.len() == 1 ==> run(state, events) == match next(state, events[0]) {
            Some((s1, a1)) => Some((s1, seq![a1])),
            None => None,
        },
        events.len() == 2 ==> run(state, events) == match next(state, events[0]) {
            Some((s1, a1)) => match next(s1, events[1]) {
                Some((s2, a2)) => Some((s2, seq![a1, a2])),
                None => None,
            },
            None => None,
        },
        events.len() == 3 ==> run(state, events) == match next(state, events[0]) {
            Some((s1, a1)) => match next(s1, events[1]) {
                Some((s2, a2)) => match next(s2, events[2]) {
                    Some((s3, a3)) => Some((s3, seq![a1, a2, a3])),
                    None => None,
                },
                None => None,
            },
            None => None,
        },
        events.len() == 4 ==> run(state, events) == match next(state, events[0]) {
            Some((s1, a1)) => match next(s1, events[1]) {
                Some((s2, a2)) => match next(s2, events[2]) {
                    Some((s3, a3)) => match next(s3, events[3]) {
                        Some((s4, a4)) => Some((s4, seq![a1, a2, a3, a4])),
                        None => None,
                    },
                    None => None,
                },
                None => None,
            },
            None => None,
        },
    decreases events.len(),
{
    if events.len() > 0 {
        let rest = events.drop_first();
        match next(state, events[0]) {
            Some((s1, a1)) => {
                lemma_run_unfolds(s1, rest);
                if rest.len() >= 1 {
                    assert(rest[0] == events[1]);
                }
                if rest.len() >= 2 {
                    assert(rest[1] == events[2]);
                }
                if rest.len() >= 3 {
                    assert(rest[2] == events[3]);
                }
                match run(s1, rest) {
                    Some((last, later)) => {
                        let all = seq![a1] + later;
                        if rest.len() == 0 {
                            assert(all =~= seq![a1]);
                        } else if rest.len() == 1 {
                            assert(all =~= seq![a1, later[0]]);
                        } else if rest.len() == 2 {
                            assert(all =~= seq![a1, later[0], later[1]]);
                        } else {
                            assert(all =~= seq![a1, later[0], later[1], later[2]]);
                        }
                    },
                    None => {},
                }
            },
            None => {},
        }
    }
}

/// Cleaning up comes before the end. In every whole rendering, however it
/// ends, the caller is told to remove both artifacts of the job right before
/// it is handed the outcome; no action before that touches an artifact that
/// is not the job's, so that nothing is left that the removal does not name.
pub proof fn lemma_cleanup_precedes_finish(
    job: Seq<char>,
    html: Seq<char>,
    events: Seq<EventView>,
    actions: Seq<ActionView>,
)
    requires
        renders(job, html, events, actions),
    ensures
        actions.len() >= 3,
        actions.last() is Finish,
        actions[actions.len() - 2] == removal(job),
        artifacts_of(removal(job)) == job_artifacts(job),
        forall|i: int|
            0 <= i < actions.len() ==> #[trigger] artifacts_of(actions[i]).subset_of(
                job_artifacts(job),
            ),
        forall|i: int| 0 <= i < actions.len() - 1 ==> !(#[trigger] actions[i] is Finish),
{
    lemma_rendering_shapes(job, html, events, actions);
    assert(artifacts_of(removal(job)) =~= job_artifacts(job));
    assert forall|i: int| 0 <= i < actions.len() implies #[trigger] artifacts_of(
        actions[i],
    ).subset_of(job_artifacts(job)) by {
        if i == 0 {
        } else if i == actions.len() - 1 {
        } else if i == actions.len() - 2 {
        } else if i == 1 {
        } else {
            assert(i == 2);
        }
    }
    assert forall|i: int| 0 <= i < actions.len() - 1 implies !(#[trigger] actions[i] is Finish) by {
        if i == 0 {
        } else if i == actions.len() - 2 {
        } else if i == 1 {
        } else {
            assert(i == 2);
        }
    }
}

/// Renderings of different jobs stay apart. Whatever two renderings do, if
/// their jobs have different identifiers no artifact is touched by both.
pub proof fn lemma_renderings_stay_apart(
    job: Seq<char>,
    html: Seq<char>,
    events: Seq<EventView>,
    actions: Seq<ActionView>,
    other_job: Seq<char>,
    other_html: Seq<char>,
    other_events: Seq<EventView>,
    other_actions: Seq<ActionView>,
)
    requires
        renders(job, html, events, actions),
        renders(other_job, other_html, other_events, other_actions),
        job != other_job,
    ensures
        forall|i: int, j: int|
            0 <= i < actions.len() && 0 <= j < other_actions.len() ==> (#[trigger] artifacts_of(
                actions[i],
            )).disjoint(#[trigger] artifacts_of(other_actions[j])),
{
    lemma_cleanup_precedes_finish(job, html, events, actions);
    lemma_cleanup_precedes_finish(other_job, other_html, other_events, other_actions);
    lemma_jobs_do_not_collide(job, other_job);
    assert(job_artifacts(job).disjoint(job_artifacts(other_job)));
    assert forall|i: int, j: int|
        0 <= i < actions.len() && 0 <= j < other_actions.len() implies (#[trigger] artifacts_of(
        actions[i],
    )).disjoint(#[trigger] artifacts_of(other_actions[j])) by {
        let mine = artifacts_of(actions[i]);
        let theirs = artifacts_of(other_actions[j]);
        assert(mine.subset_of(job_artifacts(job)));
        assert(theirs.subset_of(job_artifacts(other_job)));
        assert forall|name: Seq<char>| mine.contains(name) implies !theirs.contains(name) by {
            assert(job_artifacts(job).contains(name));
        }
    }
}

/// A renderer that reports failure fails the rendering. Where the renderer
/// exits with another status than zero, the rendering ends in a
/// `RenderFailure` that holds the renderer's error stream, and hands back no
/// bytes; the output artifact is never asked to be read.
pub proof fn lemma_failed_tool_fails_rendering(
    job: Seq<char>,
    html: Seq<char>,
    events: Seq<EventView>,
    actions: Seq<ActionView>,
    stderr: Seq<char>,
)
    requires
        renders(job, html, events, actions),
        exists|i: int|
            0 <= i < events.len() && #[trigger] events[i] == (EventView::ToolExited {
                success: false,
                stderr,
            }),
    ensures
        outcome_of(actions) == Err::<Seq<u8>, RenderErrorView>(
            RenderErrorView::RenderFailure { stderr },
        ),
        message_of(outcome_of(actions)->Err_0) == "wkhtmltopdf failed: "@ + stderr,
        forall|i: int| 0 <= i < actions.len() ==> !(#[trigger] actions[i] is ReadOutput),
{
    lemma_rendering_shapes(job, html, events, actions);
}

/// A rendering succeeds with exactly the bytes that were read. It ends in
/// `Ok` if and only if the source was written, the renderer exited with
/// status zero and the output was read; the bytes handed back are then the
/// bytes read, whatever the renderer wrote to its error stream.
pub proof fn lemma_success_hands_back_what_was_read(
    job: Seq<char>,
    html: Seq<char>,
    events: Seq<EventView>,
    actions: Seq<ActionView>,
)
    requires
        renders(job, html, events, actions),
    ensures
        outcome_of(actions) is Ok <==> {
            &&& events.len() == 4
            &&& events[0] == EventView::SourceWritten
            &&& events[1] matches EventView::ToolExited { success, .. } && success
            &&& events[2] is OutputRead
        },
        outcome_of(actions) is Ok ==> events[2] == (EventView::OutputRead {
            bytes: outcome_of(actions)->Ok_0,
        }),
{
    lemma_rendering_shapes(job, html, events, actions);
}

/// Whether cleaning up worked has no say in how a rendering ends: the
/// outcome is settled before the removal is asked for, and the one event
/// that answers the removal carries nothing.
pub proof fn lemma_cleanup_has_no_say(job: Seq<char>, outcome: OutcomeView, event: EventView)
    ensures
        next(StateView::Cleaning { job, outcome }, event) matches Some((then, action)) ==> then
            == StateView::Done && action == (ActionView::Finish { outcome }),
{
}

} // verus!
