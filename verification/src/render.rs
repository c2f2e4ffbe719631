//! The renderer invoker, as a machine of states.
//!
//! Turning a document into a PDF takes work that only the caller can do:
//! writing a file, running the renderer, reading its result, removing what is
//! left. What to do next, and how the rendering ends, is decided here. The
//! caller begins with [`begin`], performs the [`RenderAction`] it is given,
//! reports what happened as a [`RenderEvent`] to [`step`], and goes on until
//! the action is [`RenderAction::Finish`].
//!
//! However a rendering goes, both artifacts are asked to be removed before
//! it finishes, and whether the removal worked changes nothing of how it
//! ends.

use vstd::prelude::*;
use vstd::string::*;
use crate::job::{output_name_of, source_name_of, RenderJob};
use crate::tool::{render_arguments, render_arguments_of, argument_views, ArgumentView, ToolArgument, RENDERER};

verus! {

/// The step of a rendering at which the operating system refused.
#[derive(Clone, Copy, Debug, PartialEq, Eq, Structural)]
pub enum IoStage {
    /// The source artifact could not be written.
    CreateSource,
    /// The renderer could not be started.
    Launch,
    /// The output artifact could not be read.
    ReadOutput,
}

/// Why a rendering gave no PDF.
#[derive(Debug, PartialEq, Eq)]
pub enum RenderError {
    /// The operating system refused at `stage`, for the reason `cause`.
    IoFailure { stage: IoStage, cause: String },
    /// The renderer ran and reported failure; `stderr` is what it wrote to
    /// its error stream.
    RenderFailure { stderr: String },
}

/// What a [`RenderError`] stands for.
pub enum RenderErrorView {
    IoFailure { stage: IoStage, cause: Seq<char> },
    RenderFailure { stderr: Seq<char> },
}

impl View for RenderError {
    type V = RenderErrorView;

    open spec fn view(&self) -> RenderErrorView {
        match self {
            RenderError::IoFailure { stage, cause } => RenderErrorView::IoFailure {
                stage: *stage,
                cause: cause@,
            },
            RenderError::RenderFailure { stderr } => RenderErrorView::RenderFailure {
                stderr: stderr@,
            },
        }
    }
}

/// What is being attempted at a stage, in words.
pub open spec fn stage_context(stage: IoStage) -> Seq<char> {
    match stage {
        IoStage::CreateSource => "Failed to create temporary HTML file"@,
        IoStage::Launch => "Failed to execute wkhtmltopdf"@,
        IoStage::ReadOutput => "Failed to read generated PDF"@,
    }
}

/// The message of an error: for a failure of the operating system the stage
/// and the cause, for a failure of the renderer its error stream.
pub open spec fn message_of(error: RenderErrorView) -> Seq<char> {
    match error {
        RenderErrorView::IoFailure { stage, cause } => stage_context(stage) + ": "@ + cause,
        RenderErrorView::RenderFailure { stderr } => "wkhtmltopdf failed: "@ + stderr,
    }
}

impl RenderError {
    /// The message to log for this error.
    pub fn message(&self) -> (message: String)
        ensures
            message@ == message_of(self@),
    {
        match self {
            RenderError::IoFailure { stage, cause } => {
                let mut message = match stage {
                    IoStage::CreateSource => String::from_str(
                        "Failed to create temporary HTML file",
                    ),
                    IoStage::Launch => String::from_str("Failed to execute wkhtmltopdf"),
                    IoStage::ReadOutput => String::from_str("Failed to read generated PDF"),
                };
                message.append(": ");
                message.append(cause.as_str());
                message
            },
            RenderError::RenderFailure { stderr } => {
                let mut message = String::from_str("wkhtmltopdf failed: ");
                message.append(stderr.as_str());
                message
            },
        }
    }
}

/// How a rendering ended, as the caller sees it.
pub type Outcome = Result<Vec<u8>, RenderError>;

/// How a rendering ended: the bytes of the PDF, or why there are none.
pub type OutcomeView = Result<Seq<u8>, RenderErrorView>;

/// What an [`Outcome`] stands for.
pub open spec fn outcome_view(outcome: Outcome) -> OutcomeView {
    match outcome {
        Ok(bytes) => Ok(bytes@),
        Err(error) => Err(error@),
    }
}

/// Where a rendering stands.
#[derive(Debug, PartialEq, Eq)]
pub enum RenderState {
    /// The source artifact is being written.
    Writing { job: RenderJob },
    /// The renderer is running.
    Running { job: RenderJob },
    /// The output artifact is being read.
    Reading { job: RenderJob },
    /// The artifacts are being removed; how the rendering ends is settled.
    Cleaning { job: RenderJob, outcome: Outcome },
    /// The rendering is over.
    Done,
}

/// What a [`RenderState`] stands for; a job is its identifier.
pub enum StateView {
    Writing { job: Seq<char> },
    Running { job: Seq<char> },
    Reading { job: Seq<char> },
    Cleaning { job: Seq<char>, outcome: OutcomeView },
    Done,
}

impl View for RenderState {
    type V = StateView;

    open spec fn view(&self) -> StateView {
        match self {
            RenderState::Writing { job } => StateView::Writing { job: job@ },
            RenderState::Running { job } => StateView::Running { job: job@ },
            RenderState::Reading { job } => StateView::Reading { job: job@ },
            RenderState::Cleaning { job, outcome } => StateView::Cleaning {
                job: job@,
                outcome: outcome_view(*outcome),
            },
            RenderState::Done => StateView::Done,
        }
    }
}

/// What the caller reports after it has performed an action.
#[derive(Debug, PartialEq, Eq)]
pub enum RenderEvent {
    /// The source artifact holds the document.
    SourceWritten,
    /// The source artifact could not be written.
    SourceNotWritten { cause: String },
    /// The renderer ran to its end; `success` says whether its exit status
    /// was zero, `stderr` holds what it wrote to its error stream.
    ToolExited { success: bool, stderr: String },
    /// The renderer could not be started.
    ToolNotStarted { cause: String },
    /// The output artifact was read in full.
    OutputRead { bytes: Vec<u8> },
    /// The output artifact could not be read.
    OutputNotRead { cause: String },
    /// Removing both artifacts was tried; whether it worked is not told.
    CleanupAttempted,
}

/// What a [`RenderEvent`] stands for.
pub enum EventView {
    SourceWritten,
    SourceNotWritten { cause: Seq<char> },
    ToolExited { success: bool, stderr: Seq<char> },
    ToolNotStarted { cause: Seq<char> },
    OutputRead { bytes: Seq<u8> },
    OutputNotRead { cause: Seq<char> },
    CleanupAttempted,
}

impl View for RenderEvent {
    type V = EventView;

    open spec fn view(&self) -> EventView {
        match self {
            RenderEvent::SourceWritten => EventView::SourceWritten,
            RenderEvent::SourceNotWritten { cause } => EventView::SourceNotWritten {
                cause: cause@,
            },
            RenderEvent::ToolExited { success, stderr } => EventView::ToolExited {
                success: *success,
                stderr: stderr@,
            },
            RenderEvent::ToolNotStarted { cause } => EventView::ToolNotStarted { cause: cause@ },
            RenderEvent::OutputRead { bytes } => EventView::OutputRead { bytes: bytes@ },
            RenderEvent::OutputNotRead { cause } => EventView::OutputNotRead { cause: cause@ },
            RenderEvent::CleanupAttempted => EventView::CleanupAttempted,
        }
    }
}

/// What the caller is to do next. Artifacts are given by file name; they lie
/// in the scratch directory.
#[derive(Debug, PartialEq, Eq)]
pub enum RenderAction {
    /// Write `content` to the artifact `name`.
    WriteSource { name: String, content: String },
    /// Run `program` with `arguments`, with the paths of the artifacts
    /// `source` and `output` in the places left open for them, and take its
    /// exit status and its error stream.
    RunTool { program: String, arguments: Vec<ToolArgument>, source: String, output: String },
    /// Read the artifact `name` in full.
    ReadOutput { name: String },
    /// Try to remove the artifacts `source` and `output`, and go on whether
    /// or not they could be removed.
    RemoveArtifacts { source: String, output: String },
    /// Hand `outcome` to whoever asked for the rendering.
    Finish { outcome: Outcome },
}

/// What a [`RenderAction`] stands for.
pub enum ActionView {
    WriteSource { name: Seq<char>, content: Seq<char> },
    RunTool {
        program: Seq<char>,
        arguments: Seq<ArgumentView>,
        source: Seq<char>,
        output: Seq<char>,
    },
    ReadOutput { name: Seq<char> },
    RemoveArtifacts { source: Seq<char>, output: Seq<char> },
    Finish { outcome: OutcomeView },
}

impl View for RenderAction {
    type V = ActionView;

    open spec fn view(&self) -> ActionView {
        match self {
            RenderAction::WriteSource { name, content } => ActionView::WriteSource {
                name: name@,
                content: content@,
            },
            RenderAction::RunTool { program, arguments, source, output } => ActionView::RunTool {
                program: program@,
                arguments: argument_views(arguments@),
                source: source@,
                output: output@,
            },
            RenderAction::ReadOutput { name } => ActionView::ReadOutput { name: name@ },
            RenderAction::RemoveArtifacts { source, output } => ActionView::RemoveArtifacts {
                source: source@,
                output: output@,
            },
            RenderAction::Finish { outcome } => ActionView::Finish {
                outcome: outcome_view(*outcome),
            },
        }
    }
}

/// The first state of a rendering and its first action: the document goes
/// to the job's source artifact.
pub open spec fn first(job: Seq<char>, html: Seq<char>) -> (StateView, ActionView) {
    (
        StateView::Writing { job },
        ActionView::WriteSource { name: source_name_of(job), content: html },
    )
}

/// The renderer's command line within a rendering.
pub open spec fn tool_run(job: Seq<char>) -> ActionView {
    ActionView::RunTool {
        program: RENDERER@,
        arguments: render_arguments_of(),
        source: source_name_of(job),
        output: output_name_of(job),
    }
}

/// The removal of a job's two artifacts.
pub open spec fn removal(job: Seq<char>) -> ActionView {
    ActionView::RemoveArtifacts { source: source_name_of(job), output: output_name_of(job) }
}

/// The turn to cleaning up, with the end of the rendering settled.
pub open spec fn settle(job: Seq<char>, outcome: OutcomeView) -> (StateView, ActionView) {
    (StateView::Cleaning { job, outcome }, removal(job))
}

/// The state that follows `state` on `event`, and the action to perform
/// there; `None` where `event` is no answer to what `state` waits for.
///
/// - While writing: once written, the renderer is run; a refusal settles the
///   rendering as a failure to create the source.
/// - While running: an exit status of zero leads to reading the output; any
///   other settles it as a failure of the renderer, with its error stream;
///   a renderer that did not start settles it as a failure to launch.
/// - While reading: the bytes read settle it as a success; a refusal as a
///   failure to read.
/// - While cleaning: the rendering finishes as it was settled.
pub open spec fn next(state: StateView, event: EventView) -> Option<(StateView, ActionView)> {
    match (state, event) {
        (StateView::Writing { job }, EventView::SourceWritten) => Some(
            (StateView::Running { job }, tool_run(job)),
        ),
        (StateView::Writing { job }, EventView::SourceNotWritten { cause }) => Some(
            settle(
                job,
                Err(RenderErrorView::IoFailure { stage: IoStage::CreateSource, cause }),
            ),
        ),
        (StateView::Running { job }, EventView::ToolExited { success, stderr }) => if success {
            Some((StateView::Reading { job }, ActionView::ReadOutput { name: output_name_of(job) }))
        } else {
            Some(settle(job, Err(RenderErrorView::RenderFailure { stderr })))
        },
        (StateView::Running { job }, EventView::ToolNotStarted { cause }) => Some(
            settle(job, Err(RenderErrorView::IoFailure { stage: IoStage::Launch, cause })),
        ),
        (StateView::Reading { job }, EventView::OutputRead { bytes }) => Some(
            settle(job, Ok(bytes)),
        ),
        (StateView::Reading { job }, EventView::OutputNotRead { cause }) => Some(
            settle(job, Err(RenderErrorView::IoFailure { stage: IoStage::ReadOutput, cause })),
        ),
        (StateView::Cleaning { job, outcome }, EventView::CleanupAttempted) => Some(
            (StateView::Done, ActionView::Finish { outcome }),
        ),
        _ => None,
    }
}

/// Begins the rendering of `html` under `job`.
pub fn begin(job: RenderJob, html: String) -> (start: (RenderState, RenderAction))
    ensures
        (start.0@, start.1@) == first(job@, html@),
{
    let name = job.source_name();
    (RenderState::Writing { job }, RenderAction::WriteSource { name, content: html })
}

/// Turns to cleaning up.
fn clean_up(job: RenderJob, outcome: Outcome) -> (turn: (RenderState, RenderAction))
    ensures
        (turn.0@, turn.1@) == settle(job@, outcome_view(outcome)),
{
    let source = job.source_name();
    let output = job.output_name();
    (RenderState::Cleaning { job, outcome }, RenderAction::RemoveArtifacts { source, output })
}

/// Takes the rendering one step on: from `state`, on `event`, to the next
/// state and the action to perform there. An event that is no answer to what
/// `state` waits for is refused with `None`, and the rendering is lost.
pub fn step(state: RenderState, event: RenderEvent) -> (turn: Option<(RenderState, RenderAction)>)
    ensures
        match turn {
            Some((then, action)) => next(state@, event@) == Some((then@, action@)),
            None => next(state@, event@) is None,
        },
{
    match state {
        RenderState::Writing { job } => match event {
            RenderEvent::SourceWritten => {
                let source = job.source_name();
                let output = job.output_name();
                Some(
                    (
                        RenderState::Running { job },
                        RenderAction::RunTool {
                            program: String::from_str(RENDERER),
                            arguments: render_arguments(),
                            source,
                            output,
                        },
                    ),
                )
            },
            RenderEvent::SourceNotWritten { cause } => Some(
                clean_up(job, Err(RenderError::IoFailure { stage: IoStage::CreateSource, cause })),
            ),
            _ => None,
        },
        RenderState::Running { job } => match event {
            RenderEvent::ToolExited { success, stderr } => {
                if success {
                    let name = job.output_name();
                    Some((RenderState::Reading { job }, RenderAction::ReadOutput { name }))
                } else {
                    Some(clean_up(job, Err(RenderError::RenderFailure { stderr })))
                }
            },
            RenderEvent::ToolNotStarted { cause } => Some(
                clean_up(job, Err(RenderError::IoFailure { stage: IoStage::Launch, cause })),
            ),
            _ => None,
        },
        RenderState::Reading { job } => match event {
            RenderEvent::OutputRead { bytes } => Some(clean_up(job, Ok(bytes))),
            RenderEvent::OutputNotRead { cause } => Some(
                clean_up(job, Err(RenderError::IoFailure { stage: IoStage::ReadOutput, cause })),
            ),
            _ => None,
        },
        RenderState::Cleaning { job, outcome } => match event {
            RenderEvent::CleanupAttempted => Some(
                (RenderState::Done, RenderAction::Finish { outcome }),
            ),
            _ => None,
        },
        RenderState::Done => None,
    }
}

} // verus!
