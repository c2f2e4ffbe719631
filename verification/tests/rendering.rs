use rust_md_to_pdf::job::RenderJob;
use rust_md_to_pdf::render::{
    begin, step, IoStage, RenderAction, RenderError, RenderEvent, RenderState,
};
use rust_md_to_pdf::tool::{render_arguments, RENDERER};

fn job() -> RenderJob {
    RenderJob::with_identifier(String::from("job-1"))
}

fn removal() -> RenderAction {
    RenderAction::RemoveArtifacts {
        source: String::from("job-1.html"),
        output: String::from("job-1.pdf"),
    }
}

fn tool_run() -> RenderAction {
    RenderAction::RunTool {
        program: String::from("wkhtmltopdf"),
        arguments: render_arguments(),
        source: String::from("job-1.html"),
        output: String::from("job-1.pdf"),
    }
}

fn cleaning(outcome: Result<Vec<u8>, RenderError>) -> RenderState {
    RenderState::Cleaning { job: job(), outcome }
}

fn exited(success: bool, stderr: &str) -> RenderEvent {
    RenderEvent::ToolExited { success, stderr: String::from(stderr) }
}

fn io_failure(stage: IoStage, cause: &str) -> RenderError {
    RenderError::IoFailure { stage, cause: String::from(cause) }
}

/// Runs a rendering over `events` and gives every action that was handed out.
fn actions_of(events: Vec<RenderEvent>) -> Vec<RenderAction> {
    let (mut state, action) = begin(job(), String::from("<p>doc</p>"));
    let mut actions = vec![action];
    for event in events {
        let (then, action) = step(state, event).unwrap();
        state = then;
        actions.push(action);
    }
    assert_eq!(state, RenderState::Done);
    actions
}

#[test]
fn a_rendering_begins_by_writing_the_source() {
    let (state, action) = begin(job(), String::from("<p>doc</p>"));
    assert_eq!(state, RenderState::Writing { job: job() });
    assert_eq!(
        action,
        RenderAction::WriteSource {
            name: String::from("job-1.html"),
            content: String::from("<p>doc</p>"),
        }
    );
}

#[test]
fn a_written_source_is_rendered() {
    let turn = step(RenderState::Writing { job: job() }, RenderEvent::SourceWritten);
    assert_eq!(turn, Some((RenderState::Running { job: job() }, tool_run())));
    assert_eq!(RENDERER, "wkhtmltopdf");
}

#[test]
fn an_unwritten_source_is_an_io_failure() {
    let turn = step(
        RenderState::Writing { job: job() },
        RenderEvent::SourceNotWritten { cause: String::from("disk full") },
    );
    let outcome = Err(io_failure(IoStage::CreateSource, "disk full"));
    assert_eq!(turn, Some((cleaning(outcome), removal())));
}

#[test]
fn a_renderer_that_succeeded_has_its_output_read() {
    let turn = step(RenderState::Running { job: job() }, exited(true, "warning: fonts"));
    assert_eq!(
        turn,
        Some((
            RenderState::Reading { job: job() },
            RenderAction::ReadOutput { name: String::from("job-1.pdf") },
        ))
    );
}

#[test]
fn a_renderer_that_failed_is_a_render_failure() {
    let turn = step(RenderState::Running { job: job() }, exited(false, "cannot load page"));
    let outcome = Err(RenderError::RenderFailure { stderr: String::from("cannot load page") });
    assert_eq!(turn, Some((cleaning(outcome), removal())));
}

#[test]
fn a_renderer_that_did_not_start_is_an_io_failure() {
    let turn = step(
        RenderState::Running { job: job() },
        RenderEvent::ToolNotStarted { cause: String::from("No such file or directory") },
    );
    let outcome = Err(io_failure(IoStage::Launch, "No such file or directory"));
    assert_eq!(turn, Some((cleaning(outcome), removal())));
}

#[test]
fn the_bytes_read_are_the_outcome() {
    let bytes = b"%PDF-1.4\n%%EOF\n".to_vec();
    let turn = step(
        RenderState::Reading { job: job() },
        RenderEvent::OutputRead { bytes: bytes.clone() },
    );
    assert_eq!(turn, Some((cleaning(Ok(bytes)), removal())));
}

#[test]
fn an_unread_output_is_an_io_failure() {
    let turn = step(
        RenderState::Reading { job: job() },
        RenderEvent::OutputNotRead { cause: String::from("permission denied") },
    );
    let outcome = Err(io_failure(IoStage::ReadOutput, "permission denied"));
    assert_eq!(turn, Some((cleaning(outcome), removal())));
}

#[test]
fn cleaning_up_ends_the_rendering_as_it_was_settled() {
    let turn = step(cleaning(Ok(vec![1, 2, 3])), RenderEvent::CleanupAttempted);
    assert_eq!(
        turn,
        Some((RenderState::Done, RenderAction::Finish { outcome: Ok(vec![1, 2, 3]) }))
    );
    let failure = RenderError::RenderFailure { stderr: String::from("x") };
    let turn = step(
        cleaning(Err(RenderError::RenderFailure { stderr: String::from("x") })),
        RenderEvent::CleanupAttempted,
    );
    assert_eq!(
        turn,
        Some((RenderState::Done, RenderAction::Finish { outcome: Err(failure) }))
    );
}

#[test]
fn a_rendering_that_succeeds_takes_five_actions() {
    let bytes = b"%PDF-1.7 body".to_vec();
    let actions = actions_of(vec![
        RenderEvent::SourceWritten,
        exited(true, ""),
        RenderEvent::OutputRead { bytes: bytes.clone() },
        RenderEvent::CleanupAttempted,
    ]);
    assert_eq!(
        actions,
        vec![
            RenderAction::WriteSource {
                name: String::from("job-1.html"),
                content: String::from("<p>doc</p>"),
            },
            tool_run(),
            RenderAction::ReadOutput { name: String::from("job-1.pdf") },
            removal(),
            RenderAction::Finish { outcome: Ok(bytes) },
        ]
    );
}

#[test]
fn a_renderer_that_always_fails_gives_no_bytes() {
    for stderr in ["", "Exit with code 1 due to network error", "\u{fffd}\u{fffd}"] {
        let actions = actions_of(vec![
            RenderEvent::SourceWritten,
            exited(false, stderr),
            RenderEvent::CleanupAttempted,
        ]);
        assert_eq!(
            actions,
            vec![
                RenderAction::WriteSource {
                    name: String::from("job-1.html"),
                    content: String::from("<p>doc</p>"),
                },
                tool_run(),
                removal(),
                RenderAction::Finish {
                    outcome: Err(RenderError::RenderFailure { stderr: String::from(stderr) }),
                },
            ]
        );
    }
}

#[test]
fn every_rendering_removes_both_artifacts_before_it_ends() {
    let runs = vec![
        vec![
            RenderEvent::SourceNotWritten { cause: String::from("c") },
            RenderEvent::CleanupAttempted,
        ],
        vec![
            RenderEvent::SourceWritten,
            RenderEvent::ToolNotStarted { cause: String::from("c") },
            RenderEvent::CleanupAttempted,
        ],
        vec![RenderEvent::SourceWritten, exited(false, "e"), RenderEvent::CleanupAttempted],
        vec![
            RenderEvent::SourceWritten,
            exited(true, "e"),
            RenderEvent::OutputNotRead { cause: String::from("c") },
            RenderEvent::CleanupAttempted,
        ],
        vec![
            RenderEvent::SourceWritten,
            exited(true, "e"),
            RenderEvent::OutputRead { bytes: vec![0] },
            RenderEvent::CleanupAttempted,
        ],
    ];
    for events in runs {
        let actions = actions_of(events);
        let count = actions.len();
        assert_eq!(actions[count - 2], removal());
        assert!(matches!(actions[count - 1], RenderAction::Finish { .. }));
        let removals = actions.iter().filter(|a| **a == removal()).count();
        assert_eq!(removals, 1);
    }
}

#[test]
fn an_event_that_answers_nothing_is_refused() {
    assert_eq!(step(RenderState::Writing { job: job() }, RenderEvent::CleanupAttempted), None);
    assert_eq!(step(RenderState::Writing { job: job() }, exited(true, "")), None);
    assert_eq!(
        step(RenderState::Writing { job: job() }, RenderEvent::OutputRead { bytes: vec![] }),
        None
    );
    assert_eq!(step(RenderState::Running { job: job() }, RenderEvent::SourceWritten), None);
    assert_eq!(
        step(
            RenderState::Running { job: job() },
            RenderEvent::OutputNotRead { cause: String::new() }
        ),
        None
    );
    assert_eq!(step(RenderState::Reading { job: job() }, RenderEvent::CleanupAttempted), None);
    assert_eq!(step(RenderState::Reading { job: job() }, exited(false, "")), None);
    assert_eq!(step(cleaning(Ok(vec![])), RenderEvent::SourceWritten), None);
    assert_eq!(
        step(cleaning(Ok(vec![])), RenderEvent::ToolNotStarted { cause: String::new() }),
        None
    );
}

#[test]
fn nothing_follows_the_end() {
    assert_eq!(step(RenderState::Done, RenderEvent::SourceWritten), None);
    assert_eq!(step(RenderState::Done, RenderEvent::CleanupAttempted), None);
    assert_eq!(step(RenderState::Done, exited(true, "")), None);
}

#[test]
fn the_message_of_a_render_failure_holds_the_error_stream() {
    let error = RenderError::RenderFailure { stderr: String::from("Error: Failed to load\n") };
    assert_eq!(error.message(), "wkhtmltopdf failed: Error: Failed to load\n");
    let error = RenderError::RenderFailure { stderr: String::new() };
    assert_eq!(error.message(), "wkhtmltopdf failed: ");
}

#[test]
fn the_message_of_an_io_failure_holds_stage_and_cause() {
    assert_eq!(
        io_failure(IoStage::CreateSource, "disk full").message(),
        "Failed to create temporary HTML file: disk full"
    );
    assert_eq!(
        io_failure(IoStage::Launch, "not found").message(),
        "Failed to execute wkhtmltopdf: not found"
    );
    assert_eq!(
        io_failure(IoStage::ReadOutput, "denied").message(),
        "Failed to read generated PDF: denied"
    );
}
