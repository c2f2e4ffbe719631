use std::collections::BTreeMap;

use rust_md_to_pdf::document::markdown_to_html_converter;
use rust_md_to_pdf::http::conversion_reply;
use rust_md_to_pdf::job::RenderJob;
use rust_md_to_pdf::render::{
    begin, step, IoStage, RenderAction, RenderError, RenderEvent, RenderState,
};
use rust_md_to_pdf::tool::ToolArgument;

/// A scratch directory held in memory.
#[derive(Default)]
struct Scratch {
    files: BTreeMap<String, Vec<u8>>,
    read_only: bool,
}

/// A renderer that stands in for the real one.
#[derive(Clone)]
enum Tool {
    /// Writes `%PDF-` and the source to the output, and exits with zero.
    Works,
    /// Writes half an output, complains, and exits with another status.
    Fails(String),
    /// Cannot be started.
    Missing,
    /// Exits with zero and writes nothing.
    Forgets,
}

/// Does what an action asks for, on the scratch directory and the tool given.
fn perform(action: RenderAction, tool: &Tool, scratch: &mut Scratch) -> RenderEvent {
    match action {
        RenderAction::WriteSource { name, content } => {
            if scratch.read_only {
                RenderEvent::SourceNotWritten { cause: String::from("read-only file system") }
            } else {
                scratch.files.insert(name, content.into_bytes());
                RenderEvent::SourceWritten
            }
        }
        RenderAction::RunTool { program, arguments, source, output } => {
            assert_eq!(program, "wkhtmltopdf");
            assert_eq!(arguments[arguments.len() - 2], ToolArgument::SourcePath);
            assert_eq!(arguments[arguments.len() - 1], ToolArgument::OutputPath);
            match tool {
                Tool::Works => {
                    let mut pdf = b"%PDF-".to_vec();
                    pdf.extend_from_slice(&scratch.files[&source]);
                    scratch.files.insert(output, pdf);
                    RenderEvent::ToolExited { success: true, stderr: String::from("Done") }
                }
                Tool::Fails(stderr) => {
                    scratch.files.insert(output, b"%PD".to_vec());
                    RenderEvent::ToolExited { success: false, stderr: stderr.clone() }
                }
                Tool::Missing => {
                    RenderEvent::ToolNotStarted { cause: String::from("program not found") }
                }
                Tool::Forgets => RenderEvent::ToolExited { success: true, stderr: String::new() },
            }
        }
        RenderAction::ReadOutput { name } => match scratch.files.get(&name) {
            Some(bytes) => RenderEvent::OutputRead { bytes: bytes.clone() },
            None => RenderEvent::OutputNotRead { cause: String::from("no such file") },
        },
        RenderAction::RemoveArtifacts { source, output } => {
            scratch.files.remove(&source);
            scratch.files.remove(&output);
            RenderEvent::CleanupAttempted
        }
        RenderAction::Finish { .. } => panic!("a finished rendering was asked to go on"),
    }
}

/// A rendering that is under way.
struct Rendering {
    state: RenderState,
    pending: Option<RenderAction>,
    outcome: Option<Result<Vec<u8>, RenderError>>,
}

impl Rendering {
    fn start(job: RenderJob, html: String) -> Rendering {
        let (state, action) = begin(job, html);
        Rendering { state, pending: Some(action), outcome: None }
    }

    /// Takes one step; says whether there was one left to take.
    fn advance(&mut self, tool: &Tool, scratch: &mut Scratch) -> bool {
        match self.pending.take() {
            None => false,
            Some(RenderAction::Finish { outcome }) => {
                self.outcome = Some(outcome);
                false
            }
            Some(action) => {
                let event = perform(action, tool, scratch);
                let state = std::mem::replace(&mut self.state, RenderState::Done);
                let (then, next) = step(state, event).unwrap();
                self.state = then;
                self.pending = Some(next);
                true
            }
        }
    }
}

/// Renders `html` to the end.
fn render(html: &str, tool: &Tool, scratch: &mut Scratch) -> Result<Vec<u8>, RenderError> {
    let mut rendering = Rendering::start(RenderJob::new(), String::from(html));
    while rendering.advance(tool, scratch) {}
    rendering.advance(tool, scratch);
    rendering.outcome.unwrap()
}

#[test]
fn a_working_renderer_gives_a_pdf_and_leaves_nothing() {
    let mut scratch = Scratch::default();
    let outcome = render("<p>x</p>", &Tool::Works, &mut scratch);
    assert_eq!(outcome, Ok(b"%PDF-<p>x</p>".to_vec()));
    assert!(scratch.files.is_empty());
}

#[test]
fn a_failing_renderer_gives_a_render_failure_and_leaves_nothing() {
    let mut scratch = Scratch::default();
    let tool = Tool::Fails(String::from("Exit with code 1"));
    let outcome = render("<p>x</p>", &tool, &mut scratch);
    assert_eq!(
        outcome,
        Err(RenderError::RenderFailure { stderr: String::from("Exit with code 1") })
    );
    assert_eq!(outcome.unwrap_err().message(), "wkhtmltopdf failed: Exit with code 1");
    assert!(scratch.files.is_empty());
}

#[test]
fn a_missing_renderer_gives_an_io_failure_and_leaves_nothing() {
    let mut scratch = Scratch::default();
    let outcome = render("<p>x</p>", &Tool::Missing, &mut scratch);
    assert_eq!(
        outcome,
        Err(RenderError::IoFailure {
            stage: IoStage::Launch,
            cause: String::from("program not found"),
        })
    );
    assert!(scratch.files.is_empty());
}

#[test]
fn a_missing_output_gives_an_io_failure_and_leaves_nothing() {
    let mut scratch = Scratch::default();
    let outcome = render("<p>x</p>", &Tool::Forgets, &mut scratch);
    assert_eq!(
        outcome,
        Err(RenderError::IoFailure {
            stage: IoStage::ReadOutput,
            cause: String::from("no such file"),
        })
    );
    assert!(scratch.files.is_empty());
}

#[test]
fn a_refused_source_gives_an_io_failure_and_leaves_nothing() {
    let mut scratch = Scratch { read_only: true, ..Scratch::default() };
    let outcome = render("<p>x</p>", &Tool::Works, &mut scratch);
    assert_eq!(
        outcome,
        Err(RenderError::IoFailure {
            stage: IoStage::CreateSource,
            cause: String::from("read-only file system"),
        })
    );
    assert!(scratch.files.is_empty());
}

#[test]
fn files_of_others_are_left_alone() {
    let mut scratch = Scratch::default();
    scratch.files.insert(String::from("keep.html"), b"kept".to_vec());
    scratch.files.insert(String::from("keep.pdf"), b"kept".to_vec());
    for tool in [Tool::Works, Tool::Fails(String::new()), Tool::Missing, Tool::Forgets] {
        let _ = render("<p>x</p>", &tool, &mut scratch);
        assert_eq!(scratch.files.len(), 2);
        assert_eq!(scratch.files["keep.html"], b"kept");
        assert_eq!(scratch.files["keep.pdf"], b"kept");
    }
}

#[test]
fn a_conversion_from_markdown_to_reply() {
    let mut scratch = Scratch::default();
    let html = markdown_to_html_converter("# Hello");
    let reply = conversion_reply(render(&html, &Tool::Works, &mut scratch));
    assert_eq!(reply.status, 200);
    assert!(reply.body.starts_with(b"%PDF-"));
    assert_eq!(&reply.body[5..], html.as_bytes());
    assert_eq!(
        reply.content_disposition.as_deref(),
        Some("attachment; filename=\"document.pdf\"")
    );
    assert!(scratch.files.is_empty());

    let failing = Tool::Fails(String::from("no display"));
    let reply = conversion_reply(render(&html, &failing, &mut scratch));
    assert_eq!(reply.status, 500);
    assert!(reply.body.is_empty());
    assert!(scratch.files.is_empty());
}

#[test]
fn renderings_taken_in_turns_do_not_disturb_each_other() {
    let count = 8;
    let mut scratch = Scratch::default();
    let tools: Vec<Tool> = (0..count)
        .map(|i| if i % 3 == 2 { Tool::Fails(format!("failure {}", i)) } else { Tool::Works })
        .collect();
    let mut renderings: Vec<Rendering> = (0..count)
        .map(|i| Rendering::start(RenderJob::new(), format!("<p>document {}</p>", i)))
        .collect();
    let mut moved = true;
    while moved {
        moved = false;
        for (rendering, tool) in renderings.iter_mut().zip(tools.iter()) {
            if rendering.advance(tool, &mut scratch) {
                moved = true;
            }
        }
    }
    for (i, rendering) in renderings.iter_mut().enumerate() {
        rendering.advance(&tools[i], &mut scratch);
        let outcome = rendering.outcome.take().unwrap();
        if i % 3 == 2 {
            assert_eq!(
                outcome,
                Err(RenderError::RenderFailure { stderr: format!("failure {}", i) })
            );
        } else {
            assert_eq!(outcome, Ok(format!("%PDF-<p>document {}</p>", i).into_bytes()));
        }
    }
    assert!(scratch.files.is_empty());
}
