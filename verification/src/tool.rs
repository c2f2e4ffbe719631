//! The command line of the external renderer.
//!
//! The renderer is a program of its own, found by the operating system under
//! the name [`RENDERER`]. This module fixes what is said to it; starting it is
//! the caller's work. An argument that stands for a path is left open here as
//! [`ToolArgument::SourcePath`] or [`ToolArgument::OutputPath`]: the caller
//! knows where the scratch directory lies and puts the path in.

use vstd::prelude::*;
use vstd::string::*;

verus! {

/// The name of the renderer's executable.
pub const RENDERER: &'static str = "wkhtmltopdf";

/// The flag by which the renderer reports its version.
pub const VERSION_FLAG: &'static str = "--version";

/// One argument on the renderer's command line.
#[derive(Debug, PartialEq, Eq)]
pub enum ToolArgument {
    /// Text that is passed as it stands.
    Literal(String),
    /// The path of the job's source artifact.
    SourcePath,
    /// The path of the job's output artifact.
    OutputPath,
}

/// What a [`ToolArgument`] stands for.
pub enum ArgumentView {
    Literal(Seq<char>),
    SourcePath,
    OutputPath,
}

impl View for ToolArgument {
    type V = ArgumentView;

    open spec fn view(&self) -> ArgumentView {
        match self {
            ToolArgument::Literal(text) => ArgumentView::Literal(text@),
            ToolArgument::SourcePath => ArgumentView::SourcePath,
            ToolArgument::OutputPath => ArgumentView::OutputPath,
        }
    }
}

/// A command line, argument by argument.
pub open spec fn argument_views(arguments: Seq<ToolArgument>) -> Seq<ArgumentView> {
    arguments.map_values(|argument: ToolArgument| argument@)
}

/// The command line of a rendering: A4 pages at 96 dpi, margins of 20 mm at
/// top and bottom, no shrinking, local files readable, zoom 1.0, print media,
/// no background; then the source, then the output.
pub open spec fn render_arguments_of() -> Seq<ArgumentView> {
    seq![
        ArgumentView::Literal("--page-size"@),
        ArgumentView::Literal("A4"@),
        ArgumentView::Literal("--dpi"@),
        ArgumentView::Literal("96"@),
        ArgumentView::Literal("--margin-top"@),
        ArgumentView::Literal("20mm"@),
        ArgumentView::Literal("--margin-bottom"@),
        ArgumentView::Literal("20mm"@),
        ArgumentView::Literal("--disable-smart-shrinking"@),
        ArgumentView::Literal("--enable-local-file-access"@),
        ArgumentView::Literal("--zoom"@),
        ArgumentView::Literal("1.0"@),
        ArgumentView::Literal("--print-media-type"@),
        ArgumentView::Literal("--no-background"@),
        ArgumentView::SourcePath,
        ArgumentView::OutputPath,
    ]
}

/// The command line of a probe: the version flag alone.
pub open spec fn probe_arguments_of() -> Seq<ArgumentView> {
    seq![ArgumentView::Literal(VERSION_FLAG@)]
}

/// Makes a literal argument of a text.
fn literal(text: &str) -> (argument: ToolArgument)
    ensures
        argument@ == ArgumentView::Literal(text@),
{
    ToolArgument::Literal(String::from_str(text))
}

/// The arguments with which the renderer turns the source artifact into the
/// output artifact.
pub fn render_arguments() -> (arguments: Vec<ToolArgument>)
    ensures
        argument_views(arguments@) == render_arguments_of(),
{
    let mut arguments: Vec<ToolArgument> = Vec::new();
    arguments.push(literal("--page-size"));
    arguments.push(literal("A4"));
    arguments.push(literal("--dpi"));
    arguments.push(literal("96"));
    arguments.push(literal("--margin-top"));
    arguments.push(literal("20mm"));
    arguments.push(literal("--margin-bottom"));
    arguments.push(literal("20mm"));
    arguments.push(literal("--disable-smart-shrinking"));
    arguments.push(literal("--enable-local-file-access"));
    arguments.push(literal("--zoom"));
    arguments.push(literal("1.0"));
    arguments.push(literal("--print-media-type"));
    arguments.push(literal("--no-background"));
    arguments.push(ToolArgument::SourcePath);
    arguments.push(ToolArgument::OutputPath);
    assert(argument_views(arguments@) =~= render_arguments_of());
    arguments
}

/// The arguments with which the renderer is asked whether it is there.
pub fn probe_arguments() -> (arguments: Vec<ToolArgument>)
    ensures
        argument_views(arguments@) == probe_arguments_of(),
{
    let mut arguments: Vec<ToolArgument> = Vec::new();
    arguments.push(literal(VERSION_FLAG));
    assert(argument_views(arguments@) =~= probe_arguments_of());
    arguments
}

} // verus!
