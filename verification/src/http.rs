//! The HTTP front: what the service answers, and whether it starts at all.
//!
//! Listening, routing and the JSON of bodies are the caller's work. Decided
//! here is what follows from a rendering's outcome and from a probe of the
//! renderer: the status, the headers and the body of each reply, and the
//! words and the exit code of a refused start.

use vstd::prelude::*;
use vstd::string::*;
use crate::render::{outcome_view, Outcome, OutcomeView, RenderErrorView};
use crate::tool::RENDERER;

verus! {

/// The path of the conversion endpoint, which takes `POST`.
pub const CONVERT_PATH: &'static str = "/convert";

/// The path of the health endpoint, which takes `GET`.
pub const HEALTH_PATH: &'static str = "/health";

/// The address the service listens on: every interface.
pub const LISTEN_HOST: &'static str = "0.0.0.0";

/// The TCP port the service listens on.
pub const LISTEN_PORT: u16 = 8080;

/// The status of a reply that holds what was asked for.
pub const STATUS_OK: u16 = 200;

/// The status of a reply to a conversion that failed.
pub const STATUS_INTERNAL_SERVER_ERROR: u16 = 500;

/// The status of a health reply when the renderer is not there.
pub const STATUS_SERVICE_UNAVAILABLE: u16 = 503;

/// The exit code of a start that was refused.
pub const EXIT_RENDERER_MISSING: i32 = 1;

/// The content type of a rendered document.
pub const PDF_CONTENT_TYPE: &'static str = "application/pdf";

/// The disposition of a rendered document: to be saved as `document.pdf`.
pub const PDF_DISPOSITION: &'static str = "attachment; filename=\"document.pdf\"";

/// The reply to a conversion request.
#[derive(Debug, PartialEq, Eq)]
pub struct ConversionReply {
    pub status: u16,
    /// The `Content-Type` header, if the reply has one.
    pub content_type: Option<String>,
    /// The `Content-Disposition` header, if the reply has one.
    pub content_disposition: Option<String>,
    pub body: Vec<u8>,
}

/// What a [`ConversionReply`] stands for.
pub struct ConversionReplyView {
    pub status: int,
    pub content_type: Option<Seq<char>>,
    pub content_disposition: Option<Seq<char>>,
    pub body: Seq<u8>,
}

/// What a header that may be absent stands for.
pub open spec fn header_view(header: Option<String>) -> Option<Seq<char>> {
    match header {
        Some(text) => Some(text@),
        None => None,
    }
}

impl View for ConversionReply {
    type V = ConversionReplyView;

    open spec fn view(&self) -> ConversionReplyView {
        ConversionReplyView {
            status: self.status as int,
            content_type: header_view(self.content_type),
            content_disposition: header_view(self.content_disposition),
            body: self.body@,
        }
    }
}

/// The reply that an outcome calls for. A PDF is sent as it is, as an
/// attachment; a failure of whatever kind is answered by the bare status 500,
/// with no header and no body.
pub open spec fn conversion_reply_of(outcome: OutcomeView) -> ConversionReplyView {
    match outcome {
        Ok(bytes) => ConversionReplyView {
            status: 200,
            content_type: Some(PDF_CONTENT_TYPE@),
            content_disposition: Some(PDF_DISPOSITION@),
            body: bytes,
        },
        Err(_) => ConversionReplyView {
            status: 500,
            content_type: None,
            content_disposition: None,
            body: Seq::empty(),
        },
    }
}

/// Answers a conversion request whose rendering ended in `outcome`.
pub fn conversion_reply(outcome: Outcome) -> (reply: ConversionReply)
    ensures
        reply@ == conversion_reply_of(outcome_view(outcome)),
{
    match outcome {
        Ok(bytes) => ConversionReply {
            status: STATUS_OK,
            content_type: Some(String::from_str(PDF_CONTENT_TYPE)),
            content_disposition: Some(String::from_str(PDF_DISPOSITION)),
            body: bytes,
        },
        Err(_) => ConversionReply {
            status: STATUS_INTERNAL_SERVER_ERROR,
            content_type: None,
            content_disposition: None,
            body: Vec::new(),
        },
    }
}

/// The body of a health reply.
#[derive(Debug, PartialEq, Eq)]
pub struct HealthResponse {
    pub status: String,
    pub version: String,
}

/// The reply to a health request.
#[derive(Debug, PartialEq, Eq)]
pub struct HealthReply {
    pub code: u16,
    pub body: HealthResponse,
}

/// What a [`HealthReply`] stands for.
pub struct HealthReplyView {
    pub code: int,
    pub status: Seq<char>,
    pub version: Seq<char>,
}

impl View for HealthReply {
    type V = HealthReplyView;

    open spec fn view(&self) -> HealthReplyView {
        HealthReplyView {
            code: self.code as int,
            status: self.body.status@,
            version: self.body.version@,
        }
    }
}

/// The words for a renderer that is not there.
pub open spec fn unhealthy_status() -> Seq<char> {
    "unhealthy - "@ + RENDERER@ + " not found"@
}

/// The health reply that a probe calls for: 200 and `healthy` where the
/// renderer answered, 503 and the name of what is missing where it did not;
/// the service's version either way.
pub open spec fn health_reply_of(renderer_found: bool, version: Seq<char>) -> HealthReplyView {
    if renderer_found {
        HealthReplyView { code: 200, status: "healthy"@, version }
    } else {
        HealthReplyView { code: 503, status: unhealthy_status(), version }
    }
}

/// Answers a health request. `renderer_found` says whether the renderer
/// could be started with its version flag; `version` is the service's own.
pub fn health_check(renderer_found: bool, version: &str) -> (reply: HealthReply)
    ensures
        reply@ == health_reply_of(renderer_found, version@),
{
    if renderer_found {
        HealthReply {
            code: STATUS_OK,
            body: HealthResponse {
                status: String::from_str("healthy"),
                version: String::from_str(version),
            },
        }
    } else {
        let mut status = String::from_str("unhealthy - ");
        status.append(RENDERER);
        status.append(" not found");
        HealthReply {
            code: STATUS_SERVICE_UNAVAILABLE,
            body: HealthResponse { status, version: String::from_str(version) },
        }
    }
}

/// Whether the service starts.
#[derive(Debug, PartialEq, Eq)]
pub enum Startup {
    /// The renderer is missing: `message` goes to the error stream and the
    /// process ends with `exit_code`, before any socket is bound.
    Refuse { message: String, exit_code: i32 },
    /// The renderer is there: `banner` is printed and the service listens on
    /// [`LISTEN_HOST`], port [`LISTEN_PORT`].
    Serve { banner: String },
}

/// What a [`Startup`] stands for.
pub enum StartupView {
    Refuse { message: Seq<char>, exit_code: int },
    Serve { banner: Seq<char> },
}

impl View for Startup {
    type V = StartupView;

    open spec fn view(&self) -> StartupView {
        match self {
            Startup::Refuse { message, exit_code } => StartupView::Refuse {
                message: message@,
                exit_code: *exit_code as int,
            },
            Startup::Serve { banner } => StartupView::Serve { banner: banner@ },
        }
    }
}

/// The start that a probe calls for.
pub open spec fn startup_of(renderer_found: bool, version: Seq<char>) -> StartupView {
    if renderer_found {
        StartupView::Serve {
            banner: "Starting rust-md-to-pdf v"@ + version + " at http://0.0.0.0:8080"@,
        }
    } else {
        StartupView::Refuse {
            message: "Error: wkhtmltopdf is not installed. Please install it first."@,
            exit_code: 1,
        }
    }
}

/// Decides, once and before the service listens, whether it starts.
/// `renderer_found` says whether the renderer could be started with its
/// version flag; `version` is the service's own.
pub fn startup(renderer_found: bool, version: &str) -> (decision: Startup)
    ensures
        decision@ == startup_of(renderer_found, version@),
{
    if renderer_found {
        let mut banner = String::from_str("Starting rust-md-to-pdf v");
        banner.append(version);
        banner.append(" at http://0.0.0.0:8080");
        Startup::Serve { banner }
    } else {
        Startup::Refuse {
            message: String::from_str(
                "Error: wkhtmltopdf is not installed. Please install it first.",
            ),
            exit_code: EXIT_RENDERER_MISSING,
        }
    }
}

/// No failure shows through a reply. Whatever went wrong in a rendering, the
/// client gets the same reply, and it holds neither header nor body.
pub proof fn lemma_failures_look_alike(first: RenderErrorView, second: RenderErrorView)
    ensures
        conversion_reply_of(Err(first)) == conversion_reply_of(Err(second)),
        conversion_reply_of(Err(first)).status == 500,
        conversion_reply_of(Err(first)).body.len() == 0,
        conversion_reply_of(Err(first)).content_type is None,
        conversion_reply_of(Err(first)).content_disposition is None,
{
}

/// The status of a conversion reply tells success from failure, and a
/// success carries the PDF unchanged.
pub proof fn lemma_reply_tells_outcome(outcome: OutcomeView)
    ensures
        conversion_reply_of(outcome).status == 200 <==> outcome is Ok,
        conversion_reply_of(outcome).status == 500 <==> outcome is Err,
        outcome matches Ok(bytes) ==> conversion_reply_of(outcome).body == bytes,
{
}

} // verus!
