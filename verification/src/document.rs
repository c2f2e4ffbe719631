//! The markup normalizer: turns lightweight markup into a complete HTML
//! document, ready to be handed to the renderer.
//!
//! The conversion of the markup itself is comrak's work. What this module adds
//! is the document around it: a fixed opening, the converted markup, a fixed
//! closing. Two openings exist, chosen by [`Styling`]: both carry the same
//! head; the rich one adds a style sheet that fixes the page box, forces one
//! font scale on all text and lets long URLs break.

use vstd::prelude::*;
use vstd::string::*;
use vstd::utf8::encode_utf8;

verus! {

/// How much presentation the document adds to the converted markup.
#[derive(Clone, Copy, Debug, PartialEq, Eq, Structural)]
pub enum Styling {
    /// The head is followed by [`STYLE_SHEET`].
    Rich,
    /// The head alone: whatever sizes the markup asks for pass through.
    Plain,
}

/// The declaration that every document starts with.
pub const DOCTYPE: &'static str = "<!DOCTYPE html>";

/// The head of every document, up to the end of its title.
pub const DOCUMENT_HEAD: &'static str = r#"
<html>
<head>
    <meta charset="UTF-8">
    <meta name="viewport" content="width=device-width, initial-scale=1.0">
    <title>Document</title>
"#;

/// The style element of a [`Styling::Rich`] document.
pub const STYLE_SHEET: &'static str = r#"    <style>
        @page {
            size: A4;
            margin: 10mm;
        }
        html {
            font-size: 16pt !important;
            width: 210mm;  /* A4 width */
        }
        body {
            font-family: -apple-system, BlinkMacSystemFont, "Segoe UI", Roboto, "Helvetica Neue", Arial, sans-serif;
            line-height: 1.6;
            padding: 0 5em;
            font-size: 1rem !important;
            width: 100%;
            margin: 0;
            overflow-wrap: break-word;
            word-wrap: break-word;
            word-break: break-word;
        }
        /* Force consistent sizes */
        p, div, span, li, td {
            font-size: 1rem !important;
        }
        h1 { font-size: 1.4rem !important; }
        h2 { font-size: 1.2rem !important; }
        h3 { font-size: 1.1rem !important; }
        h4, h5, h6 { font-size: 1.1rem !important; }
        /* Handle long URLs */
        a {
            word-wrap: break-word;
            word-break: break-all;
            white-space: pre-wrap;
            overflow-wrap: break-word;
            max-width: 100%;
            display: inline-block;
        }
    </style>
"#;

/// The end of the head and the start of the body, indentation included.
pub const BODY_OPENING: &'static str = "</head>\n<body>\n    ";

/// The end of every document.
pub const DOCUMENT_CLOSING: &'static str = "\n</body>\n</html>";

/// All that stands in a document before the converted markup.
pub open spec fn opening(styling: Styling) -> Seq<char> {
    match styling {
        Styling::Rich => DOCTYPE@ + DOCUMENT_HEAD@ + STYLE_SHEET@ + BODY_OPENING@,
        Styling::Plain => DOCTYPE@ + DOCUMENT_HEAD@ + BODY_OPENING@,
    }
}

/// The document that holds `content` as its body.
pub open spec fn document(styling: Styling, content: Seq<char>) -> Seq<char> {
    opening(styling) + content + DOCUMENT_CLOSING@
}

/// The HTML that comrak's `markdown_to_html` gives for `markdown` under its
/// default options.
pub uninterp spec fn comrak_html(markdown: Seq<char>) -> Seq<char>;

/// The document that `markdown` is normalized to.
pub open spec fn normalized(styling: Styling, markdown: Seq<char>) -> Seq<char> {
    document(styling, comrak_html(markdown))
}

/// Calls `comrak::markdown_to_html` with `comrak::Options::default()`.
///
/// Trusted: the result is the one that `comrak_html` names. With the default
/// options no extension and no plugin is active and comrak reads nothing but
/// its argument, so that one text always converts to the same HTML. Nothing
/// is claimed of what that HTML holds.
#[verifier::external_body]
fn comrak_to_html(markdown: &str) -> (html: String)
    ensures
        html@ == comrak_html(markdown@),
{
    comrak::markdown_to_html(markdown, &comrak::Options::default())
}

/// Builds the opening of a document.
fn open_document(styling: Styling) -> (text: String)
    ensures
        text@ == opening(styling),
{
    let mut text = String::from_str(DOCTYPE);
    text.append(DOCUMENT_HEAD);
    match styling {
        Styling::Rich => {
            text.append(STYLE_SHEET);
        },
        Styling::Plain => {},
    }
    text.append(BODY_OPENING);
    text
}

/// Puts already converted markup into a document.
pub fn embed(content: &str, styling: Styling) -> (html: String)
    ensures
        html@ == document(styling, content@),
{
    let mut html = open_document(styling);
    html.append(content);
    html.append(DOCUMENT_CLOSING);
    html
}

/// Converts `markdown` and puts the result into a document. Every text is
/// accepted, the empty one too.
pub fn normalize(markdown: &str, styling: Styling) -> (html: String)
    ensures
        html@ == normalized(styling, markdown@),
{
    let content = comrak_to_html(markdown);
    embed(content.as_str(), styling)
}

/// Normalizes `markdown` with the rich styling, the one the service uses.
pub fn markdown_to_html_converter(markdown: &str) -> (html: String)
    ensures
        html@ == normalized(Styling::Rich, markdown@),
{
    normalize(markdown, Styling::Rich)
}

/// A document is its opening, then its content unchanged, then its closing,
/// and nothing else.
pub proof fn lemma_document_frames_content(styling: Styling, content: Seq<char>)
    ensures
        document(styling, content).len() == opening(styling).len() + content.len()
            + DOCUMENT_CLOSING@.len(),
        document(styling, content).subrange(0, opening(styling).len() as int) == opening(
            styling,
        ),
        document(styling, content).subrange(
            opening(styling).len() as int,
            (opening(styling).len() + content.len()) as int,
        ) == content,
        document(styling, content).subrange(
            (opening(styling).len() + content.len()) as int,
            document(styling, content).len() as int,
        ) == DOCUMENT_CLOSING@,
{
}

/// Two contents that give the same document are the same content: nothing of
/// the converted markup is lost in the document.
pub proof fn lemma_document_keeps_content(styling: Styling, first: Seq<char>, second: Seq<char>)
    requires
        document(styling, first) == document(styling, second),
    ensures
        first == second,
{
    lemma_document_frames_content(styling, first);
    lemma_document_frames_content(styling, second);
}

/// The two stylings differ in the style sheet alone: what stands before it
/// and what stands after it is the same in both documents.
pub proof fn lemma_stylings_differ_in_style_sheet(content: Seq<char>)
    ensures
        document(Styling::Rich, content) == DOCTYPE@ + DOCUMENT_HEAD@ + STYLE_SHEET@
            + BODY_OPENING@ + content + DOCUMENT_CLOSING@,
        document(Styling::Plain, content) == DOCTYPE@ + DOCUMENT_HEAD@ + BODY_OPENING@ + content
            + DOCUMENT_CLOSING@,
{
}

/// Every document starts with the declaration `<!DOCTYPE html>` and ends
/// with `</html>`, whatever its content and its styling.
pub proof fn lemma_document_is_bracketed(styling: Styling, content: Seq<char>)
    ensures
        document(styling, content).len() >= 15 + 7,
        document(styling, content).subrange(0, 15) == "<!DOCTYPE html>"@,
        document(styling, content).subrange(
            document(styling, content).len() - 7,
            document(styling, content).len() as int,
        ) == "</html>"@,
{
    reveal_strlit("<!DOCTYPE html>");
    reveal_strlit("\n</body>\n</html>");
    reveal_strlit("</html>");
    let whole = document(styling, content);
    assert(whole.subrange(0, 15) =~= "<!DOCTYPE html>"@);
    assert(whole.subrange(whole.len() - 7, whole.len() as int) =~= "</html>"@);
}

/// Every markup has its document, and the document holds the conversion of
/// the markup, whole and unchanged, between its opening and its closing.
pub proof fn lemma_normalized_holds_conversion(styling: Styling, markdown: Seq<char>)
    ensures
        normalized(styling, markdown) == opening(styling) + comrak_html(markdown)
            + DOCUMENT_CLOSING@,
        normalized(styling, markdown).subrange(
            opening(styling).len() as int,
            (opening(styling).len() + comrak_html(markdown).len()) as int,
        ) == comrak_html(markdown),
{
    lemma_document_frames_content(styling, comrak_html(markdown));
}

/// Normalizing is repeatable. Two results of normalizing the same markup
/// under the same styling are the same text, and so the same bytes: nothing
/// but the markup and the styling has a say in the document.
pub proof fn lemma_normalize_is_repeatable(
    styling: Styling,
    markdown: Seq<char>,
    first: Seq<char>,
    second: Seq<char>,
)
    requires
        first == normalized(styling, markdown),
        second == normalized(styling, markdown),
    ensures
        first == second,
        encode_utf8(first) == encode_utf8(second),
{
}

} // verus!
