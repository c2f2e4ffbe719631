//! Rendering jobs: the pair of scratch artifacts that one request owns.
//!
//! A job is known by its identifier. Both artifact names are made from it, so
//! that they share everything but the extension, and jobs with different
//! identifiers never touch each other's files.

use vstd::prelude::*;
use vstd::string::*;

verus! {

/// The extension of the artifact that holds the HTML document.
pub const SOURCE_EXTENSION: &'static str = "html";

/// The extension of the artifact that the renderer writes.
pub const OUTPUT_EXTENSION: &'static str = "pdf";

/// The file name made of an identifier and an extension.
pub open spec fn artifact_name_of(identifier: Seq<char>, extension: Seq<char>) -> Seq<char> {
    identifier + seq!['.'] + extension
}

/// The name of a job's source artifact.
pub open spec fn source_name_of(identifier: Seq<char>) -> Seq<char> {
    artifact_name_of(identifier, SOURCE_EXTENSION@)
}

/// The name of a job's output artifact.
pub open spec fn output_name_of(identifier: Seq<char>) -> Seq<char> {
    artifact_name_of(identifier, OUTPUT_EXTENSION@)
}

/// A digit of lower-case hexadecimal.
pub open spec fn is_lower_hex(c: char) -> bool {
    ('0' <= c && c <= '9') || ('a' <= c && c <= 'f')
}

/// The places of the four hyphens in the text of a UUID.
pub open spec fn is_hyphen_place(i: int) -> bool {
    i == 8 || i == 13 || i == 18 || i == 23
}

/// The text of a random (version 4) UUID: 36 characters, hyphens after the
/// groups of 8, 4, 4 and 4 digits, lower-case hexadecimal digits elsewhere,
/// the version digit `4` and a variant digit of `8`, `9`, `a` or `b`.
pub open spec fn is_random_uuid(text: Seq<char>) -> bool {
    &&& text.len() == 36
    &&& forall|i: int|
        0 <= i < 36 ==> if is_hyphen_place(i) {
            #[trigger] text[i] == '-'
        } else {
            is_lower_hex(text[i])
        }
    &&& text[14] == '4'
    &&& (text[19] == '8' || text[19] == '9' || text[19] == 'a' || text[19] == 'b')
}

/// Calls `uuid::Uuid::new_v4` and takes the text that the UUID displays as.
///
/// Trusted: the text is that of a random UUID as `is_random_uuid` describes
/// it. The crate sets the version and variant bits on sixteen bytes from the
/// operating system's generator and displays them hyphenated in lower case.
/// Nothing is claimed of the other digits: they differ from call to call.
/// Where the operating system gives no random bytes the crate panics.
#[verifier::external_body]
fn random_identifier() -> (identifier: String)
    ensures
        is_random_uuid(identifier@),
{
    uuid::Uuid::new_v4().to_string()
}

/// Makes a file name of an identifier and an extension.
pub fn artifact_name(identifier: &str, extension: &str) -> (name: String)
    ensures
        name@ == artifact_name_of(identifier@, extension@),
{
    proof {
        reveal_strlit(".");
    }
    let mut name = String::from_str(identifier);
    name.append(".");
    assert(name@ == identifier@ + seq!['.']);
    name.append(extension);
    name
}

/// One request's claim on the scratch directory.
#[derive(Debug, PartialEq, Eq)]
pub struct RenderJob {
    identifier: String,
}

impl View for RenderJob {
    type V = Seq<char>;

    /// A job is its identifier.
    closed spec fn view(&self) -> Seq<char> {
        self.identifier@
    }
}

impl RenderJob {
    /// A job under a fresh random identifier.
    pub fn new() -> (job: RenderJob)
        ensures
            is_random_uuid(job@),
    {
        RenderJob { identifier: random_identifier() }
    }

    /// A job under an identifier that the caller has drawn.
    pub fn with_identifier(identifier: String) -> (job: RenderJob)
        ensures
            job@ == identifier@,
    {
        RenderJob { identifier }
    }

    /// The identifier of the job.
    pub fn identifier(&self) -> (identifier: &str)
        ensures
            identifier@ == self@,
    {
        self.identifier.as_str()
    }

    /// The name of the artifact that the HTML document is written to.
    pub fn source_name(&self) -> (name: String)
        ensures
            name@ == source_name_of(self@),
    {
        artifact_name(self.identifier.as_str(), SOURCE_EXTENSION)
    }

    /// The name of the artifact that the renderer writes: the source name
    /// under the other extension.
    pub fn output_name(&self) -> (name: String)
        ensures
            name@ == output_name_of(self@),
    {
        artifact_name(self.identifier.as_str(), OUTPUT_EXTENSION)
    }
}

/// The two artifacts of a job are different files.
pub proof fn lemma_source_is_not_output(identifier: Seq<char>)
    ensures
        source_name_of(identifier) != output_name_of(identifier),
{
    reveal_strlit("html");
    reveal_strlit("pdf");
    assert(source_name_of(identifier).len() == identifier.len() + 5);
    assert(output_name_of(identifier).len() == identifier.len() + 4);
}

/// Jobs with different identifiers have no artifact in common.
pub proof fn lemma_jobs_do_not_collide(first: Seq<char>, second: Seq<char>)
    requires
        first != second,
    ensures
        source_name_of(first) != source_name_of(second),
        source_name_of(first) != output_name_of(second),
        output_name_of(first) != source_name_of(second),
        output_name_of(first) != output_name_of(second),
{
    reveal_strlit("html");
    reveal_strlit("pdf");
    let s1 = source_name_of(first);
    let s2 = source_name_of(second);
    let o1 = output_name_of(first);
    let o2 = output_name_of(second);
    assert(s1.len() == first.len() + 5 && s2.len() == second.len() + 5);
    assert(o1.len() == first.len() + 4 && o2.len() == second.len() + 4);
    assert(s1[s1.len() - 1] == 'l' && s2[s2.len() - 1] == 'l');
    assert(o1[o1.len() - 1] == 'f' && o2[o2.len() - 1] == 'f');
    if s1 == s2 {
        assert(first =~= s1.subrange(0, first.len() as int));
        assert(second =~= s2.subrange(0, second.len() as int));
    }
    if o1 == o2 {
        assert(first =~= o1.subrange(0, first.len() as int));
        assert(second =~= o2.subrange(0, second.len() as int));
    }
}

/// The artifacts of a job under a random UUID are plain file names: no
/// separator leads out of the scratch directory, and the one dot stands
/// before the extension.
pub proof fn lemma_fresh_names_are_plain(identifier: Seq<char>)
    requires
        is_random_uuid(identifier),
    ensures
        forall|i: int|
            0 <= i < source_name_of(identifier).len() ==> {
                let c = #[trigger] source_name_of(identifier)[i];
                c != '/' && c != '\\' && (c == '.' <==> i == 36)
            },
        forall|i: int|
            0 <= i < output_name_of(identifier).len() ==> {
                let c = #[trigger] output_name_of(identifier)[i];
                c != '/' && c != '\\' && (c == '.' <==> i == 36)
            },
{
    reveal_strlit("html");
    reveal_strlit("pdf");
    assert forall|i: int| 0 <= i < source_name_of(identifier).len() implies {
        let c = #[trigger] source_name_of(identifier)[i];
        c != '/' && c != '\\' && (c == '.' <==> i == 36)
    } by {
        if i < 36 {
            assert(source_name_of(identifier)[i] == identifier[i]);
        }
    }
    assert forall|i: int| 0 <= i < output_name_of(identifier).len() implies {
        let c = #[trigger] output_name_of(identifier)[i];
        c != '/' && c != '\\' && (c == '.' <==> i == 36)
    } by {
        if i < 36 {
            assert(output_name_of(identifier)[i] == identifier[i]);
        }
    }
}

} // verus!
