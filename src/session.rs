use vstd::prelude::*;
use vstd::string::*;
use crate::text::{owned, push_char};
use crate::lang::{LangError, LeetcodeSupportedLang, lang_error_text, slug_of};
use crate::record::{
    AttemptAttributes, QuestionDifficulty, Timestamp, attempt_folder_name, attempt_folder_text,
    attempt_lines, question_attributes_text,
};

verus! {

/// What the question service says of a question.
pub struct QuestionMeta {
    pub frontend_id: String,
    pub title: String,
    pub difficulty: QuestionDifficulty,
}

/// One topic tag of a question.
pub struct TopicTag {
    pub name: String,
}

/// Starter code for one language.
pub struct CodeSnippet {
    pub lang: String,
    pub lang_slug: String,
    pub code: String,
}

/// A title with every space turned into an underscore.
pub open spec fn spaces_to_underscores(s: Seq<char>) -> Seq<char> {
    s.map_values(|c: char| if c == ' ' { '_' } else { c })
}

/// The folder of a question: `<frontend id>_<title with underscores>`.
pub open spec fn question_folder_text(frontend_id: Seq<char>, title: Seq<char>) -> Seq<char> {
    frontend_id + seq!['_'] + spaces_to_underscores(title)
}

/// A path with one more segment.
pub open spec fn joined(dir: Seq<char>, name: Seq<char>) -> Seq<char> {
    dir + seq!['/'] + name
}

/// Names the folder of a question.
pub fn question_folder_name(frontend_id: &str, title: &str) -> (r: String)
    ensures
        r@ == question_folder_text(frontend_id@, title@),
{
    let mut s = owned(frontend_id);
    push_char(&mut s, '_');
    let ghost start = s@;
    let n = title.unicode_len();
    let mut i: usize = 0;
    while i < n
        invariant
            n == title@.len(),
            i <= n,
            s@ == start + spaces_to_underscores(title@.subrange(0, i as int)),
        decreases n - i,
    {
        let c = title.get_char(i);
        push_char(&mut s, if c == ' ' { '_' } else { c });
        assert(spaces_to_underscores(title@.subrange(0, i + 1)) == spaces_to_underscores(
            title@.subrange(0, i as int),
        ).push(if c == ' ' { '_' } else { c }));
        i = i + 1;
    }
    assert(title@.subrange(0, n as int) == title@);
    s
}

/// Adds a segment to a path.
pub fn join_path(dir: &str, name: &str) -> (r: String)
    ensures
        r@ == joined(dir@, name@),
{
    let mut s = owned(dir);
    push_char(&mut s, '/');
    s.append(name);
    s
}

/// The topic names of a question, in the order given.
pub fn topic_names(tags: &Vec<TopicTag>) -> (r: Vec<String>)
    ensures
        r@.len() == tags@.len(),
        forall|i: int| 0 <= i < tags@.len() ==> #[trigger] r@[i]@ == tags@[i].name@,
{
    let mut r: Vec<String> = Vec::new();
    let mut i: usize = 0;
    while i < tags.len()
        invariant
            i <= tags@.len(),
            r@.len() == i,
            forall|j: int| 0 <= j < i ==> #[trigger] r@[j]@ == tags@[j].name@,
        decreases tags@.len() - i,
    {
        r.push(tags[i].name.clone());
        i = i + 1;
    }
    r
}

/// Starter code whose slug is `slug`: the first such snippet's code.
pub fn find_boilerplate(snippets: &Vec<CodeSnippet>, language: LeetcodeSupportedLang) -> (r:
    Option<String>)
    ensures
        r is None <==> forall|i: int|
            0 <= i < snippets@.len() ==> #[trigger] snippets@[i].lang_slug@ != slug_of(language),
        r matches Some(code) ==> exists|i: int|
            0 <= i < snippets@.len() && snippets@[i].lang_slug@ == slug_of(language)
                && code@ == snippets@[i].code@ && forall|j: int|
                0 <= j < i ==> #[trigger] snippets@[j].lang_slug@ != slug_of(language),
{
    let slug = language.leetcode_slug();
    let mut i: usize = 0;
    while i < snippets.len()
        invariant
            i <= snippets@.len(),
            slug@ == slug_of(language),
            forall|j: int| 0 <= j < i ==> #[trigger] snippets@[j].lang_slug@ != slug_of(language),
        decreases snippets@.len() - i,
    {
        if crate::text::str_equal(snippets[i].lang_slug.as_str(), slug) {
            return Some(snippets[i].code.clone());
        }
        i = i + 1;
    }
    None
}

/// Where the files of a question go, under the language folder.
pub struct QuestionFiles {
    /// `<language>/<question folder>`.
    pub dir: String,
    /// The converted description, `question.md`.
    pub description_path: String,
    /// Difficulty and topics, `question_attributes.toml`.
    pub attributes_path: String,
}

/// The question folder under a language folder.
pub open spec fn question_dir_text(language_dir: Seq<char>, meta: QuestionMeta) -> Seq<char> {
    joined(language_dir, question_folder_text(meta.frontend_id@, meta.title@))
}

/// Lays out the files of a question under the folder named by the language token.
pub fn question_files(language_dir: &str, meta: &QuestionMeta) -> (r: QuestionFiles)
    ensures
        r.dir@ == question_dir_text(language_dir@, *meta),
        r.description_path@ == joined(r.dir@, "question.md"@),
        r.attributes_path@ == joined(r.dir@, "question_attributes.toml"@),
{
    let folder = question_folder_name(meta.frontend_id.as_str(), meta.title.as_str());
    let dir = join_path(language_dir, folder.as_str());
    let description_path = join_path(dir.as_str(), "question.md");
    let attributes_path = join_path(dir.as_str(), "question_attributes.toml");
    QuestionFiles { dir, description_path, attributes_path }
}

/// The diagnostic for a language that has no starter code.
pub open spec fn missing_boilerplate_text(language: LeetcodeSupportedLang) -> Seq<char> {
    "No boilerplate for language: "@ + slug_of(language)
}

/// What one attempt writes, in a folder of its own under the question folder.
pub struct AttemptPlan {
    /// `<question folder>/<YYYYMMDD_HHMMSS>`.
    pub dir: String,
    /// `attempt.<ext>` in the attempt folder.
    pub code_path: String,
    /// The starter code to write there; `None` when there is none, and then
    /// no code file is written.
    pub code: Option<String>,
    /// A message for the diagnostic stream when there is no starter code.
    pub diagnostic: Option<String>,
    /// `attempt_attributes.toml` in the attempt folder.
    pub attributes_path: String,
    /// The text of that file.
    pub attributes: String,
}

/// Lays out an attempt started at `now`: its folder, the starter code for
/// `language` (the first snippet with its slug), and a fresh attempt record.
pub fn plan_attempt(
    question_dir: &str,
    ext: &str,
    language: LeetcodeSupportedLang,
    now: Timestamp,
    snippets: &Vec<CodeSnippet>,
) -> (r: AttemptPlan)
    requires
        now.wf(),
    ensures
        r.dir@ == joined(question_dir@, attempt_folder_text(now)),
        r.code_path@ == joined(r.dir@, "attempt."@ + ext@),
        r.attributes_path@ == joined(r.dir@, "attempt_attributes.toml"@),
        r.code is None <==> forall|i: int|
            0 <= i < snippets@.len() ==> #[trigger] snippets@[i].lang_slug@ != slug_of(language),
        r.code matches Some(code) ==> exists|i: int|
            0 <= i < snippets@.len() && snippets@[i].lang_slug@ == slug_of(language)
                && code@ == snippets@[i].code@ && forall|j: int|
                0 <= j < i ==> #[trigger] snippets@[j].lang_slug@ != slug_of(language),
        r.diagnostic is Some <==> r.code is None,
        r.diagnostic matches Some(d) ==> d@ == missing_boilerplate_text(language),
        r.attributes@ == attempt_lines(false, 1, now, now, seq!['"', '"']),
{
    let folder = attempt_folder_name(&now);
    let dir = join_path(question_dir, folder.as_str());
    let file_name = owned("attempt.").concat(ext);
    let code_path = join_path(dir.as_str(), file_name.as_str());
    let attributes_path = join_path(dir.as_str(), "attempt_attributes.toml");
    let code = find_boilerplate(snippets, language);
    let diagnostic = match &code {
        Some(_) => None,
        None => Some(owned("No boilerplate for language: ").concat(language.leetcode_slug())),
    };
    let record = AttemptAttributes::new_attempt(now);
    let attributes = record.to_toml();
    AttemptPlan { dir, code_path, code, diagnostic, attributes_path, attributes }
}

/// A second run on the same fetched data writes the question's files to the
/// same place with the same attribute text: both depend on that data alone.
pub proof fn lemma_question_files_repeat(
    language_dir: Seq<char>,
    first: QuestionMeta,
    second: QuestionMeta,
    first_topics: Seq<Seq<char>>,
    second_topics: Seq<Seq<char>>,
)
    requires
        first.frontend_id@ == second.frontend_id@,
        first.title@ == second.title@,
        first.difficulty == second.difficulty,
        first_topics == second_topics,
    ensures
        question_dir_text(language_dir, first) == question_dir_text(language_dir, second),
        question_attributes_text(first.difficulty, first_topics) == question_attributes_text(
            second.difficulty,
            second_topics,
        ),
{
}

/// Why a practice session stopped. A missing starter code is no error: it
/// only yields a diagnostic.
#[derive(Debug, PartialEq, Eq)]
pub enum PracticeError {
    /// The language token was empty or unsupported; nothing was fetched or written.
    InvalidInput(LangError),
    /// The question service could not be reached.
    RemoteTransportFailure(String),
    /// The question service answered in an unexpected shape.
    RemoteDecodeFailure(String),
    /// The description could not be converted.
    ConversionFailure(String),
    /// A folder or file could not be created or written.
    FilesystemFailure(String),
    /// The local clock reads a time that an attempt record cannot hold.
    ClockOutOfRange,
}

/// The message of an error.
pub open spec fn practice_error_text(e: PracticeError) -> Seq<char> {
    match e {
        PracticeError::InvalidInput(l) => lang_error_text(l),
        PracticeError::RemoteTransportFailure(d) => "could not reach the question service: "@
            + d@,
        PracticeError::RemoteDecodeFailure(d) => "unexpected answer from the question service: "@
            + d@,
        PracticeError::ConversionFailure(d) => "could not convert the description: "@ + d@,
        PracticeError::FilesystemFailure(d) => "could not write the practice record: "@ + d@,
        PracticeError::ClockOutOfRange => "the local time cannot be recorded"@,
    }
}

impl PracticeError {
    /// A human-readable description of the error.
    pub fn message(&self) -> (r: String)
        ensures
            r@ == practice_error_text(*self),
    {
        match self {
            PracticeError::InvalidInput(l) => l.message(),
            PracticeError::RemoteTransportFailure(d) => owned(
                "could not reach the question service: ",
            ).concat(d.as_str()),
            PracticeError::RemoteDecodeFailure(d) => owned(
                "unexpected answer from the question service: ",
            ).concat(d.as_str()),
            PracticeError::ConversionFailure(d) => owned(
                "could not convert the description: ",
            ).concat(d.as_str()),
            PracticeError::FilesystemFailure(d) => owned(
                "could not write the practice record: ",
            ).concat(d.as_str()),
            PracticeError::ClockOutOfRange => owned("the local time cannot be recorded"),
        }
    }
}

} // verus!
