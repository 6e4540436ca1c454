use vstd::prelude::*;
use vstd::string::*;
use crate::text::{owned, str_equal};

verus! {

/// A character stripped from both ends of a language token.
pub open spec fn is_trim_char(c: char) -> bool {
    c == ' ' || c == '.'
}

/// Drops every leading trim character.
pub open spec fn trim_start(s: Seq<char>) -> Seq<char>
    decreases s.len(),
{
    if s.len() > 0 && is_trim_char(s[0]) {
        trim_start(s.drop_first())
    } else {
        s
    }
}

/// Drops every trailing trim character.
pub open spec fn trim_end(s: Seq<char>) -> Seq<char>
    decreases s.len(),
{
    if s.len() > 0 && is_trim_char(s.last()) {
        trim_end(s.drop_last())
    } else {
        s
    }
}

/// A token with all leading and trailing spaces and dots removed.
pub open spec fn trimmed(s: Seq<char>) -> Seq<char> {
    trim_end(trim_start(s))
}

/// The languages whose starter code the question service offers.
#[derive(Clone, Copy, Debug, PartialEq, Eq, Structural)]
pub enum LeetcodeSupportedLang {
    Go,
    Java,
    /// Only the Python 3 flavour is offered.
    Python3,
    JavaScript,
    TypeScript,
    Cpp,
    C,
    Swift,
    Kotlin,
    Dart,
    Ruby,
    Scala,
    Rust,
    Racket,
    Erlang,
    Elixir,
}

/// The language a file-extension token stands for, if any.
pub open spec fn lang_of_ext(t: Seq<char>) -> Option<LeetcodeSupportedLang> {
    if t == "cpp"@ {
        Some(LeetcodeSupportedLang::Cpp)
    } else if t == "java"@ {
        Some(LeetcodeSupportedLang::Java)
    } else if t == "py"@ {
        Some(LeetcodeSupportedLang::Python3)
    } else if t == "c"@ {
        Some(LeetcodeSupportedLang::C)
    } else if t == "js"@ {
        Some(LeetcodeSupportedLang::JavaScript)
    } else if t == "ts"@ {
        Some(LeetcodeSupportedLang::TypeScript)
    } else if t == "swift"@ {
        Some(LeetcodeSupportedLang::Swift)
    } else if t == "kt"@ {
        Some(LeetcodeSupportedLang::Kotlin)
    } else if t == "dart"@ {
        Some(LeetcodeSupportedLang::Dart)
    } else if t == "go"@ {
        Some(LeetcodeSupportedLang::Go)
    } else if t == "rb"@ {
        Some(LeetcodeSupportedLang::Ruby)
    } else if t == "scala"@ {
        Some(LeetcodeSupportedLang::Scala)
    } else if t == "rs"@ {
        Some(LeetcodeSupportedLang::Rust)
    } else if t == "rkt"@ {
        Some(LeetcodeSupportedLang::Racket)
    } else if t == "erl"@ {
        Some(LeetcodeSupportedLang::Erlang)
    } else if t == "ex"@ {
        Some(LeetcodeSupportedLang::Elixir)
    } else if t == "exs"@ {
        Some(LeetcodeSupportedLang::Elixir)
    } else {
        None
    }
}

/// The slug the question service uses for a language.
pub open spec fn slug_of(l: LeetcodeSupportedLang) -> Seq<char> {
    match l {
        LeetcodeSupportedLang::Go => "golang"@,
        LeetcodeSupportedLang::Java => "java"@,
        LeetcodeSupportedLang::Python3 => "python3"@,
        LeetcodeSupportedLang::JavaScript => "javascript"@,
        LeetcodeSupportedLang::TypeScript => "typescript"@,
        LeetcodeSupportedLang::Cpp => "cpp"@,
        LeetcodeSupportedLang::C => "c"@,
        LeetcodeSupportedLang::Swift => "swift"@,
        LeetcodeSupportedLang::Kotlin => "kotlin"@,
        LeetcodeSupportedLang::Dart => "dart"@,
        LeetcodeSupportedLang::Ruby => "ruby"@,
        LeetcodeSupportedLang::Scala => "scala"@,
        LeetcodeSupportedLang::Rust => "rust"@,
        LeetcodeSupportedLang::Racket => "racket"@,
        LeetcodeSupportedLang::Erlang => "erlang"@,
        LeetcodeSupportedLang::Elixir => "elixir"@,
    }
}

impl LeetcodeSupportedLang {
    /// Looks up a file-extension token, taken exactly as given.
    pub fn try_from(value: &str) -> (r: Result<Self, LangError>)
        ensures
            lang_of_ext(value@) is Some ==> r == Ok::<Self, LangError>(lang_of_ext(value@)->0),
            lang_of_ext(value@) is None ==> (r matches Err(LangError::UnsupportedLanguage(t))
                && t@ == value@),
    {
        if str_equal(value, "cpp") {
            return Ok(LeetcodeSupportedLang::Cpp);
        }
        if str_equal(value, "java") {
            return Ok(LeetcodeSupportedLang::Java);
        }
        if str_equal(value, "py") {
            return Ok(LeetcodeSupportedLang::Python3);
        }
        if str_equal(value, "c") {
            return Ok(LeetcodeSupportedLang::C);
        }
        if str_equal(value, "js") {
            return Ok(LeetcodeSupportedLang::JavaScript);
        }
        if str_equal(value, "ts") {
            return Ok(LeetcodeSupportedLang::TypeScript);
        }
        if str_equal(value, "swift") {
            return Ok(LeetcodeSupportedLang::Swift);
        }
        if str_equal(value, "kt") {
            return Ok(LeetcodeSupportedLang::Kotlin);
        }
        if str_equal(value, "dart") {
            return Ok(LeetcodeSupportedLang::Dart);
        }
        if str_equal(value, "go") {
            return Ok(LeetcodeSupportedLang::Go);
        }
        if str_equal(value, "rb") {
            return Ok(LeetcodeSupportedLang::Ruby);
        }
        if str_equal(value, "scala") {
            return Ok(LeetcodeSupportedLang::Scala);
        }
        if str_equal(value, "rs") {
            return Ok(LeetcodeSupportedLang::Rust);
        }
        if str_equal(value, "rkt") {
            return Ok(LeetcodeSupportedLang::Racket);
        }
        if str_equal(value, "erl") {
            return Ok(LeetcodeSupportedLang::Erlang);
        }
        if str_equal(value, "ex") {
            return Ok(LeetcodeSupportedLang::Elixir);
        }
        if str_equal(value, "exs") {
            return Ok(LeetcodeSupportedLang::Elixir);
        }
        Err(LangError::UnsupportedLanguage(owned(value)))
    }

    /// The slug the question service tags this language's starter code with.
    pub fn leetcode_slug(&self) -> (r: &'static str)
        ensures
            r@ == slug_of(*self),
    {
        match self {
            LeetcodeSupportedLang::Go => "golang",
            LeetcodeSupportedLang::Java => "java",
            LeetcodeSupportedLang::Python3 => "python3",
            LeetcodeSupportedLang::JavaScript => "javascript",
            LeetcodeSupportedLang::TypeScript => "typescript",
            LeetcodeSupportedLang::Cpp => "cpp",
            LeetcodeSupportedLang::C => "c",
            LeetcodeSupportedLang::Swift => "swift",
            LeetcodeSupportedLang::Kotlin => "kotlin",
            LeetcodeSupportedLang::Dart => "dart",
            LeetcodeSupportedLang::Ruby => "ruby",
            LeetcodeSupportedLang::Scala => "scala",
            LeetcodeSupportedLang::Rust => "rust",
            LeetcodeSupportedLang::Racket => "racket",
            LeetcodeSupportedLang::Erlang => "erlang",
            LeetcodeSupportedLang::Elixir => "elixir",
        }
    }
}


/// Why a language token was refused.
#[derive(Debug, PartialEq, Eq)]
pub enum LangError {
    /// Nothing is left once spaces and dots are stripped.
    EmptyLanguageCode,
    /// The stripped token names no supported language; it is carried as stripped.
    UnsupportedLanguage(String),
}

/// The text of the message for the unsupported-token error.
pub open spec fn unsupported_message(t: Seq<char>) -> Seq<char> {
    "Unsupported file extension: "@ + t
}

/// The message of a language error.
pub open spec fn lang_error_text(e: LangError) -> Seq<char> {
    match e {
        LangError::EmptyLanguageCode => "Language code is empty after trimming"@,
        LangError::UnsupportedLanguage(t) => unsupported_message(t@),
    }
}

impl LangError {
    /// A human-readable description of the error.
    pub fn message(&self) -> (r: String)
        ensures
            r@ == lang_error_text(*self),
    {
        match self {
            LangError::EmptyLanguageCode => owned("Language code is empty after trimming"),
            LangError::UnsupportedLanguage(t) => owned("Unsupported file extension: ").concat(
                t.as_str(),
            ),
        }
    }
}

/// Strips all leading and trailing spaces and dots from a token.
pub fn trim_token(s: &str) -> (r: String)
    ensures
        r@ == trimmed(s@),
{
    let n = s.unicode_len();
    let mut i: usize = 0;
    assert(s@.subrange(0, n as int) == s@);
    while i < n && (s.get_char(i) == ' ' || s.get_char(i) == '.')
        invariant
            n == s@.len(),
            i <= n,
            trim_start(s@) == trim_start(s@.subrange(i as int, n as int)),
        decreases n - i,
    {
        assert(s@.subrange(i as int, n as int).drop_first() == s@.subrange(i + 1, n as int));
        i = i + 1;
    }
    assert(trim_start(s@) == s@.subrange(i as int, n as int));
    let mut j: usize = n;
    while j > i && (s.get_char(j - 1) == ' ' || s.get_char(j - 1) == '.')
        invariant
            n == s@.len(),
            i <= j <= n,
            trimmed(s@) == trim_end(s@.subrange(i as int, j as int)),
        decreases j,
    {
        assert(s@.subrange(i as int, j as int).drop_last() == s@.subrange(i as int, j - 1));
        j = j - 1;
    }
    owned(s.substring_char(i, j))
}

/// Strips spaces and dots from both ends of a language token, refusing a
/// token that is left empty.
pub fn validate_lang_file_ext(parsed: String) -> (r: Result<String, LangError>)
    ensures
        trimmed(parsed@).len() == 0 ==> r matches Err(LangError::EmptyLanguageCode),
        trimmed(parsed@).len() > 0 ==> (r matches Ok(t) && t@ == trimmed(parsed@)),
{
    let lang_code = trim_token(parsed.as_str());
    if lang_code.unicode_len() == 0 {
        Err(LangError::EmptyLanguageCode)
    } else {
        Ok(lang_code)
    }
}

/// Maps a raw, possibly decorated token to its language.
pub fn normalize(token: &str) -> (r: Result<LeetcodeSupportedLang, LangError>)
    ensures
        trimmed(token@).len() == 0 ==> r matches Err(LangError::EmptyLanguageCode),
        trimmed(token@).len() > 0 && lang_of_ext(trimmed(token@)) is Some ==> r == Ok::<
            LeetcodeSupportedLang,
            LangError,
        >(lang_of_ext(trimmed(token@))->0),
        trimmed(token@).len() > 0 && lang_of_ext(trimmed(token@)) is None ==> (r matches Err(
            LangError::UnsupportedLanguage(u),
        ) && u@ == trimmed(token@)),
{
    match validate_lang_file_ext(owned(token)) {
        Ok(code) => LeetcodeSupportedLang::try_from(code.as_str()),
        Err(e) => Err(e),
    }
}

proof fn lemma_trim_start_skips(pre: Seq<char>, rest: Seq<char>)
    requires
        forall|i: int| 0 <= i < pre.len() ==> is_trim_char(#[trigger] pre[i]),
    ensures
        trim_start(pre + rest) == trim_start(rest),
    decreases pre.len(),
{
    if pre.len() > 0 {
        assert((pre + rest)[0] == pre[0]);
        assert((pre + rest).drop_first() == pre.drop_first() + rest);
        lemma_trim_start_skips(pre.drop_first(), rest);
    } else {
        assert(pre + rest == rest);
    }
}

proof fn lemma_trim_end_skips(rest: Seq<char>, post: Seq<char>)
    requires
        forall|i: int| 0 <= i < post.len() ==> is_trim_char(#[trigger] post[i]),
    ensures
        trim_end(rest + post) == trim_end(rest),
    decreases post.len(),
{
    if post.len() > 0 {
        assert((rest + post).last() == post.last());
        assert((rest + post).drop_last() == rest + post.drop_last());
        lemma_trim_end_skips(rest, post.drop_last());
    } else {
        assert(rest + post == rest);
    }
}

/// A token made only of spaces and dots trims to nothing, so normalising it
/// fails with the empty-code error.
pub proof fn lemma_all_decoration_is_empty(s: Seq<char>)
    requires
        forall|i: int| 0 <= i < s.len() ==> is_trim_char(#[trigger] s[i]),
    ensures
        trimmed(s).len() == 0,
{
    lemma_trim_start_skips(s, Seq::empty());
    assert(s + Seq::<char>::empty() == s);
}

/// Every leading and trailing space or dot is stripped, however many there
/// are: a core that neither starts nor ends with one is recovered exactly, so
/// normalising the decorated token looks up the bare core.
pub proof fn lemma_decoration_is_stripped(pre: Seq<char>, core: Seq<char>, post: Seq<char>)
    requires
        forall|i: int| 0 <= i < pre.len() ==> is_trim_char(#[trigger] pre[i]),
        forall|i: int| 0 <= i < post.len() ==> is_trim_char(#[trigger] post[i]),
        core.len() > 0,
        !is_trim_char(core[0]),
        !is_trim_char(core.last()),
    ensures
        trimmed(pre + core + post) == core,
{
    lemma_trim_start_skips(pre, core + post);
    assert(pre + core + post == pre + (core + post));
    assert((core + post)[0] == core[0]);
    lemma_trim_end_skips(core, post);
}

} // verus!
