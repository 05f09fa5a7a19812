use vstd::prelude::*;
use regex::Regex;

verus! {

#[verifier::external_type_specification]
#[verifier::external_body]
pub struct ExRegex(Regex);

#[verifier::external_type_specification]
#[verifier::external_body]
pub struct ExRegexError(regex::Error);

/// Whether `Regex::new` accepts a pattern (it is well formed and its
/// compiled form stays within the default size limit).
pub uninterp spec fn regex_is_valid(pattern: Seq<char>) -> bool;

/// What `Regex::replace_all` returns for a regex compiled from `pattern`,
/// a haystack and a replacement template (with `$1` standing for group 1).
pub uninterp spec fn regex_replace_all(pattern: Seq<char>, haystack: Seq<char>, replacement: Seq<char>) -> Seq<char>;

/// `regex::Regex::new`: compiles `pattern`; whether it succeeds depends on
/// the pattern alone, which `regex_is_valid` names. Nothing is stated of the
/// compiled value, which is opaque here.
#[verifier::external_body]
fn compile_regex(pattern: &str) -> (r: Result<Regex, regex::Error>)
    ensures
        r is Ok <==> regex_is_valid(pattern@),
{
    Regex::new(pattern)
}

/// A compiled regular expression together with the pattern it was compiled
/// from. The fields are private and `new` is the only constructor, so
/// `source` is always the text that `regex` was compiled from.
pub struct CompiledPattern {
    regex: Regex,
    source: String,
}

/// `regex::Regex::replace_all`: replaces every non-overlapping match in
/// `haystack` by `replacement`, expanding `$1`. The result is named by
/// `regex_replace_all` over the pattern the regex was compiled from.
#[verifier::external_body]
fn replace_all_matches(p: &CompiledPattern, haystack: &str, replacement: &str) -> (r: String)
    ensures
        r@ == regex_replace_all(p.source@, haystack@, replacement@),
{
    p.regex.replace_all(haystack, replacement).into_owned()
}

impl CompiledPattern {
    /// The pattern this regex was compiled from.
    pub closed spec fn pattern(&self) -> Seq<char> {
        self.source@
    }

    /// Compiles `pattern`.
    pub fn new(pattern: &str) -> (r: Result<CompiledPattern, regex::Error>)
        ensures
            r is Ok <==> regex_is_valid(pattern@),
            r matches Ok(p) ==> p.pattern() == pattern@,
    {
        match compile_regex(pattern) {
            Ok(regex) => Ok(CompiledPattern { regex, source: String::from_str(pattern) }),
            Err(e) => Err(e),
        }
    }

    /// Replaces every match of the pattern in `haystack` by `replacement`.
    pub fn replace_all(&self, haystack: &str, replacement: &str) -> (r: String)
        ensures
            r@ == regex_replace_all(self.pattern(), haystack@, replacement@),
    {
        replace_all_matches(self, haystack, replacement)
    }
}

/// `[Kanji](Reading)`: a Markdown ruby annotation; group 1 is the base text.
pub const MARKDOWN_RUBY: &'static str = r"\[([^]]+)\]\([^)]+\)";

/// `[Kanji]（Reading）`: a ruby annotation in full-width parentheses.
pub const JAPANESE_RUBY: &'static str = r"\[([^]]+)\]（[^）]+）";

/// The punctuation brackets 「 」 （ ） on their own.
pub const RUBY_PUNCTUATION: &'static str = r"[「」（）]";

/// Keeps the base text of a ruby annotation.
pub const KEEP_BASE: &'static str = "$1";

/// Drops what matched.
pub const DROP: &'static str = "";

/// Text with its furigana stripped: Markdown ruby annotations first, then
/// ruby annotations in full-width parentheses, both replaced by their base
/// text; then the brackets 「 」 （ ） removed.
pub open spec fn strip_furigana_spec(text: Seq<char>) -> Seq<char> {
    regex_replace_all(
        RUBY_PUNCTUATION@,
        regex_replace_all(
            JAPANESE_RUBY@,
            regex_replace_all(MARKDOWN_RUBY@, text, KEEP_BASE@),
            KEEP_BASE@,
        ),
        DROP@,
    )
}

/// Whether the three patterns that strip furigana all compile.
pub open spec fn ruby_patterns_valid() -> bool {
    &&& regex_is_valid(MARKDOWN_RUBY@)
    &&& regex_is_valid(JAPANESE_RUBY@)
    &&& regex_is_valid(RUBY_PUNCTUATION@)
}

/// The three compiled patterns that strip furigana.
pub struct FuriganaStripper {
    markdown: CompiledPattern,
    japanese: CompiledPattern,
    punctuation: CompiledPattern,
}

impl FuriganaStripper {
    #[verifier::type_invariant]
    spec fn holds_ruby_patterns(self) -> bool {
        &&& self.markdown.pattern() == MARKDOWN_RUBY@
        &&& self.japanese.pattern() == JAPANESE_RUBY@
        &&& self.punctuation.pattern() == RUBY_PUNCTUATION@
    }

    /// Compiles the three patterns; fails when one of them does not compile.
    pub fn new() -> (r: Result<FuriganaStripper, regex::Error>)
        ensures
            r is Ok <==> ruby_patterns_valid(),
    {
        let markdown = match CompiledPattern::new(MARKDOWN_RUBY) {
            Ok(p) => p,
            Err(e) => return Err(e),
        };
        let japanese = match CompiledPattern::new(JAPANESE_RUBY) {
            Ok(p) => p,
            Err(e) => return Err(e),
        };
        let punctuation = match CompiledPattern::new(RUBY_PUNCTUATION) {
            Ok(p) => p,
            Err(e) => return Err(e),
        };
        Ok(FuriganaStripper { markdown, japanese, punctuation })
    }
}

/// Strips furigana annotations and the brackets 「 」 （ ） from `text`.
pub fn strip_markdown_furigana(patterns: &FuriganaStripper, text: &str) -> (r: String)
    ensures
        r@ == strip_furigana_spec(text@),
{
    proof { use_type_invariant(patterns); }
    let temp1 = patterns.markdown.replace_all(text, KEEP_BASE);
    let temp2 = patterns.japanese.replace_all(temp1.as_str(), KEEP_BASE);
    patterns.punctuation.replace_all(temp2.as_str(), DROP)
}

} // verus!
