//! A compiled pattern, and what the regex engine says of it.
use vstd::prelude::*;

verus! {

#[verifier::external_type_specification]
#[verifier::external_body]
pub struct ExRegex(regex::Regex);

#[verifier::external_type_specification]
#[verifier::external_body]
pub struct ExRegexError(regex::Error);

/// Whether the regex engine compiles `pattern` with its default settings.
pub uninterp spec fn regex_compiles(pattern: Seq<char>) -> bool;

/// Whether the regex compiled from `pattern` matches anywhere in `text`.
pub uninterp spec fn regex_finds(pattern: Seq<char>, text: Seq<char>) -> bool;

/// The capture groups of the leftmost match of `pattern` in `text`, group
/// zero first; a group that took no part in the match is `None`.
pub uninterp spec fn regex_groups(pattern: Seq<char>, text: Seq<char>) -> Option<Seq<Option<Seq<char>>>>;

/// The view of a list of capture groups.
pub open spec fn groups_view(g: Seq<Option<String>>) -> Seq<Option<Seq<char>>> {
    g.map_values(|o: Option<String>| match o {
        Some(s) => Some(s@),
        None => None,
    })
}

/// Relies on `regex::Regex::new`: `Ok` exactly when the pattern compiles.
#[verifier::external_body]
fn compile_regex(source: &str) -> (r: Result<regex::Regex, regex::Error>)
    ensures
        r is Ok <==> regex_compiles(source@),
{
    regex::Regex::new(source)
}

/// Relies on the `Debug` text of `regex::Error`, which describes why a
/// pattern did not compile.
#[verifier::external_body]
fn error_text(e: &regex::Error) -> (r: String) {
    format!("{:?}", e)
}

/// Why a pattern did not compile.
#[derive(Debug, PartialEq, Eq)]
pub struct CompileError {
    /// The engine's own description of the fault.
    pub detail: String,
}

/// A pattern that the regex engine has compiled, with its source text.
pub struct Pattern {
    source: String,
    re: regex::Regex,
}

impl Pattern {
    /// The source text that this pattern was compiled from.
    pub closed spec fn source_view(&self) -> Seq<char> {
        self.source@
    }

    /// Compiles `source`; fails exactly when the regex engine refuses it.
    pub fn new(source: &str) -> (r: Result<Pattern, CompileError>)
        ensures
            r is Ok <==> regex_compiles(source@),
            r is Ok ==> r->Ok_0.source_view() == source@,
    {
        match compile_regex(source) {
            Ok(re) => Ok(Pattern { source: String::from_str(source), re }),
            Err(e) => Err(CompileError { detail: error_text(&e) }),
        }
    }

    /// The source text that this pattern was compiled from.
    pub fn as_str(&self) -> (r: &str)
        ensures
            r@ == self.source_view(),
    {
        self.source.as_str()
    }

    /// Whether the pattern matches anywhere in `text`.
    pub fn is_match(&self, text: &str) -> (r: bool)
        ensures
            r == regex_finds(self.source_view(), text@),
    {
        regex_is_match(self, text)
    }

    /// The capture groups of the leftmost match in `text`, or `None` where
    /// the pattern does not match.
    pub fn captures(&self, text: &str) -> (r: Option<Vec<Option<String>>>)
        ensures
            r is Some <==> regex_finds(self.source_view(), text@),
            match r {
                Some(g) => regex_groups(self.source_view(), text@) == Some(groups_view(g@))
                    && g@.len() >= 1 && g@[0] is Some,
                None => regex_groups(self.source_view(), text@) is None,
            },
    {
        regex_captures(self, text)
    }
}

/// Relies on `regex::Regex::is_match`: whether the pattern matches anywhere.
/// A `Pattern` only ever holds the regex compiled from its own source.
#[verifier::external_body]
fn regex_is_match(p: &Pattern, text: &str) -> (r: bool)
    ensures
        r == regex_finds(p.source_view(), text@),
{
    p.re.is_match(text)
}

/// Relies on `regex::Regex::captures`: `None` exactly when there is no match,
/// and otherwise every group in order, group zero (the whole match) always
/// present. A `Pattern` only ever holds the regex compiled from its own source.
#[verifier::external_body]
fn regex_captures(p: &Pattern, text: &str) -> (r: Option<Vec<Option<String>>>)
    ensures
        r is Some <==> regex_finds(p.source_view(), text@),
        match r {
            Some(g) => regex_groups(p.source_view(), text@) == Some(groups_view(g@))
                && g@.len() >= 1 && g@[0] is Some,
            None => regex_groups(p.source_view(), text@) is None,
        },
{
    p.re.captures(text).map(|c| c.iter().map(|m| m.map(|m| m.as_str().to_string())).collect())
}

} // verus!
