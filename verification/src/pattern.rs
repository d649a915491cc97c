//! Name patterns: compiled regular expressions behind a verified interface.
//!
//! The regex engine itself is outside code; what it accepts and what it
//! matches are named by the two uninterpreted spec functions below, and the
//! contracts of the filter chain speak of those names.

use vstd::prelude::*;

verus! {

#[verifier::external_type_specification]
#[verifier::external_body]
pub struct ExRegex(regex::Regex);

/// Whether `regex::Regex::new` accepts `pattern`. Acceptance is a function
/// of the pattern text alone.
pub uninterp spec fn regex_valid(pattern: Seq<char>) -> bool;

/// What `regex::Regex::is_match` answers for a regex compiled from `pattern`
/// when run over `text`. The answer is a function of the two texts alone.
pub uninterp spec fn regex_match(pattern: Seq<char>, text: Seq<char>) -> bool;

/// A compiled pattern paired with the text it was compiled from. Values are
/// built only by [`CompiledPattern::compile`], so the two always agree.
pub struct CompiledPattern {
    regex: regex::Regex,
    source: String,
}

impl CompiledPattern {
    /// The pattern text this regex was compiled from.
    pub closed spec fn src(&self) -> Seq<char> {
        self.source@
    }

    /// Relies on `regex::Regex::new`: it succeeds exactly on the patterns
    /// that regex syntax accepts, deterministically in the pattern text; on
    /// failure the error's display text is handed back.
    #[verifier::external_body]
    pub(crate) fn compile(pattern: &String) -> (r: Result<CompiledPattern, String>)
        ensures
            r is Ok <==> regex_valid(pattern@),
            r matches Ok(cp) ==> cp.src() == pattern@,
    {
        match regex::Regex::new(pattern) {
            Ok(regex) => Ok(CompiledPattern { regex, source: pattern.clone() }),
            Err(e) => Err(format!("{}", e)),
        }
    }

    /// Relies on `regex::Regex::is_match`: true iff the regex matches
    /// anywhere in `text`, a function of pattern and haystack alone.
    #[verifier::external_body]
    pub(crate) fn is_match(&self, text: &String) -> (r: bool)
        ensures
            r == regex_match(self.src(), text@),
    {
        self.regex.is_match(text)
    }
}

} // verus!
