//! A regex together with the exact text it was compiled from.

use vstd::prelude::*;

use crate::pattern::PatternError;

verus! {

#[verifier::external_type_specification]
#[verifier::external_body]
pub struct ExRegex(regex::Regex);

/// Whether `regex::Regex::new` accepts `source` (syntax and the default
/// compiled-size limit): a property of the pattern text alone.
pub uninterp spec fn pattern_compiles(source: Seq<char>) -> bool;

/// Whether the regex compiled from `source` finds a match anywhere in
/// `text`, as `regex::Regex::is_match` reports it.
pub uninterp spec fn pattern_matches(source: Seq<char>, text: Seq<char>) -> bool;

/// A compiled regex and its source text. Both fields are filled together, by
/// [`CompiledRegex::new`] or by cloning, and never change afterwards.
pub struct CompiledRegex {
    regex: regex::Regex,
    source: String,
}

impl CompiledRegex {
    /// The text the regex was compiled from.
    pub closed spec fn source(&self) -> Seq<char> {
        self.source@
    }

    /// `regex::Regex::new`, keeping the source text beside the regex.
    /// Trusted: the result is `Ok` exactly when the source compiles, and then
    /// holds that source; which error variant comes back is not stated.
    #[verifier::external_body]
    pub(crate) fn new(source: &str) -> (res: Result<CompiledRegex, PatternError>)
        ensures
            res is Ok <==> pattern_compiles(source@),
            res matches Ok(c) ==> c.source() == source@,
    {
        match regex::Regex::new(source) {
            Ok(regex) => Ok(CompiledRegex { regex, source: source.to_owned() }),
            Err(regex::Error::Syntax(msg)) => Err(PatternError::Syntax(msg)),
            Err(regex::Error::CompiledTooBig(limit)) => Err(PatternError::CompiledTooBig(limit)),
            Err(_) => Err(PatternError::Other),
        }
    }

    /// `regex::Regex::is_match`. Trusted: the answer is the one the regex
    /// compiled from the held source gives on `text`.
    #[verifier::external_body]
    pub(crate) fn is_match(&self, text: &str) -> (found: bool)
        ensures
            found == pattern_matches(self.source(), text@),
    {
        self.regex.is_match(text)
    }
}

impl Clone for CompiledRegex {
    /// `regex::Regex::clone` beside a copy of the source. Trusted: the copy
    /// holds the same source (a cloned regex is the same regex).
    #[verifier::external_body]
    fn clone(&self) -> (copy: Self)
        ensures
            copy.source() == self.source(),
    {
        CompiledRegex { regex: self.regex.clone(), source: self.source.clone() }
    }
}

} // verus!
