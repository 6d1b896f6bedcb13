//! Regular-expression patterns as they appear in rules: the source text
//! together with the regex compiled from it. Rules match without regard to
//! case, so a pattern is compiled with the `(?i)` flag in front of it.

use vstd::prelude::*;

use crate::compiled::{pattern_compiles, pattern_matches, CompiledRegex};

verus! {

/// Why a pattern was refused.
#[derive(Debug)]
pub enum PatternError {
    /// The pattern is not valid regex syntax; the message explains why.
    Syntax(String),
    /// The pattern compiles past the size limit, which is given.
    CompiledTooBig(usize),
    /// Any other refusal by the regex engine.
    Other,
}

/// The regex source a rule pattern is compiled from: the pattern behind the
/// case-insensitivity flag, which holds for the whole pattern.
pub open spec fn case_insensitive(source: Seq<char>) -> Seq<char> {
    "(?i)"@ + source
}

/// A compiled pattern: its source text and the regex compiled from the
/// case-insensitive form of that text.
pub struct Pattern {
    source: String,
    regex: CompiledRegex,
}

impl View for Pattern {
    type V = Seq<char>;

    /// A pattern is seen as its source text.
    closed spec fn view(&self) -> Seq<char> {
        self.source@
    }
}

impl Pattern {
    /// The regex held was compiled from the case-insensitive form of the
    /// source held.
    #[verifier::type_invariant]
    spec fn compiled_from_source(self) -> bool {
        self.regex.source() == case_insensitive(self.source@)
    }
}

impl Pattern {
    /// The pattern is found in `text`, ignoring case.
    pub open spec fn finds(self, text: Seq<char>) -> bool {
        pattern_matches(case_insensitive(self@), text)
    }

    /// Compiles a pattern from its source text, to match without regard to
    /// case.
    pub fn new(source: &str) -> (res: Result<Pattern, PatternError>)
        ensures
            res is Ok <==> pattern_compiles(case_insensitive(source@)),
            res is Ok <==> pattern_compiles("(?i)"@ + source@),
            res matches Ok(p) ==> p@ == source@,
    {
        let mut full = "(?i)".to_owned();
        full.append(source);
        match CompiledRegex::new(full.as_str()) {
            Ok(regex) => Ok(Pattern { source: source.to_owned(), regex }),
            Err(e) => Err(e),
        }
    }

    /// The source text the pattern was compiled from.
    pub fn as_str(&self) -> (s: &str)
        ensures
            s@ == self@,
    {
        self.source.as_str()
    }

    /// Whether the pattern is found in `text`, ignoring case.
    pub(crate) fn is_match(&self, text: &str) -> (found: bool)
        ensures
            found == self.finds(text@),
            found == pattern_matches("(?i)"@ + self@, text@),
    {
        proof {
            use_type_invariant(self);
        }
        self.regex.is_match(text)
    }
}

/// A pattern is matched as the regex made of the `(?i)` flag followed by
/// its source text, and nothing else.
pub proof fn lemma_pattern_is_flagged_source(pattern: Pattern, text: Seq<char>)
    ensures
        pattern.finds(text) == pattern_matches("(?i)"@ + pattern@, text),
        case_insensitive(pattern@) == "(?i)"@ + pattern@,
{
}

impl Clone for Pattern {
    /// A copy of the pattern, with the same source.
    fn clone(&self) -> (copy: Self)
        ensures
            copy@ == self@,
    {
        proof {
            use_type_invariant(self);
        }
        Pattern { source: self.source.clone(), regex: self.regex.clone() }
    }
}

} // verus!
