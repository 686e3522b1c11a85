//! Regular expressions, by the `regex` crate.
use vstd::prelude::*;

verus! {

#[verifier::external_type_specification]
#[verifier::external_body]
pub struct ExRegex(regex::Regex);

/// What is wrong with a pattern that `regex::Regex::new` does not accept, in the words of its
/// error; `None` where it accepts the pattern.
pub uninterp spec fn regex_error(pattern: Seq<char>) -> Option<Seq<char>>;

/// What `regex::Regex::is_match` says of a text, for the regex that `regex::Regex::new` makes
/// of a pattern.
pub uninterp spec fn regex_is_match(pattern: Seq<char>, haystack: Seq<char>) -> bool;

/// A compiled regular expression, with the pattern that it was compiled from. Only `compile`
/// makes one, so the two always belong together.
#[derive(Debug)]
pub struct Pattern {
    source: String,
    regex: regex::Regex,
}

impl View for Pattern {
    type V = Seq<char>;

    closed spec fn view(&self) -> Seq<char> {
        self.source@
    }
}

impl Pattern {
    /// `regex::Regex::new` compiles a pattern, or says what is wrong with it. Whether it accepts
    /// the pattern, and the text of its error, depend on the pattern alone.
    #[verifier::external_body]
    pub(crate) fn compile(pattern: &str) -> (result: Result<Pattern, String>)
        ensures
            match result {
                Ok(compiled) => compiled@ == pattern@ && regex_error(pattern@) is None,
                Err(why) => regex_error(pattern@) == Some(why@),
            },
    {
        match regex::Regex::new(pattern) {
            Ok(regex) => Ok(Pattern { source: pattern.to_owned(), regex }),
            Err(error) => Err(error.to_string()),
        }
    }

    /// `regex::Regex::is_match` tells whether the regex matches anywhere in a text. The answer
    /// depends on the pattern and the text alone.
    #[verifier::external_body]
    pub(crate) fn is_match(&self, haystack: &str) -> (yes: bool)
        ensures
            yes == regex_is_match(self@, haystack@),
    {
        self.regex.is_match(haystack)
    }

    /// The pattern that was compiled.
    pub fn as_str(&self) -> (source: &str)
        ensures
            source@ == self@,
    {
        self.source.as_str()
    }
}

} // verus!
