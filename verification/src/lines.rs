use vstd::prelude::*;
use crate::globs::texts;

verus! {

/// The pieces into which the regular expression `pattern` splits `text`:
/// what lies between its successive matches, in order. `None` where
/// `pattern` is not a regular expression that the engine accepts.
pub uninterp spec fn regex_split(pattern: Seq<char>, text: Seq<char>) -> Option<Seq<Seq<char>>>;

/// The pattern that ends a line: a line feed, alone or after a carriage
/// return.
pub open spec fn line_break_pattern() -> Seq<char> {
    r"\n|\r\n"@
}

/// Trusted: `regex::Regex::new` followed by `Regex::split`, each piece
/// copied into a text of its own. The contract only gives the result its
/// name: `None` where the pattern does not compile.
#[verifier::external_body]
fn split_by_pattern(pattern: &str, text: &str) -> (r: Option<Vec<String>>)
    ensures
        match r {
            Some(parts) => regex_split(pattern@, text@) == Some(texts(parts@)),
            None => regex_split(pattern@, text@) is None,
        },
{
    match regex::Regex::new(pattern) {
        Ok(re) => Some(re.split(text).map(|s| s.to_string()).collect()),
        Err(_) => None,
    }
}

/// The lines of `contents`, split at each line break. `None` only where
/// the regular-expression engine refuses the line-break pattern.
pub fn split_lines(contents: &str) -> (r: Option<Vec<String>>)
    ensures
        match r {
            Some(lines) => regex_split(line_break_pattern(), contents@) == Some(texts(lines@)),
            None => regex_split(line_break_pattern(), contents@) is None,
        },
{
    split_by_pattern(r"\n|\r\n", contents)
}

} // verus!
