//! The regex-engine boundary.
//!
//! The toolkit treats regular-expression matching as a black-box
//! primitive: given a pattern and a start offset, the engine reports a
//! match extent or failure.  This module wraps the `regex` crate behind a
//! [`RegexHandle`], a compiled pattern paired with the pattern text it
//! was compiled from; everything the rest of the library knows about the
//! engine is stated here over uninterpreted names of that text.

use vstd::prelude::*;
use vstd::string::StringSliceAdditionalSpecFns;
use vstd::utf8::is_char_boundary;

verus! {

/// Whether the engine accepts `pattern` as a well-formed pattern.
pub uninterp spec fn regex_ok(pattern: Seq<char>) -> bool;

/// The number of groups of the compiled `pattern`, the implicit
/// whole-match group included.
pub uninterp spec fn regex_groups(pattern: Seq<char>) -> nat;

/// The extent `[start, end)` of group `group` when the compiled
/// `pattern` is run against the byte text `tail`, both endpoints
/// relative to the start of `tail`; `None` when the pattern or the
/// group does not match.
pub uninterp spec fn regex_find(pattern: Seq<char>, group: int, tail: Seq<u8>) -> Option<
    (int, int),
>;

#[verifier::external_type_specification]
#[verifier::external_body]
pub struct ExRegex(regex::Regex);

/// A compiled pattern, together with the pattern text it was compiled
/// from.  The two fields always correspond: a handle is only ever built
/// by [`RegexHandle::new`], which compiles exactly the text it stores.
pub struct RegexHandle {
    pattern: String,
    regex: regex::Regex,
}

impl RegexHandle {
    /// The pattern text this handle was compiled from.
    pub closed spec fn spec_pattern(&self) -> Seq<char> {
        self.pattern@
    }

    /// Relies on `regex::Regex::new`: compilation succeeds or fails as a
    /// function of the pattern text alone.
    #[verifier::external_body]
    pub fn new(pattern: &str) -> (r: Option<RegexHandle>)
        ensures
            r is Some <==> regex_ok(pattern@),
            r matches Some(h) ==> h.spec_pattern() == pattern@,
    {
        match regex::Regex::new(pattern) {
            Ok(regex) => Some(RegexHandle { pattern: pattern.to_owned(), regex }),
            Err(_) => None,
        }
    }

    /// Relies on `regex::Regex::captures_len`: the group count is a
    /// function of the pattern text alone, and counts the implicit
    /// whole-match group, so it is at least one.
    #[verifier::external_body]
    pub fn group_count(&self) -> (r: usize)
        ensures
            r == regex_groups(self.spec_pattern()),
            r >= 1,
    {
        self.regex.captures_len()
    }

    /// Relies on `regex::Regex::captures` and `regex::Captures::get`:
    /// the extent of `group` in the leftmost match against the tail of
    /// `src` that begins at byte `at` is a function of the pattern text,
    /// the group, and that tail alone, and lies within the tail.
    #[verifier::external_body]
    pub fn captures(&self, group: usize, src: &str, at: usize) -> (r: Option<(usize, usize)>)
        requires
            at <= src.spec_bytes().len(),
            is_char_boundary(src.spec_bytes(), at as int),
        ensures
            r is Some <==> regex_find(
                self.spec_pattern(),
                group as int,
                src.spec_bytes().subrange(at as int, src.spec_bytes().len() as int),
            ) is Some,
            r matches Some((s, e)) ==> regex_find(
                self.spec_pattern(),
                group as int,
                src.spec_bytes().subrange(at as int, src.spec_bytes().len() as int),
            ) == Some((s as int, e as int)) && s <= e && at + e <= src.spec_bytes().len(),
    {
        let caps = self.regex.captures(&src[at..])?;
        let found = caps.get(group)?;
        Some((found.start(), found.end()))
    }
}

impl Clone for RegexHandle {
    /// Relies on `regex::Regex::clone`: the clone is compiled from the
    /// same pattern text and matches exactly as the original does.
    #[verifier::external_body]
    fn clone(&self) -> (r: Self)
        ensures
            r.spec_pattern() == self.spec_pattern(),
    {
        RegexHandle { pattern: self.pattern.clone(), regex: self.regex.clone() }
    }
}

} // verus!
