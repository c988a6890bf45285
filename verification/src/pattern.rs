//! Declarative token definitions and their matching semantics.
//!
//! A token kind is declared from one of two recognized strategies — an
//! exact literal or a regular expression with a designated capture
//! group — plus the distinguished end-of-input rule.  [`rule_match`]
//! gives the meaning of a rule as a mathematical function from the
//! source bytes and a byte offset to an optional match extent; the
//! executable matchers are proved against it.

use vstd::prelude::*;
use vstd::slice::slice_index_get;
use vstd::string::StringExecFns;
use vstd::string::StringSliceAdditionalSpecFns;
use vstd::utf8::encode_utf8;
use vstd::utf8::is_char_boundary;

use crate::engine::RegexHandle;
use crate::engine::regex_find;
use crate::engine::regex_groups;
use crate::engine::regex_ok;
use crate::location::Location;
use crate::location::LocationRange;

verus! {

/// A declarative token definition: how a kind recognizes itself.
pub enum TokenPattern {
    /// Match succeeds iff the source at the probed location begins with
    /// exactly this literal; the span covers exactly the literal.
    Exact { literal: String },
    /// Match succeeds iff the pattern, anchored to start exactly at the
    /// probed location, matches; the span covers the extent of capture
    /// group `group` (0 is the whole match).
    Regex { pattern: String, group: usize },
    /// Match succeeds iff the probed location is at or past the end of
    /// the source, with a zero-length span.
    EndOfInput,
}

/// A failure to turn a declaration into a working kind: a programmer
/// error in the grammar definition, surfaced at definition time, before
/// any match attempt.
#[derive(Debug, Clone, Copy, PartialEq, Eq, Structural)]
pub enum PatternError {
    /// The declared regular expression does not compile.
    Malformed,
    /// The designated capture group does not exist in the pattern.
    GroupOutOfRange,
}

/// The model of a declared rule: what the matching contracts speak of.
/// For a regex rule the pattern text is the anchored form actually
/// handed to the engine.
pub enum RuleModel {
    Exact { literal: Seq<char> },
    Regex { pattern: Seq<char>, group: int },
    EndOfInput,
}

/// The pattern as the engine receives it: wrapped so that a match can
/// only start exactly at the probed location.
pub open spec fn spec_anchored(pattern: Seq<char>) -> Seq<char> {
    "\\A(?:"@ + pattern + ")"@
}

/// Builds the anchored form of a declared pattern.
pub fn anchored(pattern: &str) -> (r: String)
    ensures
        r@ == spec_anchored(pattern@),
{
    let head = String::from_str("\\A(?:");
    let mid = head.concat(pattern);
    mid.concat(")")
}

/// The model of a declaration.
pub open spec fn decl_model(d: TokenPattern) -> RuleModel {
    match d {
        TokenPattern::Exact { literal } => RuleModel::Exact { literal: literal@ },
        TokenPattern::Regex { pattern, group } => RuleModel::Regex {
            pattern: spec_anchored(pattern@),
            group: group as int,
        },
        TokenPattern::EndOfInput => RuleModel::EndOfInput,
    }
}

/// Whether a declared rule is valid: a regex rule must compile and its
/// designated group must exist.  Exact and end-of-input rules are
/// always valid.
pub open spec fn rule_ok(m: RuleModel) -> bool {
    match m {
        RuleModel::Regex { pattern, group } => regex_ok(pattern) && group < regex_groups(pattern),
        _ => true,
    }
}

/// Which definition-time error an invalid declaration reports.
pub open spec fn decl_error(m: RuleModel, e: PatternError) -> bool {
    match m {
        RuleModel::Regex { pattern, group } => (e == PatternError::Malformed && !regex_ok(pattern))
            || (e == PatternError::GroupOutOfRange && regex_ok(pattern) && group >= regex_groups(
            pattern,
        )),
        _ => false,
    }
}

/// The meaning of a rule: the match extent `[start, end)` in byte
/// offsets of `src`, or `None`, when the rule is probed at offset `at`.
pub open spec fn rule_match(m: RuleModel, src: Seq<u8>, at: int) -> Option<(int, int)> {
    match m {
        RuleModel::Exact { literal } => {
            let bytes = encode_utf8(literal);
            if at + bytes.len() <= src.len() && src.subrange(at, at + bytes.len() as int)
                == bytes {
                Some((at, at + bytes.len() as int))
            } else {
                None
            }
        },
        RuleModel::EndOfInput => if at >= src.len() {
            Some((at, at))
        } else {
            None
        },
        RuleModel::Regex { pattern, group } => {
            if 0 <= at <= src.len() && is_char_boundary(src, at) {
                match regex_find(pattern, group, src.subrange(at, src.len() as int)) {
                    Some((s, e)) => Some((at + s, at + e)),
                    None => None,
                }
            } else {
                None
            }
        },
    }
}

/// How an executable match result corresponds to a model extent.
pub open spec fn matches_model(r: Option<LocationRange>, extent: Option<(int, int)>) -> bool {
    match (r, extent) {
        (Some(rng), Some((s, e))) => rng.start.position == s && rng.end.position == e,
        (None, None) => true,
        _ => false,
    }
}

/// Matches an exact literal at `location`: succeeds iff the source
/// bytes there begin with the literal's bytes.
pub fn lex_exact(literal: &str, src: &str, location: Location) -> (r: Option<LocationRange>)
    requires
        location.position <= src.spec_bytes().len(),
    ensures
        matches_model(
            r,
            rule_match(
                RuleModel::Exact { literal: literal@ },
                src.spec_bytes(),
                location.position as int,
            ),
        ),
        r matches Some(rng) ==> rng.wf() && location.position <= rng.start.position,
{
    let lit = literal.as_bytes();
    let sb = src.as_bytes();
    let pos = location.position;
    let n = lit.len();
    let total = sb.len();
    if n > total - pos {
        return None;
    }
    let mut i: usize = 0;
    while i < n
        invariant
            i <= n,
            pos == location.position,
            n == lit@.len(),
            total == sb@.len(),
            pos + n <= total,
            lit@ == literal.spec_bytes(),
            sb@ == src.spec_bytes(),
            forall|j: int| 0 <= j < i ==> sb@[pos + j] == lit@[j],
        decreases n - i,
    {
        let a = *slice_index_get(sb, pos + i);
        let b = *slice_index_get(lit, i);
        if a != b {
            proof {
                let bytes = literal.spec_bytes();
                let sub = src.spec_bytes().subrange(pos as int, pos + n);
                assert(sub[i as int] == sb@[pos + i]);
                assert(sub != bytes);
            }
            return None;
        }
        i += 1;
    }
    proof {
        assert(src.spec_bytes().subrange(pos as int, pos + n) =~= literal.spec_bytes());
    }
    Some(LocationRange::new(pos, pos + n))
}

/// Matches a compiled, anchored pattern at `location`, yielding the
/// extent of the designated capture group.  A location that falls
/// inside an encoded character can start no token and yields `None`.
pub fn lex_regex(handle: &RegexHandle, group: usize, src: &str, location: Location) -> (r: Option<
    LocationRange,
>)
    requires
        location.position <= src.spec_bytes().len(),
    ensures
        matches_model(
            r,
            rule_match(
                RuleModel::Regex { pattern: handle.spec_pattern(), group: group as int },
                src.spec_bytes(),
                location.position as int,
            ),
        ),
        r matches Some(rng) ==> rng.wf() && location.position <= rng.start.position,
{
    let pos = location.position;
    let total = src.as_bytes().len();
    if !src.is_char_boundary(pos) {
        return None;
    }
    match handle.captures(group, src, pos) {
        Some(extent) => {
            proof {
                assert(pos + extent.1 <= total);
            }
            Some(LocationRange::new(pos + extent.0, pos + extent.1))
        },
        None => None,
    }
}

} // verus!

