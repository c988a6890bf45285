//! Token kinds, their erased identity handles, and matched tokens.
//!
//! A [`TokenType`] is the runtime descriptor of one token kind: a
//! process-unique identity token, the kind's names, and its matching
//! rule.  Handles are compared, ordered, and identified purely by the
//! identity token, so independently built handles for the same kind
//! compare equal.  A successful match pairs a handle with the span it
//! matched in an [`AnyToken`].

use core::cmp::Ordering;

use vstd::prelude::*;
use vstd::slice::slice_subrange;
use vstd::string::StringExecFns;
use vstd::string::StringSliceAdditionalSpecFns;
use vstd::std_specs::cmp::PartialEqSpec;
use vstd::std_specs::cmp::PartialOrdSpec;

use crate::location::Location;
use crate::location::LocationRange;
use crate::pattern::PatternError;
use crate::pattern::RuleModel;
use crate::pattern::TokenPattern;
use crate::pattern::anchored;
use crate::pattern::decl_error;
use crate::pattern::decl_model;
use crate::pattern::lex_exact;
use crate::pattern::lex_regex;
use crate::pattern::matches_model;
use crate::pattern::rule_match;
use crate::pattern::rule_ok;
use crate::engine::RegexHandle;

verus! {

/// The text that a byte sequence decodes to when read as character
/// data, ill-formed sequences replaced.
pub uninterp spec fn lossy_text(bytes: Seq<u8>) -> Seq<char>;

/// Whether every byte of the sequence is plain seven-bit text.
pub open spec fn ascii_only(bytes: Seq<u8>) -> bool {
    forall|i: int| 0 <= i < bytes.len() ==> bytes[i] < 128
}

/// Seven-bit bytes read directly as characters.
pub open spec fn ascii_text(bytes: Seq<u8>) -> Seq<char> {
    Seq::new(bytes.len(), |i: int| bytes[i] as char)
}

/// Relies on `String::from_utf8_lossy`: the decoded text is a function
/// of the bytes alone, and bytes below 128 decode to themselves.
#[verifier::external_body]
fn utf8_lossy(bytes: &[u8]) -> (r: String)
    ensures
        r@ == lossy_text(bytes@),
        ascii_only(bytes@) ==> r@ == ascii_text(bytes@),
{
    String::from_utf8_lossy(bytes).into_owned()
}

/// The text a span covers, decoded from the source bytes.
fn matched_text(src: &str, range: LocationRange) -> (r: String)
    requires
        range.wf(),
        range.end.position <= src.spec_bytes().len(),
    ensures
        r@ == lossy_text(
            src.spec_bytes().subrange(range.start.position as int, range.end.position as int),
        ),
        ascii_only(
            src.spec_bytes().subrange(range.start.position as int, range.end.position as int),
        ) ==> r@ == ascii_text(
            src.spec_bytes().subrange(range.start.position as int, range.end.position as int),
        ),
{
    let bytes = src.as_bytes();
    let part = slice_subrange(bytes, range.start.position, range.end.position);
    utf8_lossy(part)
}

/// The default textual shapes: `Name("text")` for a debug rendering,
/// `<Name "text">` for a regex-declared kind.
pub open spec fn spec_debug_render(regex_form: bool, name: Seq<char>, text: Seq<char>) -> Seq<
    char,
> {
    if regex_form {
        "<"@ + name + " \""@ + text + "\">"@
    } else {
        name + "(\""@ + text + "\")"@
    }
}

/// The debug rendering of a matched span: the kind's name tagged with
/// the decoded matched text.
pub open spec fn spec_print_debug(m: RuleModel, name: Seq<char>, bytes: Seq<u8>) -> Seq<char> {
    spec_debug_render(m is Regex, name, lossy_text(bytes))
}

/// The display rendering of a matched span: an exact-literal kind shows
/// the literal it expects, as declared; every other kind shows its
/// debug rendering.
pub open spec fn spec_print_display(m: RuleModel, name: Seq<char>, bytes: Seq<u8>) -> Seq<char> {
    match m {
        RuleModel::Exact { literal } => literal,
        _ => spec_print_debug(m, name, bytes),
    }
}

fn debug_render(regex_form: bool, name: &str, text: &str) -> (r: String)
    ensures
        r@ == spec_debug_render(regex_form, name@, text@),
{
    if regex_form {
        let s = String::from_str("<");
        let s = s.concat(name);
        let s = s.concat(" \"");
        let s = s.concat(text);
        s.concat("\">")
    } else {
        let s = String::from_str(name);
        let s = s.concat("(\"");
        let s = s.concat(text);
        s.concat("\")")
    }
}

/// The capability set of one token kind: self-describing matching,
/// naming, and formatting.  A kind has no per-instance state; every
/// operation is a pure function of the source text and the probed
/// location, so the spec members pin each exec member down.
///
/// Implementers must give every kind its own identity token; the
/// built-in [`Eof`] kind takes 0.
pub trait TokenDef {
    /// The process-unique identity token of this kind.
    spec fn spec_id() -> u64;

    /// The kind's machine-readable name.
    spec fn spec_name() -> Seq<char>;

    /// The kind's human-facing name.
    spec fn spec_display_name() -> Seq<char>;

    /// The kind's declared matching rule, as a model value.
    spec fn spec_rule() -> RuleModel;

    /// The identity token.
    fn token_id() -> (r: u64)
        ensures
            r == Self::spec_id(),
    ;

    /// The machine-readable name.
    fn name() -> (r: String)
        ensures
            r@ == Self::spec_name(),
    ;

    /// The human-facing name.
    fn display_name() -> (r: String)
        ensures
            r@ == Self::spec_display_name(),
    ;

    /// The declaration this kind is built from.
    fn declaration() -> (r: TokenPattern)
        ensures
            decl_model(r) == Self::spec_rule(),
    ;

    /// Attempts to match this kind starting exactly at `location`.
    fn try_lex(src: &str, location: Location) -> (r: Option<LocationRange>)
        requires
            location.position <= src.spec_bytes().len(),
        ensures
            matches_model(
                r,
                rule_match(Self::spec_rule(), src.spec_bytes(), location.position as int),
            ),
    ;

    /// Renders a matched span of this kind for debugging.
    fn print_debug(src: &str, range: LocationRange) -> (r: String)
        requires
            range.wf(),
            range.end.position <= src.spec_bytes().len(),
        ensures
            r@ == spec_print_debug(
                Self::spec_rule(),
                Self::spec_name(),
                src.spec_bytes().subrange(range.start.position as int, range.end.position as int),
            ),
            ascii_only(
                src.spec_bytes().subrange(range.start.position as int, range.end.position as int),
            ) ==> r@ == spec_debug_render(
                Self::spec_rule() is Regex,
                Self::spec_name(),
                ascii_text(
                    src.spec_bytes().subrange(
                        range.start.position as int,
                        range.end.position as int,
                    ),
                ),
            ),
    {
        let text = matched_text(src, range);
        let regex_form = match Self::declaration() {
            TokenPattern::Regex { .. } => true,
            _ => false,
        };
        let name = Self::name();
        debug_render(regex_form, name.as_str(), text.as_str())
    }

    /// Renders a matched span of this kind for display.
    fn print_display(src: &str, range: LocationRange) -> (r: String)
        requires
            range.wf(),
            range.end.position <= src.spec_bytes().len(),
        ensures
            r@ == spec_print_display(
                Self::spec_rule(),
                Self::spec_name(),
                src.spec_bytes().subrange(range.start.position as int, range.end.position as int),
            ),
    {
        match Self::declaration() {
            TokenPattern::Exact { literal } => literal,
            _ => Self::print_debug(src, range),
        }
    }
}

/// A compiled matching rule, ready to probe source text.
pub enum LexRule {
    Exact { literal: String },
    Regex { handle: RegexHandle, group: usize },
    EndOfInput,
}

/// The model of a compiled rule.
pub open spec fn lex_rule_model(r: LexRule) -> RuleModel {
    match r {
        LexRule::Exact { literal } => RuleModel::Exact { literal: literal@ },
        LexRule::Regex { handle, group } => RuleModel::Regex {
            pattern: handle.spec_pattern(),
            group: group as int,
        },
        LexRule::EndOfInput => RuleModel::EndOfInput,
    }
}

impl Clone for LexRule {
    fn clone(&self) -> (r: Self)
        ensures
            lex_rule_model(r) == lex_rule_model(*self),
    {
        match self {
            LexRule::Exact { literal } => LexRule::Exact { literal: literal.clone() },
            LexRule::Regex { handle, group } => LexRule::Regex {
                handle: handle.clone(),
                group: *group,
            },
            LexRule::EndOfInput => LexRule::EndOfInput,
        }
    }
}

/// The erased identity handle of one token kind: a process-unique
/// identity token plus the kind's names and compiled matching rule.
/// Equality, ordering, and identity go by the identity token alone.
pub struct TokenType {
    id: u64,
    name: String,
    display_name: String,
    rule: LexRule,
}

/// A matched token: which kind matched, and where.  It carries no
/// ownership of the source text, only a byte range into it.
pub struct AnyToken {
    pub token_type: TokenType,
    pub range: LocationRange,
}

impl TokenType {
    /// The identity token this handle carries.
    pub closed spec fn spec_id(&self) -> u64 {
        self.id
    }

    /// The kind's machine-readable name.
    pub closed spec fn spec_name(&self) -> Seq<char> {
        self.name@
    }

    /// The kind's human-facing name.
    pub closed spec fn spec_display_name(&self) -> Seq<char> {
        self.display_name@
    }

    /// The kind's matching rule.
    pub closed spec fn spec_rule(&self) -> RuleModel {
        lex_rule_model(self.rule)
    }

    /// Builds the descriptor of a declared kind: validates the
    /// declaration, compiles its pattern once, and fixes the kind's
    /// identity token and names.  An invalid declaration is reported
    /// here, at definition time, never as a spurious failed match.
    pub fn define(id: u64, name: &str, display_name: Option<&str>, pattern: TokenPattern) -> (r:
        Result<TokenType, PatternError>)
        ensures
            r is Ok <==> rule_ok(decl_model(pattern)),
            r matches Ok(t) ==> {
                &&& t.spec_id() == id
                &&& t.spec_name() == name@
                &&& t.spec_display_name() == (match display_name {
                    Some(d) => d@,
                    None => name@,
                })
                &&& t.spec_rule() == decl_model(pattern)
            },
            r matches Err(e) ==> decl_error(decl_model(pattern), e),
    {
        let rule = match pattern {
            TokenPattern::Exact { literal } => LexRule::Exact { literal },
            TokenPattern::EndOfInput => LexRule::EndOfInput,
            TokenPattern::Regex { pattern: pat, group } => {
                let anch = anchored(pat.as_str());
                match RegexHandle::new(anch.as_str()) {
                    None => {
                        return Err(PatternError::Malformed);
                    },
                    Some(handle) => {
                        if group >= handle.group_count() {
                            return Err(PatternError::GroupOutOfRange);
                        }
                        LexRule::Regex { handle, group }
                    },
                }
            },
        };
        let display = match display_name {
            Some(d) => d.to_owned(),
            None => name.to_owned(),
        };
        Ok(TokenType { id, name: name.to_owned(), display_name: display, rule })
    }

    /// The one descriptor of the kind `T`: every call for the same kind
    /// yields handles that carry the same identity token, names, and
    /// rule, and therefore compare equal.
    pub fn of<T: TokenDef>() -> (r: Result<TokenType, PatternError>)
        ensures
            r is Ok <==> rule_ok(T::spec_rule()),
            r matches Ok(t) ==> {
                &&& t.spec_id() == T::spec_id()
                &&& t.spec_name() == T::spec_name()
                &&& t.spec_display_name() == T::spec_display_name()
                &&& t.spec_rule() == T::spec_rule()
            },
            r matches Err(e) ==> decl_error(T::spec_rule(), e),
    {
        let name = T::name();
        let display = T::display_name();
        Self::define(T::token_id(), name.as_str(), Some(display.as_str()), T::declaration())
    }

    /// The kind's machine-readable name; also its debug rendering.
    pub fn name(&self) -> (r: &str)
        ensures
            r@ == self.spec_name(),
    {
        self.name.as_str()
    }

    /// The kind's human-facing name.
    pub fn display_name(&self) -> (r: &str)
        ensures
            r@ == self.spec_display_name(),
    {
        self.display_name.as_str()
    }

    /// The identity token: handles are equal, ordered, and hashed by
    /// this value alone.
    pub fn token_id(&self) -> (r: u64)
        ensures
            r == self.spec_id(),
    {
        self.id
    }

    /// Probes this kind at `location`; on success wraps the matched
    /// span together with a copy of this handle into an [`AnyToken`].
    pub fn try_lex(&self, src: &str, location: Location) -> (r: Option<AnyToken>)
        requires
            location.position <= src.spec_bytes().len(),
        ensures
            r is Some <==> rule_match(self.spec_rule(), src.spec_bytes(), location.position as int)
                is Some,
            r matches Some(t) ==> {
                &&& t.token_type.spec_id() == self.spec_id()
                &&& t.token_type.spec_name() == self.spec_name()
                &&& t.token_type.spec_display_name() == self.spec_display_name()
                &&& t.token_type.spec_rule() == self.spec_rule()
                &&& matches_model(
                    Some(t.range),
                    rule_match(self.spec_rule(), src.spec_bytes(), location.position as int),
                )
                &&& t.range.wf()
                &&& location.position <= t.range.start.position
            },
    {
        let found = match &self.rule {
            LexRule::Exact { literal } => lex_exact(literal.as_str(), src, location),
            LexRule::Regex { handle, group } => lex_regex(handle, *group, src, location),
            LexRule::EndOfInput => {
                if src.as_bytes().len() <= location.position {
                    Some(LocationRange { start: location, end: location })
                } else {
                    None
                }
            },
        };
        match found {
            Some(range) => Some(AnyToken { token_type: self.clone(), range }),
            None => None,
        }
    }

    /// Renders a matched span of this kind for debugging: the kind's
    /// name tagged with the decoded matched text.
    pub fn print_debug(&self, src: &str, range: LocationRange) -> (r: String)
        requires
            range.wf(),
            range.end.position <= src.spec_bytes().len(),
        ensures
            r@ == spec_print_debug(
                self.spec_rule(),
                self.spec_name(),
                src.spec_bytes().subrange(range.start.position as int, range.end.position as int),
            ),
            ascii_only(
                src.spec_bytes().subrange(range.start.position as int, range.end.position as int),
            ) ==> r@ == spec_debug_render(
                self.spec_rule() is Regex,
                self.spec_name(),
                ascii_text(
                    src.spec_bytes().subrange(
                        range.start.position as int,
                        range.end.position as int,
                    ),
                ),
            ),
    {
        let text = matched_text(src, range);
        let regex_form = match &self.rule {
            LexRule::Regex { .. } => true,
            _ => false,
        };
        debug_render(regex_form, self.name.as_str(), text.as_str())
    }

    /// Renders a matched span of this kind for display: an
    /// exact-literal kind shows the literal it was declared with.
    pub fn print_display(&self, src: &str, range: LocationRange) -> (r: String)
        requires
            range.wf(),
            range.end.position <= src.spec_bytes().len(),
        ensures
            r@ == spec_print_display(
                self.spec_rule(),
                self.spec_name(),
                src.spec_bytes().subrange(range.start.position as int, range.end.position as int),
            ),
    {
        match &self.rule {
            LexRule::Exact { literal } => literal.clone(),
            _ => self.print_debug(src, range),
        }
    }
}

impl Clone for TokenType {
    /// Copying a handle preserves everything the contracts speak of.
    fn clone(&self) -> (r: Self)
        ensures
            r.spec_id() == self.spec_id(),
            r.spec_name() == self.spec_name(),
            r.spec_display_name() == self.spec_display_name(),
            r.spec_rule() == self.spec_rule(),
    {
        TokenType {
            id: self.id,
            name: self.name.clone(),
            display_name: self.display_name.clone(),
            rule: self.rule.clone(),
        }
    }
}

impl PartialEq for TokenType {
    /// Handles are equal iff their identity tokens are equal, even when
    /// built independently.
    fn eq(&self, other: &Self) -> (r: bool) {
        self.id == other.id
    }
}

impl Eq for TokenType {

}

impl vstd::std_specs::cmp::PartialEqSpecImpl for TokenType {
    open spec fn obeys_eq_spec() -> bool {
        true
    }

    open spec fn eq_spec(&self, other: &TokenType) -> bool {
        self.spec_id() == other.spec_id()
    }
}

impl PartialOrd for TokenType {
    /// The total order of handles, derived from the identity token
    /// alone; arbitrary but consistent within one process run.
    fn partial_cmp(&self, other: &Self) -> (r: Option<Ordering>) {
        if self.id < other.id {
            Some(Ordering::Less)
        } else if self.id == other.id {
            Some(Ordering::Equal)
        } else {
            Some(Ordering::Greater)
        }
    }
}

impl vstd::std_specs::cmp::PartialOrdSpecImpl for TokenType {
    open spec fn obeys_partial_cmp_spec() -> bool {
        true
    }

    open spec fn partial_cmp_spec(&self, other: &TokenType) -> Option<Ordering> {
        if self.spec_id() < other.spec_id() {
            Some(Ordering::Less)
        } else if self.spec_id() == other.spec_id() {
            Some(Ordering::Equal)
        } else {
            Some(Ordering::Greater)
        }
    }
}

impl Clone for AnyToken {
    fn clone(&self) -> (r: Self)
        ensures
            r.token_type.spec_id() == self.token_type.spec_id(),
            r.token_type.spec_name() == self.token_type.spec_name(),
            r.token_type.spec_display_name() == self.token_type.spec_display_name(),
            r.token_type.spec_rule() == self.token_type.spec_rule(),
            r.range == self.range,
    {
        AnyToken { token_type: self.token_type.clone(), range: self.range }
    }
}

impl PartialEq for AnyToken {
    /// Matched tokens are equal iff their kinds are the same kind and
    /// their spans are equal.
    fn eq(&self, other: &Self) -> (r: bool) {
        self.token_type == other.token_type && self.range.start.position
            == other.range.start.position && self.range.end.position == other.range.end.position
    }
}

impl Eq for AnyToken {

}

impl vstd::std_specs::cmp::PartialEqSpecImpl for AnyToken {
    open spec fn obeys_eq_spec() -> bool {
        true
    }

    open spec fn eq_spec(&self, other: &AnyToken) -> bool {
        self.token_type.spec_id() == other.token_type.spec_id() && self.range == other.range
    }
}

impl PartialOrd for AnyToken {
    /// Matched tokens order lexicographically by kind, then span.
    fn partial_cmp(&self, other: &Self) -> (r: Option<Ordering>) {
        if self.token_type.token_id() < other.token_type.token_id() {
            Some(Ordering::Less)
        } else if other.token_type.token_id() < self.token_type.token_id() {
            Some(Ordering::Greater)
        } else if self.range.start.position < other.range.start.position {
            Some(Ordering::Less)
        } else if other.range.start.position < self.range.start.position {
            Some(Ordering::Greater)
        } else if self.range.end.position < other.range.end.position {
            Some(Ordering::Less)
        } else if other.range.end.position < self.range.end.position {
            Some(Ordering::Greater)
        } else {
            Some(Ordering::Equal)
        }
    }
}

impl vstd::std_specs::cmp::PartialOrdSpecImpl for AnyToken {
    open spec fn obeys_partial_cmp_spec() -> bool {
        true
    }

    open spec fn partial_cmp_spec(&self, other: &AnyToken) -> Option<Ordering> {
        if self.token_type.spec_id() < other.token_type.spec_id() {
            Some(Ordering::Less)
        } else if other.token_type.spec_id() < self.token_type.spec_id() {
            Some(Ordering::Greater)
        } else if self.range.start.position < other.range.start.position {
            Some(Ordering::Less)
        } else if other.range.start.position < self.range.start.position {
            Some(Ordering::Greater)
        } else if self.range.end.position < other.range.end.position {
            Some(Ordering::Less)
        } else if other.range.end.position < self.range.end.position {
            Some(Ordering::Greater)
        } else {
            Some(Ordering::Equal)
        }
    }
}

/// The distinguished end-of-input kind: it matches exactly when the
/// probed location is at or past the end of the source, producing a
/// zero-length span there, and its name is the fixed human string
/// "end-of-file".  Its identity token is 0.
#[derive(Debug, Default, Clone, Copy, PartialEq, Eq, Structural, PartialOrd, Ord, Hash)]
pub struct Eof;

impl TokenDef for Eof {
    open spec fn spec_id() -> u64 {
        0
    }

    open spec fn spec_name() -> Seq<char> {
        "end-of-file"@
    }

    open spec fn spec_display_name() -> Seq<char> {
        "end-of-file"@
    }

    open spec fn spec_rule() -> RuleModel {
        RuleModel::EndOfInput
    }

    fn token_id() -> (r: u64) {
        0
    }

    fn name() -> (r: String) {
        String::from_str("end-of-file")
    }

    fn display_name() -> (r: String) {
        String::from_str("end-of-file")
    }

    fn declaration() -> (r: TokenPattern) {
        TokenPattern::EndOfInput
    }

    fn try_lex(src: &str, location: Location) -> (r: Option<LocationRange>) {
        if src.as_bytes().len() <= location.position {
            Some(LocationRange { start: location, end: location })
        } else {
            None
        }
    }
}

/// Handles that carry the same identity token — handles for the same
/// declared kind, however obtained — are equal, and neither orders
/// strictly below the other.
pub proof fn lemma_same_kind_handles(a: &TokenType, b: &TokenType)
    requires
        a.spec_id() == b.spec_id(),
    ensures
        a.eq_spec(b),
        b.eq_spec(a),
        a.partial_cmp_spec(b) == Some(Ordering::Equal),
        b.partial_cmp_spec(a) == Some(Ordering::Equal),
{
}

/// Handles for two distinct declared kinds — distinct identity
/// tokens — are unequal, and exactly one of them orders strictly below
/// the other.
pub proof fn lemma_distinct_kind_handles(a: &TokenType, b: &TokenType)
    requires
        a.spec_id() != b.spec_id(),
    ensures
        !a.eq_spec(b),
        !b.eq_spec(a),
        a.partial_cmp_spec(b) == Some(Ordering::Less) || b.partial_cmp_spec(a) == Some(
            Ordering::Less,
        ),
        !(a.partial_cmp_spec(b) == Some(Ordering::Less) && b.partial_cmp_spec(a) == Some(
            Ordering::Less,
        )),
{
}

/// Matching has no hidden state: any two outcomes the matching contract
/// admits for identical arguments are identical.
pub proof fn lemma_match_deterministic(
    m: RuleModel,
    src: Seq<u8>,
    at: int,
    r1: Option<LocationRange>,
    r2: Option<LocationRange>,
)
    requires
        matches_model(r1, rule_match(m, src, at)),
        matches_model(r2, rule_match(m, src, at)),
    ensures
        r1 == r2,
{
}

/// An exact-literal or end-of-input match begins exactly at the probed
/// location, and an end-of-input match succeeds exactly at or past the
/// end of the source, with a zero-length span.
pub proof fn lemma_match_anchored(m: RuleModel, src: Seq<u8>, at: int)
    requires
        !(m is Regex),
    ensures
        rule_match(m, src, at) matches Some(extent) ==> extent.0 == at && at <= extent.1,
        m is EndOfInput ==> (rule_match(m, src, at) is Some <==> at >= src.len()),
        m is EndOfInput && at >= src.len() ==> rule_match(m, src, at) == Some((at, at)),
{
}

} // verus!
