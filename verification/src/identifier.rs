//! The WIMSE Workload Identifier URI (`draft-ietf-wimse-identifier`).
//!
//! A workload identifier is an absolute URI whose authority names the trust
//! domain it is scoped to. Two schemes are supported: `spiffe`, whose trust
//! domain is `[a-z0-9._-]` and whose path segments are `[A-Za-z0-9._-]`, and
//! `wimse`, whose path segments take the generic RFC 3986 `pchar` set.
//!
//! Both are held to the generic requirements: a non-empty authority, no query,
//! fragment, user information or port, and at most [`MAX_ID_LEN`] bytes.
//!
//! Comparing identifiers as whole strings is only sound if each has exactly
//! one spelling, so the forms RFC 3986 would normalize are rejected rather
//! than rewritten: an uppercase trust domain, an empty path segment, a `.` or
//! `..` segment, and a percent-escape with lowercase hex digits or one that
//! encodes an unreserved character.

use vstd::prelude::*;
use vstd::utf8::encode_utf8;

use crate::text::{
    chars_of, contains_char, find_char, find_from, has_prefix_at, lemma_find_from, owned, push_char,
    utf8_len_range,
};

verus! {

broadcast use vstd::string::group_string_axioms, vstd::slice::group_slice_axioms;

/// The maximum length, in bytes, of a workload identifier.
pub const MAX_ID_LEN: usize = 2048;

/// The maximum length, in bytes, of a `spiffe` trust domain.
pub const MAX_TRUST_DOMAIN_LEN: usize = 255;

/// A URI scheme a workload identifier may use.
#[derive(Debug, Clone, Copy, PartialEq, Eq, Hash, Structural)]
pub enum Scheme {
    /// The `spiffe` scheme (SPIFFE ID specification).
    Spiffe,
    /// The `wimse` scheme (Section 4.4 of `draft-ietf-wimse-identifier`).
    Wimse,
}

/// The scheme name, without `://`.
pub open spec fn scheme_name(s: Scheme) -> Seq<char> {
    match s {
        Scheme::Spiffe => seq!['s', 'p', 'i', 'f', 'f', 'e'],
        Scheme::Wimse => seq!['w', 'i', 'm', 's', 'e'],
    }
}

/// The scheme prefix, including `://`.
pub open spec fn scheme_prefix(s: Scheme) -> Seq<char> {
    scheme_name(s) + seq![':', '/', '/']
}

impl Scheme {
    /// Returns the scheme name, without the `://` delimiter.
    pub fn as_str(self) -> (r: &'static str)
        ensures
            r@ == scheme_name(self),
    {
        match self {
            Scheme::Spiffe => {
                proof {
                    reveal_strlit("spiffe");
                }
                "spiffe"
            },
            Scheme::Wimse => {
                proof {
                    reveal_strlit("wimse");
                }
                "wimse"
            },
        }
    }

    /// Returns the scheme prefix, including the `://` delimiter.
    pub fn prefix(self) -> (r: &'static str)
        ensures
            r@ == scheme_prefix(self),
    {
        match self {
            Scheme::Spiffe => {
                proof {
                    reveal_strlit("spiffe://");
                }
                assert("spiffe://"@ =~= scheme_prefix(Scheme::Spiffe));
                "spiffe://"
            },
            Scheme::Wimse => {
                proof {
                    reveal_strlit("wimse://");
                }
                assert("wimse://"@ =~= scheme_prefix(Scheme::Wimse));
                "wimse://"
            },
        }
    }

    /// The length of [`Scheme::prefix`].
    pub fn prefix_len(self) -> (n: usize)
        ensures
            n == scheme_prefix(self).len(),
    {
        match self {
            Scheme::Spiffe => 9,
            Scheme::Wimse => 8,
        }
    }
}

/// Why an input is not a workload identifier.
#[derive(Debug, Clone, Copy, PartialEq, Eq, Structural)]
pub enum ParseError {
    /// The identifier is longer than [`MAX_ID_LEN`] bytes.
    TooLong,
    /// The identifier does not start with `spiffe://` or `wimse://`.
    UnsupportedScheme,
    /// The identifier carries a query component.
    HasQuery,
    /// The identifier carries a fragment component.
    HasFragment,
    /// The authority carries user information.
    HasUserInfo,
    /// The authority carries a port.
    HasPort,
    /// The trust domain is empty.
    EmptyTrustDomain,
    /// A `spiffe` trust domain is longer than [`MAX_TRUST_DOMAIN_LEN`] bytes.
    TrustDomainTooLong,
    /// The trust domain contains a character outside `[a-z0-9._-]`.
    InvalidTrustDomainChar(char),
    /// A path segment is empty (a `//` or a trailing `/`).
    EmptyPathSegment,
    /// A path segment is `.` or `..`.
    DotSegment,
    /// A path segment contains a character the scheme does not allow.
    InvalidPathChar(char),
    /// A `%` is not followed by two hex digits.
    BadPercentEncoding,
    /// A well-formed percent-escape is not in normalized form: it has
    /// lowercase hex digits, or it encodes an unreserved character. Carries the
    /// octet the escape encodes.
    NonNormalizedPercentEncoding(u8),
}

/// A character as an error message shows it: in single quotes.
pub open spec fn quoted_char(c: char) -> Seq<char> {
    seq!['\'', c, '\'']
}

/// The text of a [`ParseError`].
pub open spec fn parse_error_message(e: ParseError) -> Seq<char> {
    match e {
        ParseError::TooLong => "identifier exceeds 2048 bytes"@,
        ParseError::UnsupportedScheme => "identifier must start with `spiffe://` or `wimse://`"@,
        ParseError::HasQuery => "identifier must not contain a query component"@,
        ParseError::HasFragment => "identifier must not contain a fragment component"@,
        ParseError::HasUserInfo => "identifier must not contain user information"@,
        ParseError::HasPort => "identifier must not contain a port component"@,
        ParseError::EmptyTrustDomain => "trust domain is empty"@,
        ParseError::TrustDomainTooLong => "trust domain exceeds 255 bytes"@,
        ParseError::InvalidTrustDomainChar(c) => "trust domain contains an invalid character: "@
            + quoted_char(c),
        ParseError::EmptyPathSegment => "path contains an empty segment or a trailing slash"@,
        ParseError::DotSegment => "path contains a `.` or `..` segment"@,
        ParseError::InvalidPathChar(c) => "path contains an invalid character: "@ + quoted_char(c),
        ParseError::BadPercentEncoding => "path contains a malformed percent-escape"@,
        ParseError::NonNormalizedPercentEncoding(_) =>
            "path contains a percent-escape that is not in normalized form"@,
    }
}

impl ParseError {
    /// The error's text, for messages and logs.
    pub fn message(&self) -> (r: String)
        ensures
            r@ == parse_error_message(*self),
    {
        match self {
            ParseError::TooLong => owned("identifier exceeds 2048 bytes"),
            ParseError::UnsupportedScheme => owned(
                "identifier must start with `spiffe://` or `wimse://`",
            ),
            ParseError::HasQuery => owned("identifier must not contain a query component"),
            ParseError::HasFragment => owned("identifier must not contain a fragment component"),
            ParseError::HasUserInfo => owned("identifier must not contain user information"),
            ParseError::HasPort => owned("identifier must not contain a port component"),
            ParseError::EmptyTrustDomain => owned("trust domain is empty"),
            ParseError::TrustDomainTooLong => owned("trust domain exceeds 255 bytes"),
            ParseError::InvalidTrustDomainChar(c) => {
                let mut s: String = owned("trust domain contains an invalid character: ");
                push_quoted(&mut s, *c);
                s
            },
            ParseError::EmptyPathSegment => owned(
                "path contains an empty segment or a trailing slash",
            ),
            ParseError::DotSegment => owned("path contains a `.` or `..` segment"),
            ParseError::InvalidPathChar(c) => {
                let mut s: String = owned("path contains an invalid character: ");
                push_quoted(&mut s, *c);
                s
            },
            ParseError::BadPercentEncoding => owned("path contains a malformed percent-escape"),
            ParseError::NonNormalizedPercentEncoding(_) => owned(
                "path contains a percent-escape that is not in normalized form",
            ),
        }
    }
}

fn push_quoted(s: &mut String, c: char)
    ensures
        final(s)@ == old(s)@ + quoted_char(c),
{
    push_char(s, '\'');
    push_char(s, c);
    push_char(s, '\'');
}

// ---------------------------------------------------------------------------
// Character classes.
// ---------------------------------------------------------------------------

/// The trust-domain charset of both schemes: `[a-z0-9._-]`.
pub open spec fn is_trust_domain_char(c: char) -> bool {
    ('a' <= c && c <= 'z') || ('0' <= c && c <= '9') || c == '.' || c == '-' || c == '_'
}

/// The SPIFFE ID path charset: `[A-Za-z0-9._-]`.
pub open spec fn is_spiffe_path_char(c: char) -> bool {
    ('A' <= c && c <= 'Z') || ('a' <= c && c <= 'z') || ('0' <= c && c <= '9') || c == '.'
        || c == '-' || c == '_'
}

/// RFC 3986 `unreserved`.
pub open spec fn is_unreserved(c: char) -> bool {
    ('A' <= c && c <= 'Z') || ('a' <= c && c <= 'z') || ('0' <= c && c <= '9') || c == '-'
        || c == '.' || c == '_' || c == '~'
}

/// RFC 3986 `pchar` without `pct-encoded`: unreserved, sub-delims, `:`, `@`.
pub open spec fn is_pchar(c: char) -> bool {
    is_unreserved(c) || c == '!' || c == '$' || c == '&' || c == '\'' || c == '(' || c == ')'
        || c == '*' || c == '+' || c == ',' || c == ';' || c == '=' || c == ':' || c == '@'
}

pub open spec fn is_hex_digit(c: char) -> bool {
    ('0' <= c && c <= '9') || ('a' <= c && c <= 'f') || ('A' <= c && c <= 'F')
}

pub open spec fn is_lower_hex_letter(c: char) -> bool {
    'a' <= c && c <= 'f'
}

pub open spec fn hex_value(c: char) -> int {
    if '0' <= c && c <= '9' {
        c as int - '0' as int
    } else if 'a' <= c && c <= 'f' {
        c as int - 'a' as int + 10
    } else {
        c as int - 'A' as int + 10
    }
}

/// Whether `b` is the code of an unreserved ASCII character.
pub open spec fn is_unreserved_octet(b: int) -> bool {
    (0x41 <= b <= 0x5a) || (0x61 <= b <= 0x7a) || (0x30 <= b <= 0x39) || b == 0x2d || b == 0x2e
        || b == 0x5f || b == 0x7e
}

fn trust_domain_char(c: char) -> (r: bool)
    ensures
        r == is_trust_domain_char(c),
{
    ('a' <= c && c <= 'z') || ('0' <= c && c <= '9') || c == '.' || c == '-' || c == '_'
}

fn spiffe_path_char(c: char) -> (r: bool)
    ensures
        r == is_spiffe_path_char(c),
{
    ('A' <= c && c <= 'Z') || ('a' <= c && c <= 'z') || ('0' <= c && c <= '9') || c == '.'
        || c == '-' || c == '_'
}

/// Whether `c` is an RFC 3986 `pchar` that is not part of a percent-escape.
pub fn is_pchar_byte(c: char) -> (r: bool)
    ensures
        r == is_pchar(c),
{
    ('A' <= c && c <= 'Z') || ('a' <= c && c <= 'z') || ('0' <= c && c <= '9') || c == '-'
        || c == '.' || c == '_' || c == '~' || c == '!' || c == '$' || c == '&' || c == '\''
        || c == '(' || c == ')' || c == '*' || c == '+' || c == ',' || c == ';' || c == '='
        || c == ':' || c == '@'
}

fn hex_digit(c: char) -> (r: bool)
    ensures
        r == is_hex_digit(c),
{
    ('0' <= c && c <= '9') || ('a' <= c && c <= 'f') || ('A' <= c && c <= 'F')
}

fn hex_digit_value(c: char) -> (r: u8)
    requires
        is_hex_digit(c),
    ensures
        r == hex_value(c),
        r < 16,
{
    if '0' <= c && c <= '9' {
        ((c as u32) - ('0' as u32)) as u8
    } else if 'a' <= c && c <= 'f' {
        ((c as u32) - ('a' as u32) + 10) as u8
    } else {
        ((c as u32) - ('A' as u32) + 10) as u8
    }
}

fn unreserved_octet(b: u8) -> (r: bool)
    ensures
        r == is_unreserved_octet(b as int),
{
    (0x41 <= b && b <= 0x5a) || (0x61 <= b && b <= 0x7a) || (0x30 <= b && b <= 0x39) || b == 0x2d
        || b == 0x2e || b == 0x5f || b == 0x7e
}

// ---------------------------------------------------------------------------
// The grammar, as spec functions over the identifier's characters.
// ---------------------------------------------------------------------------

/// The first character of `td[i..]` outside the trust-domain charset.
pub open spec fn first_bad_trust_domain_char(td: Seq<char>, i: int) -> Option<char>
    decreases td.len() - i,
{
    if i >= td.len() {
        None
    } else if !is_trust_domain_char(td[i]) {
        Some(td[i])
    } else {
        first_bad_trust_domain_char(td, i + 1)
    }
}

/// The verdict on a trust domain.
pub open spec fn spec_check_trust_domain(scheme: Scheme, td: Seq<char>) -> Result<(), ParseError> {
    if td.len() == 0 {
        Err(ParseError::EmptyTrustDomain)
    } else if scheme == Scheme::Spiffe && encode_utf8(td).len() > MAX_TRUST_DOMAIN_LEN {
        Err(ParseError::TrustDomainTooLong)
    } else {
        match first_bad_trust_domain_char(td, 0) {
            Some(c) => Err(ParseError::InvalidTrustDomainChar(c)),
            None => Ok(()),
        }
    }
}

/// The verdict on a `spiffe` path segment from position `i` on.
pub open spec fn spec_check_spiffe_segment(seg: Seq<char>, i: int) -> Result<(), ParseError>
    decreases seg.len() - i,
{
    if i >= seg.len() {
        Ok(())
    } else if !is_spiffe_path_char(seg[i]) {
        Err(ParseError::InvalidPathChar(seg[i]))
    } else {
        spec_check_spiffe_segment(seg, i + 1)
    }
}

/// The verdict on a `wimse` path segment from position `i` on.
pub open spec fn spec_check_pchar_segment(seg: Seq<char>, i: int) -> Result<(), ParseError>
    decreases seg.len() - i,
{
    if i >= seg.len() {
        Ok(())
    } else if seg[i] == '%' {
        if i + 2 < seg.len() && is_hex_digit(seg[i + 1]) && is_hex_digit(seg[i + 2]) {
            let octet = hex_value(seg[i + 1]) * 16 + hex_value(seg[i + 2]);
            if is_lower_hex_letter(seg[i + 1]) || is_lower_hex_letter(seg[i + 2])
                || is_unreserved_octet(octet) {
                Err(ParseError::NonNormalizedPercentEncoding(octet as u8))
            } else {
                spec_check_pchar_segment(seg, i + 3)
            }
        } else {
            Err(ParseError::BadPercentEncoding)
        }
    } else if !is_pchar(seg[i]) {
        Err(ParseError::InvalidPathChar(seg[i]))
    } else {
        spec_check_pchar_segment(seg, i + 1)
    }
}

pub open spec fn is_dot_segment(seg: Seq<char>) -> bool {
    seg == seq!['.'] || seg == seq!['.', '.']
}

/// The verdict on one path segment.
pub open spec fn spec_check_segment(scheme: Scheme, seg: Seq<char>) -> Result<(), ParseError> {
    if seg.len() == 0 {
        Err(ParseError::EmptyPathSegment)
    } else if is_dot_segment(seg) {
        Err(ParseError::DotSegment)
    } else {
        match scheme {
            Scheme::Spiffe => spec_check_spiffe_segment(seg, 0),
            Scheme::Wimse => spec_check_pchar_segment(seg, 0),
        }
    }
}

/// The verdict on the segments of `p[start..]`, where `p[start - 1]` is `/`:
/// each segment runs to the next `/` or the end.
pub open spec fn spec_check_segments(scheme: Scheme, p: Seq<char>, start: int) -> Result<
    (),
    ParseError,
>
    decreases p.len() - start,
{
    if start < 0 || start > p.len() {
        Ok(())
    } else {
        let end = find_from(p, '/', start);
        match spec_check_segment(scheme, p.subrange(start, end)) {
            Err(e) => Err(e),
            Ok(()) => if end >= p.len() || end < start {
                Ok(())
            } else {
                spec_check_segments(scheme, p, end + 1)
            },
        }
    }
}

/// The verdict on a path: empty, or `/` followed by `/`-separated segments.
pub open spec fn spec_check_path(scheme: Scheme, path: Seq<char>) -> Result<(), ParseError> {
    if path.len() == 0 {
        Ok(())
    } else {
        spec_check_segments(scheme, path, 1)
    }
}

/// Where the trust domain of `s` ends, for a given scheme: the first `/` after
/// the prefix, or the end.
pub open spec fn authority_end(scheme: Scheme, s: Seq<char>) -> int {
    find_from(s, '/', scheme_prefix(scheme).len() as int)
}

/// The verdict on the part of `s` after `scheme`'s prefix. On success, the
/// trust domain is `s[prefix..authority_end]` and the path is the rest.
pub open spec fn spec_parse_rest(scheme: Scheme, s: Seq<char>) -> Result<Scheme, ParseError> {
    let start = scheme_prefix(scheme).len() as int;
    let rest = s.subrange(start, s.len() as int);
    let end = authority_end(scheme, s);
    let td = s.subrange(start, end);
    let path = s.subrange(end, s.len() as int);
    if rest.contains('?') {
        Err(ParseError::HasQuery)
    } else if rest.contains('#') {
        Err(ParseError::HasFragment)
    } else if td.contains('@') {
        Err(ParseError::HasUserInfo)
    } else if td.contains(':') {
        Err(ParseError::HasPort)
    } else {
        match spec_check_trust_domain(scheme, td) {
            Err(e) => Err(e),
            Ok(()) => match spec_check_path(scheme, path) {
                Err(e) => Err(e),
                Ok(()) => Ok(scheme),
            },
        }
    }
}

pub open spec fn has_prefix(s: Seq<char>, p: Seq<char>) -> bool {
    p.len() <= s.len() && s.take(p.len() as int) == p
}

/// The verdict on an input: the scheme it parses under, or why it is refused.
pub open spec fn spec_parse(s: Seq<char>) -> Result<Scheme, ParseError> {
    if encode_utf8(s).len() > MAX_ID_LEN {
        Err(ParseError::TooLong)
    } else if has_prefix(s, scheme_prefix(Scheme::Spiffe)) {
        spec_parse_rest(Scheme::Spiffe, s)
    } else if has_prefix(s, scheme_prefix(Scheme::Wimse)) {
        spec_parse_rest(Scheme::Wimse, s)
    } else {
        Err(ParseError::UnsupportedScheme)
    }
}

// ---------------------------------------------------------------------------
// The identifier type.
// ---------------------------------------------------------------------------

/// A validated WIMSE workload identifier.
///
/// Construct one with [`WorkloadIdentifier::parse`]. The value always holds a
/// well-formed `spiffe://` or `wimse://` identifier, exactly as it was given.
#[derive(Debug, PartialEq, Eq, Hash)]
pub struct WorkloadIdentifier {
    uri: String,
    scheme: Scheme,
    /// Length of the trust domain; bytes and characters agree, because a valid
    /// identifier is ASCII.
    trust_domain_len: usize,
}

/// The mathematical content of a [`WorkloadIdentifier`].
pub struct IdentifierView {
    pub uri: Seq<char>,
    pub scheme: Scheme,
    pub trust_domain_len: nat,
}

impl View for WorkloadIdentifier {
    type V = IdentifierView;

    closed spec fn view(&self) -> IdentifierView {
        IdentifierView {
            uri: self.uri@,
            scheme: self.scheme,
            trust_domain_len: self.trust_domain_len as nat,
        }
    }
}

/// The start of the path: the end of the prefix plus the trust domain.
pub open spec fn origin_len(v: IdentifierView) -> int {
    (scheme_prefix(v.scheme).len() + v.trust_domain_len) as int
}

/// What every [`WorkloadIdentifier`] satisfies: its text parses under its
/// scheme, and the trust domain ends where the authority does.
pub open spec fn identifier_valid(v: IdentifierView) -> bool {
    &&& spec_parse(v.uri) == Ok::<Scheme, ParseError>(v.scheme)
    &&& authority_end(v.scheme, v.uri) == origin_len(v)
}

impl WorkloadIdentifier {
    #[verifier::type_invariant]
    spec fn inv(self) -> bool {
        identifier_valid(self@)
    }

    /// Parses and validates a workload identifier.
    pub fn parse(input: &str) -> (r: Result<WorkloadIdentifier, ParseError>)
        ensures
            match r {
                Ok(id) => spec_parse(input@) == Ok::<Scheme, ParseError>(id@.scheme)
                    && id@.uri == input@ && identifier_valid(id@),
                Err(e) => spec_parse(input@) == Err::<Scheme, ParseError>(e),
            },
    {
        if input.as_bytes().len() > MAX_ID_LEN {
            return Err(ParseError::TooLong);
        }
        let chars: Vec<char> = chars_of(input);
        proof {
            lemma_ascii_len_bound(input@);
        }
        let spiffe: Vec<char> = chars_of(Scheme::Spiffe.prefix());
        let wimse: Vec<char> = chars_of(Scheme::Wimse.prefix());
        let scheme: Scheme = if has_prefix_at(&chars, 0, &spiffe) {
            assert(chars@.subrange(0, spiffe@.len() as int) =~= chars@.take(
                spiffe@.len() as int,
            ));
            Scheme::Spiffe
        } else if has_prefix_at(&chars, 0, &wimse) {
            assert(chars@.subrange(0, wimse@.len() as int) =~= chars@.take(wimse@.len() as int));
            Scheme::Wimse
        } else {
            proof {
                if has_prefix(input@, scheme_prefix(Scheme::Spiffe)) {
                    assert(chars@.subrange(0, spiffe@.len() as int) =~= chars@.take(
                        spiffe@.len() as int,
                    ));
                }
                if has_prefix(input@, scheme_prefix(Scheme::Wimse)) {
                    assert(chars@.subrange(0, wimse@.len() as int) =~= chars@.take(
                        wimse@.len() as int,
                    ));
                }
            }
            return Err(ParseError::UnsupportedScheme);
        };
        proof {
            if scheme == Scheme::Wimse {
                assert(!has_prefix(input@, scheme_prefix(Scheme::Spiffe))) by {
                    if has_prefix(input@, scheme_prefix(Scheme::Spiffe)) {
                        assert(chars@.subrange(0, spiffe@.len() as int) =~= chars@.take(
                            spiffe@.len() as int,
                        ));
                    }
                }
            }
        }
        assert(spec_parse(input@) == spec_parse_rest(scheme, input@));
        let start: usize = scheme.prefix_len();
        let n: usize = chars.len();
        if contains_char(&chars, start, n, '?') {
            return Err(ParseError::HasQuery);
        }
        if contains_char(&chars, start, n, '#') {
            return Err(ParseError::HasFragment);
        }
        let end: usize = find_char(&chars, '/', start);
        proof {
            lemma_find_from(chars@, '/', start as int);
        }
        if contains_char(&chars, start, end, '@') {
            return Err(ParseError::HasUserInfo);
        }
        if contains_char(&chars, start, end, ':') {
            return Err(ParseError::HasPort);
        }
        match check_trust_domain(scheme, &chars, start, end) {
            Err(e) => {
                return Err(e);
            },
            Ok(()) => {},
        }
        match check_path(scheme, &chars, end) {
            Err(e) => {
                return Err(e);
            },
            Ok(()) => {},
        }
        let id = WorkloadIdentifier { uri: owned(input), scheme, trust_domain_len: end - start };
        Ok(id)
    }

    /// Returns the full identifier, including the scheme.
    pub fn as_str(&self) -> (r: &str)
        ensures
            r@ == self@.uri,
    {
        self.uri.as_str()
    }

    /// Returns the scheme this identifier uses.
    pub fn scheme(&self) -> (r: Scheme)
        ensures
            r == self@.scheme,
    {
        self.scheme
    }

    /// Returns the trust domain (the authority component).
    pub fn trust_domain(&self) -> (r: &str)
        ensures
            r@ == self@.uri.subrange(
                scheme_prefix(self@.scheme).len() as int,
                origin_len(self@),
            ),
    {
        proof {
            use_type_invariant(self);
            lemma_valid_is_ascii(self@);
        }
        let start: usize = self.scheme.prefix_len();
        self.uri.as_str().substring_ascii(start, start + self.trust_domain_len)
    }

    /// Returns the path, including the leading `/`, or `""` when there is none.
    pub fn path(&self) -> (r: &str)
        ensures
            r@ == self@.uri.subrange(origin_len(self@), self@.uri.len() as int),
    {
        proof {
            use_type_invariant(self);
            lemma_valid_is_ascii(self@);
        }
        let start: usize = self.scheme.prefix_len() + self.trust_domain_len;
        let s: &str = self.uri.as_str();
        s.substring_ascii(start, s.unicode_len())
    }

    /// Returns the identifier's origin: the scheme and trust domain with the
    /// path omitted (Section 4.6 of the draft).
    pub fn origin(&self) -> (r: &str)
        ensures
            r@ == self@.uri.take(origin_len(self@)),
    {
        proof {
            use_type_invariant(self);
            lemma_valid_is_ascii(self@);
        }
        let end: usize = self.scheme.prefix_len() + self.trust_domain_len;
        let r: &str = self.uri.as_str().substring_ascii(0, end);
        assert(r@ =~= self@.uri.take(origin_len(self@)));
        r
    }

    /// The identifier's text, consuming it.
    pub fn into_string(self) -> (r: String)
        ensures
            r@ == self@.uri,
    {
        self.uri
    }

    /// Compares two identifiers by their full text.
    pub fn same_as(&self, other: &WorkloadIdentifier) -> (r: bool)
        ensures
            r == (self@.uri == other@.uri),
    {
        crate::text::str_eq(self.uri.as_str(), other.uri.as_str())
    }

}

impl Clone for WorkloadIdentifier {
    fn clone(&self) -> (r: Self)
        ensures
            r@ == self@,
    {
        proof {
            use_type_invariant(self);
        }
        WorkloadIdentifier {
            uri: self.uri.clone(),
            scheme: self.scheme,
            trust_domain_len: self.trust_domain_len,
        }
    }
}

impl core::str::FromStr for WorkloadIdentifier {
    type Err = ParseError;

    /// Parses an identifier, as [`WorkloadIdentifier::parse`] does.
    fn from_str(s: &str) -> Result<WorkloadIdentifier, ParseError> {
        WorkloadIdentifier::parse(s)
    }
}

impl TryFrom<String> for WorkloadIdentifier {
    type Error = ParseError;

    /// Parses an identifier, keeping the given string as its text.
    fn try_from(value: String) -> (r: Result<WorkloadIdentifier, ParseError>) {
        match WorkloadIdentifier::parse(value.as_str()) {
            Ok(id) => {
                proof {
                    use_type_invariant(&id);
                }
                Ok(WorkloadIdentifier { uri: value, scheme: id.scheme, trust_domain_len: id.trust_domain_len })
            },
            Err(e) => Err(e),
        }
    }
}

impl vstd::std_specs::convert::TryFromSpecImpl<String> for WorkloadIdentifier {
    open spec fn obeys_try_from_spec() -> bool {
        true
    }

    closed spec fn try_from_spec(value: String) -> Result<WorkloadIdentifier, ParseError> {
        match spec_parse(value@) {
            Ok(scheme) => Ok(
                WorkloadIdentifier {
                    uri: value,
                    scheme,
                    trust_domain_len: (authority_end(scheme, value@) - scheme_prefix(scheme).len()) as usize,
                },
            ),
            Err(e) => Err(e),
        }
    }
}

// ---------------------------------------------------------------------------
// The checks, executable.
// ---------------------------------------------------------------------------

fn check_trust_domain(scheme: Scheme, chars: &Vec<char>, start: usize, end: usize) -> (r: Result<
    (),
    ParseError,
>)
    requires
        start <= end <= chars@.len(),
        chars@.len() <= MAX_ID_LEN,
    ensures
        r == spec_check_trust_domain(scheme, chars@.subrange(start as int, end as int)),
{
    let ghost td: Seq<char> = chars@.subrange(start as int, end as int);
    if start == end {
        return Err(ParseError::EmptyTrustDomain);
    }
    if scheme == Scheme::Spiffe && utf8_len_range(chars, start, end) > MAX_TRUST_DOMAIN_LEN {
        return Err(ParseError::TrustDomainTooLong);
    }
    assert(!(scheme == Scheme::Spiffe && encode_utf8(td).len() > MAX_TRUST_DOMAIN_LEN));
    assert(td.len() != 0);
    let mut i: usize = start;
    while i < end
        invariant
            start <= i <= end <= chars@.len(),
            td == chars@.subrange(start as int, end as int),
            !(scheme == Scheme::Spiffe && encode_utf8(td).len() > MAX_TRUST_DOMAIN_LEN),
            td.len() != 0,
            first_bad_trust_domain_char(td, 0) == first_bad_trust_domain_char(td, i - start),
        decreases end - i,
    {
        assert(td[i - start] == chars@[i as int]);
        if !trust_domain_char(chars[i]) {
            assert(first_bad_trust_domain_char(td, i - start) == Some(chars@[i as int]));
            return Err(ParseError::InvalidTrustDomainChar(chars[i]));
        }
        i = i + 1;
    }
    assert(first_bad_trust_domain_char(td, end - start) is None);
    Ok(())
}

fn check_spiffe_segment(chars: &Vec<char>, start: usize, end: usize) -> (r: Result<(), ParseError>)
    requires
        start <= end <= chars@.len(),
    ensures
        r == spec_check_spiffe_segment(chars@.subrange(start as int, end as int), 0),
{
    let ghost seg: Seq<char> = chars@.subrange(start as int, end as int);
    let mut i: usize = start;
    while i < end
        invariant
            start <= i <= end <= chars@.len(),
            seg == chars@.subrange(start as int, end as int),
            spec_check_spiffe_segment(seg, 0) == spec_check_spiffe_segment(seg, i - start),
        decreases end - i,
    {
        assert(seg[i - start] == chars@[i as int]);
        if !spiffe_path_char(chars[i]) {
            return Err(ParseError::InvalidPathChar(chars[i]));
        }
        i = i + 1;
    }
    Ok(())
}

fn check_pchar_segment(chars: &Vec<char>, start: usize, end: usize) -> (r: Result<(), ParseError>)
    requires
        start <= end <= chars@.len(),
        chars@.len() <= MAX_ID_LEN,
    ensures
        r == spec_check_pchar_segment(chars@.subrange(start as int, end as int), 0),
{
    let ghost seg: Seq<char> = chars@.subrange(start as int, end as int);
    let mut i: usize = start;
    while i < end
        invariant
            start <= i,
            end <= chars@.len() <= MAX_ID_LEN,
            seg == chars@.subrange(start as int, end as int),
            i <= end ==> spec_check_pchar_segment(seg, 0) == spec_check_pchar_segment(
                seg,
                i - start,
            ),
            i > end ==> spec_check_pchar_segment(seg, 0) == Ok::<(), ParseError>(()),
        decreases end + 3 - i,
    {
        let c: char = chars[i];
        assert(seg[i - start] == c);
        if c == '%' {
            if i + 2 < end && hex_digit(chars[i + 1]) && hex_digit(chars[i + 2]) {
                assert(seg[i - start + 1] == chars@[i + 1]);
                assert(seg[i - start + 2] == chars@[i + 2]);
                let hi: u8 = hex_digit_value(chars[i + 1]);
                let lo: u8 = hex_digit_value(chars[i + 2]);
                let octet: u8 = hi * 16 + lo;
                if ('a' <= chars[i + 1] && chars[i + 1] <= 'f') || ('a' <= chars[i + 2] && chars[i
                    + 2] <= 'f') || unreserved_octet(octet) {
                    return Err(ParseError::NonNormalizedPercentEncoding(octet));
                }
                i = i + 3;
            } else {
                proof {
                    if i + 2 < end {
                        assert(seg[i - start + 1] == chars@[i + 1]);
                        assert(seg[i - start + 2] == chars@[i + 2]);
                    }
                }
                return Err(ParseError::BadPercentEncoding);
            }
        } else if !is_pchar_byte(c) {
            return Err(ParseError::InvalidPathChar(c));
        } else {
            i = i + 1;
        }
    }
    Ok(())
}

fn is_dot(chars: &Vec<char>, start: usize, end: usize) -> (r: bool)
    requires
        start <= end <= chars@.len(),
    ensures
        r == is_dot_segment(chars@.subrange(start as int, end as int)),
{
    let ghost seg: Seq<char> = chars@.subrange(start as int, end as int);
    assert(seq!['.'].len() == 1);
    assert(seq!['.', '.'].len() == 2);
    assert(seq!['.'][0] == '.');
    assert(seq!['.', '.'][0] == '.' && seq!['.', '.'][1] == '.');
    if end - start == 1 {
        assert(seg[0] == chars@[start as int]);
        if chars[start] == '.' {
            assert(seg =~= seq!['.']);
            true
        } else {
            false
        }
    } else if end - start == 2 {
        assert(seg[0] == chars@[start as int]);
        assert(seg[1] == chars@[start + 1]);
        if chars[start] == '.' && chars[start + 1] == '.' {
            assert(seg =~= seq!['.', '.']);
            true
        } else {
            false
        }
    } else {
        false
    }
}

fn check_segment(scheme: Scheme, chars: &Vec<char>, start: usize, end: usize) -> (r: Result<
    (),
    ParseError,
>)
    requires
        start <= end <= chars@.len(),
        chars@.len() <= MAX_ID_LEN,
    ensures
        r == spec_check_segment(scheme, chars@.subrange(start as int, end as int)),
{
    if start == end {
        return Err(ParseError::EmptyPathSegment);
    }
    if is_dot(chars, start, end) {
        return Err(ParseError::DotSegment);
    }
    match scheme {
        Scheme::Spiffe => check_spiffe_segment(chars, start, end),
        Scheme::Wimse => check_pchar_segment(chars, start, end),
    }
}

/// Checks the path `chars[from..]`.
fn check_path(scheme: Scheme, chars: &Vec<char>, from: usize) -> (r: Result<(), ParseError>)
    requires
        from <= chars@.len() <= MAX_ID_LEN,
        from < chars@.len() ==> chars@[from as int] == '/',
    ensures
        r == spec_check_path(scheme, chars@.subrange(from as int, chars@.len() as int)),
{
    let n: usize = chars.len();
    let ghost path: Seq<char> = chars@.subrange(from as int, n as int);
    if from == n {
        return Ok(());
    }
    let mut start: usize = from + 1;
    loop
        invariant
            from < start <= n,
            n == chars@.len() <= MAX_ID_LEN,
            path == chars@.subrange(from as int, n as int),
            spec_check_path(scheme, path) == spec_check_segments(scheme, path, start - from),
        decreases n - start,
    {
        let end: usize = find_char(chars, '/', start);
        proof {
            lemma_find_from(chars@, '/', start as int);
            lemma_find_shift(chars@, from as int, start as int);
            assert(path.subrange(start - from, end - from) =~= chars@.subrange(
                start as int,
                end as int,
            ));
        }
        match check_segment(scheme, chars, start, end) {
            Err(e) => {
                return Err(e);
            },
            Ok(()) => {},
        }
        if end == n {
            return Ok(());
        }
        start = end + 1;
    }
}

/// Finding `/` in a suffix is finding it in the whole sequence, shifted.
proof fn lemma_find_shift(s: Seq<char>, from: int, start: int)
    requires
        0 <= from <= start <= s.len(),
    ensures
        find_from(s.subrange(from, s.len() as int), '/', start - from) == find_from(s, '/', start)
            - from,
{
    let t = s.subrange(from, s.len() as int);
    lemma_find_from(s, '/', start);
    let k = find_from(s, '/', start);
    assert forall|j: int| start - from <= j < k - from implies t[j] != '/' by {
        assert(t[j] == s[j + from]);
    }
    if k < s.len() {
        assert(t[k - from] == s[k]);
    }
    crate::text::lemma_find_from_unique(t, '/', start - from, k - from);
}

/// An identifier that is not too long has fewer characters than bytes.
proof fn lemma_ascii_len_bound(s: Seq<char>)
    ensures
        s.len() <= encode_utf8(s).len(),
    decreases s.len(),
{
    if s.len() > 0 {
        lemma_ascii_len_bound(s.drop_first());
        vstd::utf8::char_is_scalar(s[0]);
    }
}

// ---------------------------------------------------------------------------
// Laws.
// ---------------------------------------------------------------------------

/// A prefix-free trust-domain check accepts only `[a-z0-9._-]`.
proof fn lemma_first_bad_none(td: Seq<char>, i: int)
    requires
        0 <= i,
        first_bad_trust_domain_char(td, i) is None,
    ensures
        forall|j: int| i <= j < td.len() ==> is_trust_domain_char(td[j]),
    decreases td.len() - i,
{
    if i < td.len() {
        lemma_first_bad_none(td, i + 1);
    }
}

proof fn lemma_spiffe_segment_ok(seg: Seq<char>, i: int)
    requires
        0 <= i,
        spec_check_spiffe_segment(seg, i) is Ok,
    ensures
        forall|j: int| i <= j < seg.len() ==> is_spiffe_path_char(seg[j]),
    decreases seg.len() - i,
{
    if i < seg.len() {
        lemma_spiffe_segment_ok(seg, i + 1);
    }
}

proof fn lemma_pchar_segment_ok(seg: Seq<char>, i: int)
    requires
        0 <= i,
        spec_check_pchar_segment(seg, i) is Ok,
    ensures
        forall|j: int| i <= j < seg.len() ==> #[trigger] is_ascii_char(seg[j]),
    decreases seg.len() - i,
{
    if i < seg.len() {
        if seg[i] == '%' {
            lemma_pchar_segment_ok(seg, i + 3);
        } else {
            lemma_pchar_segment_ok(seg, i + 1);
        }
    }
}

pub open spec fn is_ascii_char(c: char) -> bool {
    '\0' <= c <= '\u{7f}'
}

proof fn lemma_segment_ok_ascii(scheme: Scheme, seg: Seq<char>)
    requires
        spec_check_segment(scheme, seg) is Ok,
    ensures
        forall|j: int| 0 <= j < seg.len() ==> #[trigger] is_ascii_char(seg[j]),
        seg.len() > 0,
        !is_dot_segment(seg),
{
    match scheme {
        Scheme::Spiffe => lemma_spiffe_segment_ok(seg, 0),
        Scheme::Wimse => lemma_pchar_segment_ok(seg, 0),
    }
}

/// Every character of an accepted path from `start` on is ASCII, and no `/`-free
/// stretch of it is empty or a dot segment.
proof fn lemma_segments_ok(scheme: Scheme, p: Seq<char>, start: int)
    requires
        1 <= start <= p.len(),
        p[start - 1] == '/',
        spec_check_segments(scheme, p, start) is Ok,
    ensures
        forall|j: int| start <= j < p.len() ==> #[trigger] is_ascii_char(p[j]),
        forall|j: int| start - 1 <= j < p.len() && #[trigger] p[j] == '/' ==> opens_segment(p, j),
    decreases p.len() - start,
{
    let end = find_from(p, '/', start);
    crate::text::lemma_find_from(p, '/', start);
    lemma_segment_ok_ascii(scheme, p.subrange(start, end));
    assert forall|j: int| start <= j < end implies #[trigger] is_ascii_char(p[j]) by {
        assert(p.subrange(start, end)[j - start] == p[j]);
    }
    if end < p.len() {
        lemma_segments_ok(scheme, p, end + 1);
    }
}

/// The `/` at `p[j]` opens a segment that is non-empty and neither `.` nor
/// `..`: the characters up to the next `/` or the end.
pub open spec fn opens_segment(p: Seq<char>, j: int) -> bool {
    let e = find_from(p, '/', j + 1);
    e > j + 1 && !is_dot_segment(p.subrange(j + 1, e))
}

proof fn lemma_prefix_ascii(scheme: Scheme)
    ensures
        forall|i: int|
            0 <= i < scheme_prefix(scheme).len() ==> is_ascii_char(#[trigger] scheme_prefix(scheme)[i]),
        !scheme_prefix(scheme).contains('?'),
        !scheme_prefix(scheme).contains('#'),
{
    let p = scheme_prefix(scheme);
    match scheme {
        Scheme::Spiffe => {
            assert(p =~= seq!['s', 'p', 'i', 'f', 'f', 'e', ':', '/', '/']);
        },
        Scheme::Wimse => {
            assert(p =~= seq!['w', 'i', 'm', 's', 'e', ':', '/', '/']);
        },
    }
}

/// An accepted identifier is entirely ASCII.
pub proof fn lemma_valid_is_ascii(v: IdentifierView)
    requires
        identifier_valid(v),
    ensures
        vstd::utf8::is_ascii_chars(v.uri),
        origin_len(v) <= v.uri.len(),
        v.uri.len() <= MAX_ID_LEN,
{
    let s = v.uri;
    let start = scheme_prefix(v.scheme).len() as int;
    let end = authority_end(v.scheme, s);
    crate::text::lemma_find_from(s, '/', start);
    let td = s.subrange(start, end);
    lemma_first_bad_none(td, 0);
    let path = s.subrange(end, s.len() as int);
    if path.len() > 0 {
        assert(path[0] == '/');
        lemma_segments_ok(v.scheme, path, 1);
    }
    lemma_ascii_len_bound(s);
    lemma_prefix_ascii(v.scheme);
    assert forall|i: int| 0 <= i < s.len() implies '\0' <= #[trigger] s[i] <= '\u{7f}' by {
        if i < start {
            assert(s.take(start)[i] == s[i]);
        } else if i < end {
            assert(td[i - start] == s[i]);
        } else if i > end {
            assert(path[i - end] == s[i]);
            assert(is_ascii_char(path[i - end]));
        }
    }
}

/// An accepted identifier carries no query, fragment, user information or
/// port, has a non-empty lowercase trust domain, and a path whose segments are
/// non-empty and not `.` or `..`: it has no second spelling that RFC 3986
/// normalization would map it to.
pub proof fn lemma_accepted_is_normalized(s: Seq<char>)
    requires
        spec_parse(s) is Ok,
    ensures
        ({
            let scheme = spec_parse(s)->Ok_0;
            let start = scheme_prefix(scheme).len() as int;
            let end = authority_end(scheme, s);
            &&& has_prefix(s, scheme_prefix(scheme))
            &&& !s.contains('?')
            &&& !s.contains('#')
            &&& start < end <= s.len()
            &&& forall|j: int| start <= j < end ==> is_trust_domain_char(#[trigger] s[j])
            &&& end < s.len() ==> s[end] == '/'
        }),
{
    let scheme = spec_parse(s)->Ok_0;
    let start = scheme_prefix(scheme).len() as int;
    let end = authority_end(scheme, s);
    crate::text::lemma_find_from(s, '/', start);
    let td = s.subrange(start, end);
    let rest = s.subrange(start, s.len() as int);
    lemma_first_bad_none(td, 0);
    assert forall|j: int| start <= j < end implies is_trust_domain_char(#[trigger] s[j]) by {
        assert(td[j - start] == s[j]);
    }
    assert(!s.contains('?')) by {
        if s.contains('?') {
            let j = choose|j: int| 0 <= j < s.len() && s[j] == '?';
            if j < start {
                assert(s.take(start)[j] == s[j]);
                assert(scheme_prefix(scheme)[j] != '?');
            } else {
                assert(rest[j - start] == s[j]);
            }
        }
    }
    assert(!s.contains('#')) by {
        if s.contains('#') {
            let j = choose|j: int| 0 <= j < s.len() && s[j] == '#';
            if j < start {
                assert(s.take(start)[j] == s[j]);
                assert(scheme_prefix(scheme)[j] != '#');
            } else {
                assert(rest[j - start] == s[j]);
            }
        }
    }
}

/// Parsing is a function of the text alone: whatever two inputs spell the
/// same characters get the same verdict, and an accepted identifier's own text
/// parses again to its scheme with the trust domain ending where it did.
pub proof fn lemma_reparse(v: IdentifierView, other: Seq<char>)
    requires
        identifier_valid(v),
        other == v.uri,
    ensures
        spec_parse(other) == Ok::<Scheme, ParseError>(v.scheme),
        authority_end(v.scheme, other) == origin_len(v),
{
}

/// A verdict that only the checks after the length and scheme can give.
pub open spec fn later_verdict(r: Result<(), ParseError>) -> bool {
    r is Ok || (r != Err::<(), ParseError>(ParseError::TooLong) && r != Err::<(), ParseError>(
        ParseError::UnsupportedScheme,
    ))
}

proof fn lemma_spiffe_segment_later(seg: Seq<char>, i: int)
    ensures
        later_verdict(spec_check_spiffe_segment(seg, i)),
    decreases seg.len() - i,
{
    if i < seg.len() && is_spiffe_path_char(seg[i]) {
        lemma_spiffe_segment_later(seg, i + 1);
    }
}

proof fn lemma_pchar_segment_later(seg: Seq<char>, i: int)
    ensures
        later_verdict(spec_check_pchar_segment(seg, i)),
    decreases seg.len() - i,
{
    if i < seg.len() {
        if seg[i] == '%' {
            if i + 2 < seg.len() {
                lemma_pchar_segment_later(seg, i + 3);
            }
        } else {
            lemma_pchar_segment_later(seg, i + 1);
        }
    }
}

proof fn lemma_segments_later(scheme: Scheme, p: Seq<char>, start: int)
    ensures
        later_verdict(spec_check_segments(scheme, p, start)),
    decreases p.len() - start,
{
    if 0 <= start <= p.len() {
        let end = find_from(p, '/', start);
        let seg = p.subrange(start, end);
        lemma_spiffe_segment_later(seg, 0);
        lemma_pchar_segment_later(seg, 0);
        crate::text::lemma_find_from(p, '/', start);
        if end < p.len() && end >= start {
            lemma_segments_later(scheme, p, end + 1);
        }
    }
}

/// The first verdicts of parsing: an input is too long exactly when it has
/// more than [`MAX_ID_LEN`] bytes; one that is not too long has an unsupported
/// scheme exactly when it starts with neither `spiffe://` nor `wimse://`; and
/// one that has a scheme's prefix and a `?` after it carries a query.
pub proof fn lemma_parse_first_verdicts(s: Seq<char>)
    ensures
        (spec_parse(s) == Err::<Scheme, ParseError>(ParseError::TooLong)) == (encode_utf8(s).len()
            > MAX_ID_LEN),
        (spec_parse(s) == Err::<Scheme, ParseError>(ParseError::UnsupportedScheme)) == (
        encode_utf8(s).len() <= MAX_ID_LEN && !has_prefix(s, scheme_prefix(Scheme::Spiffe))
            && !has_prefix(s, scheme_prefix(Scheme::Wimse))),
        forall|scheme: Scheme|
            encode_utf8(s).len() <= MAX_ID_LEN && #[trigger] has_prefix(s, scheme_prefix(scheme))
                && s.subrange(scheme_prefix(scheme).len() as int, s.len() as int).contains('?')
                ==> spec_parse(s) == Err::<Scheme, ParseError>(ParseError::HasQuery),
{
    lemma_prefix_ascii(Scheme::Spiffe);
    lemma_prefix_ascii(Scheme::Wimse);
    assert(!(has_prefix(s, scheme_prefix(Scheme::Spiffe)) && has_prefix(s, scheme_prefix(Scheme::Wimse)))) by {
        if has_prefix(s, scheme_prefix(Scheme::Spiffe)) && has_prefix(s, scheme_prefix(Scheme::Wimse)) {
            assert(s.take(9)[0] == s[0]);
            assert(s.take(8)[0] == s[0]);
            assert(scheme_prefix(Scheme::Spiffe)[0] == 's');
            assert(scheme_prefix(Scheme::Wimse)[0] == 'w');
        }
    }
    if encode_utf8(s).len() <= MAX_ID_LEN && (has_prefix(s, scheme_prefix(Scheme::Spiffe))
        || has_prefix(s, scheme_prefix(Scheme::Wimse))) {
        let scheme = if has_prefix(s, scheme_prefix(Scheme::Spiffe)) {
            Scheme::Spiffe
        } else {
            Scheme::Wimse
        };
        let start = scheme_prefix(scheme).len() as int;
        let end = authority_end(scheme, s);
        crate::text::lemma_find_from(s, '/', start);
        lemma_segments_later(scheme, s.subrange(end, s.len() as int), 1);
    }
}

/// The origin and the path partition the identifier; the origin is the
/// scheme's prefix (`spiffe://` or `wimse://`) followed by the trust domain,
/// which is non-empty, in `[a-z0-9._-]`, and for `spiffe` at most
/// [`MAX_TRUST_DOMAIN_LEN`] bytes; the path is empty or starts with `/`, and
/// every `/` in it opens a non-empty segment that is neither `.` nor `..`.
pub proof fn lemma_origin_and_path_partition(v: IdentifierView)
    requires
        identifier_valid(v),
    ensures
        v.uri.take(origin_len(v)) + v.uri.subrange(origin_len(v), v.uri.len() as int) == v.uri,
        has_prefix(v.uri, scheme_name(v.scheme)),
        v.trust_domain_len > 0,
        ({
            let start = scheme_prefix(v.scheme).len() as int;
            let td = v.uri.subrange(start, origin_len(v));
            let path = v.uri.subrange(origin_len(v), v.uri.len() as int);
            &&& v.uri.take(origin_len(v)) == scheme_prefix(v.scheme) + td
            &&& forall|i: int| 0 <= i < td.len() ==> is_trust_domain_char(#[trigger] td[i])
            &&& v.scheme == Scheme::Spiffe ==> encode_utf8(td).len() <= MAX_TRUST_DOMAIN_LEN
            &&& path.len() == 0 || path[0] == '/'
            &&& forall|j: int| 0 <= j < path.len() && #[trigger] path[j] == '/' ==> opens_segment(path, j)
        }),
{
    lemma_valid_is_ascii(v);
    let start = scheme_prefix(v.scheme).len() as int;
    crate::text::lemma_find_from(v.uri, '/', start);
    let td = v.uri.subrange(start, origin_len(v));
    let path = v.uri.subrange(origin_len(v), v.uri.len() as int);
    lemma_first_bad_none(td, 0);
    assert(v.uri.take(origin_len(v)) =~= v.uri.take(start) + td);
    if path.len() > 0 {
        assert(path[0] == '/');
        lemma_segments_ok(v.scheme, path, 1);
    }
    assert(v.uri.take(origin_len(v)) + v.uri.subrange(origin_len(v), v.uri.len() as int)
        =~= v.uri);
    assert(v.uri.take(scheme_name(v.scheme).len() as int) =~= scheme_name(v.scheme)) by {
        assert(v.uri.take(start) == scheme_prefix(v.scheme));
        assert forall|i: int| 0 <= i < scheme_name(v.scheme).len() implies v.uri.take(
            scheme_name(v.scheme).len() as int,
        )[i] == scheme_name(v.scheme)[i] by {
            assert(v.uri.take(start)[i] == v.uri[i]);
        }
    }
}

} // verus!
