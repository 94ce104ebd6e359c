//! Validation of the HTTP request pieces a user types on the command line
//! before they are signed or verified: header fields, the authority, the
//! path, the method, the signature label, and covered-component lists.
//!
//! Each check keeps stray characters (CR, LF, `:`, spaces) out of the
//! signature base, so a request cannot be signed differently from how it
//! reads.

use vstd::prelude::*;

use crate::httpsig::message::{
    Component, ComponentView, HttpRequest, RequestView, component_eq, component_equiv,
    headers_view, quoted_id_spec,
};
use crate::httpsig::params::components_view;
use crate::httpsig::signature::covers;
use crate::jose::opt_view;
use crate::text::{
    chars_of, eq_ignore_case, find_char, find_from, lemma_find_from, lemma_find_from_unique,
    owned, spec_lower_seq, str_eq, str_eq_ignore_case, string_from_chars, string_from_range,
    to_lower, trim, trim_chars, trim_str,
};

verus! {

broadcast use vstd::string::group_string_axioms;

/// Why an input was refused, as a value.
pub enum InputFailure {
    HeaderForm,
    HeaderName(Seq<char>),
    HeaderValue(Seq<char>),
    EmptyAuthority,
    AuthorityChars,
    PathStart,
    PathChars,
    Method,
    Label,
    DerivedComponent(Seq<char>),
    HeaderComponent(Seq<char>),
    EmptyComponentList,
    NotCovered(Seq<char>),
}

/// An input the command line refuses.
#[derive(Debug, Clone, PartialEq, Eq)]
pub enum InputError {
    /// A header was not given as `Name: Value`.
    HeaderForm,
    /// A header name is not an HTTP token.
    HeaderName(String),
    /// A header value holds a control character other than tab.
    HeaderValue(String),
    /// The authority is empty.
    EmptyAuthority,
    /// The authority holds `/`, `?`, `#`, a space or a control character.
    AuthorityChars,
    /// The path does not start with `/`.
    PathStart,
    /// The path holds a query or a fragment.
    PathChars,
    /// The method is not an HTTP token.
    Method,
    /// The label is not a structured-field key.
    Label,
    /// A derived component other than `@method`, `@authority`, `@path` or
    /// `@query`.
    DerivedComponent(String),
    /// A header component whose name is not an HTTP token.
    HeaderComponent(String),
    /// The component list names nothing.
    EmptyComponentList,
    /// A component the profile requires is not covered.
    NotCovered(String),
}

impl View for InputError {
    type V = InputFailure;

    open spec fn view(&self) -> InputFailure {
        match self {
            InputError::HeaderForm => InputFailure::HeaderForm,
            InputError::HeaderName(n) => InputFailure::HeaderName(n@),
            InputError::HeaderValue(n) => InputFailure::HeaderValue(n@),
            InputError::EmptyAuthority => InputFailure::EmptyAuthority,
            InputError::AuthorityChars => InputFailure::AuthorityChars,
            InputError::PathStart => InputFailure::PathStart,
            InputError::PathChars => InputFailure::PathChars,
            InputError::Method => InputFailure::Method,
            InputError::Label => InputFailure::Label,
            InputError::DerivedComponent(n) => InputFailure::DerivedComponent(n@),
            InputError::HeaderComponent(n) => InputFailure::HeaderComponent(n@),
            InputError::EmptyComponentList => InputFailure::EmptyComponentList,
            InputError::NotCovered(n) => InputFailure::NotCovered(n@),
        }
    }
}

pub open spec fn str_result(r: Result<String, InputError>) -> Result<Seq<char>, InputFailure> {
    match r {
        Ok(s) => Ok(s@),
        Err(e) => Err(e@),
    }
}

// ---------------------------------------------------------------------------
// Tokens and field values.
// ---------------------------------------------------------------------------

/// An RFC 9110 `tchar`.
pub open spec fn is_tchar(c: char) -> bool {
    ('a' <= c && c <= 'z') || ('A' <= c && c <= 'Z') || ('0' <= c && c <= '9') || c == '!' || c
        == '#' || c == '$' || c == '%' || c == '&' || c == '\'' || c == '*' || c == '+' || c
        == '-' || c == '.' || c == '^' || c == '_' || c == '`' || c == '|' || c == '~'
}

/// A non-empty run of `tchar`s: an HTTP field name or method.
pub open spec fn valid_token(s: Seq<char>) -> bool {
    s.len() > 0 && forall|i: int| 0 <= i < s.len() ==> is_tchar(#[trigger] s[i])
}

/// An ASCII control character (`char::is_ascii_control`).
pub open spec fn is_control(c: char) -> bool {
    c <= '\u{1f}' || c == '\u{7f}'
}

/// No ASCII control characters other than horizontal tab.
pub open spec fn valid_field_value(s: Seq<char>) -> bool {
    forall|i: int| 0 <= i < s.len() ==> #[trigger] s[i] == '\t' || !is_control(s[i])
}

fn char_is_tchar(c: char) -> (r: bool)
    ensures
        r == is_tchar(c),
{
    ('a' <= c && c <= 'z') || ('A' <= c && c <= 'Z') || ('0' <= c && c <= '9') || c == '!' || c
        == '#' || c == '$' || c == '%' || c == '&' || c == '\'' || c == '*' || c == '+' || c
        == '-' || c == '.' || c == '^' || c == '_' || c == '`' || c == '|' || c == '~'
}

/// Whether `name` is a valid HTTP field name — a non-empty run of RFC 9110
/// `tchar`s.
pub fn is_valid_header_name(name: &str) -> (r: bool)
    ensures
        r == valid_token(name@),
{
    let v: Vec<char> = chars_of(name);
    if v.len() == 0 {
        return false;
    }
    let mut i: usize = 0;
    while i < v.len()
        invariant
            v@ == name@,
            i <= v@.len(),
            forall|j: int| 0 <= j < i ==> is_tchar(#[trigger] v@[j]),
        decreases v@.len() - i,
    {
        if !char_is_tchar(v[i]) {
            return false;
        }
        i = i + 1;
    }
    true
}

/// Whether `value` is an acceptable HTTP field value: no ASCII control
/// characters other than horizontal tab (which also excludes CR and LF).
pub fn is_valid_header_value(value: &str) -> (r: bool)
    ensures
        r == valid_field_value(value@),
{
    let v: Vec<char> = chars_of(value);
    let mut i: usize = 0;
    while i < v.len()
        invariant
            v@ == value@,
            i <= v@.len(),
            forall|j: int| 0 <= j < i ==> #[trigger] v@[j] == '\t' || !is_control(v@[j]),
        decreases v@.len() - i,
    {
        let c: char = v[i];
        if !(c == '\t' || !(c <= '\u{1f}' || c == '\u{7f}')) {
            return false;
        }
        i = i + 1;
    }
    true
}

/// What [`parse_header`] makes of `Name: Value`: split at the first `:`, both
/// sides trimmed, the name a token and the value free of control characters.
pub open spec fn header_spec(s: Seq<char>) -> Result<(Seq<char>, Seq<char>), InputFailure> {
    let colon = find_from(s, ':', 0);
    if colon >= s.len() {
        Err(InputFailure::HeaderForm)
    } else {
        let name = trim(s.subrange(0, colon));
        let value = trim(s.subrange(colon + 1, s.len() as int));
        if !valid_token(name) {
            Err(InputFailure::HeaderName(name))
        } else if !valid_field_value(value) {
            Err(InputFailure::HeaderValue(name))
        } else {
            Ok((name, value))
        }
    }
}

/// Parses a `Name: Value` header given on the command line.
pub fn parse_header(spec: &str) -> (r: Result<(String, String), InputError>)
    ensures
        match r {
            Ok(p) => header_spec(spec@) == Ok::<_, InputFailure>((p.0@, p.1@)),
            Err(e) => header_spec(spec@) == Err::<(Seq<char>, Seq<char>), _>(e@),
        },
{
    let v: Vec<char> = chars_of(spec);
    let colon: usize = find_char(&v, ':', 0);
    if colon >= v.len() {
        return Err(InputError::HeaderForm);
    }
    let name: String = trim_str(string_from_range(&v, 0, colon).as_str());
    if !is_valid_header_name(name.as_str()) {
        return Err(InputError::HeaderName(name));
    }
    let value: String = trim_str(string_from_range(&v, colon + 1, v.len()).as_str());
    if !is_valid_header_value(value.as_str()) {
        return Err(InputError::HeaderValue(name));
    }
    Ok((name, value))
}

// ---------------------------------------------------------------------------
// Request pieces.
// ---------------------------------------------------------------------------

/// What [`checked_authority`] decides: trimmed, non-empty, free of `/`, `?`,
/// `#`, spaces and control characters, and lowercased (RFC 9421 Section
/// 2.2.2).
pub open spec fn authority_spec(raw: Seq<char>) -> Result<Seq<char>, InputFailure> {
    let a = trim(raw);
    if a.len() == 0 {
        Err(InputFailure::EmptyAuthority)
    } else if exists|i: int|
        0 <= i < a.len() && (#[trigger] a[i] == '/' || a[i] == '?' || a[i] == '#' || a[i] == ' '
            || is_control(a[i])) {
        Err(InputFailure::AuthorityChars)
    } else {
        Ok(spec_lower_seq(a))
    }
}

/// Validates a request authority and returns it lowercased.
pub fn checked_authority(raw: &str) -> (r: Result<String, InputError>)
    ensures
        str_result(r) == authority_spec(raw@),
{
    let v0: Vec<char> = chars_of(raw);
    let a: Vec<char> = trim_chars(&v0);
    if a.len() == 0 {
        return Err(InputError::EmptyAuthority);
    }
    let mut i: usize = 0;
    while i < a.len()
        invariant
            a@ == trim(raw@),
            i <= a@.len(),
            forall|j: int|
                0 <= j < i ==> !(#[trigger] a@[j] == '/' || a@[j] == '?' || a@[j] == '#' || a@[j]
                    == ' ' || is_control(a@[j])),
        decreases a@.len() - i,
    {
        let c: char = a[i];
        if c == '/' || c == '?' || c == '#' || c == ' ' || c <= '\u{1f}' || c == '\u{7f}' {
            return Err(InputError::AuthorityChars);
        }
        i = i + 1;
    }
    let s: String = string_from_chars(&a);
    Ok(to_lower(s.as_str()))
}

/// What [`checked_path`] decides: trimmed, starting with `/`, and without a
/// query or fragment — `@path` is the absolute path only.
pub open spec fn path_spec(raw: Seq<char>) -> Result<Seq<char>, InputFailure> {
    let p = trim(raw);
    if !(p.len() > 0 && p[0] == '/') {
        Err(InputFailure::PathStart)
    } else if p.contains('?') || p.contains('#') {
        Err(InputFailure::PathChars)
    } else {
        Ok(p)
    }
}

/// Validates a request path.
pub fn checked_path(raw: &str) -> (r: Result<String, InputError>)
    ensures
        str_result(r) == path_spec(raw@),
{
    let v0: Vec<char> = chars_of(raw);
    let p: Vec<char> = trim_chars(&v0);
    if p.len() == 0 || p[0] != '/' {
        return Err(InputError::PathStart);
    }
    let q: usize = find_char(&p, '?', 0);
    let h: usize = find_char(&p, '#', 0);
    proof {
        lemma_find_from(p@, '?', 0);
        lemma_find_from(p@, '#', 0);
        if q < p@.len() {
            assert(p@.contains('?')) by {
                assert(p@[q as int] == '?');
            }
        }
        if h < p@.len() {
            assert(p@.contains('#')) by {
                assert(p@[h as int] == '#');
            }
        }
    }
    if q < p.len() || h < p.len() {
        return Err(InputError::PathChars);
    }
    Ok(string_from_chars(&p))
}

/// What [`checked_method`] decides: a trimmed, non-empty HTTP token, taken
/// as-is (RFC 9421 Section 2.2.1 performs no case transformation).
pub open spec fn method_spec(raw: Seq<char>) -> Result<Seq<char>, InputFailure> {
    if valid_token(trim(raw)) {
        Ok(trim(raw))
    } else {
        Err(InputFailure::Method)
    }
}

/// Validates an HTTP method.
pub fn checked_method(raw: &str) -> (r: Result<String, InputError>)
    ensures
        str_result(r) == method_spec(raw@),
{
    let m: String = trim_str(raw);
    if !is_valid_header_name(m.as_str()) {
        return Err(InputError::Method);
    }
    Ok(m)
}

/// A structured-field key: a lowercase letter or `*`, then `[a-z0-9_.*-]`.
pub open spec fn valid_key(l: Seq<char>) -> bool {
    &&& l.len() > 0
    &&& (('a' <= l[0] && l[0] <= 'z') || l[0] == '*')
    &&& forall|i: int|
        1 <= i < l.len() ==> ('a' <= #[trigger] l[i] && l[i] <= 'z') || ('0' <= l[i] && l[i]
            <= '9') || l[i] == '_' || l[i] == '-' || l[i] == '.' || l[i] == '*'
}

/// What [`checked_label`] decides.
pub open spec fn label_spec(raw: Seq<char>) -> Result<Seq<char>, InputFailure> {
    if valid_key(trim(raw)) {
        Ok(trim(raw))
    } else {
        Err(InputFailure::Label)
    }
}

/// Validates a signature label as an RFC 8941 structured-field key.
pub fn checked_label(raw: &str) -> (r: Result<String, InputError>)
    ensures
        str_result(r) == label_spec(raw@),
{
    let v0: Vec<char> = chars_of(raw);
    let l: Vec<char> = trim_chars(&v0);
    if l.len() == 0 || !(('a' <= l[0] && l[0] <= 'z') || l[0] == '*') {
        return Err(InputError::Label);
    }
    let mut i: usize = 1;
    while i < l.len()
        invariant
            l@ == trim(raw@),
            1 <= i <= l@.len(),
            forall|j: int|
                1 <= j < i ==> ('a' <= #[trigger] l@[j] && l@[j] <= 'z') || ('0' <= l@[j] && l@[j]
                    <= '9') || l@[j] == '_' || l@[j] == '-' || l@[j] == '.' || l@[j] == '*',
        decreases l@.len() - i,
    {
        let c: char = l[i];
        if !(('a' <= c && c <= 'z') || ('0' <= c && c <= '9') || c == '_' || c == '-' || c == '.'
            || c == '*') {
            return Err(InputError::Label);
        }
        i = i + 1;
    }
    Ok(string_from_chars(&l))
}

// ---------------------------------------------------------------------------
// Components.
// ---------------------------------------------------------------------------

/// What [`parse_component`] makes of a token: `@method`, `@authority`,
/// `@path` or `@query` in any case, or a header name (lowercased).
pub open spec fn component_spec(token: Seq<char>) -> Result<ComponentView, InputFailure> {
    let t = trim(token);
    if t.len() > 0 && t[0] == '@' {
        let d = spec_lower_seq(t.drop_first());
        if d == "method"@ {
            Ok(ComponentView::Method)
        } else if d == "authority"@ {
            Ok(ComponentView::Authority)
        } else if d == "path"@ {
            Ok(ComponentView::Path)
        } else if d == "query"@ {
            Ok(ComponentView::Query)
        } else {
            Err(InputFailure::DerivedComponent(d))
        }
    } else if !valid_token(t) {
        Err(InputFailure::HeaderComponent(t))
    } else {
        Ok(ComponentView::Header(spec_lower_seq(t)))
    }
}

pub open spec fn component_result(r: Result<Component, InputError>) -> Result<ComponentView, InputFailure> {
    match r {
        Ok(c) => Ok(c@),
        Err(e) => Err(e@),
    }
}

/// Parses one entry of a `--cover` or `--require` list.
pub fn parse_component(token: &str) -> (r: Result<Component, InputError>)
    ensures
        component_result(r) == component_spec(token@),
{
    let v0: Vec<char> = chars_of(token);
    let t: Vec<char> = trim_chars(&v0);
    if t.len() > 0 && t[0] == '@' {
        let rest: String = string_from_range(&t, 1, t.len());
        assert(rest@ =~= t@.drop_first());
        let d: String = to_lower(rest.as_str());
        let ds: &str = d.as_str();
        if str_eq(ds, "method") {
            Ok(Component::Method)
        } else if str_eq(ds, "authority") {
            Ok(Component::Authority)
        } else if str_eq(ds, "path") {
            Ok(Component::Path)
        } else if str_eq(ds, "query") {
            Ok(Component::Query)
        } else {
            Err(InputError::DerivedComponent(d))
        }
    } else {
        let name: String = string_from_chars(&t);
        if !is_valid_header_name(name.as_str()) {
            return Err(InputError::HeaderComponent(name));
        }
        // `Component::header` lowercases the name (RFC 9421 Section 2.1).
        Ok(Component::header(name.as_str()))
    }
}

/// `s` split at every `,` (`str::split(',')`).
pub open spec fn split_commas(s: Seq<char>) -> Seq<Seq<char>>
    decreases s.len(),
{
    let i = find_from(s, ',', 0);
    if i >= s.len() {
        seq![s]
    } else {
        proof {
            lemma_find_from(s, ',', 0);
        }
        seq![s.subrange(0, i)] + split_commas(s.subrange(i + 1, s.len() as int))
    }
}

/// The components the pieces of a list name, empty pieces skipped; the first
/// bad one stops it.
pub open spec fn components_fold(pieces: Seq<Seq<char>>) -> Result<Seq<ComponentView>, InputFailure>
    decreases pieces.len(),
{
    if pieces.len() == 0 {
        Ok(seq![])
    } else {
        match components_fold(pieces.drop_last()) {
            Err(e) => Err(e),
            Ok(cs) => if trim(pieces.last()).len() == 0 {
                Ok(cs)
            } else {
                match component_spec(pieces.last()) {
                    Ok(c) => Ok(cs.push(c)),
                    Err(e) => Err(e),
                }
            },
        }
    }
}

/// What [`parse_components`] makes of a comma-separated list.
pub open spec fn components_spec(list: Seq<char>) -> Result<Seq<ComponentView>, InputFailure> {
    match components_fold(split_commas(list)) {
        Err(e) => Err(e),
        Ok(cs) => if cs.len() == 0 {
            Err(InputFailure::EmptyComponentList)
        } else {
            Ok(cs)
        },
    }
}

proof fn lemma_split_commas_step(s: Seq<char>, start: int)
    requires
        0 <= start <= s.len(),
    ensures
        ({
            let t = s.subrange(start, s.len() as int);
            let i = find_from(s, ',', start);
            &&& start <= i <= s.len()
            &&& i < s.len() ==> split_commas(t) == seq![s.subrange(start, i)] + split_commas(
                s.subrange(i + 1, s.len() as int),
            )
            &&& i >= s.len() ==> split_commas(t) == seq![t]
        }),
{
    let t = s.subrange(start, s.len() as int);
    let i = find_from(s, ',', start);
    lemma_find_from(s, ',', start);
    assert forall|j: int| 0 <= j < i - start implies t[j] != ',' by {
        assert(t[j] == s[start + j]);
    }
    if i < s.len() {
        assert(t[i - start] == s[i]);
    }
    lemma_find_from_unique(t, ',', 0, i - start);
    if i < s.len() {
        assert(t.subrange(0, i - start) =~= s.subrange(start, i));
        assert(t.subrange(i - start + 1, t.len() as int) =~= s.subrange(i + 1, s.len() as int));
    }
}

proof fn lemma_components_fold_err(ps: Seq<Seq<char>>, i: int, j: int)
    requires
        0 <= i <= j <= ps.len(),
        components_fold(ps.take(i)) is Err,
    ensures
        components_fold(ps.take(j)) == components_fold(ps.take(i)),
    decreases j - i,
{
    if i < j {
        lemma_components_fold_err(ps, i, j - 1);
        assert(ps.take(j).drop_last() =~= ps.take(j - 1));
    }
}

fn split_commas_exec(s: &Vec<char>) -> (r: Vec<String>)
    ensures
        r@.map_values(|x: String| x@) == split_commas(s@),
{
    let mut out: Vec<String> = Vec::new();
    let mut start: usize = 0;
    assert(s@.subrange(0, s@.len() as int) =~= s@);
    assert(out@.map_values(|x: String| x@) =~= Seq::<Seq<char>>::empty());
    loop
        invariant
            start <= s@.len(),
            out@.map_values(|x: String| x@) + split_commas(s@.subrange(start as int, s@.len() as int))
                == split_commas(s@),
        decreases s@.len() - start,
    {
        let i: usize = find_char(s, ',', start);
        proof {
            lemma_split_commas_step(s@, start as int);
        }
        let piece: String = string_from_range(s, start, i);
        let ghost before: Seq<Seq<char>> = out@.map_values(|x: String| x@);
        out.push(piece);
        assert(out@.map_values(|x: String| x@) =~= before.push(piece@));
        if i >= s.len() {
            assert(piece@ =~= s@.subrange(start as int, s@.len() as int));
            assert(before + seq![piece@] =~= before.push(piece@));
            return out;
        }
        assert(before + (seq![piece@] + split_commas(s@.subrange(i + 1, s@.len() as int)))
            =~= before.push(piece@) + split_commas(s@.subrange(i + 1, s@.len() as int)));
        start = i + 1;
    }
}

/// Parses a comma-separated component list; empty entries are skipped, and
/// the list must name at least one component.
pub fn parse_components(list: &str) -> (r: Result<Vec<Component>, InputError>)
    ensures
        match r {
            Ok(cs) => components_spec(list@) == Ok::<Seq<ComponentView>, InputFailure>(
                components_view(cs@),
            ),
            Err(e) => components_spec(list@) == Err::<Seq<ComponentView>, InputFailure>(e@),
        },
{
    let v: Vec<char> = chars_of(list);
    let pieces: Vec<String> = split_commas_exec(&v);
    let ghost ps: Seq<Seq<char>> = pieces@.map_values(|x: String| x@);
    let mut out: Vec<Component> = Vec::new();
    let mut i: usize = 0;
    assert(ps.take(0) =~= Seq::<Seq<char>>::empty());
    assert(components_view(out@) =~= Seq::<ComponentView>::empty());
    while i < pieces.len()
        invariant
            i <= pieces@.len(),
            ps == pieces@.map_values(|x: String| x@),
            ps == split_commas(list@),
            components_fold(ps.take(i as int)) == Ok::<Seq<ComponentView>, InputFailure>(
                components_view(out@),
            ),
        decreases pieces@.len() - i,
    {
        assert(ps.take(i + 1).drop_last() =~= ps.take(i as int));
        assert(ps.take(i + 1).last() == pieces@[i as int]@);
        let t: String = trim_str(pieces[i].as_str());
        if !t.as_str().is_empty() {
            match parse_component(pieces[i].as_str()) {
                Ok(c) => {
                    let ghost before: Seq<ComponentView> = components_view(out@);
                    out.push(c);
                    assert(components_view(out@) =~= before.push(c@));
                },
                Err(e) => {
                    proof {
                        lemma_components_fold_err(ps, i + 1, ps.len() as int);
                        assert(ps.take(ps.len() as int) =~= ps);
                    }
                    return Err(e);
                },
            }
        }
        i = i + 1;
    }
    assert(ps.take(ps.len() as int) =~= ps);
    if out.len() == 0 {
        return Err(InputError::EmptyComponentList);
    }
    Ok(out)
}

/// Whether any header is named `name`, in any case.
pub open spec fn has_header_spec(h: Seq<(Seq<char>, Seq<char>)>, name: Seq<char>) -> bool {
    exists|i: int| 0 <= i < h.len() && eq_ignore_case(#[trigger] h[i].0, name)
}

/// Whether the message carries a header named `name`, in any case.
pub fn has_header(headers: &Vec<(String, String)>, name: &str) -> (r: bool)
    ensures
        r == has_header_spec(headers_view(headers@), name@),
{
    let ghost hv: Seq<(Seq<char>, Seq<char>)> = headers_view(headers@);
    let mut i: usize = 0;
    while i < headers.len()
        invariant
            i <= headers@.len(),
            hv == headers_view(headers@),
            forall|j: int| 0 <= j < i ==> !eq_ignore_case(#[trigger] hv[j].0, name@),
        decreases headers@.len() - i,
    {
        if str_eq_ignore_case(headers[i].0.as_str(), name) {
            assert(hv[i as int].0 == headers@[i as int].0@);
            return true;
        }
        i = i + 1;
    }
    false
}

/// The headers a WIMSE signature must cover whenever the message carries
/// them (Section 3 of `draft-ietf-wimse-http-signature`).
pub open spec fn conditional_headers() -> Seq<Seq<char>> {
    seq![
        "content-type"@,
        "content-digest"@,
        "authorization"@,
        "txn-token"@,
        "workload-identity-token"@,
    ]
}

/// The conditional headers, among the first `k`, that the message carries.
pub open spec fn carried(h: Seq<(Seq<char>, Seq<char>)>, k: int) -> Seq<ComponentView>
    decreases k,
{
    if k <= 0 {
        seq![]
    } else {
        let rest = carried(h, k - 1);
        if has_header_spec(h, conditional_headers()[k - 1]) {
            rest.push(ComponentView::Header(spec_lower_seq(conditional_headers()[k - 1])))
        } else {
            rest
        }
    }
}

/// The components a WIMSE request signature must cover: `@method`,
/// `@request-target`, and every conditional header the message carries, in
/// the order [`conditional_headers`] lists them.
pub open spec fn mandatory_spec(h: Seq<(Seq<char>, Seq<char>)>) -> Seq<ComponentView> {
    seq![ComponentView::Method, ComponentView::RequestTarget] + carried(h, 5)
}

/// The components a WIMSE request signature must cover. `@authority` is
/// deliberately not among them: the target service is bound by `wimse-aud`.
pub fn mandatory_components(headers: &Vec<(String, String)>) -> (r: Vec<Component>)
    ensures
        components_view(r@) == mandatory_spec(headers_view(headers@)),
{
    let names: [&str; 5] = [
        "content-type",
        "content-digest",
        "authorization",
        "txn-token",
        "workload-identity-token",
    ];
    let ghost hv: Seq<(Seq<char>, Seq<char>)> = headers_view(headers@);
    assert(names@[0]@ == conditional_headers()[0]);
    assert(names@[1]@ == conditional_headers()[1]);
    assert(names@[2]@ == conditional_headers()[2]);
    assert(names@[3]@ == conditional_headers()[3]);
    assert(names@[4]@ == conditional_headers()[4]);
    let mut out: Vec<Component> = Vec::new();
    out.push(Component::Method);
    out.push(Component::RequestTarget);
    let mut k: usize = 0;
    assert(components_view(out@) =~= seq![ComponentView::Method, ComponentView::RequestTarget]
        + carried(hv, 0));
    while k < 5
        invariant
            k <= 5,
            hv == headers_view(headers@),
            names@.len() == 5,
            forall|j: int| 0 <= j < 5 ==> (#[trigger] names@[j])@ == conditional_headers()[j],
            components_view(out@) == seq![ComponentView::Method, ComponentView::RequestTarget]
                + carried(hv, k as int),
        decreases 5 - k,
    {
        let name: &str = names[k];
        let ghost before: Seq<ComponentView> = components_view(out@);
        if has_header(headers, name) {
            out.push(Component::header(name));
            assert(components_view(out@) =~= before.push(
                ComponentView::Header(spec_lower_seq(name@)),
            ));
        }
        k = k + 1;
    }
    out
}

/// A WIMSE request signature must cover `@method`, `@request-target`, and
/// each of `content-type`, `content-digest`, `authorization`, `txn-token` and
/// `workload-identity-token` that the message carries (in any case); nothing
/// else is mandatory.
pub proof fn lemma_mandatory_covers_carried_headers(h: Seq<(Seq<char>, Seq<char>)>)
    ensures
        mandatory_spec(h).contains(ComponentView::Method),
        mandatory_spec(h).contains(ComponentView::RequestTarget),
        has_header_spec(h, "content-type"@) ==> mandatory_spec(h).contains(ComponentView::Header("content-type"@)),
        has_header_spec(h, "content-digest"@) ==> mandatory_spec(h).contains(ComponentView::Header("content-digest"@)),
        has_header_spec(h, "authorization"@) ==> mandatory_spec(h).contains(ComponentView::Header("authorization"@)),
        has_header_spec(h, "txn-token"@) ==> mandatory_spec(h).contains(ComponentView::Header("txn-token"@)),
        has_header_spec(h, "workload-identity-token"@) ==> mandatory_spec(h).contains(
            ComponentView::Header("workload-identity-token"@),
        ),
        forall|i: int|
            0 <= i < mandatory_spec(h).len() ==> #[trigger] mandatory_spec(h)[i] == ComponentView::Method
                || mandatory_spec(h)[i] == ComponentView::RequestTarget || exists|n: Seq<char>|
                mandatory_spec(h)[i] == ComponentView::Header(n) && has_header_spec(h, n),
{
    reveal_strlit("content-type");
    reveal_strlit("content-digest");
    reveal_strlit("authorization");
    reveal_strlit("txn-token");
    reveal_strlit("workload-identity-token");
    let names = conditional_headers();
    assert forall|k: int| 0 <= k < 5 implies spec_lower_seq(#[trigger] names[k]) == names[k] by {
        assert(spec_lower_seq(names[k]) =~= names[k]);
    }
    lemma_carried(h, 5);
    let m = mandatory_spec(h);
    assert(m[0] == ComponentView::Method);
    assert(m[1] == ComponentView::RequestTarget);
    assert forall|k: int| 0 <= k < 5 && has_header_spec(h, names[k]) implies m.contains(
        ComponentView::Header(#[trigger] names[k]),
    ) by {
        let j = choose|j: int| 0 <= j < carried(h, 5).len() && carried(h, 5)[j] == ComponentView::Header(
            spec_lower_seq(names[k]),
        );
        assert(m[j + 2] == carried(h, 5)[j]);
    }
    assert(names[0] == "content-type"@);
    assert(names[1] == "content-digest"@);
    assert(names[2] == "authorization"@);
    assert(names[3] == "txn-token"@);
    assert(names[4] == "workload-identity-token"@);
    assert forall|i: int| 0 <= i < m.len() implies #[trigger] m[i] == ComponentView::Method
        || m[i] == ComponentView::RequestTarget || exists|n: Seq<char>|
        m[i] == ComponentView::Header(n) && has_header_spec(h, n) by {
        if i >= 2 {
            assert(m[i] == carried(h, 5)[i - 2]);
        }
    }
}

/// The entries of [`carried`]: each conditional header among the first `k`
/// that the message carries appears, in lower case, and nothing else does.
proof fn lemma_carried(h: Seq<(Seq<char>, Seq<char>)>, k: int)
    requires
        0 <= k <= 5,
        forall|j: int| 0 <= j < 5 ==> spec_lower_seq(#[trigger] conditional_headers()[j]) == conditional_headers()[j],
    ensures
        forall|j: int| 0 <= j < k && has_header_spec(h, #[trigger] conditional_headers()[j]) ==> exists|p: int|
            0 <= p < carried(h, k).len() && carried(h, k)[p] == ComponentView::Header(
                spec_lower_seq(conditional_headers()[j]),
            ),
        forall|p: int| 0 <= p < carried(h, k).len() ==> exists|n: Seq<char>|
            #[trigger] carried(h, k)[p] == ComponentView::Header(n) && has_header_spec(h, n),
    decreases k,
{
    if k > 0 {
        lemma_carried(h, k - 1);
        let rest = carried(h, k - 1);
        let name = conditional_headers()[k - 1];
        if has_header_spec(h, name) {
            let c = rest.push(ComponentView::Header(spec_lower_seq(name)));
            assert(carried(h, k) == c);
            assert forall|j: int| 0 <= j < k && has_header_spec(h, #[trigger] conditional_headers()[j]) implies exists|p: int|
                0 <= p < c.len() && c[p] == ComponentView::Header(spec_lower_seq(conditional_headers()[j])) by {
                if j < k - 1 {
                    let p = choose|p: int| 0 <= p < rest.len() && rest[p] == ComponentView::Header(
                        spec_lower_seq(conditional_headers()[j]),
                    );
                    assert(c[p] == rest[p]);
                } else {
                    assert(c[rest.len() as int] == ComponentView::Header(spec_lower_seq(name)));
                }
            }
            assert forall|p: int| 0 <= p < c.len() implies exists|n: Seq<char>|
                #[trigger] c[p] == ComponentView::Header(n) && has_header_spec(h, n) by {
                if p < rest.len() {
                    assert(c[p] == rest[p]);
                } else {
                    assert(spec_lower_seq(name) == name);
                    assert(c[p] == ComponentView::Header(name));
                }
            }
        } else {
            assert(carried(h, k) == rest);
            assert forall|j: int| 0 <= j < k && has_header_spec(h, #[trigger] conditional_headers()[j]) implies exists|p: int|
                0 <= p < rest.len() && rest[p] == ComponentView::Header(spec_lower_seq(conditional_headers()[j])) by {
                assert(j != k - 1);
            }
        }
    }
}

/// The first component of `mandatory` that `set` does not cover, if any.
pub open spec fn covers_check(set: Seq<ComponentView>, mandatory: Seq<ComponentView>) -> Result<
    (),
    InputFailure,
>
    decreases mandatory.len(),
{
    if mandatory.len() == 0 {
        Ok(())
    } else {
        match covers_check(set, mandatory.drop_last()) {
            Err(e) => Err(e),
            Ok(_) => if covers(set, mandatory.last()) {
                Ok(())
            } else {
                Err(InputFailure::NotCovered(quoted_id_spec(mandatory.last())))
            },
        }
    }
}

proof fn lemma_covers_err(set: Seq<ComponentView>, ms: Seq<ComponentView>, i: int, j: int)
    requires
        0 <= i <= j <= ms.len(),
        covers_check(set, ms.take(i)) is Err,
    ensures
        covers_check(set, ms.take(j)) == covers_check(set, ms.take(i)),
    decreases j - i,
{
    if i < j {
        lemma_covers_err(set, ms, i, j - 1);
        assert(ms.take(j).drop_last() =~= ms.take(j - 1));
    }
}

fn covered(set: &Vec<Component>, c: &Component) -> (r: bool)
    ensures
        r == covers(components_view(set@), c@),
{
    let ghost v: Seq<ComponentView> = components_view(set@);
    let mut j: usize = 0;
    while j < set.len()
        invariant
            j <= set@.len(),
            v == components_view(set@),
            forall|k: int| 0 <= k < j ==> !component_equiv(#[trigger] v[k], c@),
        decreases set@.len() - j,
    {
        if component_eq(&set[j], c) {
            assert(component_equiv(v[j as int], c@));
            return true;
        }
        j = j + 1;
    }
    false
}

/// Errors unless every component in `mandatory` is covered by `set`.
pub fn ensure_covers(set: &Vec<Component>, mandatory: &Vec<Component>) -> (r: Result<(), InputError>)
    ensures
        match r {
            Ok(_) => covers_check(components_view(set@), components_view(mandatory@)) == Ok::<
                (),
                InputFailure,
            >(()),
            Err(e) => covers_check(components_view(set@), components_view(mandatory@)) == Err::<
                (),
                InputFailure,
            >(e@),
        },
{
    let ghost sv: Seq<ComponentView> = components_view(set@);
    let ghost mv: Seq<ComponentView> = components_view(mandatory@);
    let mut i: usize = 0;
    assert(mv.take(0) =~= Seq::<ComponentView>::empty());
    while i < mandatory.len()
        invariant
            i <= mandatory@.len(),
            sv == components_view(set@),
            mv == components_view(mandatory@),
            covers_check(sv, mv.take(i as int)) == Ok::<(), InputFailure>(()),
        decreases mandatory@.len() - i,
    {
        assert(mv.take(i + 1).drop_last() =~= mv.take(i as int));
        assert(mv.take(i + 1).last() == mandatory@[i as int]@);
        if !covered(set, &mandatory[i]) {
            proof {
                lemma_covers_err(sv, mv, i + 1, mv.len() as int);
                assert(mv.take(mv.len() as int) =~= mv);
            }
            return Err(InputError::NotCovered(mandatory[i].quoted_id()));
        }
        i = i + 1;
    }
    assert(mv.take(mv.len() as int) =~= mv);
    Ok(())
}

/// `s` without any leading `c` (`str::trim_start_matches(c)`).
pub open spec fn strip_leading(s: Seq<char>, c: char) -> Seq<char>
    decreases s.len(),
{
    if s.len() > 0 && s[0] == c {
        strip_leading(s.drop_first(), c)
    } else {
        s
    }
}

proof fn lemma_strip_leading(s: Seq<char>, c: char, k: int)
    requires
        0 <= k <= s.len(),
        forall|i: int| 0 <= i < k ==> s[i] == c,
        k < s.len() ==> s[k] != c,
    ensures
        strip_leading(s, c) == s.subrange(k, s.len() as int),
    decreases k,
{
    if k > 0 {
        lemma_strip_leading(s.drop_first(), c, k - 1);
        assert(s.drop_first().subrange(k - 1, s.len() - 1) =~= s.subrange(k, s.len() as int));
    } else {
        assert(s.subrange(0, s.len() as int) =~= s);
    }
}

fn query_value(q: &str) -> (r: String)
    ensures
        r@ == strip_leading(trim(q@), '?'),
{
    let v0: Vec<char> = chars_of(q);
    let t: Vec<char> = trim_chars(&v0);
    let mut k: usize = 0;
    while k < t.len() && t[k] == '?'
        invariant
            k <= t@.len(),
            forall|i: int| 0 <= i < k ==> t@[i] == '?',
        decreases t@.len() - k,
    {
        k = k + 1;
    }
    proof {
        lemma_strip_leading(t@, '?', k as int);
    }
    string_from_range(&t, k, t.len())
}

/// The request [`build_request`] builds, or why it refuses the pieces: the
/// method first, then the authority, then the path.
pub open spec fn request_spec(
    method: Seq<char>,
    authority: Seq<char>,
    path: Seq<char>,
    query: Option<Seq<char>>,
    headers: Seq<(Seq<char>, Seq<char>)>,
) -> Result<RequestView, InputFailure> {
    match method_spec(method) {
        Err(e) => Err(e),
        Ok(m) => match authority_spec(authority) {
            Err(e) => Err(e),
            Ok(a) => match path_spec(path) {
                Err(e) => Err(e),
                Ok(p) => Ok(
                    RequestView {
                        method: m,
                        authority: a,
                        path: p,
                        query: match query {
                            Some(q) => Some(strip_leading(trim(q), '?')),
                            None => None,
                        },
                        headers,
                    },
                ),
            },
        },
    }
}

/// Builds and normalizes a request the same way for signing and
/// verification: the method is a validated token taken as-is, the authority
/// is lowercased, and leading `?` are stripped from the query.
pub fn build_request(
    method: &str,
    authority: &str,
    path: &str,
    query: Option<&str>,
    headers: Vec<(String, String)>,
) -> (r: Result<HttpRequest, InputError>)
    ensures
        match r {
            Ok(req) => request_spec(
                method@,
                authority@,
                path@,
                match query {
                    Some(q) => Some(q@),
                    None => None,
                },
                headers_view(headers@),
            ) == Ok::<RequestView, InputFailure>(req@),
            Err(e) => request_spec(
                method@,
                authority@,
                path@,
                match query {
                    Some(q) => Some(q@),
                    None => None,
                },
                headers_view(headers@),
            ) is Err && request_spec(
                method@,
                authority@,
                path@,
                match query {
                    Some(q) => Some(q@),
                    None => None,
                },
                headers_view(headers@),
            )->Err_0 == e@,
        },
{
    let m: String = match checked_method(method) {
        Ok(m) => m,
        Err(e) => return Err(e),
    };
    let a: String = match checked_authority(authority) {
        Ok(a) => a,
        Err(e) => return Err(e),
    };
    let p: String = match checked_path(path) {
        Ok(p) => p,
        Err(e) => return Err(e),
    };
    let q: Option<String> = match query {
        Some(q) => Some(query_value(q)),
        None => None,
    };
    Ok(HttpRequest { method: m, authority: a, path: p, query: q, headers })
}

} // verus!
