//! Parsing the `Signature-Input` and `Signature` field values: single-member
//! RFC 8941 dictionaries holding an inner list with parameters, and a byte
//! sequence.
//!
//! Delimiters are found with RFC 8941 string quoting respected, so a `;` or a
//! `)` inside a `"..."` value is part of the value.

use vstd::prelude::*;

use crate::crypto::{b64_decode, base64_decoded};
use crate::httpsig::message::{
    Component, ComponentView, HttpSigError, HttpSigFailure, component_result, from_quoted_id_spec,
    parse_error, str_result,
};
use crate::httpsig::params::{ParamsView, SignatureParams, components_view, empty_params, no_params};
use crate::text::{
    char_is_ws, chars_of, find_char, find_from, is_ws, lemma_find_from, parse_u64, parse_u64_spec,
    push_char, str_eq, string_from_chars, string_from_range, trim, trim_chars, trim_str,
};

verus! {

broadcast use vstd::string::group_string_axioms, vstd::slice::group_slice_axioms;

/// Strings, by value.
pub open spec fn strings_view(v: Seq<String>) -> Seq<Seq<char>> {
    v.map_values(|s: String| s@)
}

// ---------------------------------------------------------------------------
// Dictionary members.
// ---------------------------------------------------------------------------

/// A single-member dictionary `label=rest`, split at the first `=`: the
/// trimmed, non-empty label and the rest.
pub open spec fn split_member_spec(value: Seq<char>) -> Result<(Seq<char>, Seq<char>), HttpSigFailure> {
    let v = trim(value);
    let eq = find_from(v, '=', 0);
    if eq >= v.len() {
        Err(HttpSigFailure::Parse("missing `=` in dictionary member"@))
    } else if trim(v.subrange(0, eq)).len() == 0 {
        Err(HttpSigFailure::Parse("empty signature label"@))
    } else {
        Ok((trim(v.subrange(0, eq)), v.subrange(eq + 1, v.len() as int)))
    }
}

pub open spec fn pair_result(r: Result<(String, String), HttpSigError>) -> Result<
    (Seq<char>, Seq<char>),
    HttpSigFailure,
> {
    match r {
        Ok(p) => Ok((p.0@, p.1@)),
        Err(e) => Err(e@),
    }
}

fn split_member(value: &str) -> (r: Result<(String, String), HttpSigError>)
    ensures
        pair_result(r) == split_member_spec(value@),
{
    let raw: Vec<char> = chars_of(value);
    let v: Vec<char> = trim_chars(&raw);
    let eq: usize = find_char(&v, '=', 0);
    if eq >= v.len() {
        return Err(parse_error("missing `=` in dictionary member"));
    }
    let head: String = string_from_range(&v, 0, eq);
    let label: String = trim_str(head.as_str());
    if label.as_str().is_empty() {
        return Err(parse_error("empty signature label"));
    }
    let rest: String = string_from_range(&v, eq + 1, v.len());
    Ok((label, rest))
}

// ---------------------------------------------------------------------------
// Quote-aware scanning.
// ---------------------------------------------------------------------------

/// One step of the RFC 8941 string scanner: `(inside a string, after a
/// backslash)`.
pub open spec fn scan_step(st: (bool, bool), c: char) -> (bool, bool) {
    if st.1 {
        (st.0, false)
    } else if st.0 && c == '\\' {
        (true, true)
    } else if c == '"' {
        (!st.0, false)
    } else {
        st
    }
}

/// The scanner state after `s`, starting from `st`.
pub open spec fn scan_from(st: (bool, bool), s: Seq<char>) -> (bool, bool)
    decreases s.len(),
{
    if s.len() == 0 {
        st
    } else {
        scan_step(scan_from(st, s.drop_last()), s.last())
    }
}

/// The scanner state after `s`, starting outside any string.
pub open spec fn scan(s: Seq<char>) -> (bool, bool) {
    scan_from((false, false), s)
}

/// Whether the scanner, in state `st`, takes `c` as an unquoted, unescaped
/// `target`.
pub open spec fn delim(st: (bool, bool), c: char, target: char) -> bool {
    !st.1 && !(st.0 && c == '\\') && c != '"' && c == target && !st.0
}

/// Whether `s[i]` is an unquoted, unescaped `target`.
pub open spec fn unquoted_at(s: Seq<char>, i: int, target: char) -> bool {
    delim(scan(s.take(i)), s[i], target)
}

/// The first unquoted `target` in `s` at or after `i`.
pub open spec fn find_unquoted_spec(s: Seq<char>, target: char, i: int) -> Option<int>
    decreases s.len() - i,
{
    if i >= s.len() {
        None
    } else if unquoted_at(s, i, target) {
        Some(i)
    } else {
        find_unquoted_spec(s, target, i + 1)
    }
}

pub proof fn lemma_find_unquoted(s: Seq<char>, target: char, i: int)
    requires
        0 <= i,
    ensures
        find_unquoted_spec(s, target, i) matches Some(k) ==> i <= k < s.len() && unquoted_at(
            s,
            k,
            target,
        ),
    decreases s.len() - i,
{
    if i < s.len() && !unquoted_at(s, i, target) {
        lemma_find_unquoted(s, target, i + 1);
    }
}

pub open spec fn opt_index(r: Option<usize>) -> Option<int> {
    match r {
        Some(i) => Some(i as int),
        None => None,
    }
}

proof fn lemma_scan_step(s: Seq<char>, i: int)
    requires
        0 <= i < s.len(),
    ensures
        scan(s.take(i + 1)) == scan_step(scan(s.take(i)), s[i]),
{
    assert(s.take(i + 1).drop_last() =~= s.take(i));
}

/// The index of the first unescaped, unquoted `target` in `s`.
fn find_unquoted(s: &Vec<char>, target: char) -> (r: Option<usize>)
    ensures
        opt_index(r) == find_unquoted_spec(s@, target, 0),
{
    let mut in_quotes: bool = false;
    let mut escaped: bool = false;
    let mut i: usize = 0;
    assert(s@.take(0) =~= Seq::<char>::empty());
    while i < s.len()
        invariant
            i <= s@.len(),
            (in_quotes, escaped) == scan(s@.take(i as int)),
            find_unquoted_spec(s@, target, 0) == find_unquoted_spec(s@, target, i as int),
        decreases s@.len() - i,
    {
        let c: char = s[i];
        proof {
            lemma_scan_step(s@, i as int);
        }
        if escaped {
            escaped = false;
        } else if in_quotes && c == '\\' {
            escaped = true;
        } else if c == '"' {
            in_quotes = !in_quotes;
        } else if c == target && !in_quotes {
            return Some(i);
        }
        i = i + 1;
    }
    None
}

/// The pieces of `s[..i]` split at unquoted `sep`, and where the current piece
/// starts.
pub open spec fn split_acc(s: Seq<char>, i: int, sep: char) -> (Seq<Seq<char>>, int)
    decreases i,
{
    if i <= 0 {
        (seq![], 0)
    } else {
        let prev = split_acc(s, i - 1, sep);
        if unquoted_at(s, i - 1, sep) {
            (prev.0.push(s.subrange(prev.1, i - 1)), i)
        } else {
            prev
        }
    }
}

/// `s` split at every unquoted `sep`.
pub open spec fn split_unquoted_spec(s: Seq<char>, sep: char) -> Seq<Seq<char>> {
    let a = split_acc(s, s.len() as int, sep);
    a.0.push(s.subrange(a.1, s.len() as int))
}

/// Splits `s` on unquoted `sep`, keeping delimiters inside `"..."` intact.
fn split_unquoted(s: &Vec<char>, sep: char) -> (r: Vec<String>)
    ensures
        strings_view(r@) == split_unquoted_spec(s@, sep),
{
    let mut parts: Vec<String> = Vec::new();
    let mut start: usize = 0;
    let mut in_quotes: bool = false;
    let mut escaped: bool = false;
    let mut i: usize = 0;
    assert(s@.take(0) =~= Seq::<char>::empty());
    assert(strings_view(parts@) =~= Seq::<Seq<char>>::empty());
    while i < s.len()
        invariant
            start <= i <= s@.len(),
            (in_quotes, escaped) == scan(s@.take(i as int)),
            split_acc(s@, i as int, sep) == (strings_view(parts@), start as int),
        decreases s@.len() - i,
    {
        let c: char = s[i];
        proof {
            lemma_scan_step(s@, i as int);
        }
        if escaped {
            escaped = false;
        } else if in_quotes && c == '\\' {
            escaped = true;
        } else if c == '"' {
            in_quotes = !in_quotes;
        } else if c == sep && !in_quotes {
            let piece: String = string_from_range(s, start, i);
            parts.push(piece);
            start = i + 1;
            assert(strings_view(parts@) =~= split_acc(s@, i as int, sep).0.push(piece@));
        }
        i = i + 1;
    }
    let last: String = string_from_range(s, start, s.len());
    parts.push(last);
    assert(strings_view(parts@) =~= split_unquoted_spec(s@, sep));
    parts
}

/// The whitespace-separated tokens of `s[..i]`, and the start of the token in
/// progress.
pub open spec fn ws_acc(s: Seq<char>, i: int) -> (Seq<Seq<char>>, Option<int>)
    decreases i,
{
    if i <= 0 {
        (seq![], None)
    } else {
        let prev = ws_acc(s, i - 1);
        if is_ws(s[i - 1]) {
            match prev.1 {
                Some(st) => (prev.0.push(s.subrange(st, i - 1)), None),
                None => prev,
            }
        } else {
            match prev.1 {
                Some(st) => prev,
                None => (prev.0, Some(i - 1)),
            }
        }
    }
}

/// The maximal runs of non-whitespace characters of `s` (`str::split_whitespace`).
pub open spec fn split_ws_spec(s: Seq<char>) -> Seq<Seq<char>> {
    let a = ws_acc(s, s.len() as int);
    match a.1 {
        Some(st) => a.0.push(s.subrange(st, s.len() as int)),
        None => a.0,
    }
}

fn split_ws(s: &Vec<char>) -> (r: Vec<String>)
    ensures
        strings_view(r@) == split_ws_spec(s@),
{
    let mut parts: Vec<String> = Vec::new();
    let mut in_token: bool = false;
    let mut start: usize = 0;
    let mut i: usize = 0;
    assert(strings_view(parts@) =~= Seq::<Seq<char>>::empty());
    while i < s.len()
        invariant
            i <= s@.len(),
            in_token ==> start < i,
            ws_acc(s@, i as int) == (strings_view(parts@), if in_token {
                Some(start as int)
            } else {
                None
            }),
        decreases s@.len() - i,
    {
        let c: char = s[i];
        if char_is_ws(c) {
            if in_token {
                let piece: String = string_from_range(s, start, i);
                parts.push(piece);
                in_token = false;
                assert(strings_view(parts@) =~= ws_acc(s@, i as int).0.push(piece@));
            }
        } else if !in_token {
            in_token = true;
            start = i;
        }
        i = i + 1;
    }
    if in_token {
        let piece: String = string_from_range(s, start, s.len());
        parts.push(piece);
        assert(strings_view(parts@) =~= split_ws_spec(s@));
    }
    parts
}

// ---------------------------------------------------------------------------
// Items.
// ---------------------------------------------------------------------------

/// The characters an escaped RFC 8941 string body stands for, if every escape
/// is `\\` or `\"`.
pub open spec fn unescape(s: Seq<char>) -> Option<Seq<char>>
    decreases s.len(),
{
    if s.len() == 0 {
        Some(seq![])
    } else if s[0] == '\\' {
        if s.len() >= 2 && (s[1] == '\\' || s[1] == '"') {
            match unescape(s.subrange(2, s.len() as int)) {
                Some(r) => Some(seq![s[1]] + r),
                None => None,
            }
        } else {
            None
        }
    } else {
        match unescape(s.drop_first()) {
            Some(r) => Some(seq![s[0]] + r),
            None => None,
        }
    }
}

/// What an RFC 8941 string token `"..."` holds.
pub open spec fn sf_unquote(t: Seq<char>) -> Result<Seq<char>, HttpSigFailure> {
    if t.len() >= 2 && t[0] == '"' && t.last() == '"' {
        match unescape(t.subrange(1, t.len() - 1)) {
            Some(r) => Ok(r),
            None => Err(HttpSigFailure::Parse("bad string escape"@)),
        }
    } else {
        Err(HttpSigFailure::Parse("not a string"@))
    }
}

pub open spec fn prepend(p: Seq<char>, o: Option<Seq<char>>) -> Option<Seq<char>> {
    match o {
        Some(r) => Some(p + r),
        None => None,
    }
}

fn parse_sf_string(token: &Vec<char>) -> (r: Result<String, HttpSigError>)
    ensures
        str_result(r) == sf_unquote(token@),
{
    let n: usize = token.len();
    if n < 2 || token[0] != '"' || token[n - 1] != '"' {
        return Err(parse_error("not a string"));
    }
    let ghost inner: Seq<char> = token@.subrange(1, n - 1);
    let m: usize = n - 2;
    let mut out: String = String::new();
    let mut k: usize = 0;
    assert(inner.subrange(0, m as int) =~= inner);
    while k < m
        invariant
            n == token@.len(),
            n >= 2 && token@[0] == '"' && token@[n - 1] == '"',
            m == n - 2,
            inner == token@.subrange(1, n - 1),
            k <= m,
            unescape(inner) == prepend(out@, unescape(inner.subrange(k as int, m as int))),
        decreases m - k,
    {
        let ghost t: Seq<char> = inner.subrange(k as int, m as int);
        let c: char = token[k + 1];
        assert(t[0] == c);
        if c == '\\' {
            if k + 1 < m && (token[k + 2] == '\\' || token[k + 2] == '"') {
                let d: char = token[k + 2];
                assert(t[1] == d);
                assert(t.subrange(2, t.len() as int) =~= inner.subrange(k + 2, m as int));
                let ghost before: Seq<char> = out@;
                push_char(&mut out, d);
                k = k + 2;
                proof {
                    let o = unescape(inner.subrange(k as int, m as int));
                    if o is Some {
                        assert(before + (seq![d] + o->0) =~= out@ + o->0);
                    }
                }
            } else {
                proof {
                    if k + 1 < m {
                        assert(t[1] == token@[k + 2]);
                    }
                    assert(unescape(t) is None);
                    assert(unescape(inner) is None);
                }
                return Err(parse_error("bad string escape"));
            }
        } else {
            assert(t.drop_first() =~= inner.subrange(k + 1, m as int));
            let ghost before: Seq<char> = out@;
            push_char(&mut out, c);
            k = k + 1;
            proof {
                let o = unescape(inner.subrange(k as int, m as int));
                if o is Some {
                    assert(before + (seq![c] + o->0) =~= out@ + o->0);
                }
            }
        }
    }
    assert(inner.subrange(m as int, m as int) =~= Seq::<char>::empty());
    assert(out@ + Seq::<char>::empty() =~= out@);
    Ok(out)
}

/// An RFC 8941 Boolean given explicitly: `?1` or `?0`.
pub open spec fn sf_boolean_spec(raw: Seq<char>) -> Result<bool, HttpSigFailure> {
    if raw == seq!['?', '1'] {
        Ok(true)
    } else if raw == seq!['?', '0'] {
        Ok(false)
    } else {
        Err(HttpSigFailure::Parse("not a boolean"@))
    }
}

fn parse_sf_boolean(raw: &Vec<char>) -> (r: Result<bool, HttpSigError>)
    ensures
        match r {
            Ok(b) => sf_boolean_spec(raw@) == Ok::<bool, HttpSigFailure>(b),
            Err(e) => sf_boolean_spec(raw@) == Err::<bool, HttpSigFailure>(e@),
        },
{
    if raw.len() == 2 && raw[0] == '?' && raw[1] == '1' {
        assert(raw@ =~= seq!['?', '1']);
        Ok(true)
    } else if raw.len() == 2 && raw[0] == '?' && raw[1] == '0' {
        assert(raw@ =~= seq!['?', '0']);
        Ok(false)
    } else {
        proof {
            if raw@.len() == 2 {
                assert(raw@ != seq!['?', '1'] ==> (raw@[0] != '?' || raw@[1] != '1'));
            }
        }
        Err(parse_error("not a boolean"))
    }
}

// ---------------------------------------------------------------------------
// Parameters.
// ---------------------------------------------------------------------------

/// A string parameter's value, stored.
pub open spec fn set_str(p: ParamsView, name: Seq<char>, v: Seq<char>) -> ParamsView {
    if name == "keyid"@ {
        ParamsView { keyid: Some(v), ..p }
    } else if name == "alg"@ {
        ParamsView { alg: Some(v), ..p }
    } else if name == "nonce"@ {
        ParamsView { nonce: Some(v), ..p }
    } else if name == "tag"@ {
        ParamsView { tag: Some(v), ..p }
    } else if name == "wimse-aud"@ {
        ParamsView { wimse_aud: Some(v), ..p }
    } else {
        ParamsView { wimse_req_nonce: Some(v), ..p }
    }
}

/// Whether `name` is a parameter whose value is an RFC 8941 string.
pub open spec fn is_str_param(name: Seq<char>) -> bool {
    name == "keyid"@ || name == "alg"@ || name == "nonce"@ || name == "tag"@ || name
        == "wimse-aud"@ || name == "wimse-req-nonce"@
}

/// What one `;`-separated piece of the parameters does to `p`. Empty pieces
/// and unknown parameters are ignored, per structured-field extensibility; a
/// valueless parameter is a Boolean `true`.
pub open spec fn apply_param_spec(p: ParamsView, piece: Seq<char>) -> Result<ParamsView, HttpSigFailure> {
    let part = trim(piece);
    if part.len() == 0 {
        Ok(p)
    } else if find_from(part, '=', 0) >= part.len() {
        if part == "wimse-sign-response"@ {
            Ok(ParamsView { wimse_sign_response: Some(true), ..p })
        } else {
            Ok(p)
        }
    } else {
        let eq = find_from(part, '=', 0);
        let name = trim(part.subrange(0, eq));
        let raw = trim(part.subrange(eq + 1, part.len() as int));
        if name == "created"@ {
            match parse_u64_spec(trim(raw)) {
                Some(n) => Ok(ParamsView { created: Some(n), ..p }),
                None => Err(HttpSigFailure::Parse("not an integer"@)),
            }
        } else if name == "expires"@ {
            match parse_u64_spec(trim(raw)) {
                Some(n) => Ok(ParamsView { expires: Some(n), ..p }),
                None => Err(HttpSigFailure::Parse("not an integer"@)),
            }
        } else if is_str_param(name) {
            match sf_unquote(raw) {
                Ok(v) => Ok(set_str(p, name, v)),
                Err(e) => Err(e),
            }
        } else if name == "wimse-sign-response"@ {
            match sf_boolean_spec(raw) {
                Ok(b) => Ok(ParamsView { wimse_sign_response: Some(b), ..p }),
                Err(e) => Err(e),
            }
        } else {
            Ok(p)
        }
    }
}

/// The parameters the pieces spell, in order; the first bad one stops it.
pub open spec fn params_fold(parts: Seq<Seq<char>>) -> Result<ParamsView, HttpSigFailure>
    decreases parts.len(),
{
    if parts.len() == 0 {
        Ok(no_params())
    } else {
        match params_fold(parts.drop_last()) {
            Ok(p) => apply_param_spec(p, parts.last()),
            Err(e) => Err(e),
        }
    }
}

/// Once a prefix of the pieces fails, every longer prefix fails the same way.
pub proof fn lemma_params_fold_err(ps: Seq<Seq<char>>, i: int, j: int)
    requires
        0 <= i <= j <= ps.len(),
        params_fold(ps.take(i)) is Err,
    ensures
        params_fold(ps.take(j)) == params_fold(ps.take(i)),
    decreases j - i,
{
    if i < j {
        lemma_params_fold_err(ps, i, j - 1);
        assert(ps.take(j).drop_last() =~= ps.take(j - 1));
    }
}

pub open spec fn params_result(r: Result<SignatureParams, HttpSigError>) -> Result<
    ParamsView,
    HttpSigFailure,
> {
    match r {
        Ok(p) => Ok(p@),
        Err(e) => Err(e@),
    }
}

fn apply_param(p: SignatureParams, piece: &String) -> (r: Result<SignatureParams, HttpSigError>)
    ensures
        params_result(r) == apply_param_spec(p@, piece@),
{
    let raw_piece: Vec<char> = chars_of(piece.as_str());
    let part: Vec<char> = trim_chars(&raw_piece);
    if part.len() == 0 {
        return Ok(p);
    }
    let eq: usize = find_char(&part, '=', 0);
    let mut q: SignatureParams = p;
    if eq >= part.len() {
        let whole: String = string_from_chars(&part);
        if str_eq(whole.as_str(), "wimse-sign-response") {
            q.wimse_sign_response = Some(true);
        }
        return Ok(q);
    }
    let head: String = string_from_range(&part, 0, eq);
    let name: String = trim_str(head.as_str());
    let tail: String = string_from_range(&part, eq + 1, part.len());
    let tail_chars: Vec<char> = chars_of(tail.as_str());
    let raw: Vec<char> = trim_chars(&tail_chars);
    let n: &str = name.as_str();
    if str_eq(n, "created") || str_eq(n, "expires") {
        let digits: Vec<char> = trim_chars(&raw);
        match parse_u64(&digits) {
            Some(v) => {
                if str_eq(n, "created") {
                    q.created = Some(v);
                } else {
                    q.expires = Some(v);
                }
                Ok(q)
            },
            None => Err(parse_error("not an integer")),
        }
    } else if str_eq(n, "keyid") || str_eq(n, "alg") || str_eq(n, "nonce") || str_eq(n, "tag")
        || str_eq(n, "wimse-aud") || str_eq(n, "wimse-req-nonce") {
        match parse_sf_string(&raw) {
            Ok(v) => {
                if str_eq(n, "keyid") {
                    q.keyid = Some(v);
                } else if str_eq(n, "alg") {
                    q.alg = Some(v);
                } else if str_eq(n, "nonce") {
                    q.nonce = Some(v);
                } else if str_eq(n, "tag") {
                    q.tag = Some(v);
                } else if str_eq(n, "wimse-aud") {
                    q.wimse_aud = Some(v);
                } else {
                    q.wimse_req_nonce = Some(v);
                }
                Ok(q)
            },
            Err(e) => Err(e),
        }
    } else if str_eq(n, "wimse-sign-response") {
        match parse_sf_boolean(&raw) {
            Ok(b) => {
                q.wimse_sign_response = Some(b);
                Ok(q)
            },
            Err(e) => Err(e),
        }
    } else {
        Ok(q)
    }
}

/// Parses the parameters after an inner list.
fn parse_params(rest: &Vec<char>) -> (r: Result<SignatureParams, HttpSigError>)
    ensures
        params_result(r) == params_fold(split_unquoted_spec(rest@, ';')),
{
    let parts: Vec<String> = split_unquoted(rest, ';');
    let ghost ps: Seq<Seq<char>> = strings_view(parts@);
    let mut p: SignatureParams = empty_params();
    let mut i: usize = 0;
    assert(ps.take(0) =~= Seq::<Seq<char>>::empty());
    while i < parts.len()
        invariant
            i <= parts@.len(),
            ps == strings_view(parts@),
            ps == split_unquoted_spec(rest@, ';'),
            params_fold(ps.take(i as int)) == Ok::<ParamsView, HttpSigFailure>(p@),
        decreases parts@.len() - i,
    {
        assert(ps.take(i + 1).drop_last() =~= ps.take(i as int));
        assert(ps.take(i + 1).last() == parts@[i as int]@);
        let ghost pv: ParamsView = p@;
        match apply_param(p, &parts[i]) {
            Ok(q) => {
                p = q;
            },
            Err(e) => {
                proof {
                    assert(params_fold(ps.take(i + 1)) == apply_param_spec(pv, ps[i as int]));
                    lemma_params_fold_err(ps, i + 1, ps.len() as int);
                    assert(ps.take(ps.len() as int) =~= ps);
                }
                return Err(e);
            },
        }
        i = i + 1;
    }
    assert(ps.take(ps.len() as int) =~= ps);
    Ok(p)
}

// ---------------------------------------------------------------------------
// Field values.
// ---------------------------------------------------------------------------

/// The components the tokens name, in order; the first bad one stops it.
pub open spec fn components_fold(tokens: Seq<Seq<char>>) -> Result<Seq<ComponentView>, HttpSigFailure>
    decreases tokens.len(),
{
    if tokens.len() == 0 {
        Ok(seq![])
    } else {
        match components_fold(tokens.drop_last()) {
            Ok(cs) => match from_quoted_id_spec(tokens.last()) {
                Ok(c) => Ok(cs.push(c)),
                Err(e) => Err(e),
            },
            Err(e) => Err(e),
        }
    }
}

/// Once a prefix of the tokens fails, every longer prefix fails the same way.
pub proof fn lemma_components_fold_err(ts: Seq<Seq<char>>, i: int, j: int)
    requires
        0 <= i <= j <= ts.len(),
        components_fold(ts.take(i)) is Err,
    ensures
        components_fold(ts.take(j)) == components_fold(ts.take(i)),
    decreases j - i,
{
    if i < j {
        lemma_components_fold_err(ts, i, j - 1);
        assert(ts.take(j).drop_last() =~= ts.take(j - 1));
    }
}

fn parse_components(tokens: &Vec<String>) -> (r: Result<Vec<Component>, HttpSigError>)
    ensures
        match r {
            Ok(cs) => components_fold(strings_view(tokens@)) == Ok::<
                Seq<ComponentView>,
                HttpSigFailure,
            >(components_view(cs@)),
            Err(e) => components_fold(strings_view(tokens@)) == Err::<
                Seq<ComponentView>,
                HttpSigFailure,
            >(e@),
        },
{
    let ghost ts: Seq<Seq<char>> = strings_view(tokens@);
    let mut out: Vec<Component> = Vec::new();
    let mut i: usize = 0;
    assert(ts.take(0) =~= Seq::<Seq<char>>::empty());
    assert(components_view(out@) =~= Seq::<ComponentView>::empty());
    while i < tokens.len()
        invariant
            i <= tokens@.len(),
            ts == strings_view(tokens@),
            components_fold(ts.take(i as int)) == Ok::<Seq<ComponentView>, HttpSigFailure>(
                components_view(out@),
            ),
        decreases tokens@.len() - i,
    {
        assert(ts.take(i + 1).drop_last() =~= ts.take(i as int));
        assert(ts.take(i + 1).last() == tokens@[i as int]@);
        match Component::from_quoted_id(tokens[i].as_str()) {
            Ok(c) => {
                let ghost before: Seq<ComponentView> = components_view(out@);
                out.push(c);
                assert(components_view(out@) =~= before.push(c@));
            },
            Err(e) => {
                proof {
                    lemma_components_fold_err(ts, i + 1, ts.len() as int);
                    assert(ts.take(ts.len() as int) =~= ts);
                }
                return Err(e);
            },
        }
        i = i + 1;
    }
    assert(ts.take(ts.len() as int) =~= ts);
    Ok(out)
}

/// A parsed `Signature-Input` value: the label, the covered components, the
/// parameters, and the verbatim inner list and parameters the base uses.
pub open spec fn parse_input_spec(value: Seq<char>) -> Result<
    (Seq<char>, Seq<ComponentView>, ParamsView, Seq<char>),
    HttpSigFailure,
> {
    match split_member_spec(value) {
        Err(e) => Err(e),
        Ok(m) => {
            let rest = trim(m.1);
            if !(rest.len() > 0 && rest[0] == '(') {
                Err(HttpSigFailure::Parse("inner list must start with `(`"@))
            } else {
                match find_unquoted_spec(rest, ')', 0) {
                    None => Err(HttpSigFailure::Parse("missing `)` in inner list"@)),
                    Some(close) => match components_fold(split_ws_spec(rest.subrange(1, close))) {
                        Err(e) => Err(e),
                        Ok(cs) => match params_fold(
                            split_unquoted_spec(rest.subrange(close + 1, rest.len() as int), ';'),
                        ) {
                            Err(e) => Err(e),
                            Ok(p) => Ok((m.0, cs, p, rest)),
                        },
                    },
                }
            }
        }
    }
}

pub open spec fn input_result(
    r: Result<(String, Vec<Component>, SignatureParams, String), HttpSigError>,
) -> Result<(Seq<char>, Seq<ComponentView>, ParamsView, Seq<char>), HttpSigFailure> {
    match r {
        Ok(t) => Ok((t.0@, components_view(t.1@), t.2@, t.3@)),
        Err(e) => Err(e@),
    }
}

/// Parses a `Signature-Input` field value.
pub fn parse_signature_input(value: &str) -> (r: Result<
    (String, Vec<Component>, SignatureParams, String),
    HttpSigError,
>)
    ensures
        input_result(r) == parse_input_spec(value@),
{
    let (label, rest_raw) = match split_member(value) {
        Ok(m) => m,
        Err(e) => return Err(e),
    };
    let rest_chars: Vec<char> = chars_of(rest_raw.as_str());
    let rest: Vec<char> = trim_chars(&rest_chars);
    if rest.len() == 0 || rest[0] != '(' {
        return Err(parse_error("inner list must start with `(`"));
    }
    // The inner list's closing `)`, ignoring any `)` inside a quoted value.
    let close: usize = match find_unquoted(&rest, ')') {
        Some(c) => c,
        None => return Err(parse_error("missing `)` in inner list")),
    };
    proof {
        lemma_find_unquoted(rest@, ')', 0);
    }
    let inner: Vec<char> = chars_of(string_from_range(&rest, 1, close).as_str());
    let tokens: Vec<String> = split_ws(&inner);
    let components: Vec<Component> = match parse_components(&tokens) {
        Ok(cs) => cs,
        Err(e) => return Err(e),
    };
    let after: Vec<char> = chars_of(string_from_range(&rest, close + 1, rest.len()).as_str());
    let params: SignatureParams = match parse_params(&after) {
        Ok(p) => p,
        Err(e) => return Err(e),
    };
    Ok((label, components, params, string_from_chars(&rest)))
}

/// A parsed `Signature` value: the label and the 64 signature bytes.
pub open spec fn parse_sig_spec(value: Seq<char>) -> Result<(Seq<char>, Seq<u8>), HttpSigFailure> {
    match split_member_spec(value) {
        Err(e) => Err(e),
        Ok(m) => {
            let r = trim(m.1);
            if !(r.len() >= 2 && r[0] == ':' && r.last() == ':') {
                Err(HttpSigFailure::Parse("byte sequence must be wrapped in `:`"@))
            } else {
                match base64_decoded(r.subrange(1, r.len() - 1)) {
                    None => Err(HttpSigFailure::MalformedSignature),
                    Some(b) => if b.len() == 64 {
                        Ok((m.0, b))
                    } else {
                        Err(HttpSigFailure::MalformedSignature)
                    },
                }
            }
        }
    }
}

pub open spec fn sig_result(r: Result<(String, Vec<u8>), HttpSigError>) -> Result<
    (Seq<char>, Seq<u8>),
    HttpSigFailure,
> {
    match r {
        Ok(t) => Ok((t.0@, t.1@)),
        Err(e) => Err(e@),
    }
}

/// Parses a `Signature` field value into its label and 64-byte signature.
pub fn parse_signature(value: &str) -> (r: Result<(String, Vec<u8>), HttpSigError>)
    ensures
        sig_result(r) == parse_sig_spec(value@),
{
    let (label, rest_raw) = match split_member(value) {
        Ok(m) => m,
        Err(e) => return Err(e),
    };
    let rest_chars: Vec<char> = chars_of(rest_raw.as_str());
    let r: Vec<char> = trim_chars(&rest_chars);
    let n: usize = r.len();
    if n < 2 || r[0] != ':' || r[n - 1] != ':' {
        return Err(parse_error("byte sequence must be wrapped in `:`"));
    }
    let b64: String = string_from_range(&r, 1, n - 1);
    match b64_decode(b64.as_str()) {
        None => Err(HttpSigError::MalformedSignature),
        Some(bytes) => {
            if bytes.len() == 64 {
                Ok((label, bytes))
            } else {
                Err(HttpSigError::MalformedSignature)
            }
        },
    }
}

} // verus!
