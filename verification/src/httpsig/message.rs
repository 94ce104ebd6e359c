//! Minimal HTTP request and response models, and the covered-component values
//! derived from them (RFC 9421 Section 2).

use vstd::prelude::*;

use crate::crypto::{b64_encode, base64_encoded, is_base64_char, sha256, sha256_digest};
use crate::jose::opt_view;
use crate::text::{
    chars_of, eq_ignore_case, find_char, find_from, owned, push_char, push_decimal, push_str, spec_lower_seq, str_eq,
    str_eq_ignore_case, string_from_range, to_lower, trim, trim_str, decimal,
};

verus! {

broadcast use vstd::string::group_string_axioms, vstd::slice::group_slice_axioms;

// ---------------------------------------------------------------------------
// Errors.
// ---------------------------------------------------------------------------

/// Why signing or verifying failed, as a value.
pub enum HttpSigFailure {
    MissingComponent(Seq<char>),
    UnsupportedComponent(Seq<char>),
    InvalidComponentValue(Seq<char>),
    MissingRequiredComponent(Seq<char>),
    UnsupportedAlg(Seq<char>),
    InvalidTimeWindow,
    TooOld,
    Parse(Seq<char>),
    LabelMismatch,
    MalformedSignature,
    InvalidSignature,
    Expired,
    CreatedInFuture,
    MissingParameter(Seq<char>),
    ForbiddenParameter(Seq<char>),
    WrongTag(Seq<char>),
    AudienceMismatch,
    RequestNonceMismatch,
}

/// An error returned while signing or verifying an HTTP message signature.
#[derive(Debug, Clone, PartialEq, Eq)]
pub enum HttpSigError {
    /// A covered component referenced a header field not present in the message.
    MissingComponent(String),
    /// A component identifier is not supported, or cannot be derived from this
    /// kind of message.
    UnsupportedComponent(String),
    /// A component value contained a bare CR or LF, which would corrupt the
    /// signature base.
    InvalidComponentValue(String),
    /// A component required by the verifier was not covered by the signature.
    MissingRequiredComponent(String),
    /// The signature's `alg` parameter was present but not `ed25519`.
    UnsupportedAlg {
        /// The `alg` value that was found.
        found: String,
    },
    /// The signature's `expires` is before its `created`.
    InvalidTimeWindow,
    /// The signature is older than the verifier's `max_age`, or its age could
    /// not be checked.
    TooOld,
    /// The `Signature-Input` or `Signature` field value could not be parsed.
    Parse(String),
    /// The `Signature-Input` and `Signature` used different labels, or the
    /// requested label was absent.
    LabelMismatch,
    /// The signature byte sequence was not valid Base64 or not 64 bytes.
    MalformedSignature,
    /// The signature did not verify against the supplied key.
    InvalidSignature,
    /// The signature's `expires` parameter is in the past.
    Expired,
    /// The signature's `created` parameter is in the future.
    CreatedInFuture,
    /// A parameter the WIMSE profile requires is absent.
    MissingParameter(&'static str),
    /// A parameter the WIMSE profile forbids is present.
    ForbiddenParameter(&'static str),
    /// The `tag` parameter is not the WIMSE tag.
    WrongTag {
        /// The `tag` value that was found.
        found: String,
    },
    /// The signature's `wimse-aud` is not the audience the verifier answers to.
    AudienceMismatch,
    /// A signed response carried back a `wimse-req-nonce` other than the nonce
    /// the client sent.
    RequestNonceMismatch,
}

impl View for HttpSigError {
    type V = HttpSigFailure;

    open spec fn view(&self) -> HttpSigFailure {
        match self {
            HttpSigError::MissingComponent(s) => HttpSigFailure::MissingComponent(s@),
            HttpSigError::UnsupportedComponent(s) => HttpSigFailure::UnsupportedComponent(s@),
            HttpSigError::InvalidComponentValue(s) => HttpSigFailure::InvalidComponentValue(s@),
            HttpSigError::MissingRequiredComponent(s) => HttpSigFailure::MissingRequiredComponent(
                s@,
            ),
            HttpSigError::UnsupportedAlg { found } => HttpSigFailure::UnsupportedAlg(found@),
            HttpSigError::InvalidTimeWindow => HttpSigFailure::InvalidTimeWindow,
            HttpSigError::TooOld => HttpSigFailure::TooOld,
            HttpSigError::Parse(s) => HttpSigFailure::Parse(s@),
            HttpSigError::LabelMismatch => HttpSigFailure::LabelMismatch,
            HttpSigError::MalformedSignature => HttpSigFailure::MalformedSignature,
            HttpSigError::InvalidSignature => HttpSigFailure::InvalidSignature,
            HttpSigError::Expired => HttpSigFailure::Expired,
            HttpSigError::CreatedInFuture => HttpSigFailure::CreatedInFuture,
            HttpSigError::MissingParameter(s) => HttpSigFailure::MissingParameter(s@),
            HttpSigError::ForbiddenParameter(s) => HttpSigFailure::ForbiddenParameter(s@),
            HttpSigError::WrongTag { found } => HttpSigFailure::WrongTag(found@),
            HttpSigError::AudienceMismatch => HttpSigFailure::AudienceMismatch,
            HttpSigError::RequestNonceMismatch => HttpSigFailure::RequestNonceMismatch,
        }
    }
}

/// The message a [`HttpSigError`] is reported with.
pub open spec fn httpsig_message(e: HttpSigError) -> Seq<char> {
    match e {
        HttpSigError::MissingComponent(s) => "covered component `"@ + s@ + "` is not present in the message"@,
        HttpSigError::UnsupportedComponent(s) => "unsupported component identifier `"@ + s@ + "`"@,
        HttpSigError::InvalidComponentValue(s) => "component `"@ + s@ + "` has a value containing CR or LF"@,
        HttpSigError::MissingRequiredComponent(s) => "required component `"@ + s@ + "` is not covered by the signature"@,
        HttpSigError::UnsupportedAlg { found } => "unexpected algorithm `"@ + found@ + "`, expected `ed25519`"@,
        HttpSigError::InvalidTimeWindow => "signature `expires` precedes `created`"@,
        HttpSigError::TooOld => "signature is older than the allowed maximum age"@,
        HttpSigError::Parse(s) => "could not parse structured field: "@ + s@,
        HttpSigError::LabelMismatch => "signature label mismatch"@,
        HttpSigError::MalformedSignature => "malformed signature"@,
        HttpSigError::InvalidSignature => "signature verification failed"@,
        HttpSigError::Expired => "signature has expired"@,
        HttpSigError::CreatedInFuture => "signature created in the future"@,
        HttpSigError::MissingParameter(p) => "the WIMSE profile requires the `"@ + p@ + "` parameter"@,
        HttpSigError::ForbiddenParameter(p) => "the WIMSE profile forbids the `"@ + p@ + "` parameter"@,
        HttpSigError::WrongTag { found } => "unexpected tag `"@ + found@ + "`, expected `wimse-workload-to-workload`"@,
        HttpSigError::AudienceMismatch => "signature audience mismatch"@,
        HttpSigError::RequestNonceMismatch => "the response does not carry back the request's nonce"@,
    }
}

impl HttpSigError {
    /// The message this error is reported with.
    pub fn message(&self) -> (r: String)
        ensures
            r@ == httpsig_message(*self),
    {
        match self {
            HttpSigError::MissingComponent(s) => {
                let mut m: String = owned("covered component `");
                push_str(&mut m, s.as_str());
                push_str(&mut m, "` is not present in the message");
                m
            },
            HttpSigError::UnsupportedComponent(s) => {
                let mut m: String = owned("unsupported component identifier `");
                push_str(&mut m, s.as_str());
                push_str(&mut m, "`");
                m
            },
            HttpSigError::InvalidComponentValue(s) => {
                let mut m: String = owned("component `");
                push_str(&mut m, s.as_str());
                push_str(&mut m, "` has a value containing CR or LF");
                m
            },
            HttpSigError::MissingRequiredComponent(s) => {
                let mut m: String = owned("required component `");
                push_str(&mut m, s.as_str());
                push_str(&mut m, "` is not covered by the signature");
                m
            },
            HttpSigError::UnsupportedAlg { found } => {
                let mut m: String = owned("unexpected algorithm `");
                push_str(&mut m, found.as_str());
                push_str(&mut m, "`, expected `ed25519`");
                m
            },
            HttpSigError::InvalidTimeWindow => owned("signature `expires` precedes `created`"),
            HttpSigError::TooOld => owned("signature is older than the allowed maximum age"),
            HttpSigError::Parse(s) => {
                let mut m: String = owned("could not parse structured field: ");
                push_str(&mut m, s.as_str());
                m
            },
            HttpSigError::LabelMismatch => owned("signature label mismatch"),
            HttpSigError::MalformedSignature => owned("malformed signature"),
            HttpSigError::InvalidSignature => owned("signature verification failed"),
            HttpSigError::Expired => owned("signature has expired"),
            HttpSigError::CreatedInFuture => owned("signature created in the future"),
            HttpSigError::MissingParameter(p) => {
                let mut m: String = owned("the WIMSE profile requires the `");
                push_str(&mut m, *p);
                push_str(&mut m, "` parameter");
                m
            },
            HttpSigError::ForbiddenParameter(p) => {
                let mut m: String = owned("the WIMSE profile forbids the `");
                push_str(&mut m, *p);
                push_str(&mut m, "` parameter");
                m
            },
            HttpSigError::WrongTag { found } => {
                let mut m: String = owned("unexpected tag `");
                push_str(&mut m, found.as_str());
                push_str(&mut m, "`, expected `wimse-workload-to-workload`");
                m
            },
            HttpSigError::AudienceMismatch => owned("signature audience mismatch"),
            HttpSigError::RequestNonceMismatch => owned("the response does not carry back the request's nonce"),
        }
    }
}

/// A string result, by its view.
pub open spec fn str_result(r: Result<String, HttpSigError>) -> Result<Seq<char>, HttpSigFailure> {
    match r {
        Ok(s) => Ok(s@),
        Err(e) => Err(e@),
    }
}

pub(crate) fn parse_error(message: &str) -> (e: HttpSigError)
    ensures
        e@ == HttpSigFailure::Parse(message@),
{
    HttpSigError::Parse(owned(message))
}

// ---------------------------------------------------------------------------
// Components.
// ---------------------------------------------------------------------------

/// A covered component of an HTTP message signature.
///
/// The derived components `@method`, `@authority`, `@path`, `@query`,
/// `@request-target` and `@status` are modeled, plus plain header fields and the
/// `;req` component parameter. `@target-uri` and the other parameters (for
/// example `;sf` or `;key`) are not.
#[derive(Debug)]
pub enum Component {
    /// The request method (`@method`).
    Method,
    /// The request authority (`@authority`), lowercased.
    Authority,
    /// The absolute path (`@path`).
    Path,
    /// The query string including the leading `?` (`@query`).
    Query,
    /// The request target (`@request-target`): the absolute path followed by
    /// `?` and the query when one is present (origin-form).
    RequestTarget,
    /// The response status code (`@status`). Only meaningful on a response.
    Status,
    /// A component taken from the request a response answers, written with
    /// the `;req` parameter — for example `"@method";req`.
    Req(Box<Component>),
    /// A header field, identified by its name.
    Header(String),
}

/// A component, by value.
pub enum ComponentView {
    Method,
    Authority,
    Path,
    Query,
    RequestTarget,
    Status,
    Req(Box<ComponentView>),
    Header(Seq<char>),
}

pub open spec fn component_view(c: Component) -> ComponentView
    decreases c,
{
    match c {
        Component::Method => ComponentView::Method,
        Component::Authority => ComponentView::Authority,
        Component::Path => ComponentView::Path,
        Component::Query => ComponentView::Query,
        Component::RequestTarget => ComponentView::RequestTarget,
        Component::Status => ComponentView::Status,
        Component::Req(inner) => ComponentView::Req(Box::new(component_view(*inner))),
        Component::Header(name) => ComponentView::Header(name@),
    }
}

impl View for Component {
    type V = ComponentView;

    open spec fn view(&self) -> ComponentView {
        component_view(*self)
    }
}

/// Component identity: header names compare case-insensitively, everything
/// else structurally.
pub open spec fn component_equiv(a: ComponentView, b: ComponentView) -> bool
    decreases a,
{
    match a {
        ComponentView::Req(x) => match b {
            ComponentView::Req(y) => component_equiv(*x, *y),
            _ => false,
        },
        ComponentView::Header(x) => match b {
            ComponentView::Header(y) => eq_ignore_case(x, y),
            _ => false,
        },
        ComponentView::Method => b is Method,
        ComponentView::Authority => b is Authority,
        ComponentView::Path => b is Path,
        ComponentView::Query => b is Query,
        ComponentView::RequestTarget => b is RequestTarget,
        ComponentView::Status => b is Status,
    }
}

/// Component equality is an equivalence: reflexive, symmetric and
/// transitive, so `==` on [`Component`] behaves as `Eq` promises.
pub proof fn lemma_component_equiv(a: ComponentView, b: ComponentView, c: ComponentView)
    ensures
        component_equiv(a, a),
        component_equiv(a, b) ==> component_equiv(b, a),
        component_equiv(a, b) && component_equiv(b, c) ==> component_equiv(a, c),
    decreases a,
{
    match a {
        ComponentView::Req(x) => {
            match b {
                ComponentView::Req(y) => match c {
                    ComponentView::Req(z) => lemma_component_equiv(*x, *y, *z),
                    _ => lemma_component_equiv(*x, *y, *y),
                },
                _ => lemma_component_equiv(*x, *x, *x),
            }
        },
        _ => {},
    }
}

/// A header component built from any spelling of a name equals the one
/// built from its lowercase spelling.
pub proof fn lemma_header_case(name: Seq<char>)
    ensures
        component_equiv(
            ComponentView::Header(spec_lower_seq(name)),
            ComponentView::Header(name),
        ),
{
    assert(spec_lower_seq(spec_lower_seq(name)) =~= spec_lower_seq(name));
}

pub(crate) fn component_eq(a: &Component, b: &Component) -> (r: bool)
    ensures
        r == component_equiv(a@, b@),
    decreases a,
{
    match a {
        Component::Req(x) => match b {
            Component::Req(y) => component_eq(x, y),
            _ => false,
        },
        Component::Header(x) => match b {
            Component::Header(y) => str_eq_ignore_case(x.as_str(), y.as_str()),
            _ => false,
        },
        Component::Method => matches!(b, Component::Method),
        Component::Authority => matches!(b, Component::Authority),
        Component::Path => matches!(b, Component::Path),
        Component::Query => matches!(b, Component::Query),
        Component::RequestTarget => matches!(b, Component::RequestTarget),
        Component::Status => matches!(b, Component::Status),
    }
}

// Header names are compared case-insensitively so a component built directly as
// `Component::Header("Content-Type".into())` still matches a parsed, lowercased
// one — for example in `VerifyConfig::required_components`.
impl PartialEq for Component {
    fn eq(&self, other: &Self) -> (r: bool) {
        component_eq(self, other)
    }
}

impl vstd::std_specs::cmp::PartialEqSpecImpl for Component {
    open spec fn obeys_eq_spec() -> bool {
        true
    }

    open spec fn eq_spec(&self, other: &Self) -> bool {
        component_equiv(self@, other@)
    }
}

impl Eq for Component {}

fn clone_component(c: &Component) -> (r: Component)
    ensures
        r@ == c@,
    decreases c,
{
    match c {
        Component::Method => Component::Method,
        Component::Authority => Component::Authority,
        Component::Path => Component::Path,
        Component::Query => Component::Query,
        Component::RequestTarget => Component::RequestTarget,
        Component::Status => Component::Status,
        Component::Req(inner) => Component::Req(Box::new(clone_component(inner))),
        Component::Header(name) => Component::Header(owned(name.as_str())),
    }
}

impl Clone for Component {
    fn clone(&self) -> (r: Self)
        ensures
            r@ == self@,
    {
        clone_component(self)
    }
}

/// The quoted identifier of a component, as it appears in the signature base
/// and the inner list.
pub open spec fn quoted_id_spec(c: ComponentView) -> Seq<char>
    decreases c,
{
    match c {
        ComponentView::Method => "\"@method\""@,
        ComponentView::Authority => "\"@authority\""@,
        ComponentView::Path => "\"@path\""@,
        ComponentView::Query => "\"@query\""@,
        ComponentView::RequestTarget => "\"@request-target\""@,
        ComponentView::Status => "\"@status\""@,
        ComponentView::Req(inner) => quoted_id_spec(*inner) + seq![';', 'r', 'e', 'q'],
        ComponentView::Header(name) => seq!['"'] + name + seq!['"'],
    }
}

/// What [`Component::from_quoted_id`] makes of a token.
pub open spec fn from_quoted_id_spec(t: Seq<char>) -> Result<ComponentView, HttpSigFailure>
    decreases t.len(),
{
    if t.len() >= 4 && t.subrange(t.len() - 4, t.len() as int) == seq![';', 'r', 'e', 'q'] {
        match from_quoted_id_spec(t.subrange(0, t.len() - 4)) {
            Ok(c) => Ok(ComponentView::Req(Box::new(c))),
            Err(e) => Err(e),
        }
    } else if t.len() >= 2 && t[0] == '"' && t.last() == '"' {
        let inner = t.subrange(1, t.len() - 1);
        if inner == "@method"@ {
            Ok(ComponentView::Method)
        } else if inner == "@authority"@ {
            Ok(ComponentView::Authority)
        } else if inner == "@path"@ {
            Ok(ComponentView::Path)
        } else if inner == "@query"@ {
            Ok(ComponentView::Query)
        } else if inner == "@request-target"@ {
            Ok(ComponentView::RequestTarget)
        } else if inner == "@status"@ {
            Ok(ComponentView::Status)
        } else if inner.len() > 0 && inner[0] == '@' {
            Err(HttpSigFailure::UnsupportedComponent(inner))
        } else {
            Ok(ComponentView::Header(spec_lower_seq(inner)))
        }
    } else if t.len() >= 2 && t[0] == '"' && find_from(t, '"', 1) + 1 < t.len() && t[find_from(
        t,
        '"',
        1,
    ) + 1] == ';' {
        Err(HttpSigFailure::UnsupportedComponent(t))
    } else {
        Err(HttpSigFailure::Parse("not a quoted component identifier"@))
    }
}

/// A parsed component, by its view.
pub open spec fn component_result(r: Result<Component, HttpSigError>) -> Result<
    ComponentView,
    HttpSigFailure,
> {
    match r {
        Ok(c) => Ok(c@),
        Err(e) => Err(e@),
    }
}

fn ends_with_req(v: &Vec<char>) -> (r: bool)
    ensures
        r == (v@.len() >= 4 && v@.subrange(v@.len() - 4, v@.len() as int) == seq![
            ';',
            'r',
            'e',
            'q',
        ]),
{
    let n: usize = v.len();
    if n < 4 {
        return false;
    }
    let r: bool = v[n - 4] == ';' && v[n - 3] == 'r' && v[n - 2] == 'e' && v[n - 1] == 'q';
    proof {
        let t = v@.subrange(n - 4, n as int);
        if r {
            assert(t =~= seq![';', 'r', 'e', 'q']);
        } else {
            assert(t[0] == v@[n - 4] && t[1] == v@[n - 3] && t[2] == v@[n - 2] && t[3] == v@[n
                - 1]);
        }
    }
    r
}

impl Component {
    /// A header component from any-case `name`.
    pub fn header(name: &str) -> (r: Component)
        ensures
            r@ == ComponentView::Header(spec_lower_seq(name@)),
    {
        Component::Header(to_lower(name))
    }

    /// The quoted component identifier as it appears in the signature base and
    /// the inner list (for example `"@method"` or `"content-type"`).
    pub fn quoted_id(&self) -> (r: String)
        ensures
            r@ == quoted_id_spec(self@),
        decreases self,
    {
        match self {
            Component::Method => owned("\"@method\""),
            Component::Authority => owned("\"@authority\""),
            Component::Path => owned("\"@path\""),
            Component::Query => owned("\"@query\""),
            Component::RequestTarget => owned("\"@request-target\""),
            Component::Status => owned("\"@status\""),
            Component::Req(inner) => {
                // The parameter sits outside the quotes: `"@method";req`.
                let mut s: String = inner.quoted_id();
                push_char(&mut s, ';');
                push_char(&mut s, 'r');
                push_char(&mut s, 'e');
                push_char(&mut s, 'q');
                assert(s@ =~= quoted_id_spec(self@));
                s
            },
            Component::Header(name) => {
                let mut s: String = String::new();
                push_char(&mut s, '"');
                push_str(&mut s, name.as_str());
                push_char(&mut s, '"');
                assert(s@ =~= quoted_id_spec(self@));
                s
            },
        }
    }

    /// Parses a quoted component identifier back into a [`Component`].
    ///
    /// A trailing `;req` is the only component parameter understood: an
    /// identifier this crate does not model, including a quoted identifier
    /// carrying any other parameter, is unsupported; a token that is not a
    /// quoted string does not parse. Header names are lowercased, as RFC 9421
    /// Section 2.1 writes them.
    pub fn from_quoted_id(token: &str) -> (r: Result<Component, HttpSigError>)
        ensures
            component_result(r) == from_quoted_id_spec(token@),
        decreases token@.len(),
    {
        let v: Vec<char> = chars_of(token);
        let n: usize = v.len();
        if ends_with_req(&v) {
            let base: String = string_from_range(&v, 0, n - 4);
            return match Component::from_quoted_id(base.as_str()) {
                Ok(c) => Ok(Component::Req(Box::new(c))),
                Err(e) => Err(e),
            };
        }
        if n < 2 || v[0] != '"' || v[n - 1] != '"' {
            if n >= 2 && v[0] == '"' {
                // A quoted identifier followed by a parameter other than `;req`.
                let close: usize = find_char(&v, '"', 1);
                if close < n - 1 && v[close + 1] == ';' {
                    return Err(HttpSigError::UnsupportedComponent(owned(token)));
                }
            }
            return Err(parse_error("not a quoted component identifier"));
        }
        let inner: String = string_from_range(&v, 1, n - 1);
        let s: &str = inner.as_str();
        if str_eq(s, "@method") {
            Ok(Component::Method)
        } else if str_eq(s, "@authority") {
            Ok(Component::Authority)
        } else if str_eq(s, "@path") {
            Ok(Component::Path)
        } else if str_eq(s, "@query") {
            Ok(Component::Query)
        } else if str_eq(s, "@request-target") {
            Ok(Component::RequestTarget)
        } else if str_eq(s, "@status") {
            Ok(Component::Status)
        } else if n > 2 && v[1] == '@' {
            assert(inner@[0] == v@[1]);
            Err(HttpSigError::UnsupportedComponent(inner))
        } else {
            proof {
                if inner@.len() > 0 {
                    assert(inner@[0] == v@[1]);
                }
            }
            Ok(Component::Header(to_lower(s)))
        }
    }
}

// ---------------------------------------------------------------------------
// Messages.
// ---------------------------------------------------------------------------

/// A minimal HTTP request, sufficient to derive RFC 9421 component values.
#[derive(Debug, Clone)]
pub struct HttpRequest {
    /// The request method, used as-is (case sensitive).
    pub method: String,
    /// The authority (`host[:port]`). It is lowercased for `@authority`, but the
    /// default port is not stripped (the scheme is not modeled), so the caller
    /// must remove a default port (`:80`/`:443`) itself to interoperate.
    pub authority: String,
    /// The absolute path; an empty path derives as `/`.
    pub path: String,
    /// The query string without the leading `?`, if any.
    pub query: Option<String>,
    /// Header fields as `(name, value)` pairs; names may be any case.
    pub headers: Vec<(String, String)>,
}

/// Header fields, by value.
pub open spec fn headers_view(h: Seq<(String, String)>) -> Seq<(Seq<char>, Seq<char>)> {
    h.map_values(|p: (String, String)| (p.0@, p.1@))
}

/// A request, by value.
pub struct RequestView {
    pub method: Seq<char>,
    pub authority: Seq<char>,
    pub path: Seq<char>,
    pub query: Option<Seq<char>>,
    pub headers: Seq<(Seq<char>, Seq<char>)>,
}

impl View for HttpRequest {
    type V = RequestView;

    open spec fn view(&self) -> RequestView {
        RequestView {
            method: self.method@,
            authority: self.authority@,
            path: self.path@,
            query: opt_view(self.query),
            headers: headers_view(self.headers@),
        }
    }
}

/// A minimal HTTP response, sufficient to derive RFC 9421 component values.
#[derive(Debug, Clone)]
pub struct HttpResponse {
    /// The status code, derived as `@status`.
    pub status: u16,
    /// Header fields as `(name, value)` pairs; names may be any case.
    pub headers: Vec<(String, String)>,
}

/// A response together with the request it answers.
///
/// Both are needed to sign or verify a response: `;req` components are taken
/// from the request, which is what stops a signed response being lifted onto a
/// different one.
#[derive(Debug, Clone, Copy)]
pub struct HttpExchange<'a> {
    /// The response being signed or verified.
    pub response: &'a HttpResponse,
    /// The request it answers.
    pub request: &'a HttpRequest,
}

/// The trimmed values of every header field named `name` (in any case), in
/// message order.
pub open spec fn header_values(h: Seq<(Seq<char>, Seq<char>)>, name: Seq<char>) -> Seq<Seq<char>>
    decreases h.len(),
{
    if h.len() == 0 {
        seq![]
    } else {
        let rest = header_values(h.drop_last(), name);
        if eq_ignore_case(h.last().0, name) {
            rest.push(trim(h.last().1))
        } else {
            rest
        }
    }
}

/// `parts` joined with `sep` between neighbours.
pub open spec fn join(parts: Seq<Seq<char>>, sep: Seq<char>) -> Seq<char>
    decreases parts.len(),
{
    if parts.len() == 0 {
        seq![]
    } else if parts.len() == 1 {
        parts[0]
    } else {
        join(parts.drop_last(), sep) + sep + parts.last()
    }
}

pub proof fn lemma_join_push(parts: Seq<Seq<char>>, x: Seq<char>, sep: Seq<char>)
    ensures
        join(parts.push(x), sep) == (if parts.len() == 0 {
            x
        } else {
            join(parts, sep) + sep + x
        }),
{
    assert(parts.push(x).drop_last() =~= parts);
}

/// The RFC 9421 field value for header `name`: every matching field, each
/// trimmed of leading and trailing whitespace, joined with `, `.
pub open spec fn header_value_spec(h: Seq<(Seq<char>, Seq<char>)>, name: Seq<char>) -> Result<
    Seq<char>,
    HttpSigFailure,
> {
    let values = header_values(h, name);
    if values.len() == 0 {
        Err(HttpSigFailure::MissingComponent(name))
    } else {
        Ok(join(values, seq![',', ' ']))
    }
}

fn header_value(headers: &Vec<(String, String)>, name: &str) -> (r: Result<String, HttpSigError>)
    ensures
        str_result(r) == header_value_spec(headers_view(headers@), name@),
{
    let ghost hv: Seq<(Seq<char>, Seq<char>)> = headers_view(headers@);
    let mut out: String = String::new();
    let mut count: usize = 0;
    let mut i: usize = 0;
    assert(hv.take(0) =~= Seq::<(Seq<char>, Seq<char>)>::empty());
    while i < headers.len()
        invariant
            i <= headers@.len(),
            hv == headers_view(headers@),
            count == header_values(hv.take(i as int), name@).len(),
            count <= i,
            out@ == join(header_values(hv.take(i as int), name@), seq![',', ' ']),
        decreases headers@.len() - i,
    {
        let ghost before: Seq<Seq<char>> = header_values(hv.take(i as int), name@);
        let (n, v) = &headers[i];
        assert(hv.take(i + 1).drop_last() =~= hv.take(i as int));
        assert(hv.take(i + 1).last() == (n@, v@));
        if str_eq_ignore_case(n.as_str(), name) {
            let t: String = trim_str(v.as_str());
            proof {
                lemma_join_push(before, t@, seq![',', ' ']);
            }
            if count > 0 {
                push_char(&mut out, ',');
                push_char(&mut out, ' ');
            }
            push_str(&mut out, t.as_str());
            count = count + 1;
            assert(out@ =~= join(before.push(t@), seq![',', ' ']));
        }
        i = i + 1;
    }
    assert(hv.take(headers@.len() as int) =~= hv);
    if count == 0 {
        Err(HttpSigError::MissingComponent(owned(name)))
    } else {
        Ok(out)
    }
}

/// `@path`: the path, or `/` when it is empty.
pub open spec fn path_or_root(path: Seq<char>) -> Seq<char> {
    if path.len() == 0 {
        seq!['/']
    } else {
        path
    }
}

/// The origin-form request target: the path, then `?` and the query only when
/// a query is present.
pub open spec fn request_target_spec(r: RequestView) -> Seq<char> {
    match r.query {
        Some(q) => path_or_root(r.path) + seq!['?'] + q,
        None => path_or_root(r.path),
    }
}

/// The value of a component on a request.
pub open spec fn request_component(r: RequestView, c: ComponentView) -> Result<
    Seq<char>,
    HttpSigFailure,
> {
    match c {
        ComponentView::Method => Ok(r.method),
        ComponentView::Authority => Ok(spec_lower_seq(r.authority)),
        ComponentView::Path => Ok(path_or_root(r.path)),
        ComponentView::Query => Ok(
            seq!['?'] + match r.query {
                Some(q) => q,
                None => Seq::<char>::empty(),
            },
        ),
        ComponentView::RequestTarget => Ok(request_target_spec(r)),
        ComponentView::Header(name) => header_value_spec(r.headers, name),
        // A request has no status, and nothing for `;req` to refer back to.
        _ => Err(HttpSigFailure::UnsupportedComponent(quoted_id_spec(c))),
    }
}

fn path_value(path: &String) -> (r: String)
    ensures
        r@ == path_or_root(path@),
{
    if path.as_str().is_empty() {
        proof {
            reveal_strlit("/");
        }
        owned("/")
    } else {
        owned(path.as_str())
    }
}

impl HttpRequest {
    /// The derived value of `component` for this request.
    pub fn component_value(&self, component: &Component) -> (r: Result<String, HttpSigError>)
        ensures
            str_result(r) == request_component(self@, component@),
    {
        match component {
            Component::Method => Ok(owned(self.method.as_str())),
            Component::Authority => Ok(to_lower(self.authority.as_str())),
            Component::Path => Ok(path_value(&self.path)),
            Component::Query => {
                let mut s: String = String::new();
                push_char(&mut s, '?');
                match &self.query {
                    Some(q) => push_str(&mut s, q.as_str()),
                    None => {},
                }
                assert(s@ =~= seq!['?'] + match self@.query {
                    Some(q) => q,
                    None => Seq::<char>::empty(),
                });
                Ok(s)
            },
            Component::RequestTarget => Ok(self.request_target()),
            Component::Header(name) => header_value(&self.headers, name.as_str()),
            Component::Status | Component::Req(_) => Err(
                HttpSigError::UnsupportedComponent(component.quoted_id()),
            ),
        }
    }

    /// The origin-form request target. Unlike `@query` — which derives as a
    /// bare `?` when there is no query — `@request-target` omits the delimiter
    /// entirely, so `/foo` and `/foo?` stay distinguishable.
    fn request_target(&self) -> (r: String)
        ensures
            r@ == request_target_spec(self@),
    {
        let mut s: String = path_value(&self.path);
        match &self.query {
            Some(q) => {
                push_char(&mut s, '?');
                push_str(&mut s, q.as_str());
            },
            None => {},
        }
        s
    }
}

/// A response, by value.
pub struct ResponseView {
    pub status: u16,
    pub headers: Seq<(Seq<char>, Seq<char>)>,
}

impl View for HttpResponse {
    type V = ResponseView;

    open spec fn view(&self) -> ResponseView {
        ResponseView { status: self.status, headers: headers_view(self.headers@) }
    }
}

/// The value of a component on a response, with `;req` components taken from
/// the request it answers.
pub open spec fn exchange_component(
    response: ResponseView,
    request: RequestView,
    c: ComponentView,
) -> Result<Seq<char>, HttpSigFailure> {
    match c {
        ComponentView::Status => Ok(decimal(response.status as nat)),
        ComponentView::Req(inner) => request_component(request, *inner),
        ComponentView::Header(name) => header_value_spec(response.headers, name),
        // The rest are request-only, and on a response must be written `;req`.
        _ => Err(HttpSigFailure::UnsupportedComponent(quoted_id_spec(c))),
    }
}

/// Something a signature base can read covered component values from.
///
/// Requests and response exchanges resolve components differently, but the
/// signature base is built by one piece of code over this trait.
pub trait ComponentSource {
    /// The value of a component, or why it has none.
    spec fn component_spec(&self, c: ComponentView) -> Result<Seq<char>, HttpSigFailure>;

    /// The derived value of `component` for this message.
    fn component_value(&self, component: &Component) -> (r: Result<String, HttpSigError>)
        ensures
            str_result(r) == self.component_spec(component@),
    ;
}

impl ComponentSource for HttpRequest {
    open spec fn component_spec(&self, c: ComponentView) -> Result<Seq<char>, HttpSigFailure> {
        request_component(self@, c)
    }

    fn component_value(&self, component: &Component) -> (r: Result<String, HttpSigError>) {
        HttpRequest::component_value(self, component)
    }
}

impl<'a> ComponentSource for HttpExchange<'a> {
    open spec fn component_spec(&self, c: ComponentView) -> Result<Seq<char>, HttpSigFailure> {
        exchange_component(self.response@, self.request@, c)
    }

    fn component_value(&self, component: &Component) -> (r: Result<String, HttpSigError>) {
        match component {
            Component::Status => {
                let mut s: String = String::new();
                push_decimal(&mut s, self.response.status as u64);
                assert(s@ =~= decimal(self.response.status as nat));
                Ok(s)
            },
            Component::Req(inner) => self.request.component_value(inner),
            Component::Header(name) => header_value(&self.response.headers, name.as_str()),
            _ => Err(HttpSigError::UnsupportedComponent(component.quoted_id())),
        }
    }
}

// ---------------------------------------------------------------------------
// Content-Digest (RFC 9530).
// ---------------------------------------------------------------------------

/// The `Content-Digest` field value for `body` with SHA-256:
/// `sha-256=:<base64>:`.
pub open spec fn content_digest_spec(body: Seq<u8>) -> Seq<char> {
    "sha-256=:"@ + base64_encoded(sha256_digest(body)) + seq![':']
}

/// Computes a `Content-Digest` field value over `body` using SHA-256, in the
/// RFC 9530 dictionary form `sha-256=:<base64>:`: 54 characters, of which
/// the 44 between the colons are padded standard Base64.
pub fn content_digest_sha256(body: &[u8]) -> (r: String)
    ensures
        r@ == content_digest_spec(body@),
        r@.len() == 54,
        forall|i: int| 9 <= i < 53 ==> is_base64_char(#[trigger] r@[i]),
{
    let digest: [u8; 32] = sha256(body);
    let encoded: String = b64_encode(&digest);
    let mut s: String = owned("sha-256=:");
    push_str(&mut s, encoded.as_str());
    push_char(&mut s, ':');
    proof {
        reveal_strlit("sha-256=:");
        assert(digest@.len() == 32);
        assert(forall|i: int| 9 <= i < 53 ==> s@[i] == encoded@[i - 9]);
    }
    s
}

/// Checks a `Content-Digest` header value against `body` for the SHA-256 form.
///
/// Covering the `content-digest` header in a signature only integrity-protects
/// the header string; to bind the body, the receiver also calls this. True only
/// if `header_value` exactly equals the recomputed digest of `body`; other
/// digest algorithms or multi-member values are not recognized.
pub fn verify_content_digest(header_value: &str, body: &[u8]) -> (r: bool)
    ensures
        r == (header_value@ == content_digest_spec(body@)),
        r ==> header_value@.len() == 54,
{
    let expected: String = content_digest_sha256(body);
    str_eq(header_value, expected.as_str())
}

} // verus!
