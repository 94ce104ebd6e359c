//! What [`crate::httpsig::signature::sign`] writes, the field parsers read
//! back: the `Signature-Input` value parses to the label, components and
//! parameters that were signed, and the `Signature` value to the signature
//! bytes.
//!
//! The argument is about the quote-aware scanner: every parameter value is
//! serialized as an RFC 8941 string, which the scanner enters and leaves
//! again, so the only unquoted `)` is the one closing the inner list and the
//! only unquoted `;` are the ones that start a parameter.

use vstd::prelude::*;

use crate::httpsig::fields::{
    apply_param_spec, components_fold, delim, find_unquoted_spec, is_str_param, params_fold,
    parse_input_spec, parse_sig_spec, scan, scan_from, scan_step, set_str, sf_boolean_spec,
    sf_unquote, split_acc, split_member_spec, split_unquoted_spec, split_ws_spec, unescape,
    unquoted_at, ws_acc,
};
use crate::httpsig::message::{ComponentView, component_equiv, from_quoted_id_spec, join, quoted_id_spec};
use crate::httpsig::params::{
    ParamsView, escape, escape_char, inner_list_spec, int_param, no_params, params_suffix,
    params_value_spec, sf_string_spec, sign_response_param, str_param,
};
use crate::text::{
    decimal, find_from, is_digit, is_ws, lemma_decimal, lemma_find_from_unique,
    lemma_parse_decimal, lemma_trim_noop, parse_u64_spec, spec_lower_seq, trim,
};
use crate::crypto::base64_decoded;

verus! {

// ---------------------------------------------------------------------------
// The scanner over concatenations.
// ---------------------------------------------------------------------------

pub proof fn lemma_scan_concat(st: (bool, bool), a: Seq<char>, b: Seq<char>)
    ensures
        scan_from(st, a + b) == scan_from(scan_from(st, a), b),
    decreases b.len(),
{
    if b.len() == 0 {
        assert(a + b =~= a);
    } else {
        assert((a + b).drop_last() =~= a + b.drop_last());
        lemma_scan_concat(st, a, b.drop_last());
        assert((a + b).last() == b.last());
    }
}

/// No character of `t`, scanned from `st`, is an unquoted `target`.
pub open spec fn clean(st: (bool, bool), t: Seq<char>, target: char) -> bool {
    forall|j: int|
        0 <= j < t.len() ==> !#[trigger] delim(scan_from(st, t.take(j)), t[j], target)
}

proof fn lemma_clean_concat(st: (bool, bool), a: Seq<char>, b: Seq<char>, target: char)
    requires
        clean(st, a, target),
        clean(scan_from(st, a), b, target),
    ensures
        clean(st, a + b, target),
        scan_from(st, a + b) == scan_from(scan_from(st, a), b),
{
    lemma_scan_concat(st, a, b);
    assert forall|j: int| 0 <= j < (a + b).len() implies !#[trigger] delim(
        scan_from(st, (a + b).take(j)),
        (a + b)[j],
        target,
    ) by {
        if j < a.len() {
            assert((a + b).take(j) =~= a.take(j));
            assert(!delim(scan_from(st, a.take(j)), a[j], target));
        } else {
            let k = j - a.len();
            assert((a + b).take(j) =~= a + b.take(k));
            lemma_scan_concat(st, a, b.take(k));
            assert(!delim(scan_from(scan_from(st, a), b.take(k)), b[k], target));
        }
    }
}

proof fn lemma_one(st: (bool, bool), c: char, target: char)
    ensures
        scan_from(st, seq![c]) == scan_step(st, c),
        clean(st, seq![c], target) == !delim(st, c, target),
{
    assert(seq![c].drop_last() =~= Seq::<char>::empty());
    assert(seq![c].take(0) =~= Seq::<char>::empty());
    assert(scan_from(st, Seq::<char>::empty()) == st);
    assert(seq![c].last() == c);
    assert(scan_from(st, seq![c]) == scan_step(scan_from(st, seq![c].drop_last()), c));
    if !delim(st, c, target) {
        assert forall|j: int| 0 <= j < 1 implies !#[trigger] delim(
            scan_from(st, seq![c].take(j)),
            seq![c][j],
            target,
        ) by {
            assert(j == 0);
        }
    } else {
        assert(delim(scan_from(st, seq![c].take(0)), seq![c][0], target));
    }
}

/// `s[x.len() + j]`, for `s = x + y`, is read in the state `y[..j]` leaves
/// behind when scanned after `x`.
proof fn lemma_unquoted_at_concat(x: Seq<char>, y: Seq<char>, j: int, target: char)
    requires
        0 <= j < y.len(),
    ensures
        unquoted_at(x + y, x.len() + j, target) == delim(
            scan_from(scan(x), y.take(j)),
            y[j],
            target,
        ),
{
    assert((x + y).take(x.len() + j) =~= x + y.take(j));
    lemma_scan_concat((false, false), x, y.take(j));
}

/// Characters that are neither quotes nor `target`, outside a string.
proof fn lemma_plain(t: Seq<char>, target: char)
    requires
        forall|i: int| 0 <= i < t.len() ==> t[i] != '"' && t[i] != target,
    ensures
        scan_from((false, false), t) == (false, false),
        clean((false, false), t, target),
    decreases t.len(),
{
    if t.len() > 0 {
        lemma_plain(t.drop_last(), target);
        assert(clean((false, false), t.drop_last(), target));
        lemma_one((false, false), t.last(), target);
        assert(t =~= t.drop_last() + seq![t.last()]);
        lemma_clean_concat((false, false), t.drop_last(), seq![t.last()], target);
    }
}

/// Characters that are neither quotes nor backslashes, inside a string.
proof fn lemma_quoted_plain(t: Seq<char>, target: char)
    requires
        forall|i: int| 0 <= i < t.len() ==> t[i] != '"' && t[i] != '\\',
    ensures
        scan_from((true, false), t) == (true, false),
        clean((true, false), t, target),
    decreases t.len(),
{
    if t.len() > 0 {
        lemma_quoted_plain(t.drop_last(), target);
        lemma_one((true, false), t.last(), target);
        assert(t =~= t.drop_last() + seq![t.last()]);
        lemma_clean_concat((true, false), t.drop_last(), seq![t.last()], target);
    }
}

/// An escaped string body leaves the scanner inside the string.
proof fn lemma_escape_scan(v: Seq<char>, target: char)
    ensures
        scan_from((true, false), escape(v)) == (true, false),
        clean((true, false), escape(v), target),
    decreases v.len(),
{
    if v.len() == 0 {
        assert(escape(v) =~= Seq::<char>::empty());
        assert(clean((true, false), escape(v), target));
    } else {
        let c = v[0];
        lemma_escape_scan(v.drop_first(), target);
        if c == '\\' || c == '"' {
            lemma_one((true, false), '\\', target);
            lemma_one((true, true), c, target);
            assert(seq!['\\', c] =~= seq!['\\'] + seq![c]);
            lemma_clean_concat((true, false), seq!['\\'], seq![c], target);
        } else {
            lemma_one((true, false), c, target);
        }
        lemma_clean_concat((true, false), escape_char(c), escape(v.drop_first()), target);
    }
}

/// An RFC 8941 string enters and leaves the scanner's string state.
proof fn lemma_sf_string_scan(v: Seq<char>, target: char)
    ensures
        scan_from((false, false), sf_string_spec(v)) == (false, false),
        clean((false, false), sf_string_spec(v), target),
{
    lemma_one((false, false), '"', target);
    lemma_escape_scan(v, target);
    lemma_clean_concat((false, false), seq!['"'], escape(v), target);
    lemma_one((true, false), '"', target);
    lemma_clean_concat((false, false), seq!['"'] + escape(v), seq!['"'], target);
}

// ---------------------------------------------------------------------------
// Components.
// ---------------------------------------------------------------------------

/// A header name that reads back as itself: lowercase, not starting with `@`,
/// with no quote, backslash or whitespace.
pub open spec fn header_name_ok(n: Seq<char>) -> bool {
    &&& spec_lower_seq(n) == n
    &&& !(n.len() > 0 && n[0] == '@')
    &&& forall|i: int| 0 <= i < n.len() ==> n[i] != '"' && n[i] != '\\' && !is_ws(#[trigger] n[i])
}

/// A component whose quoted identifier reads back as itself.
pub open spec fn component_ok(c: ComponentView) -> bool
    decreases c,
{
    match c {
        ComponentView::Req(inner) => component_ok(*inner),
        ComponentView::Header(n) => header_name_ok(n),
        _ => true,
    }
}

/// A token with no whitespace, which the inner list scans in and out of.
pub open spec fn token_ok(t: Seq<char>) -> bool {
    &&& t.len() > 0
    &&& forall|i: int| 0 <= i < t.len() ==> !is_ws(#[trigger] t[i])
    &&& scan_from((false, false), t) == (false, false)
    &&& clean((false, false), t, ')')
}

proof fn lemma_quoted_word(body: Seq<char>)
    requires
        forall|i: int|
            0 <= i < body.len() ==> body[i] != '"' && body[i] != '\\' && !is_ws(#[trigger] body[i]),
    ensures
        token_ok(seq!['"'] + body + seq!['"']),
{
    let t = seq!['"'] + body + seq!['"'];
    lemma_one((false, false), '"', ')');
    lemma_quoted_plain(body, ')');
    lemma_clean_concat((false, false), seq!['"'], body, ')');
    lemma_one((true, false), '"', ')');
    lemma_clean_concat((false, false), seq!['"'] + body, seq!['"'], ')');
    assert forall|i: int| 0 <= i < t.len() implies !is_ws(#[trigger] t[i]) by {
        if 1 <= i < 1 + body.len() {
            assert(t[i] == body[i - 1]);
        }
    }
}

proof fn lemma_word_chars(w: Seq<char>)
    requires
        forall|i: int| 0 <= i < w.len() ==> #[trigger] w[i] != '"' && w[i] != '\\' && w[i] != ' '
            && ('a' <= w[i] <= 'z' || w[i] == '@' || w[i] == '-'),
    ensures
        forall|i: int|
            0 <= i < w.len() ==> w[i] != '"' && w[i] != '\\' && !is_ws(#[trigger] w[i]),
{
}

/// The quoted identifier of a component is a token of the inner list.
proof fn lemma_id_token(c: ComponentView)
    requires
        component_ok(c),
    ensures
        token_ok(quoted_id_spec(c)),
    decreases c,
{
    match c {
        ComponentView::Req(inner) => {
            lemma_id_token(*inner);
            let r = seq![';', 'r', 'e', 'q'];
            lemma_plain(r, ')');
            lemma_clean_concat((false, false), quoted_id_spec(*inner), r, ')');
            let t = quoted_id_spec(c);
            assert forall|i: int| 0 <= i < t.len() implies !is_ws(#[trigger] t[i]) by {
                if i < quoted_id_spec(*inner).len() {
                    assert(t[i] == quoted_id_spec(*inner)[i]);
                }
            }
        },
        ComponentView::Header(n) => {
            lemma_quoted_word(n);
        },
        ComponentView::Method => {
            reveal_strlit("\"@method\"");
            let w = seq!['@', 'm', 'e', 't', 'h', 'o', 'd'];
            lemma_word_chars(w);
            lemma_quoted_word(w);
            assert(quoted_id_spec(c) =~= seq!['"'] + w + seq!['"']);
        },
        ComponentView::Authority => {
            reveal_strlit("\"@authority\"");
            let w = seq!['@', 'a', 'u', 't', 'h', 'o', 'r', 'i', 't', 'y'];
            lemma_word_chars(w);
            lemma_quoted_word(w);
            assert(quoted_id_spec(c) =~= seq!['"'] + w + seq!['"']);
        },
        ComponentView::Path => {
            reveal_strlit("\"@path\"");
            let w = seq!['@', 'p', 'a', 't', 'h'];
            lemma_word_chars(w);
            lemma_quoted_word(w);
            assert(quoted_id_spec(c) =~= seq!['"'] + w + seq!['"']);
        },
        ComponentView::Query => {
            reveal_strlit("\"@query\"");
            let w = seq!['@', 'q', 'u', 'e', 'r', 'y'];
            lemma_word_chars(w);
            lemma_quoted_word(w);
            assert(quoted_id_spec(c) =~= seq!['"'] + w + seq!['"']);
        },
        ComponentView::RequestTarget => {
            reveal_strlit("\"@request-target\"");
            let w = seq!['@', 'r', 'e', 'q', 'u', 'e', 's', 't', '-', 't', 'a', 'r', 'g', 'e', 't'];
            lemma_word_chars(w);
            lemma_quoted_word(w);
            assert(quoted_id_spec(c) =~= seq!['"'] + w + seq!['"']);
        },
        ComponentView::Status => {
            reveal_strlit("\"@status\"");
            let w = seq!['@', 's', 't', 'a', 't', 'u', 's'];
            lemma_word_chars(w);
            lemma_quoted_word(w);
            assert(quoted_id_spec(c) =~= seq!['"'] + w + seq!['"']);
        },
    }
}


proof fn lemma_join_last(ids: Seq<Seq<char>>, sep: Seq<char>)
    requires
        ids.len() > 0,
        ids.last().len() > 0,
    ensures
        join(ids, sep).len() > 0,
        join(ids, sep).last() == ids.last().last(),
{
    if ids.len() == 1 {
        assert(ids[0] == ids.last());
    } else {
        let j = join(ids, sep);
        assert(j == join(ids.drop_last(), sep) + sep + ids.last());
    }
}

/// Space-separated tokens scan in and out of the inner list cleanly.
proof fn lemma_join_scan(ids: Seq<Seq<char>>)
    requires
        forall|i: int| 0 <= i < ids.len() ==> token_ok(#[trigger] ids[i]),
    ensures
        scan_from((false, false), join(ids, seq![' '])) == (false, false),
        clean((false, false), join(ids, seq![' ']), ')'),
    decreases ids.len(),
{
    if ids.len() == 0 {
        assert(join(ids, seq![' ']) =~= Seq::<char>::empty());
        assert(scan_from((false, false), Seq::<char>::empty()) == (false, false));
    } else if ids.len() == 1 {
        assert(token_ok(ids[0]));
    } else {
        let a = join(ids.drop_last(), seq![' ']);
        assert forall|i: int| 0 <= i < ids.drop_last().len() implies token_ok(
            #[trigger] ids.drop_last()[i],
        ) by {
            assert(token_ok(ids[i]));
        }
        lemma_join_scan(ids.drop_last());
        lemma_one((false, false), ' ', ')');
        lemma_clean_concat((false, false), a, seq![' '], ')');
        assert(token_ok(ids[ids.len() - 1]));
        lemma_clean_concat((false, false), a + seq![' '], ids.last(), ')');
    }
}

proof fn lemma_find_from_index(s: Seq<char>, target: char, i: int, k: int)
    requires
        0 <= i <= k < s.len(),
        forall|j: int| 0 <= j < k ==> !unquoted_at(s, j, target),
        unquoted_at(s, k, target),
    ensures
        find_unquoted_spec(s, target, i) == Some(k),
    decreases k - i,
{
    if i < k {
        lemma_find_from_index(s, target, i + 1, k);
    }
}

proof fn lemma_ws_acc_bound(s: Seq<char>, i: int)
    requires
        0 <= i <= s.len(),
    ensures
        ws_acc(s, i).1 matches Some(st) ==> 0 <= st < i,
        ws_acc(s, i).1 is Some <==> (i > 0 && !is_ws(s[i - 1])),
    decreases i,
{
    if i > 0 {
        lemma_ws_acc_bound(s, i - 1);
    }
}

proof fn lemma_ws_acc_prefix(s: Seq<char>, t: Seq<char>, i: int)
    requires
        0 <= i <= s.len(),
        i <= t.len(),
        s.take(i) == t.take(i),
    ensures
        ws_acc(s, i) == ws_acc(t, i),
    decreases i,
{
    if i > 0 {
        assert(s.take(i - 1) =~= s.take(i).take(i - 1));
        assert(t.take(i - 1) =~= t.take(i).take(i - 1));
        lemma_ws_acc_prefix(s, t, i - 1);
        lemma_ws_acc_bound(s, i - 1);
        assert(s[i - 1] == s.take(i)[i - 1]);
        assert(t[i - 1] == t.take(i)[i - 1]);
        let prev = ws_acc(s, i - 1);
        if prev.1 is Some {
            let st = prev.1->0;
            assert(s.subrange(st, i - 1) =~= s.take(i).subrange(st, i - 1));
            assert(t.subrange(st, i - 1) =~= t.take(i).subrange(st, i - 1));
        }
    }
}

proof fn lemma_ws_acc_word(s: Seq<char>, start: int, k: int)
    requires
        0 <= start < k <= s.len(),
        forall|j: int| start <= j < k ==> !is_ws(#[trigger] s[j]),
        ws_acc(s, start).1 is None,
    ensures
        ws_acc(s, k) == (ws_acc(s, start).0, Some(start)),
    decreases k - start,
{
    if k > start + 1 {
        lemma_ws_acc_word(s, start, k - 1);
        assert(!is_ws(s[k - 1]));
    } else {
        assert(!is_ws(s[start]));
    }
}

/// Splitting space-joined tokens at whitespace gives the tokens back.
proof fn lemma_split_ws_join(ids: Seq<Seq<char>>)
    requires
        forall|i: int| 0 <= i < ids.len() ==> token_ok(#[trigger] ids[i]),
    ensures
        split_ws_spec(join(ids, seq![' '])) == ids,
    decreases ids.len(),
{
    if ids.len() == 0 {
        assert(join(ids, seq![' ']) =~= Seq::<char>::empty());
        assert(split_ws_spec(Seq::<char>::empty()) =~= ids);
    } else if ids.len() == 1 {
        let x = ids[0];
        assert(token_ok(x));
        assert(join(ids, seq![' ']) == x);
        lemma_ws_acc_word(x, 0, x.len() as int);
        assert(x.subrange(0, x.len() as int) =~= x);
        assert(split_ws_spec(x) =~= ids);
    } else {
        let dl = ids.drop_last();
        let x = ids.last();
        assert(token_ok(ids[ids.len() - 1]));
        assert forall|i: int| 0 <= i < dl.len() implies token_ok(#[trigger] dl[i]) by {
            assert(token_ok(ids[i]));
        }
        lemma_split_ws_join(dl);
        let a = join(dl, seq![' ']);
        assert(token_ok(dl[dl.len() - 1]));
        lemma_join_last(dl, seq![' ']);
        let s = a + seq![' '] + x;
        assert(join(ids, seq![' ']) == s);
        assert(s.take(a.len() as int) =~= a.take(a.len() as int));
        lemma_ws_acc_prefix(s, a, a.len() as int);
        lemma_ws_acc_bound(a, a.len() as int);
        let st = ws_acc(a, a.len() as int).1->0;
        assert(a.subrange(st, a.len() as int) =~= s.subrange(st, a.len() as int));
        assert(s[a.len() as int] == ' ');
        assert(is_ws(' '));
        assert(ws_acc(s, a.len() + 1int) == (dl, Option::<int>::None));
        assert forall|j: int| a.len() + 1 <= j < s.len() implies !is_ws(#[trigger] s[j]) by {
            assert(s[j] == x[j - a.len() - 1]);
        }
        lemma_ws_acc_word(s, a.len() + 1int, s.len() as int);
        assert(s.subrange(a.len() + 1int, s.len() as int) =~= x);
        assert(split_ws_spec(s) =~= ids);
    }
}

/// A component's quoted identifier parses back to the component.
#[verifier::spinoff_prover]
pub proof fn lemma_quoted_id_round_trip(c: ComponentView)
    requires
        component_ok(c),
    ensures
        from_quoted_id_spec(quoted_id_spec(c)) == Ok::<ComponentView, crate::httpsig::message::HttpSigFailure>(c),
    decreases c,
{
    let t = quoted_id_spec(c);
    let req = seq![';', 'r', 'e', 'q'];
    match c {
        ComponentView::Req(inner) => {
            lemma_quoted_id_round_trip(*inner);
            assert(t == quoted_id_spec(*inner) + req);
            assert(t.len() >= 4);
            assert(t.subrange(t.len() - 4, t.len() as int) =~= req);
            assert(t.subrange(0, t.len() - 4) =~= quoted_id_spec(*inner));
            assert(from_quoted_id_spec(t.subrange(0, t.len() - 4)) == Ok::<
                ComponentView,
                crate::httpsig::message::HttpSigFailure,
            >(*inner));
            assert(from_quoted_id_spec(t) == Ok::<
                ComponentView,
                crate::httpsig::message::HttpSigFailure,
            >(ComponentView::Req(Box::new(*inner))));
            assert(ComponentView::Req(Box::new(*inner)) == c);
            assert(from_quoted_id_spec(quoted_id_spec(c)) == Ok::<
                ComponentView,
                crate::httpsig::message::HttpSigFailure,
            >(c));
        },
        ComponentView::Header(n) => {
            reveal_strlit("@method");
            reveal_strlit("@authority");
            reveal_strlit("@path");
            reveal_strlit("@query");
            reveal_strlit("@request-target");
            reveal_strlit("@status");
            assert(t.last() == '"');
            if t.len() >= 4 {
                assert(t.subrange(t.len() - 4, t.len() as int)[3] == '"');
            }
            assert(t.subrange(1, t.len() - 1) =~= n);
            assert(n != "@method"@ && n != "@authority"@ && n != "@path"@ && n != "@query"@ && n
                != "@request-target"@ && n != "@status"@) by {
                if n.len() > 0 {
                    assert(n[0] != '@');
                }
            }
            assert(spec_lower_seq(n) == n);
            assert(from_quoted_id_spec(t) == Ok::<
                ComponentView,
                crate::httpsig::message::HttpSigFailure,
            >(ComponentView::Header(spec_lower_seq(n))));
        },
        ComponentView::Method => {
            reveal_strlit("@method");
            reveal_strlit("\"@method\"");
            lemma_derived_round_trip(t, "@method"@);
        },
        ComponentView::Authority => {
            reveal_strlit("@method");
            reveal_strlit("@authority");
            reveal_strlit("\"@authority\"");
            lemma_derived_round_trip(t, "@authority"@);
        },
        ComponentView::Path => {
            reveal_strlit("@method");
            reveal_strlit("@authority");
            reveal_strlit("@path");
            reveal_strlit("\"@path\"");
            lemma_derived_round_trip(t, "@path"@);
        },
        ComponentView::Query => {
            reveal_strlit("@method");
            reveal_strlit("@authority");
            reveal_strlit("@path");
            reveal_strlit("@query");
            reveal_strlit("\"@query\"");
            lemma_derived_round_trip(t, "@query"@);
        },
        ComponentView::RequestTarget => {
            reveal_strlit("@method");
            reveal_strlit("@authority");
            reveal_strlit("@path");
            reveal_strlit("@query");
            reveal_strlit("@request-target");
            reveal_strlit("\"@request-target\"");
            lemma_derived_round_trip(t, "@request-target"@);
        },
        ComponentView::Status => {
            reveal_strlit("@method");
            reveal_strlit("@authority");
            reveal_strlit("@path");
            reveal_strlit("@query");
            reveal_strlit("@request-target");
            reveal_strlit("@status");
            reveal_strlit("\"@status\"");
            lemma_derived_round_trip(t, "@status"@);
        },
    }
}

/// A component whose header names, at any depth, do not start with `@`; the
/// names may have any case.
pub open spec fn component_named(c: ComponentView) -> bool
    decreases c,
{
    match c {
        ComponentView::Req(inner) => component_named(*inner),
        ComponentView::Header(n) => !(n.len() > 0 && n[0] == '@'),
        _ => true,
    }
}

/// A component's quoted identifier parses back to an equal component: the
/// same one, with header names in lower case, which compares equal to the
/// original whatever the case it was written in.
pub proof fn lemma_quoted_id_round_trip_any_case(c: ComponentView)
    requires
        component_named(c),
    ensures
        from_quoted_id_spec(quoted_id_spec(c)) matches Ok(d) && component_equiv(c, d),
    decreases c,
{
    let t = quoted_id_spec(c);
    let req = seq![';', 'r', 'e', 'q'];
    match c {
        ComponentView::Req(inner) => {
            lemma_quoted_id_round_trip_any_case(*inner);
            assert(t == quoted_id_spec(*inner) + req);
            assert(t.subrange(t.len() - 4, t.len() as int) =~= req);
            assert(t.subrange(0, t.len() - 4) =~= quoted_id_spec(*inner));
        },
        ComponentView::Header(n) => {
            reveal_strlit("@method");
            reveal_strlit("@authority");
            reveal_strlit("@path");
            reveal_strlit("@query");
            reveal_strlit("@request-target");
            reveal_strlit("@status");
            lemma_derived_round_trip(t, n);
            assert(n != "@method"@ && n != "@authority"@ && n != "@path"@ && n != "@query"@ && n
                != "@request-target"@ && n != "@status"@) by {
                if n.len() > 0 {
                    assert(n[0] != '@');
                }
            }
            assert(spec_lower_seq(spec_lower_seq(n)) =~= spec_lower_seq(n));
        },
        _ => {
            lemma_quoted_id_round_trip(c);
        },
    }
}

proof fn lemma_derived_round_trip(t: Seq<char>, w: Seq<char>)
    requires
        t =~= seq!['"'] + w + seq!['"'],
    ensures
        t.len() >= 2 && t[0] == '"' && t.last() == '"',
        t.subrange(1, t.len() - 1) == w,
        t.len() >= 4 ==> t.subrange(t.len() - 4, t.len() as int) != seq![';', 'r', 'e', 'q'],
{
    assert(t.subrange(1, t.len() - 1) =~= w);
    if t.len() >= 4 {
        assert(t.subrange(t.len() - 4, t.len() as int)[3] == '"');
    }
}

/// The tokens of an inner list parse back to its components.
proof fn lemma_components_fold_ids(cs: Seq<ComponentView>)
    requires
        forall|i: int| 0 <= i < cs.len() ==> component_ok(#[trigger] cs[i]),
    ensures
        components_fold(cs.map_values(|c: ComponentView| quoted_id_spec(c))) == Ok::<
            Seq<ComponentView>,
            crate::httpsig::message::HttpSigFailure,
        >(cs),
    decreases cs.len(),
{
    let ids = cs.map_values(|c: ComponentView| quoted_id_spec(c));
    if cs.len() == 0 {
        assert(ids =~= Seq::<Seq<char>>::empty());
        assert(cs =~= Seq::<ComponentView>::empty());
    } else {
        let dl = cs.drop_last();
        assert forall|i: int| 0 <= i < dl.len() implies component_ok(#[trigger] dl[i]) by {
            assert(component_ok(cs[i]));
        }
        lemma_components_fold_ids(dl);
        assert(ids.drop_last() =~= dl.map_values(|c: ComponentView| quoted_id_spec(c)));
        assert(component_ok(cs[cs.len() - 1]));
        lemma_quoted_id_round_trip(cs.last());
        assert(ids.last() == quoted_id_spec(cs.last()));
        assert(dl.push(cs.last()) =~= cs);
    }
}


// ---------------------------------------------------------------------------
// Dictionary members.
// ---------------------------------------------------------------------------

/// A signature label that reads back as itself: non-empty, without `=`, and
/// without whitespace at either end.
pub open spec fn label_ok(label: Seq<char>) -> bool {
    &&& label.len() > 0
    &&& forall|i: int| 0 <= i < label.len() ==> #[trigger] label[i] != '='
    &&& !is_ws(label[0])
    &&& !is_ws(label.last())
}

proof fn lemma_split_member(label: Seq<char>, x: Seq<char>)
    requires
        label_ok(label),
        x.len() > 0,
        !is_ws(x.last()),
    ensures
        split_member_spec(label + seq!['='] + x) == Ok::<
            (Seq<char>, Seq<char>),
            crate::httpsig::message::HttpSigFailure,
        >((label, x)),
{
    let v = label + seq!['='] + x;
    assert(v[0] == label[0]);
    assert(v.last() == x.last());
    lemma_trim_noop(v);
    assert forall|j: int| 0 <= j < label.len() implies v[j] != '=' by {
        assert(v[j] == label[j]);
    }
    assert(v[label.len() as int] == '=');
    lemma_find_from_unique(v, '=', 0, label.len() as int);
    assert(v.subrange(0, label.len() as int) =~= label);
    lemma_trim_noop(label);
    assert(v.subrange(label.len() + 1int, v.len() as int) =~= x);
}

// ---------------------------------------------------------------------------
// Parameters.
// ---------------------------------------------------------------------------

proof fn lemma_split_acc_bound(s: Seq<char>, i: int, sep: char)
    requires
        0 <= i,
    ensures
        0 <= split_acc(s, i, sep).1 <= i,
    decreases i,
{
    if i > 0 {
        lemma_split_acc_bound(s, i - 1, sep);
    }
}

proof fn lemma_split_acc_prefix(s: Seq<char>, t: Seq<char>, i: int, sep: char)
    requires
        0 <= i <= s.len(),
        i <= t.len(),
        s.take(i) == t.take(i),
    ensures
        split_acc(s, i, sep) == split_acc(t, i, sep),
    decreases i,
{
    if i > 0 {
        assert(s.take(i - 1) =~= s.take(i).take(i - 1));
        assert(t.take(i - 1) =~= t.take(i).take(i - 1));
        lemma_split_acc_prefix(s, t, i - 1, sep);
        lemma_split_acc_bound(s, i - 1, sep);
        assert(s[i - 1] == s.take(i)[i - 1]);
        assert(t[i - 1] == t.take(i)[i - 1]);
        let st = split_acc(s, i - 1, sep).1;
        assert(s.subrange(st, i - 1) =~= s.take(i).subrange(st, i - 1));
        assert(t.subrange(st, i - 1) =~= t.take(i).subrange(st, i - 1));
    }
}

proof fn lemma_split_acc_flat(s: Seq<char>, lo: int, hi: int, sep: char)
    requires
        0 <= lo <= hi <= s.len(),
        forall|j: int| lo <= j < hi ==> !unquoted_at(s, j, sep),
    ensures
        split_acc(s, hi, sep) == split_acc(s, lo, sep),
    decreases hi - lo,
{
    if lo < hi {
        lemma_split_acc_flat(s, lo, hi - 1, sep);
    }
}

/// Appending `;` and a piece without unquoted `;` adds that piece.
proof fn lemma_split_semi_push(a: Seq<char>, b: Seq<char>)
    requires
        scan(a) == (false, false),
        scan_from((false, false), b) == (false, false),
        clean((false, false), b, ';'),
    ensures
        split_unquoted_spec(a + seq![';'] + b, ';') == split_unquoted_spec(a, ';').push(b),
        scan(a + seq![';'] + b) == (false, false),
{
    let s = a + seq![';'] + b;
    let n = a.len() as int;
    assert(s.take(n) =~= a.take(n));
    lemma_split_acc_prefix(s, a, n, ';');
    lemma_split_acc_bound(a, n, ';');
    assert(s.take(n) =~= a);
    assert(s[n] == ';');
    assert(unquoted_at(s, n, ';'));
    let prev = split_acc(a, n, ';');
    assert(s.subrange(prev.1, n) =~= a.subrange(prev.1, n));
    let x = a + seq![';'];
    lemma_one((false, false), ';', ';');
    lemma_scan_concat((false, false), a, seq![';']);
    assert(scan(x) == (false, false));
    assert(s == x + b);
    assert forall|j: int| n + 1 <= j < s.len() implies !unquoted_at(s, j, ';') by {
        lemma_unquoted_at_concat(x, b, j - n - 1, ';');
        assert(!delim(scan_from((false, false), b.take(j - n - 1)), b[j - n - 1], ';'));
    }
    lemma_split_acc_flat(s, n + 1, s.len() as int, ';');
    assert(s.subrange(n + 1, s.len() as int) =~= b);
    assert(split_unquoted_spec(s, ';') =~= split_unquoted_spec(a, ';').push(b));
    lemma_scan_concat((false, false), x, b);
}

/// The `k`-th parameter of the serialization, with its leading `;`, or
/// nothing when the parameter is absent.
pub open spec fn segment(p: ParamsView, k: int) -> Seq<char> {
    if k == 0 {
        int_param(";created="@, p.created)
    } else if k == 1 {
        int_param(";expires="@, p.expires)
    } else if k == 2 {
        str_param(";keyid="@, p.keyid)
    } else if k == 3 {
        str_param(";alg="@, p.alg)
    } else if k == 4 {
        str_param(";nonce="@, p.nonce)
    } else if k == 5 {
        str_param(";tag="@, p.tag)
    } else if k == 6 {
        str_param(";wimse-aud="@, p.wimse_aud)
    } else if k == 7 {
        sign_response_param(p.wimse_sign_response)
    } else {
        str_param(";wimse-req-nonce="@, p.wimse_req_nonce)
    }
}

/// The first `k` segments.
pub open spec fn suffix_upto(p: ParamsView, k: int) -> Seq<char>
    decreases k,
{
    if k <= 0 {
        seq![]
    } else {
        suffix_upto(p, k - 1) + segment(p, k - 1)
    }
}

/// `p` with only its first `k` parameters kept.
pub open spec fn partial(p: ParamsView, k: int) -> ParamsView {
    ParamsView {
        created: if k > 0 {
            p.created
        } else {
            None
        },
        expires: if k > 1 {
            p.expires
        } else {
            None
        },
        keyid: if k > 2 {
            p.keyid
        } else {
            None
        },
        alg: if k > 3 {
            p.alg
        } else {
            None
        },
        nonce: if k > 4 {
            p.nonce
        } else {
            None
        },
        tag: if k > 5 {
            p.tag
        } else {
            None
        },
        wimse_aud: if k > 6 {
            p.wimse_aud
        } else {
            None
        },
        wimse_sign_response: if k > 7 {
            p.wimse_sign_response
        } else {
            None
        },
        wimse_req_nonce: if k > 8 {
            p.wimse_req_nonce
        } else {
            None
        },
    }
}

/// What a `name=value` piece looks like to the parameter parser.
proof fn lemma_name_value(w: Seq<char>, val: Seq<char>)
    requires
        w.len() > 0,
        forall|i: int| 0 <= i < w.len() ==> #[trigger] w[i] != '=' && !is_ws(w[i]),
        val.len() > 0,
        !is_ws(val[0]),
        !is_ws(val.last()),
    ensures
        trim(w + seq!['='] + val) == w + seq!['='] + val,
        find_from(w + seq!['='] + val, '=', 0) == w.len(),
        trim((w + seq!['='] + val).subrange(0, w.len() as int)) == w,
        trim((w + seq!['='] + val).subrange(w.len() + 1int, (w + seq!['='] + val).len() as int))
            == val,
{
    let body = w + seq!['='] + val;
    assert(body[0] == w[0]);
    assert(body.last() == val.last());
    lemma_trim_noop(body);
    assert forall|j: int| 0 <= j < w.len() implies body[j] != '=' by {
        assert(body[j] == w[j]);
    }
    lemma_find_from_unique(body, '=', 0, w.len() as int);
    assert(body.subrange(0, w.len() as int) =~= w);
    lemma_trim_noop(w);
    assert(body.subrange(w.len() + 1int, body.len() as int) =~= val);
    lemma_trim_noop(val);
}

proof fn lemma_unescape_escape(v: Seq<char>)
    ensures
        unescape(escape(v)) == Some(v),
    decreases v.len(),
{
    if v.len() == 0 {
        assert(escape(v) =~= Seq::<char>::empty());
        assert(v =~= Seq::<char>::empty());
    } else {
        let c = v[0];
        let rest = v.drop_first();
        lemma_unescape_escape(rest);
        let e = escape(v);
        assert(e == escape_char(c) + escape(rest));
        if c == '\\' || c == '"' {
            assert(e.subrange(2, e.len() as int) =~= escape(rest));
        } else {
            assert(e.drop_first() =~= escape(rest));
        }
        assert(seq![c] + rest =~= v);
    }
}

/// An RFC 8941 string reads back as its value.
pub proof fn lemma_sf_string_round_trip(v: Seq<char>)
    ensures
        sf_unquote(sf_string_spec(v)) == Ok::<Seq<char>, crate::httpsig::message::HttpSigFailure>(v),
{
    let t = sf_string_spec(v);
    assert(t.subrange(1, t.len() - 1) =~= escape(v));
    lemma_unescape_escape(v);
}

/// A parameter name: lowercase letters and hyphens.
pub open spec fn word(w: Seq<char>) -> bool {
    w.len() > 0 && forall|i: int| 0 <= i < w.len() ==> ('a' <= #[trigger] w[i] <= 'z' || w[i] == '-')
}

proof fn lemma_plain_word(w: Seq<char>)
    requires
        word(w),
    ensures
        forall|i: int| 0 <= i < w.len() ==> #[trigger] w[i] != '=' && !is_ws(w[i]),
        forall|i: int| 0 <= i < w.len() ==> #[trigger] w[i] != '"' && w[i] != ';',
{
}

/// A string parameter `name="value"`, with `w` the name.
proof fn lemma_str_body(w: Seq<char>, v: Seq<char>)
    requires
        word(w),
    ensures
        ({
            let body = w + seq!['='] + sf_string_spec(v);
            &&& scan_from((false, false), body) == (false, false)
            &&& clean((false, false), body, ';')
            &&& body.last() == '"'
            &&& trim(body) == body
            &&& find_from(body, '=', 0) == w.len()
            &&& trim(body.subrange(0, w.len() as int)) == w
            &&& trim(body.subrange(w.len() + 1int, body.len() as int)) == sf_string_spec(v)
        }),
{
    lemma_plain_word(w);
    let sf = sf_string_spec(v);
    lemma_name_value(w, sf);
    let head = w + seq!['='];
    assert forall|i: int| 0 <= i < head.len() implies head[i] != '"' && head[i] != ';' by {
        if i < w.len() {
            assert(head[i] == w[i]);
        }
    }
    lemma_plain(head, ';');
    lemma_sf_string_scan(v, ';');
    lemma_clean_concat((false, false), head, sf, ';');
}

/// An integer parameter `name=digits`, with `w` the name.
proof fn lemma_int_body(w: Seq<char>, n: u64)
    requires
        word(w),
    ensures
        ({
            let body = w + seq!['='] + decimal(n as nat);
            &&& scan_from((false, false), body) == (false, false)
            &&& clean((false, false), body, ';')
            &&& is_digit(body.last())
            &&& trim(body) == body
            &&& find_from(body, '=', 0) == w.len()
            &&& trim(body.subrange(0, w.len() as int)) == w
            &&& trim(body.subrange(w.len() + 1int, body.len() as int)) == decimal(n as nat)
        }),
{
    lemma_plain_word(w);
    let d = decimal(n as nat);
    lemma_decimal(n as nat);
    assert(is_digit(d[0]) && is_digit(d[d.len() - 1]));
    lemma_name_value(w, d);
    let body = w + seq!['='] + d;
    assert forall|i: int| 0 <= i < body.len() implies body[i] != '"' && body[i] != ';' by {
        if i < w.len() {
            assert(body[i] == w[i]);
        } else if i > w.len() {
            assert(body[i] == d[i - w.len() - 1]);
            assert(is_digit(d[i - w.len() - 1]));
        }
    }
    lemma_plain(body, ';');
}


/// The parameter names and the serialized prefixes that carry them.
proof fn lemma_param_names()
    ensures
        word("created"@),
        word("expires"@),
        word("keyid"@),
        word("alg"@),
        word("nonce"@),
        word("tag"@),
        word("wimse-aud"@),
        word("wimse-sign-response"@),
        word("wimse-req-nonce"@),
        ";created="@ == seq![';'] + "created"@ + seq!['='],
        ";expires="@ == seq![';'] + "expires"@ + seq!['='],
        ";keyid="@ == seq![';'] + "keyid"@ + seq!['='],
        ";alg="@ == seq![';'] + "alg"@ + seq!['='],
        ";nonce="@ == seq![';'] + "nonce"@ + seq!['='],
        ";tag="@ == seq![';'] + "tag"@ + seq!['='],
        ";wimse-aud="@ == seq![';'] + "wimse-aud"@ + seq!['='],
        ";wimse-req-nonce="@ == seq![';'] + "wimse-req-nonce"@ + seq!['='],
        ";wimse-sign-response"@ == seq![';'] + "wimse-sign-response"@,
        ";wimse-sign-response=?0"@ == seq![';'] + "wimse-sign-response"@ + seq!['=', '?', '0'],
        "created"@ != "expires"@,
        "keyid"@ != "nonce"@,
        "alg"@ != "tag"@,
        "created"@.len() == 7 && "expires"@.len() == 7 && "keyid"@.len() == 5 && "alg"@.len() == 3
            && "nonce"@.len() == 5 && "tag"@.len() == 3 && "wimse-aud"@.len() == 9
            && "wimse-sign-response"@.len() == 19 && "wimse-req-nonce"@.len() == 15,
{
    reveal_strlit("created");
    reveal_strlit("expires");
    reveal_strlit("keyid");
    reveal_strlit("alg");
    reveal_strlit("nonce");
    reveal_strlit("tag");
    reveal_strlit("wimse-aud");
    reveal_strlit("wimse-sign-response");
    reveal_strlit("wimse-req-nonce");
    reveal_strlit(";created=");
    reveal_strlit(";expires=");
    reveal_strlit(";keyid=");
    reveal_strlit(";alg=");
    reveal_strlit(";nonce=");
    reveal_strlit(";tag=");
    reveal_strlit(";wimse-aud=");
    reveal_strlit(";wimse-req-nonce=");
    reveal_strlit(";wimse-sign-response");
    reveal_strlit(";wimse-sign-response=?0");
    assert(";created="@ =~= seq![';'] + "created"@ + seq!['=']);
    assert(";expires="@ =~= seq![';'] + "expires"@ + seq!['=']);
    assert(";keyid="@ =~= seq![';'] + "keyid"@ + seq!['=']);
    assert(";alg="@ =~= seq![';'] + "alg"@ + seq!['=']);
    assert(";nonce="@ =~= seq![';'] + "nonce"@ + seq!['=']);
    assert(";tag="@ =~= seq![';'] + "tag"@ + seq!['=']);
    assert(";wimse-aud="@ =~= seq![';'] + "wimse-aud"@ + seq!['=']);
    assert(";wimse-req-nonce="@ =~= seq![';'] + "wimse-req-nonce"@ + seq!['=']);
    assert(";wimse-sign-response"@ =~= seq![';'] + "wimse-sign-response"@);
    assert(";wimse-sign-response=?0"@ =~= seq![';'] + "wimse-sign-response"@ + seq!['=', '?', '0']);
    assert("created"@[0] != "expires"@[0]);
    assert("keyid"@[0] != "nonce"@[0]);
    assert("alg"@[0] != "tag"@[0]);
}


proof fn lemma_apply_int(q: ParamsView, w: Seq<char>, n: u64)
    requires
        w == "created"@ || w == "expires"@,
    ensures
        apply_param_spec(q, w + seq!['='] + decimal(n as nat)) == Ok::<
            ParamsView,
            crate::httpsig::message::HttpSigFailure,
        >(
            if w == "created"@ {
                ParamsView { created: Some(n), ..q }
            } else {
                ParamsView { expires: Some(n), ..q }
            },
        ),
{
    lemma_param_names();
    lemma_int_body(w, n);
    lemma_parse_decimal(n);
    let d = decimal(n as nat);
    lemma_decimal(n as nat);
    assert(is_digit(d[0]) && is_digit(d[d.len() - 1]));
    lemma_trim_noop(d);
}

proof fn lemma_apply_str(q: ParamsView, w: Seq<char>, v: Seq<char>)
    requires
        is_str_param(w),
    ensures
        apply_param_spec(q, w + seq!['='] + sf_string_spec(v)) == Ok::<
            ParamsView,
            crate::httpsig::message::HttpSigFailure,
        >(set_str(q, w, v)),
{
    lemma_param_names();
    lemma_str_body(w, v);
    lemma_sf_string_round_trip(v);
}

proof fn lemma_apply_flag_true(q: ParamsView)
    ensures
        ({
            let body = "wimse-sign-response"@;
            &&& apply_param_spec(q, body) == Ok::<ParamsView, crate::httpsig::message::HttpSigFailure>(
                ParamsView { wimse_sign_response: Some(true), ..q },
            )
            &&& scan_from((false, false), body) == (false, false)
            &&& clean((false, false), body, ';')
            &&& body.len() > 0
            &&& !is_ws(body.last())
        }),
{
    lemma_param_names();
    let w = "wimse-sign-response"@;
    lemma_plain_word(w);
    lemma_trim_noop(w);
    lemma_find_from_unique(w, '=', 0, w.len() as int);
    lemma_plain(w, ';');
    assert(trim(w) == w);
    assert(find_from(w, '=', 0) >= w.len());
}

proof fn lemma_apply_flag_false(q: ParamsView)
    ensures
        ({
            let body = "wimse-sign-response"@ + seq!['=', '?', '0'];
            &&& apply_param_spec(q, body) == Ok::<ParamsView, crate::httpsig::message::HttpSigFailure>(
                ParamsView { wimse_sign_response: Some(false), ..q },
            )
            &&& scan_from((false, false), body) == (false, false)
            &&& clean((false, false), body, ';')
            &&& body.len() > 0
            &&& !is_ws(body.last())
        }),
{
    lemma_param_names();
    let w = "wimse-sign-response"@;
    lemma_plain_word(w);
    let v = seq!['?', '0'];
    assert(w + seq!['=', '?', '0'] =~= w + seq!['='] + v);
    lemma_name_value(w, v);
    let body = w + seq!['='] + v;
    assert forall|i: int| 0 <= i < body.len() implies body[i] != '"' && body[i] != ';' by {
        if i < w.len() {
            assert(body[i] == w[i]);
        }
    }
    lemma_plain(body, ';');
    assert(v != seq!['?', '1']) by {
        assert(v[1] != seq!['?', '1'][1]);
    }
    assert(v == seq!['?', '0']);
    assert(sf_boolean_spec(v) == Ok::<bool, crate::httpsig::message::HttpSigFailure>(false));
    assert(!is_str_param(w));
    assert(w != "created"@ && w != "expires"@);
}

/// The shape of a present segment: `;` and a piece the parser turns into
/// the parameter.
pub open spec fn segment_ok(p: ParamsView, k: int) -> bool {
    let body = segment(p, k).drop_first();
    &&& segment(p, k) == seq![';'] + body
    &&& scan_from((false, false), body) == (false, false)
    &&& clean((false, false), body, ';')
    &&& body.len() > 0
    &&& !is_ws(body.last())
    &&& apply_param_spec(partial(p, k), body) == Ok::<
        ParamsView,
        crate::httpsig::message::HttpSigFailure,
    >(partial(p, k + 1))
}

proof fn lemma_segment_int(p: ParamsView, k: int)
    requires
        0 <= k <= 1,
    ensures
        segment(p, k).len() == 0 ==> partial(p, k + 1) == partial(p, k),
        segment(p, k).len() > 0 ==> segment_ok(p, k),
{
    lemma_param_names();
    let seg = segment(p, k);
    let q = partial(p, k);
    let w = if k == 0 {
        "created"@
    } else {
        "expires"@
    };
    let o = if k == 0 {
        p.created
    } else {
        p.expires
    };
    if let Some(n) = o {
        lemma_int_body(w, n);
        lemma_apply_int(q, w, n);
        assert(seg =~= seq![';'] + (w + seq!['='] + decimal(n as nat)));
        assert(seg.drop_first() =~= w + seq!['='] + decimal(n as nat));
    }
}

proof fn lemma_segment_flag(p: ParamsView)
    ensures
        segment(p, 7).len() == 0 ==> partial(p, 8) == partial(p, 7),
        segment(p, 7).len() > 0 ==> segment_ok(p, 7),
{
    lemma_param_names();
    let seg = segment(p, 7);
    if let Some(b) = p.wimse_sign_response {
        let w = "wimse-sign-response"@;
        if b {
            lemma_apply_flag_true(partial(p, 7));
            assert(seg =~= seq![';'] + w);
            assert(seg.drop_first() =~= w);
        } else {
            lemma_apply_flag_false(partial(p, 7));
            assert(seg =~= seq![';'] + (w + seq!['=', '?', '0']));
            assert(seg.drop_first() =~= w + seq!['=', '?', '0']);
        }
    }
}

proof fn lemma_segment_str(p: ParamsView, k: int)
    requires
        2 <= k <= 8,
        k != 7,
    ensures
        segment(p, k).len() == 0 ==> partial(p, k + 1) == partial(p, k),
        segment(p, k).len() > 0 ==> segment_ok(p, k),
{
    lemma_param_names();
    let seg = segment(p, k);
    let q = partial(p, k);
    let w = if k == 2 {
        "keyid"@
    } else if k == 3 {
        "alg"@
    } else if k == 4 {
        "nonce"@
    } else if k == 5 {
        "tag"@
    } else if k == 6 {
        "wimse-aud"@
    } else {
        "wimse-req-nonce"@
    };
    let o = if k == 2 {
        p.keyid
    } else if k == 3 {
        p.alg
    } else if k == 4 {
        p.nonce
    } else if k == 5 {
        p.tag
    } else if k == 6 {
        p.wimse_aud
    } else {
        p.wimse_req_nonce
    };
    if let Some(v) = o {
        lemma_str_body(w, v);
        lemma_apply_str(q, w, v);
        assert(seg =~= seq![';'] + (w + seq!['='] + sf_string_spec(v)));
        assert(seg.drop_first() =~= w + seq!['='] + sf_string_spec(v));
        assert(set_str(q, w, v) == partial(p, k + 1));
    }
}

proof fn lemma_segment(p: ParamsView, k: int)
    requires
        0 <= k < 9,
    ensures
        segment(p, k).len() == 0 ==> partial(p, k + 1) == partial(p, k),
        segment(p, k).len() > 0 ==> segment_ok(p, k),
{
    if k <= 1 {
        lemma_segment_int(p, k);
    } else if k == 7 {
        lemma_segment_flag(p);
    } else {
        lemma_segment_str(p, k);
    }
}

proof fn lemma_suffix_empty(p: ParamsView)
    ensures
        scan(suffix_upto(p, 0)) == (false, false),
        params_fold(split_unquoted_spec(suffix_upto(p, 0), ';')) == Ok::<
            ParamsView,
            crate::httpsig::message::HttpSigFailure,
        >(partial(p, 0)),
{
    let e = Seq::<char>::empty();
    assert(suffix_upto(p, 0) == e);
    assert(scan_from((false, false), e) == (false, false));
    assert(split_acc(e, 0, ';') == (Seq::<Seq<char>>::empty(), 0int));
    assert(e.subrange(0, 0) =~= e);
    assert(split_unquoted_spec(e, ';') =~= seq![e]);
    assert(seq![e].drop_last() =~= Seq::<Seq<char>>::empty());
    assert(seq![e].last() == e);
    assert(params_fold(Seq::<Seq<char>>::empty()) == Ok::<
        ParamsView,
        crate::httpsig::message::HttpSigFailure,
    >(no_params()));
    assert(trim(e) =~= e);
    assert(apply_param_spec(no_params(), e) == Ok::<
        ParamsView,
        crate::httpsig::message::HttpSigFailure,
    >(no_params()));
    assert(partial(p, 0) == no_params());
}

/// The parameters after the inner list parse back to `p`.
proof fn lemma_suffix(p: ParamsView, k: int)
    requires
        0 <= k <= 9,
    ensures
        scan(suffix_upto(p, k)) == (false, false),
        params_fold(split_unquoted_spec(suffix_upto(p, k), ';')) == Ok::<
            ParamsView,
            crate::httpsig::message::HttpSigFailure,
        >(partial(p, k)),
        suffix_upto(p, k).len() > 0 ==> !is_ws(suffix_upto(p, k).last()),
    decreases k,
{
    if k == 0 {
        lemma_suffix_empty(p);
    } else {
        lemma_suffix(p, k - 1);
        lemma_segment(p, k - 1);
        let a = suffix_upto(p, k - 1);
        let seg = segment(p, k - 1);
        assert(suffix_upto(p, k) == a + seg);
        if seg.len() == 0 {
            assert(a + seg =~= a);
        } else {
            assert(segment_ok(p, k - 1));
            let body = seg.drop_first();
            lemma_split_semi_push(a, body);
            assert(a + seg =~= a + seq![';'] + body);
            let parts = split_unquoted_spec(a, ';').push(body);
            assert(parts.drop_last() =~= split_unquoted_spec(a, ';'));
            assert((a + seg).last() == body.last());
        }
    }
}

/// The `@signature-params` value ends with a character that is not
/// whitespace.
proof fn lemma_params_value_shape(cs: Seq<ComponentView>, p: ParamsView)
    ensures
        params_value_spec(cs, p).len() > 0,
        params_value_spec(cs, p)[0] == '(',
        !is_ws(params_value_spec(cs, p).last()),
        params_suffix(p) == suffix_upto(p, 9),
        partial(p, 9) == p,
{
    reveal_with_fuel(suffix_upto, 10);
    assert(params_suffix(p) =~= suffix_upto(p, 9));
    lemma_suffix(p, 9);
    let pv = params_value_spec(cs, p);
    let head = seq!['('] + inner_list_spec(cs) + seq![')'];
    assert(pv == head + params_suffix(p));
    if params_suffix(p).len() == 0 {
        assert(pv =~= head);
    } else {
        assert(pv.last() == params_suffix(p).last());
    }
}

/// In a params value, the first unquoted `)` closes the inner list, whose
/// tokens are the components' identifiers.
proof fn lemma_inner_list(cs: Seq<ComponentView>, p: ParamsView)
    requires
        forall|i: int| 0 <= i < cs.len() ==> component_ok(#[trigger] cs[i]),
    ensures
        ({
            let pv = params_value_spec(cs, p);
            let close = 1 + inner_list_spec(cs).len() as int;
            &&& find_unquoted_spec(pv, ')', 0) == Some(close)
            &&& components_fold(split_ws_spec(pv.subrange(1, close))) == Ok::<
                Seq<ComponentView>,
                crate::httpsig::message::HttpSigFailure,
            >(cs)
            &&& pv.subrange(close + 1, pv.len() as int) == params_suffix(p)
        }),
{
    let pv = params_value_spec(cs, p);
    let ids = cs.map_values(|c: ComponentView| quoted_id_spec(c));
    let inner = inner_list_spec(cs);
    assert forall|i: int| 0 <= i < ids.len() implies token_ok(#[trigger] ids[i]) by {
        lemma_id_token(cs[i]);
    }
    lemma_join_scan(ids);
    lemma_split_ws_join(ids);
    lemma_components_fold_ids(cs);
    let x = seq!['('] + inner;
    lemma_one((false, false), '(', ')');
    lemma_clean_concat((false, false), seq!['('], inner, ')');
    let close = x.len() as int;
    assert(pv == x + (seq![')'] + params_suffix(p)));
    assert forall|j: int| 0 <= j < close implies !unquoted_at(pv, j, ')') by {
        assert(pv.take(j) =~= x.take(j));
        assert(pv[j] == x[j]);
        assert(!delim(scan_from((false, false), x.take(j)), x[j], ')'));
    }
    assert(pv.take(close) =~= x);
    assert(pv[close] == ')');
    assert(unquoted_at(pv, close, ')'));
    lemma_find_from_index(pv, ')', 0, close);
    assert(pv.subrange(1, close) =~= inner);
    assert(pv.subrange(close + 1, pv.len() as int) =~= params_suffix(p));
}

/// The `Signature-Input` value `label=<params value>` that signing writes
/// parses back to the label, the components, the parameters and the params
/// value it was built from.
pub proof fn lemma_signature_input_round_trip(
    cs: Seq<ComponentView>,
    p: ParamsView,
    label: Seq<char>,
)
    requires
        label_ok(label),
        forall|i: int| 0 <= i < cs.len() ==> component_ok(#[trigger] cs[i]),
    ensures
        parse_input_spec(label + seq!['='] + params_value_spec(cs, p)) == Ok::<
            (Seq<char>, Seq<ComponentView>, ParamsView, Seq<char>),
            crate::httpsig::message::HttpSigFailure,
        >((label, cs, p, params_value_spec(cs, p))),
{
    let pv = params_value_spec(cs, p);
    lemma_params_value_shape(cs, p);
    lemma_split_member(label, pv);
    lemma_trim_noop(pv);
    lemma_inner_list(cs, p);
    lemma_suffix(p, 9);
}

/// The `Signature` value `label=:<base64>:` that signing writes parses back
/// to the label and the signature bytes.
pub proof fn lemma_signature_field_round_trip(label: Seq<char>, text: Seq<char>, bytes: Seq<u8>)
    requires
        label_ok(label),
        base64_decoded(text) == Some(bytes),
        bytes.len() == 64,
    ensures
        parse_sig_spec(label + seq!['=', ':'] + text + seq![':']) == Ok::<
            (Seq<char>, Seq<u8>),
            crate::httpsig::message::HttpSigFailure,
        >((label, bytes)),
{
    let x = seq![':'] + text + seq![':'];
    assert(label + seq!['=', ':'] + text + seq![':'] =~= label + seq!['='] + x);
    lemma_split_member(label, x);
    lemma_trim_noop(x);
    assert(x.subrange(1, x.len() - 1) =~= text);
}

} // verus!
