//! Running the negative cases of the WIT and WPT vectors: which token, clock,
//! key, issuer, audience and WIT each case verifies with, and whether it was
//! refused for the recorded reason. Reading the JSON inside each token's
//! header and claim segments is the caller's; what it read is handed in, one
//! entry per case.

use vstd::prelude::*;

use crate::compact::HeaderFields;
use crate::conformance::{
    expect_reject, reject_outcome, check_of, vector_name, wit_error_code, wpt_error_code,
    ErrorCode, Header, Report, CheckView, WitNegative, WptNegative,
};
use crate::conformance::token_vectors::{WitNegativeView, WptNegativeView};
use crate::jose::{failure_message, opt_view, spec_jwk_key, VerifyingKey, VerifyingKeyView};
use crate::text::{owned, push_str};
use crate::wit::{self, WitClaims, WitError};
use crate::wpt::{self, WptClaims, WptError};

verus! {

broadcast use vstd::string::group_string_axioms;

/// What reading the header and claim segments of a WIT gave.
pub struct ParsedWit {
    pub header: Result<HeaderFields, WitError>,
    pub claims: Result<WitClaims, WitError>,
}

/// What reading the header and claim segments of a WPT gave.
pub struct ParsedWpt {
    pub header: Result<HeaderFields, WptError>,
    pub claims: Result<WptClaims, WptError>,
}

/// A case's replacement for a value of the positive case, or that value.
pub open spec fn or_recorded<T>(over: Option<T>, recorded: T) -> T {
    match over {
        Some(x) => x,
        None => recorded,
    }
}

fn case_text<'a>(over: &'a Option<String>, recorded: &'a str) -> (r: &'a str)
    ensures
        r@ == or_recorded(opt_view(*over), recorded@),
{
    match over {
        Some(t) => t.as_str(),
        None => recorded,
    }
}

/// The token a negative WIT case verifies: its own, or the positive case's.
pub fn wit_case_token<'a>(token: &'a str, case: &'a WitNegative) -> (r: &'a str)
    ensures
        r@ == or_recorded(case@.token, token@),
{
    case_text(&case.token, token)
}

/// The proof a negative WPT case verifies: its own, or the positive case's.
pub fn wpt_case_proof<'a>(proof: &'a str, case: &'a WptNegative) -> (r: &'a str)
    ensures
        r@ == or_recorded(case@.proof, proof@),
{
    case_text(&case.proof, proof)
}

// ---------------------------------------------------------------------------
// WIT.
// ---------------------------------------------------------------------------

/// The code a WIT case's verification is recorded as, under key `k`.
pub open spec fn wit_case_actual(
    token: Seq<char>,
    now: u64,
    k: VerifyingKeyView,
    c: WitNegativeView,
    p: ParsedWit,
) -> Result<(), ErrorCode> {
    match wit::verify_spec(
        or_recorded(c.token, token),
        wit::header_outcome(p.header),
        wit::claims_outcome(p.claims),
        k,
        wit::ValidationView {
            now: or_recorded(c.verify_now, now),
            leeway: 0,
            expected_issuer: c.expected_iss,
        },
    ) {
        Ok(_) => Ok(()),
        Err(f) => Err(wit_error_code(f)),
    }
}

/// A WIT case's outcome: verified under its own issuer key if it has one
/// (failing if that key does not load), else under the vector's, and
/// refused for the recorded reason.
pub open spec fn wit_case_outcome(
    token: Seq<char>,
    now: u64,
    issuer: VerifyingKeyView,
    c: WitNegativeView,
    p: ParsedWit,
) -> Result<(), Seq<char>> {
    match c.issuer_verifying_key {
        None => reject_outcome(c.expect, wit_case_actual(token, now, issuer, c, p)),
        Some(j) => match spec_jwk_key(j) {
            Err(f) => Err(failure_message(f)),
            Ok(k) => reject_outcome(c.expect, wit_case_actual(token, now, k, c, p)),
        },
    }
}

/// The checks a run of a WIT vector's negative cases records, one per case.
pub open spec fn wit_negative_checks(
    h: Header,
    token: Seq<char>,
    now: u64,
    issuer: VerifyingKeyView,
    cases: Seq<WitNegative>,
    parsed: Seq<ParsedWit>,
) -> Seq<CheckView> {
    Seq::new(
        cases.len(),
        |i: int|
            check_of(
                vector_name(h),
                "reject/"@ + cases[i]@.id,
                wit_case_outcome(token, now, issuer, cases[i]@, parsed[i]),
            ),
    )
}

fn wit_case(
    token: &str,
    now: u64,
    issuer: &VerifyingKey,
    case: &WitNegative,
    parsed: ParsedWit,
) -> (r: Result<(), String>)
    ensures
        match r {
            Ok(_) => wit_case_outcome(token@, now, issuer@, case@, parsed) == Ok::<(), Seq<char>>(()),
            Err(d) => wit_case_outcome(token@, now, issuer@, case@, parsed) == Err::<(), Seq<char>>(d@),
        },
{
    let own: VerifyingKey;
    let key: &VerifyingKey = match &case.issuer_verifying_key {
        None => issuer,
        Some(jwk) => match jwk.to_verifying_key() {
            Ok(k) => {
                own = k;
                &own
            },
            Err(e) => return Err(e.message()),
        },
    };
    let when: u64 = match case.verify_now {
        Some(t) => t,
        None => now,
    };
    let mut validation: wit::Validation = wit::Validation::at(when);
    match &case.expected_iss {
        Some(iss) => {
            validation = validation.expect_issuer(owned(iss.as_str()));
        },
        None => {},
    }
    let subject: &str = wit_case_token(token, case);
    let ghost p = parsed;
    let actual: Result<(), ErrorCode> = match wit::verify_parsed(
        subject,
        parsed.header,
        parsed.claims,
        key,
        &validation,
    ) {
        Ok(_) => Ok(()),
        Err(e) => Err(ErrorCode::from_wit_error(&e)),
    };
    assert(actual == wit_case_actual(token@, now, key@, case@, p));
    expect_reject(case.expect, actual)
}

/// Runs the negative cases of a WIT vector, each verified as the case says
/// and required to be refused for its recorded reason. `parsed` holds, for
/// each case in order, what reading the segments of
/// [`wit_case_token`] gave.
pub fn run_wit_negatives(
    header: &Header,
    token: &str,
    verify_now: u64,
    issuer: &VerifyingKey,
    cases: &Vec<WitNegative>,
    parsed: Vec<ParsedWit>,
    report: &mut Report,
)
    requires
        parsed@.len() == cases@.len(),
    ensures
        final(report)@ == old(report)@ + wit_negative_checks(
            *header,
            token@,
            verify_now,
            issuer@,
            cases@,
            parsed@,
        ),
{
    let ghost start = report@;
    let ghost all = wit_negative_checks(*header, token@, verify_now, issuer@, cases@, parsed@);
    let ghost parsed_view = parsed@;
    let mut name: String = owned(header.suite.as_str());
    push_str(&mut name, "/");
    push_str(&mut name, header.id.as_str());
    proof {
        reveal_strlit("/");
        assert(name@ =~= vector_name(*header));
    }
    let mut rest: Vec<ParsedWit> = parsed;
    assert(rest@ =~= parsed_view.subrange(0, parsed_view.len() as int));
    let mut i: usize = 0;
    assert(all.take(0) =~= Seq::<CheckView>::empty());
    while i < cases.len()
        invariant
            i <= cases@.len(),
            parsed_view.len() == cases@.len(),
            rest@ == parsed_view.subrange(i as int, parsed_view.len() as int),
            name@ == vector_name(*header),
            all == wit_negative_checks(*header, token@, verify_now, issuer@, cases@, parsed_view),
            report@ == start + all.take(i as int),
        decreases cases@.len() - i,
    {
        let p: ParsedWit = rest.remove(0);
        assert(p == parsed_view[i as int]);
        assert(rest@ =~= parsed_view.subrange(i + 1, parsed_view.len() as int));
        let case: &WitNegative = &cases[i];
        let mut check: String = owned("reject/");
        push_str(&mut check, case.id.as_str());
        let outcome: Result<(), String> = wit_case(token, verify_now, issuer, case, p);
        report.record(name.as_str(), check.as_str(), outcome);
        assert(all.take(i + 1) =~= all.take(i as int).push(all[i as int]));
        i = i + 1;
    }
    assert(all.take(all.len() as int) =~= all);
}

// ---------------------------------------------------------------------------
// WPT.
// ---------------------------------------------------------------------------

/// The validation a WPT case verifies under: its own clock, audience and WIT
/// where it has them, else the positive case's.
pub open spec fn wpt_case_validation(
    now: u64,
    audience: Seq<char>,
    wit: Seq<char>,
    c: WptNegativeView,
) -> wpt::ValidationView {
    wpt::ValidationView {
        now: or_recorded(c.verify_now, now),
        leeway: 0,
        audience: or_recorded(c.audience, audience),
        wit: or_recorded(c.wit, wit),
        txn_token: None,
        other_tokens: seq![],
        max_lifetime: None,
    }
}

/// A WPT case's outcome: verified under the proof-of-possession key and
/// refused for the recorded reason.
pub open spec fn wpt_case_outcome(
    proof: Seq<char>,
    now: u64,
    audience: Seq<char>,
    wit: Seq<char>,
    pop: VerifyingKeyView,
    c: WptNegativeView,
    p: ParsedWpt,
) -> Result<(), Seq<char>> {
    reject_outcome(
        c.expect,
        match wpt::verify_spec(
            or_recorded(c.proof, proof),
            wpt::header_outcome(p.header),
            wpt::claims_outcome(p.claims),
            pop,
            wpt_case_validation(now, audience, wit, c),
        ) {
            Ok(_) => Ok(()),
            Err(f) => Err(wpt_error_code(f)),
        },
    )
}

/// The checks a run of a WPT vector's negative cases records, one per case.
pub open spec fn wpt_negative_checks(
    h: Header,
    proof: Seq<char>,
    now: u64,
    audience: Seq<char>,
    wit: Seq<char>,
    pop: VerifyingKeyView,
    cases: Seq<WptNegative>,
    parsed: Seq<ParsedWpt>,
) -> Seq<CheckView> {
    Seq::new(
        cases.len(),
        |i: int|
            check_of(
                vector_name(h),
                "reject/"@ + cases[i]@.id,
                wpt_case_outcome(proof, now, audience, wit, pop, cases[i]@, parsed[i]),
            ),
    )
}

fn wpt_case(
    proof: &str,
    now: u64,
    audience: &str,
    wit: &str,
    pop: &VerifyingKey,
    case: &WptNegative,
    parsed: ParsedWpt,
) -> (r: Result<(), String>)
    ensures
        match r {
            Ok(_) => wpt_case_outcome(proof@, now, audience@, wit@, pop@, case@, parsed)
                == Ok::<(), Seq<char>>(()),
            Err(d) => wpt_case_outcome(proof@, now, audience@, wit@, pop@, case@, parsed)
                == Err::<(), Seq<char>>(d@),
        },
{
    let when: u64 = match case.verify_now {
        Some(t) => t,
        None => now,
    };
    let validation: wpt::Validation = wpt::Validation::new(
        when,
        case_text(&case.audience, audience),
        case_text(&case.wit, wit),
    );
    assert(validation@ == wpt_case_validation(now, audience@, wit@, case@));
    let subject: &str = wpt_case_proof(proof, case);
    let ghost p = parsed;
    let actual: Result<(), ErrorCode> = match wpt::verify_parsed(
        subject,
        parsed.header,
        parsed.claims,
        pop,
        &validation,
    ) {
        Ok(_) => Ok(()),
        Err(e) => Err(ErrorCode::from_wpt_error(&e)),
    };
    expect_reject(case.expect, actual)
}

/// Runs the negative cases of a WPT vector, each verified under the
/// proof-of-possession key with the clock, audience and WIT the case says,
/// and required to be refused for its recorded reason. `parsed` holds, for
/// each case in order, what reading the segments of [`wpt_case_proof`] gave.
pub fn run_wpt_negatives(
    header: &Header,
    proof: &str,
    verify_now: u64,
    audience: &str,
    wit: &str,
    pop: &VerifyingKey,
    cases: &Vec<WptNegative>,
    parsed: Vec<ParsedWpt>,
    report: &mut Report,
)
    requires
        parsed@.len() == cases@.len(),
    ensures
        final(report)@ == old(report)@ + wpt_negative_checks(
            *header,
            proof@,
            verify_now,
            audience@,
            wit@,
            pop@,
            cases@,
            parsed@,
        ),
{
    let ghost start = report@;
    let ghost all = wpt_negative_checks(
        *header,
        proof@,
        verify_now,
        audience@,
        wit@,
        pop@,
        cases@,
        parsed@,
    );
    let ghost parsed_view = parsed@;
    let mut name: String = owned(header.suite.as_str());
    push_str(&mut name, "/");
    push_str(&mut name, header.id.as_str());
    proof {
        reveal_strlit("/");
        assert(name@ =~= vector_name(*header));
    }
    let mut rest: Vec<ParsedWpt> = parsed;
    assert(rest@ =~= parsed_view.subrange(0, parsed_view.len() as int));
    let mut i: usize = 0;
    assert(all.take(0) =~= Seq::<CheckView>::empty());
    while i < cases.len()
        invariant
            i <= cases@.len(),
            parsed_view.len() == cases@.len(),
            rest@ == parsed_view.subrange(i as int, parsed_view.len() as int),
            name@ == vector_name(*header),
            all == wpt_negative_checks(
                *header,
                proof@,
                verify_now,
                audience@,
                wit@,
                pop@,
                cases@,
                parsed_view,
            ),
            report@ == start + all.take(i as int),
        decreases cases@.len() - i,
    {
        let p: ParsedWpt = rest.remove(0);
        assert(p == parsed_view[i as int]);
        assert(rest@ =~= parsed_view.subrange(i + 1, parsed_view.len() as int));
        let case: &WptNegative = &cases[i];
        let mut check: String = owned("reject/");
        push_str(&mut check, case.id.as_str());
        let outcome: Result<(), String> = wpt_case(
            proof,
            verify_now,
            audience,
            wit,
            pop,
            case,
            p,
        );
        report.record(name.as_str(), check.as_str(), outcome);
        assert(all.take(i + 1) =~= all.take(i as int).push(all[i as int]));
        i = i + 1;
    }
    assert(all.take(all.len() as int) =~= all);
}

} // verus!
