//! Workload identifier parsing: the accepted forms and every rejection.

use wimsey::identifier::{ParseError, Scheme, WorkloadIdentifier, MAX_ID_LEN};

#[test]
fn parses_a_simple_identifier() {
    let id = WorkloadIdentifier::parse("spiffe://example.org/workload/api").unwrap();
    assert_eq!(id.scheme(), Scheme::Spiffe);
    assert_eq!(id.trust_domain(), "example.org");
    assert_eq!(id.path(), "/workload/api");
    assert_eq!(id.as_str(), "spiffe://example.org/workload/api");
}

#[test]
fn parses_a_wimse_scheme_identifier() {
    let id = WorkloadIdentifier::parse("wimse://trust.example.com/service/payment").unwrap();
    assert_eq!(id.scheme(), Scheme::Wimse);
    assert_eq!(id.trust_domain(), "trust.example.com");
    assert_eq!(id.path(), "/service/payment");
}

#[test]
fn parses_a_trust_domain_only_identifier() {
    let id = WorkloadIdentifier::parse("spiffe://example.org").unwrap();
    assert_eq!(id.trust_domain(), "example.org");
    assert_eq!(id.path(), "");
}

#[test]
fn reports_the_origin() {
    let id = WorkloadIdentifier::parse("wimse://trust.corp.example.com/workload/1").unwrap();
    assert_eq!(id.origin(), "wimse://trust.corp.example.com");

    let bare = WorkloadIdentifier::parse("spiffe://prod.trust.domain").unwrap();
    assert_eq!(bare.origin(), "spiffe://prod.trust.domain");
}

#[test]
fn rejects_an_unsupported_scheme() {
    assert_eq!(
        WorkloadIdentifier::parse("https://example.org/x"),
        Err(ParseError::UnsupportedScheme)
    );
}

#[test]
fn rejects_empty_trust_domain() {
    assert_eq!(
        WorkloadIdentifier::parse("spiffe:///path"),
        Err(ParseError::EmptyTrustDomain)
    );
    assert_eq!(
        WorkloadIdentifier::parse("wimse:///path"),
        Err(ParseError::EmptyTrustDomain)
    );
}

#[test]
fn rejects_uppercase_trust_domain() {
    assert_eq!(
        WorkloadIdentifier::parse("spiffe://Example.org/x"),
        Err(ParseError::InvalidTrustDomainChar('E'))
    );
}

// Section 4.1: a Workload Identifier URI MUST NOT contain a query, a
// fragment, user information, or a port.
#[test]
fn rejects_a_query_component() {
    assert_eq!(
        WorkloadIdentifier::parse("wimse://example.org/a?b=c"),
        Err(ParseError::HasQuery)
    );
    assert_eq!(
        WorkloadIdentifier::parse("spiffe://example.org?b=c"),
        Err(ParseError::HasQuery)
    );
}

#[test]
fn rejects_a_fragment_component() {
    assert_eq!(
        WorkloadIdentifier::parse("wimse://example.org/a#frag"),
        Err(ParseError::HasFragment)
    );
    assert_eq!(
        WorkloadIdentifier::parse("spiffe://example.org#frag"),
        Err(ParseError::HasFragment)
    );
}

#[test]
fn rejects_user_information() {
    assert_eq!(
        WorkloadIdentifier::parse("wimse://user@example.org/a"),
        Err(ParseError::HasUserInfo)
    );
}

#[test]
fn rejects_a_port() {
    assert_eq!(
        WorkloadIdentifier::parse("wimse://example.org:8443/a"),
        Err(ParseError::HasPort)
    );
}

#[test]
fn rejects_trailing_slash() {
    assert_eq!(
        WorkloadIdentifier::parse("spiffe://example.org/x/"),
        Err(ParseError::EmptyPathSegment)
    );
}

#[test]
fn rejects_double_slash_in_path() {
    assert_eq!(
        WorkloadIdentifier::parse("spiffe://example.org/x//y"),
        Err(ParseError::EmptyPathSegment)
    );
}

#[test]
fn rejects_dot_segment() {
    assert_eq!(
        WorkloadIdentifier::parse("spiffe://example.org/a/../b"),
        Err(ParseError::DotSegment)
    );
    assert_eq!(
        WorkloadIdentifier::parse("wimse://example.org/a/./b"),
        Err(ParseError::DotSegment)
    );
}

#[test]
fn rejects_invalid_path_char() {
    assert_eq!(
        WorkloadIdentifier::parse("spiffe://example.org/a b"),
        Err(ParseError::InvalidPathChar(' '))
    );
    assert_eq!(
        WorkloadIdentifier::parse("wimse://example.org/a b"),
        Err(ParseError::InvalidPathChar(' '))
    );
}

// Section 4.4 leaves the `wimse` path to the generic RFC 3986 `pchar` set,
// which is wider than the SPIFFE ID charset.
#[test]
fn wimse_path_accepts_the_generic_pchar_set() {
    let id =
        WorkloadIdentifier::parse("wimse://example.org/a~b!c$d&e'f(g)h*i+j,k;l=m:n@o").unwrap();
    assert_eq!(id.path(), "/a~b!c$d&e'f(g)h*i+j,k;l=m:n@o");
}

#[test]
fn spiffe_path_rejects_what_the_wimse_path_allows() {
    assert_eq!(
        WorkloadIdentifier::parse("spiffe://example.org/a~b"),
        Err(ParseError::InvalidPathChar('~'))
    );
}

#[test]
fn wimse_path_accepts_percent_encoding() {
    let id = WorkloadIdentifier::parse("wimse://example.org/a%2Fb").unwrap();
    assert_eq!(id.path(), "/a%2Fb");
}

#[test]
fn rejects_malformed_percent_encoding() {
    assert_eq!(
        WorkloadIdentifier::parse("wimse://example.org/a%zz"),
        Err(ParseError::BadPercentEncoding)
    );
    assert_eq!(
        WorkloadIdentifier::parse("wimse://example.org/a%4"),
        Err(ParseError::BadPercentEncoding)
    );
}

#[test]
fn rejects_non_ascii_in_a_path() {
    assert_eq!(
        WorkloadIdentifier::parse("wimse://example.org/aあb"),
        Err(ParseError::InvalidPathChar('あ'))
    );
}

// Section 4.1 requires support for identifiers of at least 2048 bytes.
#[test]
fn accepts_an_identifier_at_the_length_limit() {
    let prefix = "wimse://example.org/";
    let id = format!("{prefix}{}", "a".repeat(MAX_ID_LEN - prefix.len()));
    assert_eq!(id.len(), MAX_ID_LEN);
    assert!(WorkloadIdentifier::parse(&id).is_ok());
}

#[test]
fn rejects_too_long_identifier() {
    let long = format!("spiffe://example.org/{}", "a".repeat(MAX_ID_LEN));
    assert_eq!(WorkloadIdentifier::parse(&long), Err(ParseError::TooLong));
}

#[test]
fn parses_through_from_str() {
    let id: WorkloadIdentifier = "spiffe://example.org/api".parse().unwrap();
    assert_eq!(id.as_str(), "spiffe://example.org/api");
    assert_eq!("https://example.org/x".parse::<WorkloadIdentifier>(), Err(ParseError::UnsupportedScheme));
}

#[test]
fn an_identifier_is_its_origin_followed_by_its_path() {
    for s in [
        "spiffe://example.org/workload/api",
        "wimse://trust.example.com/service/payment",
        "spiffe://prod.trust.domain",
    ] {
        let id = WorkloadIdentifier::parse(s).unwrap();
        assert_eq!(format!("{}{}", id.origin(), id.path()), s);
        assert_eq!(id.origin(), format!("{}://{}", id.scheme().as_str(), id.trust_domain()));
        assert!(!id.trust_domain().is_empty());
        assert!(id.path().is_empty() || id.path().starts_with('/'));
    }
    let long = format!("spiffe://example.org/{}", "a".repeat(MAX_ID_LEN));
    assert_eq!(WorkloadIdentifier::parse(&long), Err(ParseError::TooLong));
    assert_eq!(WorkloadIdentifier::parse("wimse://example.org/a?b=c"), Err(ParseError::HasQuery));
}

#[test]
fn converts_from_an_owned_string() {
    let id = WorkloadIdentifier::try_from("wimse://example.org/service".to_owned()).unwrap();
    assert_eq!(id.as_str(), "wimse://example.org/service");
    assert_eq!(id.trust_domain(), "example.org");
    assert_eq!(WorkloadIdentifier::try_from("spiffe://".to_owned()), Err(ParseError::EmptyTrustDomain));
}
