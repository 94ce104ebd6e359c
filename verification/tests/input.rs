use wimsey::httpsig::Component;
use wimsey::input::{
    build_request, checked_authority, checked_label, checked_method, checked_path, ensure_covers,
    has_header, is_valid_header_name, is_valid_header_value, mandatory_components, parse_component,
    parse_components, parse_header, InputError,
};

fn headers(pairs: &[(&str, &str)]) -> Vec<(String, String)> {
    pairs.iter().map(|(n, v)| (n.to_string(), v.to_string())).collect()
}

#[test]
fn parses_a_header_argument() {
    assert_eq!(
        parse_header(" Content-Type :  application/json "),
        Ok(("Content-Type".to_owned(), "application/json".to_owned()))
    );
    assert_eq!(parse_header("X-A: b:c"), Ok(("X-A".to_owned(), "b:c".to_owned())));
    assert_eq!(parse_header("no colon"), Err(InputError::HeaderForm));
    assert_eq!(parse_header("bad name: v"), Err(InputError::HeaderName("bad name".to_owned())));
    assert_eq!(parse_header("X-A: a\u{1}b"), Err(InputError::HeaderValue("X-A".to_owned())));
    assert!(is_valid_header_name("x-request-id"));
    assert!(!is_valid_header_name(""));
    assert!(is_valid_header_value("a\tb"));
    assert!(!is_valid_header_value("a\u{7f}"));
}

#[test]
fn checks_the_request_target() {
    assert_eq!(checked_authority(" Service.EXAMPLE:8443 "), Ok("service.example:8443".to_owned()));
    assert_eq!(checked_authority("  "), Err(InputError::EmptyAuthority));
    assert_eq!(checked_authority("a/b"), Err(InputError::AuthorityChars));
    assert_eq!(checked_path("/transfer"), Ok("/transfer".to_owned()));
    assert_eq!(checked_path("transfer"), Err(InputError::PathStart));
    assert_eq!(checked_path("/a?b=c"), Err(InputError::PathChars));
    assert_eq!(checked_method(" POST "), Ok("POST".to_owned()));
    assert_eq!(checked_method("PO ST"), Err(InputError::Method));
    assert_eq!(checked_label("wimse"), Ok("wimse".to_owned()));
    assert_eq!(checked_label("Wimse"), Err(InputError::Label));
}

#[test]
fn parses_covered_component_lists() {
    assert_eq!(parse_component(" @Method "), Ok(Component::Method));
    assert_eq!(parse_component("Content-Type"), Ok(Component::header("content-type")));
    assert_eq!(parse_component("@status"), Err(InputError::DerivedComponent("status".to_owned())));
    assert_eq!(
        parse_components("@method, @path ,content-digest"),
        Ok(vec![Component::Method, Component::Path, Component::header("content-digest")])
    );
    assert_eq!(parse_components(" , "), Err(InputError::EmptyComponentList));
    assert_eq!(parse_components("@method, a b"), Err(InputError::HeaderComponent("a b".to_owned())));
}

#[test]
fn requires_the_profile_components() {
    let h = headers(&[("Content-Type", "application/json"), ("Workload-Identity-Token", "t")]);
    assert!(has_header(&h, "content-type"));
    assert!(!has_header(&h, "authorization"));
    let mandatory = mandatory_components(&h);
    assert_eq!(
        mandatory,
        vec![
            Component::Method,
            Component::RequestTarget,
            Component::header("content-type"),
            Component::header("workload-identity-token"),
        ]
    );
    assert_eq!(ensure_covers(&mandatory, &mandatory), Ok(()));
    let partial = vec![Component::Method, Component::RequestTarget];
    assert_eq!(
        ensure_covers(&partial, &mandatory),
        Err(InputError::NotCovered("\"content-type\"".to_owned()))
    );
}

#[test]
fn builds_a_normalized_request() {
    let request = build_request(" POST ", "Service.Example", "/transfer", Some("??a=1"), headers(&[("X", "y")])).unwrap();
    assert_eq!(request.method, "POST");
    assert_eq!(request.authority, "service.example");
    assert_eq!(request.path, "/transfer");
    assert_eq!(request.query.as_deref(), Some("a=1"));
    assert_eq!(request.headers, headers(&[("X", "y")]));
    assert_eq!(build_request("POST", "", "/", None, Vec::new()).err(), Some(InputError::EmptyAuthority));
}
