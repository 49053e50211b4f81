use hatsu::error::{AppError, ParseFault};
use hatsu::web_url::{clone_url, parse_optional, same_url, WebUrl};

#[test]
fn parse_reads_serialisation_and_domain() {
    let url = WebUrl::parse("HTTPS://Example.COM").unwrap();
    assert_eq!(url.as_str(), "https://example.com/");
    assert_eq!(url.domain(), Some("example.com"));
    assert_eq!(url.as_url().path(), "/");
}

#[test]
fn parse_rejects_relative_text() {
    match WebUrl::parse("not a url") {
        Err(AppError::Parse(ParseFault::Url)) => {}
        other => panic!("unexpected: {:?}", other),
    }
}

#[test]
fn address_host_has_no_domain() {
    let url = WebUrl::parse("https://127.0.0.1/inbox").unwrap();
    assert_eq!(url.as_str(), "https://127.0.0.1/inbox");
    assert_eq!(url.domain(), None);
}

#[test]
fn clone_keeps_every_part() {
    let url = WebUrl::parse("https://example.com/u/alice").unwrap();
    let copy = url.clone();
    assert!(url.same(&copy));
    assert_eq!(copy.as_str(), "https://example.com/u/alice");
    assert_eq!(copy.domain(), Some("example.com"));
    assert_eq!(copy.as_url(), url.as_url());
}

#[test]
fn same_tells_urls_apart() {
    let a = WebUrl::parse("https://example.com/a").unwrap();
    let b = WebUrl::parse("https://example.com/b").unwrap();
    assert!(a.same(&a));
    assert!(!a.same(&b));
    assert!(same_url(&None, &None));
    assert!(!same_url(&Some(a.clone()), &None));
    assert!(same_url(&Some(a.clone()), &clone_url(&Some(a))));
}

#[test]
fn parse_optional_keeps_absence() {
    assert!(parse_optional(&None).unwrap().is_none());
    let read = parse_optional(&Some("https://example.com/icon.png".to_string())).unwrap();
    assert_eq!(read.unwrap().as_str(), "https://example.com/icon.png");
    match parse_optional(&Some("icon.png".to_string())) {
        Err(AppError::Parse(ParseFault::Url)) => {}
        other => panic!("unexpected: {:?}", other),
    }
}

#[test]
fn verify_domain_accepts_same_domain() {
    let id = WebUrl::parse("https://example.com/u/alice").unwrap();
    let expected = WebUrl::parse("https://example.com/inbox").unwrap();
    assert!(id.verify_domain(&expected).is_ok());
}

#[test]
fn verify_domain_rejects_other_domain() {
    let id = WebUrl::parse("https://example.com/u/alice").unwrap();
    let expected = WebUrl::parse("https://sample.net/u/alice").unwrap();
    match id.verify_domain(&expected) {
        Err(AppError::DomainVerification) => {}
        other => panic!("unexpected: {:?}", other),
    }
}

#[test]
fn verify_domain_tells_subdomains_apart() {
    let id = WebUrl::parse("https://social.example.com/u/alice").unwrap();
    let expected = WebUrl::parse("https://example.com/u/alice").unwrap();
    assert!(id.verify_domain(&expected).is_err());
}

#[test]
fn verify_domain_takes_two_address_hosts_as_equal() {
    let a = WebUrl::parse("https://127.0.0.1/u/alice").unwrap();
    let b = WebUrl::parse("https://10.0.0.1/u/alice").unwrap();
    assert!(a.verify_domain(&b).is_ok());
}
