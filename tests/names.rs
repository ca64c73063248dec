use zeronsd::domain::{domain_or_default, DOMAIN_NAME};
use zeronsd::error::{Error, ErrorKind};
use zeronsd::hostname::{append_domain, parse_member_name, to_fqdn, to_hostname};

fn host(s: &str) -> String {
    to_hostname(s).unwrap().as_str().to_string()
}

#[test]
fn whitespace_run_becomes_one_dash() {
    assert_eq!(host("foo   bar"), "foo-bar");
}

#[test]
fn disallowed_characters_are_dropped() {
    assert_eq!(host("foo!bar"), "foobar");
}

#[test]
fn trailing_dot_is_rejected() {
    assert_eq!(to_hostname("foo."), Err(Error::TrailingDot));
}

#[test]
fn lone_dot_is_rejected() {
    assert_eq!(to_hostname("."), Err(Error::TrailingDot));
}

#[test]
fn all_disallowed_is_empty() {
    assert_eq!(to_hostname("!!!"), Err(Error::EmptyHostname));
    assert_eq!(to_hostname(""), Err(Error::EmptyHostname));
    assert_eq!(to_hostname("   "), Err(Error::EmptyHostname));
}

#[test]
fn surrounding_whitespace_is_trimmed() {
    assert_eq!(host("  foo  "), "foo");
    assert_eq!(host("\ta\t\nb "), "a-b");
}

#[test]
fn allowed_punctuation_is_kept() {
    assert_eq!(host("_a-b.c"), "_a-b.c");
    assert_eq!(to_hostname("a_b"), Err(Error::InvalidHostname));
}

#[test]
fn case_is_kept() {
    assert_eq!(host("My Device #1"), "My-Device-1");
}

#[test]
fn empty_label_is_invalid() {
    assert_eq!(to_hostname("a..b"), Err(Error::InvalidHostname));
}

#[test]
fn overlong_label_is_invalid() {
    let long = "a".repeat(64);
    assert_eq!(to_hostname(&long), Err(Error::InvalidHostname));
    let fits = "a".repeat(63);
    assert_eq!(host(&fits), fits);
}

#[test]
fn sanitizing_is_idempotent() {
    for s in ["foo   bar", "My Device #1", "  a!b c  ", "_x.y-z", "é t"] {
        let h = host(s);
        assert_eq!(host(&h), h);
    }
}

#[test]
fn default_domain() {
    let d = domain_or_default(None).unwrap();
    assert_eq!(d.as_str(), DOMAIN_NAME);
    assert_eq!(d.as_str(), "domain.");
}

#[test]
fn empty_domain_is_rejected() {
    assert_eq!(domain_or_default(Some("")), Err(Error::EmptyDomain));
    assert_eq!(Error::EmptyDomain.kind(), ErrorKind::Validation);
}

#[test]
fn given_domain_becomes_absolute() {
    let d = domain_or_default(Some("example")).unwrap();
    assert_eq!(d.as_str(), "example.");
    assert_eq!(d.to_relative(), "example");
}

#[test]
fn malformed_domain_is_rejected() {
    assert_eq!(domain_or_default(Some("a..b")), Err(Error::InvalidDomain));
}

#[test]
fn fqdn_appends_domain() {
    let d = domain_or_default(Some("example")).unwrap();
    let h = to_hostname("host").unwrap();
    assert_eq!(append_domain(&h, &d).as_str(), "host.example.");
}

#[test]
fn member_name_end_to_end() {
    let d = domain_or_default(None).unwrap();
    let f = parse_member_name(Some("My Device #1".to_string()), &d).unwrap();
    assert_eq!(f.as_str(), "My-Device-1.domain.");
    assert_eq!(to_fqdn("My Device #1", &d).unwrap().as_str(), "My-Device-1.domain.");
}

#[test]
fn member_without_usable_name_is_skipped() {
    let d = domain_or_default(None).unwrap();
    assert!(parse_member_name(None, &d).is_none());
    assert!(parse_member_name(Some("   ".to_string()), &d).is_none());
    assert!(parse_member_name(Some("foo.".to_string()), &d).is_none());
    assert!(parse_member_name(Some("!!!".to_string()), &d).is_none());
}

#[test]
fn fqdn_errors_pass_through() {
    let d = domain_or_default(None).unwrap();
    assert_eq!(to_fqdn("foo.", &d), Err(Error::TrailingDot));
}
