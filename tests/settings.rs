use zeronsd::config::{
    authtoken_path, central_token, listen_ips, parse_ip_from_cidr, version, Platform,
    LINUX_AUTHTOKEN, MACOS_AUTHTOKEN, VERSION_STRING, WINDOWS_AUTHTOKEN,
};
use zeronsd::domain::domain_or_default;
use zeronsd::error::{Error, ErrorKind};
use zeronsd::sync::{dns_settings, plan_dns_update, DnsSettings, NetworkConfig};

#[test]
fn version_names_the_product() {
    assert_eq!(version(), format!("zeronsd {}", VERSION_STRING));
}

#[test]
fn cidr_suffix_is_stripped() {
    assert_eq!(parse_ip_from_cidr("10.0.0.1/24".to_string()), "10.0.0.1");
    assert_eq!(parse_ip_from_cidr("fd00::1/88".to_string()), "fd00::1");
    assert_eq!(parse_ip_from_cidr("10.0.0.1".to_string()), "10.0.0.1");
    assert_eq!(parse_ip_from_cidr("a/b/c".to_string()), "a");
    assert_eq!(parse_ip_from_cidr(String::new()), "");
}

#[test]
fn token_file_wins_over_environment() {
    let r = central_token(Some("  from-file \n".to_string()), Some("from-env".to_string()));
    assert_eq!(r, Some("from-file".to_string()));
}

#[test]
fn empty_token_file_is_accepted() {
    assert_eq!(central_token(Some(" \n".to_string()), Some("from-env".to_string())), Some(String::new()));
}

#[test]
fn environment_token_is_the_fallback() {
    assert_eq!(central_token(None, Some("from-env".to_string())), Some("from-env".to_string()));
    assert_eq!(central_token(None, Some(String::new())), None);
    assert_eq!(central_token(None, None), None);
}

#[test]
fn given_authtoken_path_wins() {
    assert_eq!(authtoken_path(Some("/tmp/token"), Platform::Other), Ok("/tmp/token".to_string()));
}

#[test]
fn platform_default_authtoken_paths() {
    assert_eq!(authtoken_path(None, Platform::Linux), Ok(LINUX_AUTHTOKEN.to_string()));
    assert_eq!(
        authtoken_path(None, Platform::Linux),
        Ok("/var/lib/zerotier-one/authtoken.secret".to_string())
    );
    assert_eq!(authtoken_path(None, Platform::Windows), Ok(WINDOWS_AUTHTOKEN.to_string()));
    assert_eq!(authtoken_path(None, Platform::MacOs), Ok(MACOS_AUTHTOKEN.to_string()));
}

#[test]
fn unknown_platform_has_no_default_authtoken() {
    let e = authtoken_path(None, Platform::Other).unwrap_err();
    assert_eq!(e, Error::NoDefaultAuthtokenPath);
    assert_eq!(e.kind(), ErrorKind::Configuration);
}

#[test]
fn no_listen_addresses_is_an_error() {
    assert_eq!(listen_ips(Some(vec![])), Err(Error::NoListenAddresses));
    assert_eq!(listen_ips(None), Err(Error::NoListenAddresses));
    assert_eq!(Error::NoListenAddresses.kind(), ErrorKind::Resource);
}

#[test]
fn listen_addresses_are_returned_as_reported() {
    let a = vec!["10.0.0.1/24".to_string()];
    assert_eq!(listen_ips(Some(a.clone())), Ok(a));
}

#[test]
fn dns_settings_use_relative_domain() {
    let d = domain_or_default(Some("example")).unwrap();
    let s = dns_settings(&d, "10.0.0.1".to_string());
    assert_eq!(s, DnsSettings { domain: "example".to_string(), servers: vec!["10.0.0.1".to_string()] });
}

#[test]
fn update_replaces_only_dns() {
    let d = domain_or_default(None).unwrap();
    let routes = vec![("10.0.0.0/24".to_string(), "10.0.0.254".to_string())];
    let old = NetworkConfig {
        dns: Some(DnsSettings { domain: "old".to_string(), servers: vec!["1.1.1.1".to_string(), "8.8.8.8".to_string()] }),
        rest: routes.clone(),
    };
    let n = plan_dns_update(Some(old), &d, "10.0.0.1".to_string()).unwrap();
    assert_eq!(n.rest, routes);
    assert_eq!(n.dns, Some(DnsSettings { domain: "domain".to_string(), servers: vec!["10.0.0.1".to_string()] }));
}

#[test]
fn network_without_config_is_not_updated() {
    let d = domain_or_default(None).unwrap();
    assert!(plan_dns_update::<u32>(None, &d, "10.0.0.1".to_string()).is_none());
}
