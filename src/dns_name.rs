//! Whether text parses as a DNS name, as trust-dns decides it.
use vstd::prelude::*;
use trust_dns_resolver::IntoName;
use trust_dns_resolver::proto::error::ProtoError;

verus! {

#[verifier::external_type_specification]
#[verifier::external_body]
pub struct ExProtoError(ProtoError);

/// Whether trust-dns parses the text as a name through IDNA (`Name::from_utf8`).
pub uninterp spec fn idna_name_parses(s: Seq<char>) -> bool;

/// Whether trust-dns parses the text as a name through `FromStr`
/// (`Name::from_utf8`, falling back to `Name::from_ascii`).
pub uninterp spec fn relaxed_name_parses(s: Seq<char>) -> bool;

/// Relies on `IntoName::into_name` for `&str` in trust-dns: succeeds exactly
/// when the text parses as a name; the name itself is not kept.
#[verifier::external_body]
pub(crate) fn check_hostname_syntax(s: &str) -> (r: Result<(), ProtoError>)
    ensures
        r is Ok <==> idna_name_parses(s@),
{
    match s.into_name() {
        Ok(_) => Ok(()),
        Err(e) => Err(e),
    }
}

/// Relies on `<Name as FromStr>::from_str` in trust-dns: succeeds exactly
/// when the text parses as a name; the name itself is not kept.
#[verifier::external_body]
pub(crate) fn check_domain_syntax(s: &str) -> (r: Result<(), ProtoError>)
    ensures
        r is Ok <==> relaxed_name_parses(s@),
{
    match <trust_dns_server::client::rr::Name as std::str::FromStr>::from_str(s) {
        Ok(_) => Ok(()),
        Err(e) => Err(e),
    }
}

} // verus!
