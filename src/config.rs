//! Values derived from addresses, credentials and platform defaults.
use vstd::prelude::*;
use vstd::string::*;
use crate::error::Error;
use crate::text::{trim, trimmed};

verus! {

/// This library's version.
pub const VERSION_STRING: &'static str = "0.1.0";

/// The product name and version, as sent in the user agent of API requests.
pub fn version() -> (r: String)
    ensures
        r@ == "zeronsd "@ + VERSION_STRING@,
{
    String::from_str("zeronsd ").concat(VERSION_STRING)
}

/// The text of an optional string, as a sequence.
pub open spec fn opt_string_view(s: Option<String>) -> Option<Seq<char>> {
    match s {
        Some(t) => Some(t@),
        None => None,
    }
}

/// What `central_token` gives: the trimmed file contents when a token file
/// was read, else the environment's token when it is non-empty, else none.
pub open spec fn token_choice(file: Option<Seq<char>>, env: Option<Seq<char>>) -> Option<Seq<char>> {
    match file {
        Some(c) => Some(trimmed(c)),
        None => match env {
            Some(t) => if t.len() > 0 {
                Some(t)
            } else {
                None
            },
            None => None,
        },
    }
}

/// Picks the central API token from the contents of an explicit token file,
/// if one was read, and from the environment's value, if it is set. The file
/// always wins; the two are never merged.
pub fn central_token(file_contents: Option<String>, env_token: Option<String>) -> (r: Option<String>)
    ensures
        match r {
            Some(t) => token_choice(opt_string_view(file_contents), opt_string_view(env_token))
                == Some(t@),
            None => token_choice(opt_string_view(file_contents), opt_string_view(env_token)) is None,
        },
{
    match file_contents {
        Some(c) => Some(trim(c.as_str())),
        None => match env_token {
            Some(t) => if t.as_str().unicode_len() > 0 {
                Some(t)
            } else {
                None
            },
            None => None,
        },
    }
}

/// The operating system the program runs on, as far as default paths go.
#[derive(Debug, Clone, Copy, PartialEq, Eq, Structural)]
pub enum Platform {
    Linux,
    Windows,
    MacOs,
    Other,
}

pub const LINUX_AUTHTOKEN: &'static str = "/var/lib/zerotier-one/authtoken.secret";

pub const WINDOWS_AUTHTOKEN: &'static str = "C:/ProgramData/ZeroTier/One/authtoken.secret";

pub const MACOS_AUTHTOKEN: &'static str = "/Library/Application Support/ZeroTier/One/authtoken.secret";

/// The platform's default path of the local agent's credential file.
pub open spec fn default_authtoken(platform: Platform) -> Option<Seq<char>> {
    match platform {
        Platform::Linux => Some(LINUX_AUTHTOKEN@),
        Platform::Windows => Some(WINDOWS_AUTHTOKEN@),
        Platform::MacOs => Some(MACOS_AUTHTOKEN@),
        Platform::Other => None,
    }
}

/// The path of the local agent's credential file: the one given, else the
/// platform's default.
pub fn authtoken_path(arg: Option<&str>, platform: Platform) -> (r: Result<String, Error>)
    ensures
        match arg {
            Some(a) => r matches Ok(p) && p@ == a@,
            None => match default_authtoken(platform) {
                Some(d) => r matches Ok(p) && p@ == d,
                None => r == Err::<String, Error>(Error::NoDefaultAuthtokenPath),
            },
        },
{
    match arg {
        Some(a) => Ok(String::from_str(a)),
        None => match platform {
            Platform::Linux => Ok(String::from_str(LINUX_AUTHTOKEN)),
            Platform::Windows => Ok(String::from_str(WINDOWS_AUTHTOKEN)),
            Platform::MacOs => Ok(String::from_str(MACOS_AUTHTOKEN)),
            Platform::Other => Err(Error::NoDefaultAuthtokenPath),
        },
    }
}

/// The addresses on which to listen, from what the local agent reports as
/// assigned on the network: all of them, as reported, when there is at least one.
pub fn listen_ips(assigned: Option<Vec<String>>) -> (r: Result<Vec<String>, Error>)
    ensures
        match assigned {
            Some(a) => if a@.len() > 0 {
                r == Ok::<Vec<String>, Error>(a)
            } else {
                r == Err::<Vec<String>, Error>(Error::NoListenAddresses)
            },
            None => r == Err::<Vec<String>, Error>(Error::NoListenAddresses),
        },
{
    if let Some(a) = assigned {
        if a.len() > 0 {
            return Ok(a);
        }
    }
    Err(Error::NoListenAddresses)
}

/// The text before the first `/` of `s`, or all of `s` when it has none.
pub open spec fn address_part(s: Seq<char>) -> Seq<char>
    decreases s.len(),
{
    if s.len() == 0 || s[0] == '/' {
        Seq::empty()
    } else {
        seq![s[0]] + address_part(s.drop_first())
    }
}

/// Strips the `/prefix` suffix from an address written in CIDR notation.
pub fn parse_ip_from_cidr(ip_with_cidr: String) -> (r: String)
    ensures
        r@ == address_part(ip_with_cidr@),
{
    let s = ip_with_cidr.as_str();
    let n = s.unicode_len();
    let mut i: usize = 0;
    while i < n
        invariant
            n == s@.len(),
            i <= n,
            forall|j: int| 0 <= j < i ==> s@[j] != '/',
        ensures
            i <= n,
            forall|j: int| 0 <= j < i ==> s@[j] != '/',
            i == n || s@[i as int] == '/',
        decreases n - i,
    {
        if s.get_char(i) == '/' {
            break;
        }
        i = i + 1;
    }
    proof {
        lemma_address_part_prefix(s@, i as int);
    }
    String::from_str(s.substring_char(0, i))
}

proof fn lemma_address_part_prefix(s: Seq<char>, i: int)
    requires
        0 <= i <= s.len(),
        forall|j: int| 0 <= j < i ==> s[j] != '/',
        i == s.len() || s[i] == '/',
    ensures
        address_part(s) == s.subrange(0, i),
    decreases i,
{
    if i == 0 {
        assert(s.subrange(0, 0) =~= Seq::<char>::empty());
    } else {
        lemma_address_part_prefix(s.drop_first(), i - 1);
        assert(s.subrange(0, i) =~= seq![s[0]] + s.drop_first().subrange(0, i - 1));
    }
}

} // verus!
