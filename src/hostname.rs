//! Turning free-form member names into hostnames and fully-qualified names.
use vstd::prelude::*;
use vstd::string::*;
use crate::dns_name::{check_hostname_syntax, idna_name_parses};
use crate::domain::Domain;
use crate::error::Error;
use crate::text::{
    is_alphanumeric,
    is_space,
    lemma_trimmed_no_whitespace,
    no_whitespace,
    push_char,
    trim,
    trimmed,
    unicode_alphanumeric,
    unicode_whitespace,
};

verus! {

/// The first rewrite: every maximal run of whitespace becomes a single `-`.
pub open spec fn collapse_whitespace(s: Seq<char>) -> Seq<char>
    decreases s.len(),
{
    if s.len() == 0 {
        Seq::empty()
    } else {
        let before = collapse_whitespace(s.drop_last());
        if !unicode_whitespace(s.last()) {
            before.push(s.last())
        } else if s.len() >= 2 && unicode_whitespace(s[s.len() - 2]) {
            before
        } else {
            before.push('-')
        }
    }
}

/// A character that survives the second rewrite: a letter, a digit, `_`, `-`
/// or `.`. Whitespace has already become `-` when this rule runs.
pub open spec fn allowed_char(c: char) -> bool {
    !unicode_whitespace(c) && (c == '.' || c == '_' || c == '-' || unicode_alphanumeric(c))
}

/// The second rewrite: every character that is not allowed is deleted.
pub open spec fn drop_disallowed(s: Seq<char>) -> Seq<char>
    decreases s.len(),
{
    if s.len() == 0 {
        Seq::empty()
    } else if allowed_char(s.last()) {
        drop_disallowed(s.drop_last()).push(s.last())
    } else {
        drop_disallowed(s.drop_last())
    }
}

/// Both rewrites, in their order.
pub open spec fn rewrite(s: Seq<char>) -> Seq<char> {
    drop_disallowed(collapse_whitespace(s))
}

/// The candidate hostname: the label trimmed, rewritten, and trimmed again.
pub open spec fn sanitized(s: Seq<char>) -> Seq<char> {
    trimmed(rewrite(trimmed(s)))
}

/// What `to_hostname` gives for a label.
pub open spec fn hostname_result(s: Seq<char>) -> Result<Seq<char>, Error> {
    let t = sanitized(s);
    if t.len() > 0 && t.last() == '.' {
        Err(Error::TrailingDot)
    } else if t.len() == 0 {
        Err(Error::EmptyHostname)
    } else if !idna_name_parses(t) {
        Err(Error::InvalidHostname)
    } else {
        Ok(t)
    }
}

/// Every character of `s` is allowed.
pub open spec fn all_allowed(s: Seq<char>) -> bool {
    forall|i: int| 0 <= i < s.len() ==> allowed_char(#[trigger] s[i])
}

proof fn lemma_drop_disallowed_allowed(s: Seq<char>)
    ensures
        all_allowed(drop_disallowed(s)),
    decreases s.len(),
{
    if s.len() > 0 {
        lemma_drop_disallowed_allowed(s.drop_last());
    }
}

proof fn lemma_rewrite_fixed(s: Seq<char>)
    requires
        all_allowed(s),
    ensures
        collapse_whitespace(s) == s,
        drop_disallowed(s) == s,
    decreases s.len(),
{
    if s.len() > 0 {
        assert(allowed_char(s[s.len() - 1]));
        lemma_rewrite_fixed(s.drop_last());
        assert(s.drop_last().push(s.last()) =~= s);
    }
}

proof fn lemma_allowed_no_whitespace(s: Seq<char>)
    requires
        all_allowed(s),
    ensures
        no_whitespace(s),
{
    assert forall|i: int| 0 <= i < s.len() implies !unicode_whitespace(#[trigger] s[i]) by {
        assert(allowed_char(s[i]));
    }
}

/// A sanitized label is made of allowed characters only.
pub proof fn lemma_sanitized_allowed(s: Seq<char>)
    ensures
        sanitized(s) == rewrite(trimmed(s)),
        all_allowed(sanitized(s)),
{
    let r = rewrite(trimmed(s));
    lemma_drop_disallowed_allowed(collapse_whitespace(trimmed(s)));
    lemma_allowed_no_whitespace(r);
    lemma_trimmed_no_whitespace(r);
}

/// Sanitizing is idempotent: a hostname that a label sanitizes to sanitizes
/// to itself.
pub proof fn lemma_hostname_idempotent(s: Seq<char>)
    requires
        hostname_result(s) is Ok,
    ensures
        hostname_result(hostname_result(s)->Ok_0) == hostname_result(s),
{
    let h = sanitized(s);
    lemma_sanitized_allowed(s);
    lemma_allowed_no_whitespace(h);
    lemma_trimmed_no_whitespace(h);
    lemma_rewrite_fixed(h);
    assert(sanitized(h) == h);
}

fn is_allowed(c: char) -> (r: bool)
    ensures
        r == allowed_char(c),
{
    !is_space(c) && (c == '.' || c == '_' || c == '-' || is_alphanumeric(c))
}

/// Applies both rewrites in a single scan.
fn rewrite_label(s: &str) -> (r: String)
    ensures
        r@ == rewrite(s@),
{
    let dash_is_space = is_space('-');
    assert(!dash_is_space);
    let n = s.unicode_len();
    let mut out = String::new();
    let mut prev_space = false;
    let mut i: usize = 0;
    while i < n
        invariant
            n == s@.len(),
            i <= n,
            !unicode_whitespace('-'),
            out@ == rewrite(s@.subrange(0, i as int)),
            prev_space == (i > 0 && unicode_whitespace(s@[i - 1])),
        decreases n - i,
    {
        let c = s.get_char(i);
        let space = is_space(c);
        let ghost x = s@.subrange(0, i as int);
        let ghost y = s@.subrange(0, i as int + 1);
        proof {
            assert(y.drop_last() =~= x);
            assert(y.last() == c);
            if i > 0 {
                assert(y[y.len() - 2] == s@[i - 1]);
            }
            let cx = collapse_whitespace(x);
            assert(cx.push('-').drop_last() =~= cx);
            assert(cx.push(c).drop_last() =~= cx);
        }
        if space {
            if !prev_space {
                push_char(&mut out, '-');
            }
        } else if is_allowed(c) {
            push_char(&mut out, c);
        }
        prev_space = space;
        i = i + 1;
    }
    assert(s@.subrange(0, n as int) =~= s@);
    out
}

/// A validated hostname.
#[derive(Debug, Clone, PartialEq, Eq)]
pub struct Hostname {
    text: String,
}

impl View for Hostname {
    type V = Seq<char>;

    closed spec fn view(&self) -> Seq<char> {
        self.text@
    }
}

/// A hostname's text: non-empty, not ending with `.`, made of allowed
/// characters only, and a name that trust-dns accepts.
pub open spec fn is_hostname_text(s: Seq<char>) -> bool {
    &&& s.len() > 0
    &&& s.last() != '.'
    &&& all_allowed(s)
    &&& idna_name_parses(s)
}

impl Hostname {
    pub open spec fn wf(&self) -> bool {
        is_hostname_text(self@)
    }

    /// The hostname's text.
    pub fn as_str(&self) -> (r: &str)
        ensures
            r@ == self@,
    {
        self.text.as_str()
    }
}

/// A fully-qualified name: a hostname, `.`, and a domain in absolute form.
#[derive(Debug, Clone, PartialEq, Eq)]
pub struct Fqdn {
    text: String,
}

impl View for Fqdn {
    type V = Seq<char>;

    closed spec fn view(&self) -> Seq<char> {
        self.text@
    }
}

impl Fqdn {
    /// The name's text, ending with `.`.
    pub fn as_str(&self) -> (r: &str)
        ensures
            r@ == self@,
    {
        self.text.as_str()
    }
}

/// The text of the name that joins `host` and `domain`.
pub open spec fn joined(host: Seq<char>, domain: Seq<char>) -> Seq<char> {
    host.push('.') + domain
}

/// Sanitizes a label into a hostname, or says why it cannot be one.
pub fn to_hostname(s: &str) -> (r: Result<Hostname, Error>)
    ensures
        r matches Ok(h) ==> h.wf(),
        match r {
            Ok(h) => hostname_result(s@) == Ok::<Seq<char>, Error>(h@),
            Err(e) => hostname_result(s@) == Err::<Seq<char>, Error>(e),
        },
{
    let first = trim(s);
    let rewritten = rewrite_label(first.as_str());
    let t = trim(rewritten.as_str());
    let n = t.as_str().unicode_len();
    if n > 0 && t.as_str().get_char(n - 1) == '.' {
        return Err(Error::TrailingDot);
    }
    if n == 0 {
        return Err(Error::EmptyHostname);
    }
    proof {
        lemma_sanitized_allowed(s@);
    }
    match check_hostname_syntax(t.as_str()) {
        Ok(()) => Ok(Hostname { text: t }),
        Err(_) => Err(Error::InvalidHostname),
    }
}

/// Appends the domain to the hostname.
pub fn append_domain(host: &Hostname, domain: &Domain) -> (r: Fqdn)
    ensures
        r@ == joined(host@, domain@),
{
    let mut text = String::from_str(host.as_str());
    push_char(&mut text, '.');
    text.append(domain.as_str());
    Fqdn { text }
}

/// Sanitizes a label and appends the domain to it.
pub fn to_fqdn(s: &str, domain: &Domain) -> (r: Result<Fqdn, Error>)
    ensures
        match hostname_result(s@) {
            Ok(h) => r matches Ok(f) && f@ == joined(h, domain@),
            Err(e) => r == Err::<Fqdn, Error>(e),
        },
{
    let host = to_hostname(s)?;
    Ok(append_domain(&host, domain))
}

/// The name under which a member is entered into the catalog: none when the
/// member has no name, when the name is blank, or when it does not sanitize.
pub fn parse_member_name(name: Option<String>, domain: &Domain) -> (r: Option<Fqdn>)
    ensures
        match name {
            None => r is None,
            Some(n) => if trimmed(n@).len() == 0 {
                r is None
            } else {
                match hostname_result(trimmed(n@)) {
                    Ok(h) => r matches Some(f) && f@ == joined(h, domain@),
                    Err(_) => r is None,
                }
            },
        },
{
    match name {
        None => None,
        Some(n) => {
            let t = trim(n.as_str());
            if t.as_str().unicode_len() == 0 {
                return None;
            }
            match to_fqdn(t.as_str(), domain) {
                Ok(f) => Some(f),
                Err(_) => None,
            }
        },
    }
}

} // verus!
