//! The root domain under which hostnames are published.
use vstd::prelude::*;
use vstd::string::*;
use crate::dns_name::{check_domain_syntax, relaxed_name_parses};
use crate::error::Error;
use crate::text::push_char;

verus! {

/// The built-in root domain, in absolute form.
pub const DOMAIN_NAME: &'static str = "domain.";

/// A root domain in absolute form: non-empty text followed by `.`.
#[derive(Debug, Clone, PartialEq, Eq)]
pub struct Domain {
    text: String,
}

/// `s` is a domain in absolute form.
pub open spec fn is_absolute_domain(s: Seq<char>) -> bool {
    s.len() >= 2 && s.last() == '.'
}

/// The text of an optional string, as a sequence.
pub open spec fn opt_view(s: Option<&str>) -> Option<Seq<char>> {
    match s {
        Some(t) => Some(t@),
        None => None,
    }
}

/// What `domain_or_default` gives for an optional domain text.
pub open spec fn domain_result(tld: Option<Seq<char>>) -> Result<Seq<char>, Error> {
    match tld {
        None => Ok(DOMAIN_NAME@),
        Some(t) => if t.len() == 0 {
            Err(Error::EmptyDomain)
        } else if relaxed_name_parses(t.push('.')) {
            Ok(t.push('.'))
        } else {
            Err(Error::InvalidDomain)
        },
    }
}

impl View for Domain {
    type V = Seq<char>;

    closed spec fn view(&self) -> Seq<char> {
        self.text@
    }
}

impl Domain {
    pub open spec fn wf(&self) -> bool {
        is_absolute_domain(self@)
    }

    /// The domain in absolute form, ending with `.`.
    pub fn as_str(&self) -> (r: &str)
        ensures
            r@ == self@,
    {
        self.text.as_str()
    }

    /// The domain in relative form: without its trailing `.`.
    pub fn to_relative(&self) -> (r: String)
        requires
            self.wf(),
        ensures
            r@ == self@.drop_last(),
    {
        let s = self.text.as_str();
        let n = s.unicode_len();
        String::from_str(s.substring_char(0, n - 1))
    }
}

/// The domain given, in absolute form, or the built-in one when none is given.
pub fn domain_or_default(tld: Option<&str>) -> (r: Result<Domain, Error>)
    ensures
        r matches Ok(d) ==> d.wf(),
        match r {
            Ok(d) => domain_result(opt_view(tld)) == Ok::<Seq<char>, Error>(d@),
            Err(e) => domain_result(opt_view(tld)) == Err::<Seq<char>, Error>(e),
        },
{
    proof {
        reveal_strlit("domain.");
    }
    match tld {
        None => Ok(Domain { text: String::from_str(DOMAIN_NAME) }),
        Some(t) => {
            if t.unicode_len() == 0 {
                return Err(Error::EmptyDomain);
            }
            let mut text = String::from_str(t);
            push_char(&mut text, '.');
            match check_domain_syntax(text.as_str()) {
                Ok(()) => Ok(Domain { text }),
                Err(_) => Err(Error::InvalidDomain),
            }
        },
    }
}

} // verus!
