//! Transport provider selection.

use vstd::prelude::*;

use crate::codec::str_eq;
use crate::error::Error;

verus! {

/// The provider names the concrete transport implementation that carries
/// a session's packets. `Auto` defers the choice to the runtime. The
/// choice is immutable once a session is configured with it.
#[derive(Clone, Copy, PartialEq, Eq, Structural, Debug)]
pub enum Provider {
    Auto,
    Tcp,
    Verbs,
    Efa,
    Shm,
}

/// The canonical text name of a provider.
pub open spec fn provider_name(p: Provider) -> Seq<char> {
    match p {
        Provider::Auto => "auto"@,
        Provider::Tcp => "tcp"@,
        Provider::Verbs => "verbs"@,
        Provider::Efa => "efa"@,
        Provider::Shm => "shm"@,
    }
}

/// The provider a text name denotes, if any.
pub open spec fn provider_of_name(s: Seq<char>) -> Option<Provider> {
    if s == provider_name(Provider::Auto) {
        Some(Provider::Auto)
    } else if s == provider_name(Provider::Tcp) {
        Some(Provider::Tcp)
    } else if s == provider_name(Provider::Verbs) {
        Some(Provider::Verbs)
    } else if s == provider_name(Provider::Efa) {
        Some(Provider::Efa)
    } else if s == provider_name(Provider::Shm) {
        Some(Provider::Shm)
    } else {
        None
    }
}

/// Naming a provider and reading the name back yields the same provider:
/// the canonical names are total and pairwise distinct over the
/// recognised set.
pub proof fn lemma_provider_name_round_trip(p: Provider)
    ensures
        provider_of_name(provider_name(p)) == Some(p),
{
    reveal_strlit("auto");
    reveal_strlit("tcp");
    reveal_strlit("verbs");
    reveal_strlit("efa");
    reveal_strlit("shm");
    assert("auto"@.len() == 4);
    assert("tcp"@.len() == 3);
    assert("verbs"@.len() == 5);
    assert("efa"@.len() == 3);
    assert("shm"@.len() == 3);
    assert("tcp"@[0] == 't' && "efa"@[0] == 'e' && "shm"@[0] == 's');
    match p {
        Provider::Auto => assert(provider_of_name(provider_name(p)) == Some(p)),
        Provider::Tcp => assert(provider_of_name(provider_name(p)) == Some(p)),
        Provider::Verbs => assert(provider_of_name(provider_name(p)) == Some(p)),
        Provider::Efa => assert(provider_of_name(provider_name(p)) == Some(p)),
        Provider::Shm => assert(provider_of_name(provider_name(p)) == Some(p)),
    }
}

impl Provider {
    /// The provider a text name denotes. Fails with `UnknownProvider`
    /// for text outside the recognised set.
    pub fn from_name(s: &str) -> (r: Result<Provider, Error>)
        ensures
            r == (match provider_of_name(s@) {
                Some(p) => Result::<Provider, Error>::Ok(p),
                None => Result::<Provider, Error>::Err(Error::UnknownProvider),
            }),
    {
        if str_eq(s, "auto") {
            Ok(Provider::Auto)
        } else if str_eq(s, "tcp") {
            Ok(Provider::Tcp)
        } else if str_eq(s, "verbs") {
            Ok(Provider::Verbs)
        } else if str_eq(s, "efa") {
            Ok(Provider::Efa)
        } else if str_eq(s, "shm") {
            Ok(Provider::Shm)
        } else {
            Err(Error::UnknownProvider)
        }
    }

    /// The canonical text name of this provider.
    pub fn to_string(&self) -> (r: String)
        ensures
            r@ == provider_name(*self),
    {
        match self {
            Provider::Auto => String::from_str("auto"),
            Provider::Tcp => String::from_str("tcp"),
            Provider::Verbs => String::from_str("verbs"),
            Provider::Efa => String::from_str("efa"),
            Provider::Shm => String::from_str("shm"),
        }
    }
}

} // verus!
