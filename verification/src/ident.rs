use vstd::prelude::*;
use crate::domain::Domain;
use crate::domain::registry;
use crate::randgen::is_alnum_char;
use crate::randgen::random_username;

verus! {

/// A mailbox: the username part plus the provider domain.
///
/// Immutable after construction; no network check of existence is made —
/// the address exists implicitly in the provider's namespace.
#[derive(Debug, Clone, PartialEq, Eq, PartialOrd, Ord, Hash)]
pub struct Tempmail {
    /// The username part of the address.
    pub username: String,
    /// The provider domain of the address.
    pub domain: Domain,
}

impl Tempmail {
    /// Makes a mailbox from any username — no local validation, the empty
    /// string included — with the domain defaulting to the first registry
    /// entry when absent.
    pub fn new(username: String, domain: Option<Domain>) -> (r: Tempmail)
        ensures
            r.username@ == username@,
            r.domain == (match domain {
                Some(d) => d,
                None => Domain::SecMailCom,
            }),
    {
        let d = match domain {
            Some(d) => d,
            None => Default::default(),
        };
        Tempmail { username, domain: d }
    }

    /// A random mailbox: username length drawn uniformly from [10, 50),
    /// each character drawn uniformly from the 62-character alphanumeric
    /// alphabet, domain drawn uniformly from the registry.
    pub fn random() -> (r: Tempmail)
        ensures
            10 <= r.username@.len() < 50,
            forall|i: int| 0 <= i < r.username@.len() ==> is_alnum_char(#[trigger] r.username@[i]),
            registry().contains(r.domain),
    {
        let username = random_username();
        let domain = Domain::random();
        Tempmail { username, domain }
    }
}

} // verus!
