use vstd::prelude::*;
use crate::randgen::rand_below;

verus! {

/// The closed set of mail domains the provider supports.
///
/// Exactly these seven values exist; the order of the variants is the
/// canonical registry order, and the derived comparison follows it.
#[derive(Debug, Clone, Copy, PartialEq, Eq, PartialOrd, Ord, Hash, Structural)]
pub enum Domain {
    /// Domain "1secmail.com"
    SecMailCom,
    /// Domain "1secmail.org"
    SecMailOrg,
    /// Domain "1secmail.net"
    SecMailNet,
    /// Domain "wwjmp.com"
    WwjmpCom,
    /// Domain "esiix.com"
    EsiixCom,
    /// Domain "xojxe.com"
    XojxeCom,
    /// Domain "yoggm.com"
    YoggmCom,
}

/// The registry: all seven domains in canonical order.
pub open spec fn registry() -> Seq<Domain> {
    seq![
        Domain::SecMailCom,
        Domain::SecMailOrg,
        Domain::SecMailNet,
        Domain::WwjmpCom,
        Domain::EsiixCom,
        Domain::XojxeCom,
        Domain::YoggmCom,
    ]
}

/// The seven canonical hostname strings, in registry order.
pub open spec fn canonical_hosts() -> Seq<Seq<char>> {
    seq![
        "1secmail.com"@,
        "1secmail.org"@,
        "1secmail.net"@,
        "wwjmp.com"@,
        "esiix.com"@,
        "xojxe.com"@,
        "yoggm.com"@,
    ]
}

impl Domain {
    /// The canonical hostname text of this domain.
    pub open spec fn render_spec(self) -> Seq<char> {
        match self {
            Domain::SecMailCom => "1secmail.com"@,
            Domain::SecMailOrg => "1secmail.org"@,
            Domain::SecMailNet => "1secmail.net"@,
            Domain::WwjmpCom => "wwjmp.com"@,
            Domain::EsiixCom => "esiix.com"@,
            Domain::XojxeCom => "xojxe.com"@,
            Domain::YoggmCom => "yoggm.com"@,
        }
    }

    /// Canonical hostname, byte-for-byte what the remote API expects in
    /// query parameters.
    pub fn render(&self) -> (r: &'static str)
        ensures
            r@ == self.render_spec(),
    {
        match self {
            Domain::SecMailCom => "1secmail.com",
            Domain::SecMailOrg => "1secmail.org",
            Domain::SecMailNet => "1secmail.net",
            Domain::WwjmpCom => "wwjmp.com",
            Domain::EsiixCom => "esiix.com",
            Domain::XojxeCom => "xojxe.com",
            Domain::YoggmCom => "yoggm.com",
        }
    }

    /// The registry entry at a given index.
    pub fn from_index(i: usize) -> (r: Domain)
        requires
            i < 7,
        ensures
            r == registry()[i as int],
    {
        match i {
            0 => Domain::SecMailCom,
            1 => Domain::SecMailOrg,
            2 => Domain::SecMailNet,
            3 => Domain::WwjmpCom,
            4 => Domain::EsiixCom,
            5 => Domain::XojxeCom,
            _ => Domain::YoggmCom,
        }
    }

    /// Uniform pick among the seven registry entries.
    pub fn random() -> (r: Domain)
        ensures
            registry().contains(r),
    {
        let i = rand_below(7);
        let r = Domain::from_index(i as usize);
        proof {
            assert(registry()[i as int] == r);
        }
        r
    }
}

/// The fixed registry as a vector, in canonical order; always length 7.
pub fn all_domains() -> (r: Vec<Domain>)
    ensures
        r@ == registry(),
{
    let mut v: Vec<Domain> = Vec::new();
    v.push(Domain::SecMailCom);
    v.push(Domain::SecMailOrg);
    v.push(Domain::SecMailNet);
    v.push(Domain::WwjmpCom);
    v.push(Domain::EsiixCom);
    v.push(Domain::XojxeCom);
    v.push(Domain::YoggmCom);
    proof {
        assert(v@ =~= registry());
    }
    v
}

impl Default for Domain {
    /// The first registry entry.
    fn default() -> (r: Self)
        ensures
            r == Domain::SecMailCom,
    {
        Domain::SecMailCom
    }
}

/// Every domain is a registry entry.
pub proof fn lemma_registry_complete(d: Domain)
    ensures
        registry().contains(d),
{
    match d {
        Domain::SecMailCom => assert(registry()[0] == d),
        Domain::SecMailOrg => assert(registry()[1] == d),
        Domain::SecMailNet => assert(registry()[2] == d),
        Domain::WwjmpCom => assert(registry()[3] == d),
        Domain::EsiixCom => assert(registry()[4] == d),
        Domain::XojxeCom => assert(registry()[5] == d),
        Domain::YoggmCom => assert(registry()[6] == d),
    }
}

/// Every domain renders to one of the seven canonical hostname strings;
/// in particular a randomly drawn domain does.
pub proof fn lemma_render_canonical(d: Domain)
    ensures
        canonical_hosts().contains(d.render_spec()),
{
    match d {
        Domain::SecMailCom => assert(canonical_hosts()[0] == d.render_spec()),
        Domain::SecMailOrg => assert(canonical_hosts()[1] == d.render_spec()),
        Domain::SecMailNet => assert(canonical_hosts()[2] == d.render_spec()),
        Domain::WwjmpCom => assert(canonical_hosts()[3] == d.render_spec()),
        Domain::EsiixCom => assert(canonical_hosts()[4] == d.render_spec()),
        Domain::XojxeCom => assert(canonical_hosts()[5] == d.render_spec()),
        Domain::YoggmCom => assert(canonical_hosts()[6] == d.render_spec()),
    }
}

} // verus!
