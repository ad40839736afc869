//! Network permissions of the `[permissions]` table.
use vstd::prelude::*;

use crate::text::str_eq;

verus! {

/// How much network access commands get.
#[derive(Debug, Clone, Copy, PartialEq, Eq, Structural)]
pub enum NetworkMode {
    Limited,
    Full,
}

/// Network permission settings from `[permissions.network]`.
#[derive(Debug, Clone, Default)]
pub struct NetworkToml {
    pub enabled: Option<bool>,
    pub mode: Option<NetworkMode>,
    pub allowed_domains: Option<Vec<String>>,
    pub denied_domains: Option<Vec<String>>,
    pub allow_local_binding: Option<bool>,
}

/// The `[permissions]` table.
#[derive(Debug, Clone, Default)]
pub struct PermissionsToml {
    pub network: Option<NetworkToml>,
}

/// Some entry of `list` is `domain`, or the wildcard `*` when `wildcard` holds.
pub open spec fn lists_domain(list: Seq<String>, domain: Seq<char>, wildcard: bool) -> bool {
    exists|i: int|
        0 <= i < list.len() && ((#[trigger] list[i])@ == domain || (wildcard && list[i]@ == "*"@))
}

/// A domain is allowed unless denied; with an allow list it must also be listed
/// there, or the list must hold `*`.
pub open spec fn domain_allowed(net: NetworkToml, domain: Seq<char>) -> bool {
    &&& !(net.denied_domains matches Some(d) && lists_domain(d@, domain, false))
    &&& (net.allowed_domains matches Some(a) ==> lists_domain(a@, domain, true))
}

fn lists_domain_exec(list: &Vec<String>, domain: &str, wildcard: bool) -> (r: bool)
    ensures
        r == lists_domain(list@, domain@, wildcard),
{
    let mut i: usize = 0;
    while i < list.len()
        invariant
            i <= list@.len(),
            forall|k: int|
                0 <= k < i ==> !((#[trigger] list@[k])@ == domain@ || (wildcard && list@[k]@
                    == "*"@)),
        decreases list@.len() - i,
    {
        let d = list[i].as_str();
        if str_eq(d, domain) || (wildcard && str_eq(d, "*")) {
            return true;
        }
        i = i + 1;
    }
    false
}

impl NetworkToml {
    /// Whether `domain` may be reached under this policy; denial wins over allowance.
    pub fn is_domain_allowed(&self, domain: &str) -> (r: bool)
        ensures
            r == domain_allowed(*self, domain@),
    {
        if let Some(denied) = &self.denied_domains {
            if lists_domain_exec(denied, domain, false) {
                return false;
            }
        }
        if let Some(allowed) = &self.allowed_domains {
            return lists_domain_exec(allowed, domain, true);
        }
        true
    }
}

} // verus!
