//! Network origins: what the host found out about each, and what the sandbox allows.

use crate::config::{authority, configured_resource_authority, ResourceAuthority, SandboxConfig};
use crate::error::{config_error, is_config_error, RuntimeError};
use crate::text::same_text;
use vstd::prelude::*;
use vstd::string::*;

verus! {

/// How a network destination list covers a resource.
#[derive(Clone, Copy, Debug, PartialEq, Eq, Structural)]
pub enum DestinationMatch {
    /// By an exact entry.
    Exact,
    /// By the public wildcard.
    Wildcard,
}

/// What the host found out about one resource.
#[derive(Debug)]
pub struct OriginFinding {
    /// The resource, as configured.
    pub resource: String,
    /// Its canonical origin, or why it has none.
    pub canonical: Result<String, String>,
    /// How the configured destinations cover it, or why that cannot be told.
    pub destination: Result<Option<DestinationMatch>, String>,
}

/// What is known of `resource`: its first finding.
pub open spec fn finding(list: Seq<OriginFinding>, resource: Seq<char>) -> Option<OriginFinding>
    decreases list.len(),
{
    if list.len() == 0 {
        None
    } else if list[0].resource@ == resource {
        Some(list[0])
    } else {
        finding(list.skip(1), resource)
    }
}

/// The failure of a resource that the host did not look at.
pub open spec fn unresolved() -> Seq<char> {
    "network origin is unresolved"@
}

/// The canonical origin of `resource`, or the failure.
pub open spec fn canonical(list: Seq<OriginFinding>, resource: Seq<char>) -> Result<Seq<char>, Seq<char>> {
    match finding(list, resource) {
        Some(found) => match found.canonical {
            Ok(origin) => Ok(origin@),
            Err(text) => Err(text@),
        },
        None => Err(unresolved()),
    }
}

/// `resource` is written as its own canonical origin.
pub open spec fn is_canonical(list: Seq<OriginFinding>, resource: Seq<char>) -> bool {
    canonical(list, resource) == Ok::<Seq<char>, Seq<char>>(resource)
}

/// Whether the sandbox lets effects reach `resource`, or the failure.
pub open spec fn network_allowance(
    sandbox: SandboxConfig,
    resource: Seq<char>,
    list: Seq<OriginFinding>,
) -> Result<bool, Seq<char>> {
    match canonical(list, resource) {
        Err(text) => Err(text),
        Ok(_) => if authority(sandbox) == ResourceAuthority::Ambient {
            Ok(true)
        } else {
            match finding(list, resource)->0.destination {
                Ok(matched) => Ok(matched is Some),
                Err(text) => Err(text@),
            }
        },
    }
}

/// What is known of `resource`.
pub fn find<'a>(list: &'a Vec<OriginFinding>, resource: &str) -> (found: Option<&'a OriginFinding>)
    ensures
        match found {
            Some(value) => finding(list@, resource@) == Some(*value),
            None => finding(list@, resource@) is None,
        },
{
    let mut i: usize = 0;
    proof {
        assert(list@.skip(0) =~= list@);
    }
    while i < list.len()
        invariant
            i <= list@.len(),
            finding(list@, resource@) == finding(list@.skip(i as int), resource@),
        decreases list@.len() - i,
    {
        if same_text(list[i].resource.as_str(), resource) {
            return Some(&list[i]);
        }
        proof {
            assert(list@.skip(i as int).skip(1) =~= list@.skip(i + 1));
        }
        i = i + 1;
    }
    None
}

/// Whether `resource` is written as its own canonical origin.
pub fn canonical_origin(list: &Vec<OriginFinding>, resource: &str) -> (yes: bool)
    ensures
        yes == is_canonical(list@, resource@),
{
    match find(list, resource) {
        Some(found) => match &found.canonical {
            Ok(origin) => same_text(origin.as_str(), resource),
            Err(_) => false,
        },
        None => false,
    }
}

/// Whether the sandbox lets effects reach `resource`.
pub fn sandbox_allows_network(
    sandbox: &SandboxConfig,
    resource: &str,
    list: &Vec<OriginFinding>,
) -> (allowed: Result<bool, RuntimeError>)
    ensures
        match network_allowance(*sandbox, resource@, list@) {
            Ok(value) => allowed == Ok::<bool, RuntimeError>(value),
            Err(text) => is_config_error(allowed, text),
        },
{
    match find(list, resource) {
        None => config_error("network origin is unresolved"),
        Some(found) => match &found.canonical {
            Err(text) => config_error(text.as_str()),
            Ok(_) => if configured_resource_authority(sandbox) == ResourceAuthority::Ambient {
                Ok(true)
            } else {
                match &found.destination {
                    Ok(matched) => Ok(matched.is_some()),
                    Err(text) => config_error(text.as_str()),
                }
            },
        },
    }
}

/// Where the sandbox isolates nothing, every resource with a canonical origin may be reached.
pub proof fn ambient_reaches_every_origin(sandbox: SandboxConfig, resource: Seq<char>, list: Seq<OriginFinding>)
    requires
        authority(sandbox) == ResourceAuthority::Ambient,
        canonical(list, resource) is Ok,
    ensures
        network_allowance(sandbox, resource, list) == Ok::<bool, Seq<char>>(true),
{
}

/// Under a backend that isolates, an origin is reached exactly where it is canonical and matched by a
/// destination; one that was never looked at is not reached.
pub proof fn only_matched_origins_are_reached(
    sandbox: SandboxConfig,
    resource: Seq<char>,
    list: Seq<OriginFinding>,
    at: int,
)
    requires
        0 <= at < list.len(),
        list[at].resource@ == resource,
        forall|i: int| 0 <= i < at ==> (#[trigger] list[i]).resource@ != resource,
    ensures
        finding(list, resource) == Some(list[at]),
        sandbox.backend@ != "danger_full_access"@ ==> (network_allowance(sandbox, resource, list) == Ok::<
            bool,
            Seq<char>,
        >(true) <==> list[at].canonical is Ok && list[at].destination is Ok && list[at].destination->Ok_0 is Some),
        sandbox.backend@ == "danger_full_access"@ ==> (network_allowance(sandbox, resource, list) == Ok::<
            bool,
            Seq<char>,
        >(true) <==> list[at].canonical is Ok),
        is_canonical(list, resource) <==> list[at].canonical is Ok && list[at].canonical->Ok_0@ == resource,
{
    the_first_finding_counts(resource, list, at);
}

proof fn the_first_finding_counts(resource: Seq<char>, list: Seq<OriginFinding>, at: int)
    requires
        0 <= at < list.len(),
        list[at].resource@ == resource,
        forall|i: int| 0 <= i < at ==> (#[trigger] list[i]).resource@ != resource,
    ensures
        finding(list, resource) == Some(list[at]),
    decreases list.len(),
{
    if at > 0 {
        let rest = list.skip(1);
        assert forall|i: int| 0 <= i < at - 1 implies (#[trigger] rest[i]).resource@ != resource by {
            assert(rest[i] == list[i + 1]);
        }
        assert(rest[at - 1] == list[at]);
        the_first_finding_counts(resource, rest, at - 1);
        assert(list[0].resource@ != resource);
    }
}

/// An origin that nobody looked at is neither canonical nor reached.
pub proof fn unseen_origins_are_not_reached(sandbox: SandboxConfig, resource: Seq<char>, list: Seq<OriginFinding>)
    requires
        forall|i: int| 0 <= i < list.len() ==> (#[trigger] list[i]).resource@ != resource,
    ensures
        finding(list, resource) is None,
        !is_canonical(list, resource),
        network_allowance(sandbox, resource, list) is Err,
    decreases list.len(),
{
    if list.len() > 0 {
        let rest = list.skip(1);
        assert forall|i: int| 0 <= i < rest.len() implies (#[trigger] rest[i]).resource@ != resource by {
            assert(rest[i] == list[i + 1]);
        }
        unseen_origins_are_not_reached(sandbox, resource, rest);
        assert(list[0].resource@ != resource);
    }
}

} // verus!
