//! Resource-access policy and the dispatching resource resolver.
//!
//! The policy is a two-valued mode derived from the `--local` flag. The
//! dispatcher owns an ordered list of resolver strategies (a local-file
//! strategy, then optionally a network strategy) and decides which strategy,
//! if any, may attempt a given URL scheme. The strategies' actual reads are
//! I/O and live outside this library; the decisions live here.

use crate::text::str_eq;
use vstd::prelude::*;

verus! {

/// Default per-resource read ceiling in bytes.
pub const DEFAULT_RESOURCE_READ_LIMIT: u64 = 104_857_600;

/// What resources may be accessed.
#[derive(Debug, Copy, Clone, PartialEq, Eq, Structural)]
pub enum ResourceAccess {
    /// Only allow local resources.
    LocalOnly,
    /// Allow remote resources.
    Remote,
}

/// Derive the access policy from the `--local` command-line flag.
pub fn resource_access(local_only: bool) -> (access: ResourceAccess)
    ensures
        access == (if local_only { ResourceAccess::LocalOnly } else { ResourceAccess::Remote }),
{
    if local_only {
        ResourceAccess::LocalOnly
    } else {
        ResourceAccess::Remote
    }
}

/// One strategy of the resolver chain, bound to the maximum number of bytes
/// it may read per resource. The local-file strategy handles `file` URLs; the
/// network strategy, present only under the remote-allowed policy, handles
/// `http` and `https` URLs (the binary gives its HTTP client an identifying
/// label composed of the program name and version).
#[derive(Debug, Copy, Clone, PartialEq, Eq, Structural)]
pub enum ResolverStrategy {
    /// Read local files, up to `max_bytes` bytes.
    LocalFile {
        /// Per-resource read ceiling in bytes.
        max_bytes: u64,
    },
    /// Fetch remote resources, up to `max_bytes` bytes.
    Network {
        /// Per-resource read ceiling in bytes.
        max_bytes: u64,
    },
}

/// Whether a strategy claims a URL scheme: the local-file strategy claims
/// `file`, the network strategy claims `http` and `https`.
pub open spec fn spec_claims(strategy: ResolverStrategy, scheme: Seq<char>) -> bool {
    match strategy {
        ResolverStrategy::LocalFile { .. } => scheme == ("file")@,
        ResolverStrategy::Network { .. } => scheme == ("http")@ || scheme == ("https")@,
    }
}

/// Whether only a network strategy could resolve a URL of this scheme.
pub open spec fn spec_is_remote_scheme(scheme: Seq<char>) -> bool {
    scheme == ("http")@ || scheme == ("https")@
}

/// Runtime test for [`spec_claims`].
pub fn strategy_claims(strategy: &ResolverStrategy, scheme: &str) -> (r: bool)
    ensures
        r == spec_claims(*strategy, scheme@),
{
    match strategy {
        ResolverStrategy::LocalFile { .. } => str_eq(scheme, "file"),
        ResolverStrategy::Network { .. } => str_eq(scheme, "http") || str_eq(scheme, "https"),
    }
}

/// Runtime test for [`spec_is_remote_scheme`].
pub fn is_remote_scheme(scheme: &str) -> (r: bool)
    ensures
        r == spec_is_remote_scheme(scheme@),
{
    str_eq(scheme, "http") || str_eq(scheme, "https")
}

/// Build the ordered strategy list: always the local-file strategy first,
/// then, only under the remote-allowed policy, the network strategy, both
/// bound to the same read ceiling.
pub fn create_resolver_chain(access: ResourceAccess, max_bytes: u64) -> (chain: Vec<
    ResolverStrategy,
>)
    ensures
        access == ResourceAccess::LocalOnly ==> chain@ == seq![
            ResolverStrategy::LocalFile { max_bytes },
        ],
        access == ResourceAccess::Remote ==> chain@ == seq![
            ResolverStrategy::LocalFile { max_bytes },
            ResolverStrategy::Network { max_bytes },
        ],
{
    let mut chain: Vec<ResolverStrategy> = Vec::new();
    chain.push(ResolverStrategy::LocalFile { max_bytes });
    if let ResourceAccess::Remote = access {
        chain.push(ResolverStrategy::Network { max_bytes });
        proof {
            assert(chain@ =~= seq![
                ResolverStrategy::LocalFile { max_bytes },
                ResolverStrategy::Network { max_bytes },
            ]);
        }
    } else {
        proof {
            assert(chain@ =~= seq![ResolverStrategy::LocalFile { max_bytes }]);
        }
    }
    chain
}

/// The dispatcher's decision for one URL: the first strategy in construction
/// order that claims its scheme, or the failure when none does.
#[derive(Debug, Copy, Clone, PartialEq, Eq, Structural)]
pub enum DispatchDecision {
    /// Attempt resolution with the strategy at this position of the chain;
    /// a genuine failure there propagates, later strategies are not tried.
    Attempt(usize),
    /// No strategy claims the scheme, but a network strategy would: the
    /// policy forbids remote access, a recognizable failure.
    RemoteDisabled,
    /// No strategy, present or absent, claims the scheme.
    Unsupported,
}

/// Pick the strategy for a URL scheme: the first strategy in order that
/// claims it wins; when none claims a remote scheme the failure names the
/// disabled remote access.
pub fn dispatch(chain: &Vec<ResolverStrategy>, scheme: &str) -> (decision: DispatchDecision)
    ensures
        match decision {
            DispatchDecision::Attempt(i) => i < chain@.len() && spec_claims(chain@[i as int], scheme@)
                && forall|j: int| 0 <= j < i ==> !spec_claims(chain@[j], scheme@),
            DispatchDecision::RemoteDisabled => spec_is_remote_scheme(scheme@) && forall|j: int|
                0 <= j < chain@.len() ==> !spec_claims(chain@[j], scheme@),
            DispatchDecision::Unsupported => !spec_is_remote_scheme(scheme@) && forall|j: int|
                0 <= j < chain@.len() ==> !spec_claims(chain@[j], scheme@),
        },
{
    let mut i: usize = 0;
    while i < chain.len()
        invariant
            i <= chain@.len(),
            forall|j: int| 0 <= j < i ==> !spec_claims(chain@[j], scheme@),
        decreases chain@.len() - i,
    {
        if strategy_claims(&chain[i], scheme) {
            return DispatchDecision::Attempt(i);
        }
        i = i + 1;
    }
    if is_remote_scheme(scheme) {
        DispatchDecision::RemoteDisabled
    } else {
        DispatchDecision::Unsupported
    }
}

/// A resource read beyond the configured ceiling is a failure, never a
/// silent truncation.
pub fn exceeds_read_limit(size: u64, limit: u64) -> (r: bool)
    ensures
        r == (size > limit),
{
    size > limit
}

/// Resolver chain ordering. In the default chain — the local-file strategy,
/// then the network strategy — a `file` URL is claimed by the local-file
/// strategy alone, so dispatch attempts index 0 and no network code path is
/// consulted. Under the local-only policy the chain holds only the
/// local-file strategy, and an `http` URL is claimed by nothing: dispatch
/// must answer that remote access is disabled.
pub proof fn lemma_resolver_chain_ordering(max_bytes: u64)
    ensures
        spec_claims(ResolverStrategy::LocalFile { max_bytes }, ("file")@),
        !spec_claims(ResolverStrategy::Network { max_bytes }, ("file")@),
        !spec_claims(ResolverStrategy::LocalFile { max_bytes }, ("http")@),
        spec_is_remote_scheme(("http")@),
        spec_is_remote_scheme(("https")@),
        !spec_is_remote_scheme(("file")@),
{
    reveal_strlit("file");
    reveal_strlit("http");
    reveal_strlit("https");
    assert(("file")@.len() == 4);
    assert(("http")@[0] == 'h');
    assert(("file")@[0] == 'f');
    assert(("https")@.len() == 5);
}

} // verus!
