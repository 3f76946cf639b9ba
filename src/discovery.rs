//! Host discovery: the decisions of a bounded service-discovery poll, the
//! normalization of a resolved host name, and the degraded fallback.
use crate::text::join2;
use vstd::prelude::*;

verus! {

/// The whole wall-clock budget of a discovery attempt, in milliseconds.
pub const DISCOVERY_BUDGET_MS: u64 = 5000;

/// How long a single poll waits for an event, in milliseconds.
pub const POLL_TIMEOUT_MS: u64 = 500;

/// The service type that pairing-capable devices advertise.
pub fn pairing_service_type() -> (r: &'static str)
    ensures
        r@ == "_remotepairing._tcp.local."@,
{
    "_remotepairing._tcp.local."
}

/// The suffix that marks a host name of the local domain.
pub open spec fn local_suffix() -> Seq<char> {
    ".local"@
}

/// `s` without its trailing domain separators.
pub open spec fn trim_dots(s: Seq<char>) -> Seq<char>
    decreases s.len(),
{
    if s.len() > 0 && s.last() == '.' {
        trim_dots(s.drop_last())
    } else {
        s
    }
}

/// A host name found by discovery never ends with a domain separator: it is
/// the advertised name with its trailing separators removed.
pub proof fn lemma_found_host_has_no_trailing_dot(s: Seq<char>)
    ensures
        trim_dots(s).len() == 0 || trim_dots(s).last() != '.',
        trim_dots(s).len() <= s.len(),
        trim_dots(s) == s.take(trim_dots(s).len() as int),
    decreases s.len(),
{
    if s.len() > 0 && s.last() == '.' {
        lemma_found_host_has_no_trailing_dot(s.drop_last());
        assert(s.drop_last().take(trim_dots(s).len() as int) =~= s.take(trim_dots(s).len() as int));
    } else {
        assert(s.take(s.len() as int) =~= s);
    }
}

/// The fallback answer is never empty and ends with the local-domain suffix.
pub proof fn lemma_fallback_in_local_domain(h: Seq<char>)
    ensures
        (h + local_suffix()).len() > 0,
        (h + local_suffix()).subrange(h.len() as int, (h + local_suffix()).len() as int)
            == local_suffix(),
{
    reveal_strlit(".local");
    assert((h + local_suffix()).subrange(h.len() as int, (h + local_suffix()).len() as int)
        =~= local_suffix());
}

/// What the last poll brought.
pub enum DiscoveryEvent {
    /// A service was resolved on the named host.
    Resolved { hostname: String },
    /// An event of another kind arrived.
    Other,
    /// The poll ended with no event.
    Nothing,
}

/// What to do next.
pub enum DiscoveryStep {
    /// Poll again, waiting at most `timeout_ms`.
    Poll { timeout_ms: u64 },
    /// Discovery is over: this is the device's host name.
    Found { hostname: String },
    /// The budget is spent: fall back to the local host name.
    Fallback,
}

/// Strips every trailing domain separator (`.`) from a host name.
pub fn strip_trailing_dots(host: &str) -> (r: String)
    ensures
        r@ == trim_dots(host@),
{
    let n = host.unicode_len();
    let mut k: usize = n;
    proof {
        assert(host@.take(k as int) =~= host@);
    }
    while k > 0 && host.get_char(k - 1) == '.'
        invariant
            k <= host@.len(),
            trim_dots(host@) == trim_dots(host@.take(k as int)),
        decreases k,
    {
        proof {
            assert(host@.take(k as int).drop_last() =~= host@.take(k - 1));
        }
        k = k - 1;
    }
    proof {
        assert(host@.take(k as int) =~= host@.subrange(0, k as int));
    }
    String::from_str(host.substring_char(0, k))
}

/// Decides the next move of a discovery attempt that has run for
/// `elapsed_ms`, given what the last poll brought. The first resolved
/// service wins, whatever the time; otherwise polling goes on while the
/// budget lasts.
pub fn discovery_step(elapsed_ms: u64, event: DiscoveryEvent) -> (r: DiscoveryStep)
    ensures
        match event {
            DiscoveryEvent::Resolved { hostname } => match r {
                DiscoveryStep::Found { hostname: h } => h@ == trim_dots(hostname@),
                _ => false,
            },
            _ => if elapsed_ms < DISCOVERY_BUDGET_MS {
                r == (DiscoveryStep::Poll { timeout_ms: POLL_TIMEOUT_MS })
            } else {
                r is Fallback
            },
        },
{
    match event {
        DiscoveryEvent::Resolved { hostname } => DiscoveryStep::Found {
            hostname: strip_trailing_dots(hostname.as_str()),
        },
        _ => if elapsed_ms < DISCOVERY_BUDGET_MS {
            DiscoveryStep::Poll { timeout_ms: POLL_TIMEOUT_MS }
        } else {
            DiscoveryStep::Fallback
        },
    }
}

/// The degraded answer: the local machine's own host name in the local
/// domain, or the error that kept it from being read.
pub fn fallback_hostname(local: Result<String, String>) -> (r: Result<String, String>)
    ensures
        match local {
            Ok(h) => match r {
                Ok(name) => name@ == h@ + local_suffix(),
                Err(_) => false,
            },
            Err(e) => match r {
                Err(e2) => e2@ == e@,
                Ok(_) => false,
            },
        },
{
    match local {
        Ok(h) => Ok(join2(h.as_str(), ".local")),
        Err(e) => Err(e),
    }
}

} // verus!
