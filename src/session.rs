use vstd::prelude::*;

verus! {

/// How long the store keeps a session alive without renewal, in seconds.
pub const SESSION_TTL_SECS: u64 = 30;

/// How often the daemon renews its session, in seconds.
pub const RENEW_INTERVAL_SECS: u64 = 10;

/// What the daemon asks of the store when it opens its session.
pub struct SessionSettings {
    pub name: String,
    pub ttl: String,
    pub behavior: String,
}

pub open spec fn session_name_text(hostname: Seq<char>) -> Seq<char> {
    seq!['c', 'o', 'n', 's', 'u', 'l', '-', 'i', 'p', 'a', 'm', '-'] + hostname
}

/// The session of the daemon on host `hostname`: named `consul-ipam-{hostname}`,
/// living 30 seconds without renewal, and taking its keys with it when it
/// lapses.
pub fn session_settings(hostname: &str) -> (r: SessionSettings)
    ensures
        r.name@ == session_name_text(hostname@),
        r.ttl@ == seq!['3', '0', 's'],
        r.behavior@ == seq!['d', 'e', 'l', 'e', 't', 'e'],
{
    proof {
        reveal_strlit("consul-ipam-");
        reveal_strlit("30s");
        reveal_strlit("delete");
    }
    let mut name = String::from_str("consul-ipam-");
    name.append(hostname);
    assert(name@ =~= session_name_text(hostname@));
    SessionSettings {
        name,
        ttl: String::from_str("30s"),
        behavior: String::from_str("delete"),
    }
}

/// The renewal interval: three renewals fit within one time to live.
pub fn renewal_interval_secs() -> (r: u64)
    ensures
        r == RENEW_INTERVAL_SECS,
        r > 0,
        3 * r <= SESSION_TTL_SECS,
{
    RENEW_INTERVAL_SECS
}

/// How a renewal of the session ended.
pub enum RenewOutcome {
    Renewed,
    /// The store could not be reached; the session may still be alive.
    Unreachable,
    /// The store reports the session as expired.
    SessionLost,
}

pub enum RenewalAction {
    /// Wait for the next tick.
    Continue,
    /// The leases are gone with the session: shut the daemon down.
    Shutdown,
}

/// What the daemon does after a renewal: it goes on unless the session is lost.
pub fn after_renewal(outcome: RenewOutcome) -> (r: RenewalAction)
    ensures
        r is Shutdown <==> outcome is SessionLost,
{
    match outcome {
        RenewOutcome::SessionLost => RenewalAction::Shutdown,
        _ => RenewalAction::Continue,
    }
}

} // verus!
