//! The IP-switch rule and its index: principal -> last observed address.
use crate::event::{AnomalyReport, EventView, LogEvent, ReportView};
use vstd::hash_map::StringHashMap;
use vstd::prelude::*;
use vstd::string::StringExecFns;

verus! {

/// What the index remembers of a principal: the last address and when it was seen.
pub struct LastSeen {
    pub ip: String,
    pub seen_at: i64,
}

/// Model of the index: principal -> (address, last-seen timestamp).
pub type IdentityMap = Map<Seq<char>, (Seq<char>, i64)>;

/// Name of the IP-switch rule in its reports.
pub open spec fn ip_switch_rule() -> Seq<char> {
    "Sudden IP Switch"@
}

pub const IP_SWITCH_SEVERITY: u8 = 8;

/// Index of the last known address of each principal (trust on first use).
pub struct IdentityContext {
    last_known_ip: StringHashMap<LastSeen>,
}

/// The rule fires when a prior address exists and differs from the event's.
pub open spec fn ip_switch_fires(m: IdentityMap, ev: EventView) -> bool {
    m.contains_key(ev.user) && m[ev.user].0 != ev.ip
}

/// The index after an event: always the event's address and timestamp.
pub open spec fn identity_after(m: IdentityMap, ev: EventView) -> IdentityMap {
    m.insert(ev.user, (ev.ip, ev.timestamp))
}

pub open spec fn ip_switch_description(ev: EventView, trusted: Seq<char>) -> Seq<char> {
    "User '"@ + ev.user + "' switched from trusted IP "@ + trusted + " to new IP "@ + ev.ip
        + "."@
}

/// The report emitted for a switch away from `trusted`.
pub open spec fn ip_switch_report(ev: EventView, trusted: Seq<char>) -> ReportView {
    ReportView {
        severity: IP_SWITCH_SEVERITY,
        rule_name: ip_switch_rule(),
        user: ev.user,
        detected_ip: ev.ip,
        trusted_ip: trusted,
        timestamp: ev.timestamp,
        description: ip_switch_description(ev, trusted),
    }
}

/// What the rule emits for `ev` given the index `m` before it.
pub open spec fn ip_switch_outcome(m: IdentityMap, ev: EventView) -> Option<ReportView> {
    if ip_switch_fires(m, ev) {
        Some(ip_switch_report(ev, m[ev.user].0))
    } else {
        None
    }
}

/// The index after a stored entry was recalled: a cached entry wins.
pub open spec fn identity_recalled(
    m: IdentityMap,
    user: Seq<char>,
    ip: Seq<char>,
    seen_at: i64,
) -> IdentityMap {
    if m.contains_key(user) {
        m
    } else {
        m.insert(user, (ip, seen_at))
    }
}

/// View of an optional report.
pub open spec fn report_opt_view(r: Option<AnomalyReport>) -> Option<ReportView> {
    match r {
        Some(rep) => Some(rep@),
        None => None,
    }
}

fn describe_ip_switch(event: &LogEvent, trusted: &String) -> (r: String)
    ensures
        r@ == ip_switch_description(event@, trusted@),
{
    let mut s = String::from_str("User '");
    s.append(event.user.as_str());
    s.append("' switched from trusted IP ");
    s.append(trusted.as_str());
    s.append(" to new IP ");
    s.append(event.ip_address.as_str());
    s.append(".");
    s
}

impl View for IdentityContext {
    type V = IdentityMap;

    closed spec fn view(&self) -> IdentityMap {
        self.last_known_ip@.map_values(|v: LastSeen| (v.ip@, v.seen_at))
    }
}

impl IdentityContext {
    pub fn new() -> (r: Self)
        ensures
            r@ == IdentityMap::empty(),
    {
        let r = IdentityContext { last_known_ip: StringHashMap::new() };
        assert(r@ =~= IdentityMap::empty());
        r
    }

    /// The last known address of `user` and when it was seen, if any.
    pub fn last_ip(&self, user: &str) -> (r: Option<(String, i64)>)
        ensures
            match r {
                Some((ip, at)) => self@.contains_key(user@) && self@[user@] == (ip@, at),
                None => !self@.contains_key(user@),
            },
    {
        match self.last_known_ip.get(user) {
            Some(seen) => Some((seen.ip.clone(), seen.seen_at)),
            None => None,
        }
    }

    /// Fills a cache miss with an entry read back from durable storage.
    /// An entry already cached is kept.
    pub fn recall(&mut self, user: &String, ip: &String, seen_at: i64)
        ensures
            final(self)@ == identity_recalled(old(self)@, user@, ip@, seen_at),
    {
        if !self.last_known_ip.contains_key(user.as_str()) {
            self.last_known_ip.insert(user.clone(), LastSeen { ip: ip.clone(), seen_at });
            proof {
                assert(self@ =~= old(self)@.insert(user@, (ip@, seen_at)));
            }
        }
    }

    /// Evaluates the IP-switch rule on `event`, then records the event's
    /// address as the principal's last known one.
    pub fn check_for_ip_switch(&mut self, event: &LogEvent) -> (r: Option<AnomalyReport>)
        ensures
            report_opt_view(r) == ip_switch_outcome(old(self)@, event@),
            final(self)@ == identity_after(old(self)@, event@),
    {
        let r = match self.last_known_ip.get(event.user.as_str()) {
            None => None,
            Some(seen) => {
                if event.ip_address == seen.ip {
                    None
                } else {
                    let description = describe_ip_switch(event, &seen.ip);
                    Some(
                        AnomalyReport {
                            severity: IP_SWITCH_SEVERITY,
                            rule_name: String::from_str("Sudden IP Switch"),
                            user: event.user.clone(),
                            detected_ip: event.ip_address.clone(),
                            trusted_ip: seen.ip.clone(),
                            timestamp: event.timestamp,
                            description,
                        },
                    )
                }
            },
        };
        self.last_known_ip.insert(
            event.user.clone(),
            LastSeen { ip: event.ip_address.clone(), seen_at: event.timestamp },
        );
        proof {
            assert(self@ =~= identity_after(old(self)@, event@));
        }
        r
    }
}

} // verus!
