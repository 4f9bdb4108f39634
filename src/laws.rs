//! Properties of the rules over sequences of events, over restarts, and
//! over every emitted report, proved from the rules' models.
use crate::detector::{
    detector_outcome,
    geo_part,
    ip_switch_part,
    rate_part,
    DetectorView,
    GeoFix,
    StoredCounts,
};
use crate::event::{severity_in_band, EventView};
use crate::geo_velocity::{geo_outcome, geo_recalled, travel_severity, GeoView};
use crate::identity::{
    identity_after,
    identity_recalled,
    ip_switch_fires,
    ip_switch_outcome,
    IdentityMap,
};
use crate::rate_limiter::{
    ip_rate_rule,
    rate_outcome,
    rate_severity,
    user_rate_rule,
    user_window_after,
    RateView,
};
use crate::window::{count_in_window, kept_after, window_after};
use vstd::prelude::*;

verus! {

/// The IP-switch index after a sequence of events, in order.
pub open spec fn identity_run(m: IdentityMap, evs: Seq<EventView>) -> IdentityMap
    decreases evs.len(),
{
    if evs.len() == 0 {
        m
    } else {
        identity_after(identity_run(m, evs.drop_last()), evs.last())
    }
}

/// The index holds no address other than `ip` for `user`.
pub open spec fn trusts_only(m: IdentityMap, user: Seq<char>, ip: Seq<char>) -> bool {
    !m.contains_key(user) || m[user].0 == ip
}

proof fn lemma_run_trusts_only(
    m: IdentityMap,
    user: Seq<char>,
    ip: Seq<char>,
    evs: Seq<EventView>,
    k: int,
)
    requires
        0 <= k <= evs.len(),
        forall|i: int| 0 <= i < evs.len() ==> (#[trigger] evs[i]).user == user && evs[i].ip == ip,
        trusts_only(m, user, ip),
    ensures
        trusts_only(identity_run(m, evs.take(k)), user, ip),
    decreases k,
{
    if k > 0 {
        lemma_run_trusts_only(m, user, ip, evs, k - 1);
        assert(evs.take(k).drop_last() =~= evs.take(k - 1));
        assert(evs.take(k).last() == evs[k - 1]);
    }
}

/// IP-switch idempotence: events of one principal that all come from one
/// address never raise an IP-switch report, from an index that holds no
/// other address for that principal.
pub proof fn lemma_ip_switch_idempotent(
    m: IdentityMap,
    user: Seq<char>,
    ip: Seq<char>,
    evs: Seq<EventView>,
)
    requires
        forall|i: int| 0 <= i < evs.len() ==> (#[trigger] evs[i]).user == user && evs[i].ip == ip,
        trusts_only(m, user, ip),
    ensures
        forall|i: int|
            0 <= i < evs.len() ==> ip_switch_outcome(identity_run(m, evs.take(i)), #[trigger] evs[i])
                is None,
        trusts_only(identity_run(m, evs), user, ip),
{
    assert forall|i: int| 0 <= i < evs.len() implies ip_switch_outcome(
        identity_run(m, evs.take(i)),
        #[trigger] evs[i],
    ) is None by {
        lemma_run_trusts_only(m, user, ip, evs, i);
    }
    lemma_run_trusts_only(m, user, ip, evs, evs.len() as int);
    assert(evs.take(evs.len() as int) =~= evs);
}

/// Trust on first use: the first event of a principal raises no IP-switch report.
pub proof fn lemma_first_event_trusted(m: IdentityMap, ev: EventView)
    requires
        !m.contains_key(ev.user),
    ensures
        ip_switch_outcome(m, ev) is None,
        identity_after(m, ev)[ev.user].0 == ev.ip,
{
}

/// Switch, settle, switch: after a switch to a new address, further events
/// from that address raise no report, and the next event from yet another
/// address raises one.
pub proof fn lemma_switch_settle_switch(
    m: IdentityMap,
    switched: EventView,
    evs: Seq<EventView>,
    next: EventView,
)
    requires
        ip_switch_fires(m, switched),
        forall|i: int|
            0 <= i < evs.len() ==> (#[trigger] evs[i]).user == switched.user && evs[i].ip
                == switched.ip,
        next.user == switched.user,
        next.ip != switched.ip,
    ensures
        forall|i: int|
            0 <= i < evs.len() ==> ip_switch_outcome(
                identity_run(identity_after(m, switched), evs.take(i)),
                #[trigger] evs[i],
            ) is None,
        ip_switch_fires(identity_run(identity_after(m, switched), evs), next),
{
    lemma_ip_switch_idempotent(identity_after(m, switched), switched.user, switched.ip, evs);
    lemma_run_trusts_only(
        identity_after(m, switched),
        switched.user,
        switched.ip,
        evs,
        evs.len() as int,
    );
    assert(evs.take(evs.len() as int) =~= evs);
    lemma_run_keeps_user(identity_after(m, switched), switched.user, evs);
}

proof fn lemma_run_keeps_user(m: IdentityMap, user: Seq<char>, evs: Seq<EventView>)
    requires
        m.contains_key(user),
    ensures
        identity_run(m, evs).contains_key(user),
    decreases evs.len(),
{
    if evs.len() > 0 {
        lemma_run_keeps_user(m, user, evs.drop_last());
    }
}

/// Rate-limit threshold: the rule reports on a principal (an address)
/// exactly when its post-insert count reaches the threshold plus one; a
/// smaller count never reports.
pub proof fn lemma_rate_report_needs_excess(m: RateView, ev: EventView)
    ensures
        (exists|i: int|
            0 <= i < rate_outcome(m, ev).len() && (#[trigger] rate_outcome(m, ev)[i]).rule_name
                == user_rate_rule()) <==> user_window_after(m, ev).len() >= m.max_user_attempts
            + 1,
        (exists|i: int|
            0 <= i < rate_outcome(m, ev).len() && (#[trigger] rate_outcome(m, ev)[i]).rule_name
                == ip_rate_rule()) <==> crate::rate_limiter::ip_window_after(m, ev).len()
            >= m.max_ip_attempts + 1,
{
    reveal_strlit("User Rate Limit Exceeded");
    reveal_strlit("IP Rate Limit Exceeded");
    assert(user_rate_rule()[0] != ip_rate_rule()[0]);
    let out = rate_outcome(m, ev);
    if user_window_after(m, ev).len() >= m.max_user_attempts + 1 {
        assert(out[0].rule_name == user_rate_rule());
    }
    if crate::rate_limiter::ip_window_after(m, ev).len() >= m.max_ip_attempts + 1 {
        assert(out[out.len() - 1].rule_name == ip_rate_rule());
    }
}

proof fn lemma_all_evicted(s: Seq<i64>, cutoff: int)
    requires
        forall|i: int| 0 <= i < s.len() ==> s[i] <= cutoff,
    ensures
        kept_after(s, cutoff) == Seq::<i64>::empty(),
    decreases s.len(),
{
    if s.len() > 0 {
        lemma_all_evicted(s.drop_last(), cutoff);
    }
}

/// Window eviction: when an event comes more than the window after the
/// latest stored timestamp of its key, its pre-increment count is 0 and
/// the key's list holds only the new timestamp.
pub proof fn lemma_window_eviction(s: Seq<i64>, latest: i64, now: i64, w: i64)
    requires
        forall|i: int| 0 <= i < s.len() ==> s[i] <= latest,
        now - latest > w,
    ensures
        count_in_window(s, now, w) == 0,
        window_after(s, now, w) == seq![now],
{
    lemma_all_evicted(s, now - w);
    assert(window_after(s, now, w) =~= seq![now]);
}

/// Window bound: after recording `ts` with a positive window `w`, every
/// timestamp kept for the key lies after `ts - w`.
pub proof fn lemma_window_bound(s: Seq<i64>, ts: i64, w: i64)
    requires
        w > 0,
    ensures
        forall|i: int|
            0 <= i < window_after(s, ts, w).len() ==> #[trigger] window_after(s, ts, w)[i] > ts
                - w,
{
    crate::window::lemma_kept_after_bounded(s, ts - w);
    let k = kept_after(s, ts - w);
    assert forall|i: int| 0 <= i < window_after(s, ts, w).len() implies #[trigger] window_after(
        s,
        ts,
        w,
    )[i] > ts - w by {
        if i < k.len() {
            assert(window_after(s, ts, w)[i] == k[i]);
        }
    }
}

/// Rate severity never decreases as the count grows.
pub proof fn lemma_rate_severity_monotone(c1: nat, c2: nat, threshold: nat)
    requires
        c1 <= c2,
    ensures
        rate_severity(c1, threshold) <= rate_severity(c2, threshold),
{
}

/// Travel severity never decreases as the distance covered in the same
/// time grows.
pub proof fn lemma_travel_severity_monotone(d1: nat, d2: nat, elapsed: int, max_kmh: nat)
    requires
        d1 <= d2,
    ensures
        travel_severity(d1, elapsed, max_kmh) <= travel_severity(d2, elapsed, max_kmh),
{
}

/// Every report the detector emits has a severity between 1 and 10.
pub proof fn lemma_reports_in_band(
    m: DetectorView,
    ev: EventView,
    fix: Option<GeoFix>,
    counts: Option<StoredCounts>,
)
    ensures
        forall|i: int|
            0 <= i < detector_outcome(m, ev, fix, counts).len() ==> severity_in_band(
                #[trigger] detector_outcome(m, ev, fix, counts)[i],
            ),
{
    let a = ip_switch_part(m, ev);
    let b = geo_part(m, ev, fix);
    let c = rate_part(m, ev, counts);
    assert forall|i: int| 0 <= i < a.len() implies severity_in_band(#[trigger] a[i]) by {}
    assert forall|i: int| 0 <= i < b.len() implies severity_in_band(#[trigger] b[i]) by {}
    assert forall|i: int| 0 <= i < c.len() implies severity_in_band(#[trigger] c[i]) by {}
    assert forall|i: int|
        0 <= i < detector_outcome(m, ev, fix, counts).len() implies severity_in_band(
        #[trigger] detector_outcome(m, ev, fix, counts)[i],
    ) by {
        if i < a.len() {
            assert(detector_outcome(m, ev, fix, counts)[i] == a[i]);
        } else if i < a.len() + b.len() {
            assert(detector_outcome(m, ev, fix, counts)[i] == b[i - a.len()]);
        } else {
            assert(detector_outcome(m, ev, fix, counts)[i] == c[i - a.len() - b.len()]);
        }
    }
}

/// The detector of a daemon that restarted with durable state: empty
/// caches, then the principal's last address and last location recalled
/// from the store, which holds what the running daemon had indexed.
pub open spec fn restarted(m: DetectorView, user: Seq<char>) -> DetectorView {
    DetectorView {
        identity: if m.identity.contains_key(user) {
            identity_recalled(
                IdentityMap::empty(),
                user,
                m.identity[user].0,
                m.identity[user].1,
            )
        } else {
            IdentityMap::empty()
        },
        geo: if m.geo.locations.contains_key(user) {
            geo_recalled(
                GeoView { locations: Map::empty(), ..m.geo },
                user,
                m.geo.locations[user].0,
                m.geo.locations[user].1,
            )
        } else {
            GeoView { locations: Map::empty(), ..m.geo }
        },
        rate: RateView { users: Map::empty(), ips: Map::empty(), ..m.rate },
        switches: m.switches,
    }
}

/// Persistence parity: with counts taken from the store, a daemon that
/// restarted and recalled its durable state emits for the next event the
/// same reports as one that never stopped, for all three rules.
pub proof fn lemma_restart_parity(
    m: DetectorView,
    ev: EventView,
    fix: Option<GeoFix>,
    counts: StoredCounts,
)
    ensures
        detector_outcome(restarted(m, ev.user), ev, fix, Some(counts)) == detector_outcome(
            m,
            ev,
            fix,
            Some(counts),
        ),
{
    let r = restarted(m, ev.user);
    assert(ip_switch_outcome(r.identity, ev) == ip_switch_outcome(m.identity, ev));
    match fix {
        Some(f) => {
            assert(geo_outcome(r.geo, ev, f.distance_m as nat) == geo_outcome(
                m.geo,
                ev,
                f.distance_m as nat,
            ));
        },
        None => {},
    }
}

} // verus!
