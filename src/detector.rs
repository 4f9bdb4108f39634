//! The dispatcher's decisions for one event: which rules run, in which
//! order, and what each contributes to the event's reports.
use crate::event::{AnomalyReport, EventView, LogEvent, ReportView};
use crate::geo_velocity::{geo_after, geo_outcome, GeoLocation, GeoVelocityTracker, GeoView};
use crate::identity::{identity_after, ip_switch_outcome, IdentityContext, IdentityMap};
use crate::rate_limiter::{
    rate_after,
    rate_outcome,
    rate_reports,
    reports_view,
    LoginRateLimiter,
    RateView,
};
use vstd::prelude::*;

verus! {

/// Which rules are enabled.
#[derive(Debug, Clone, Copy, PartialEq, Eq, Structural)]
pub struct DetectionSwitches {
    pub enable_ip_switch: bool,
    pub enable_geo_velocity: bool,
    pub enable_rate_limiting: bool,
}

/// Where a located event took place, and its great-circle distance in
/// metres from the principal's last located login (0 when there is none).
#[derive(Debug, Clone, Copy, PartialEq, Eq, Structural)]
pub struct GeoFix {
    pub location: GeoLocation,
    pub distance_m: u64,
}

/// Attempt counts read back from the durable store after the event's
/// attempt was persisted: the store is then the authority for the counts.
#[derive(Debug, Clone, Copy, PartialEq, Eq, Structural)]
pub struct StoredCounts {
    pub user_count: usize,
    pub ip_count: usize,
}

/// Model of the detector: the three indexes and the switches.
pub struct DetectorView {
    pub identity: IdentityMap,
    pub geo: GeoView,
    pub rate: RateView,
    pub switches: DetectionSwitches,
}

/// An optional report as a sequence of zero or one.
pub open spec fn opt_seq(r: Option<ReportView>) -> Seq<ReportView> {
    match r {
        Some(v) => seq![v],
        None => Seq::empty(),
    }
}

pub open spec fn ip_switch_part(m: DetectorView, ev: EventView) -> Seq<ReportView> {
    if m.switches.enable_ip_switch {
        opt_seq(ip_switch_outcome(m.identity, ev))
    } else {
        Seq::empty()
    }
}

pub open spec fn geo_part(m: DetectorView, ev: EventView, fix: Option<GeoFix>) -> Seq<ReportView> {
    match fix {
        Some(f) => if m.switches.enable_geo_velocity {
            opt_seq(geo_outcome(m.geo, ev, f.distance_m as nat))
        } else {
            Seq::empty()
        },
        None => Seq::empty(),
    }
}

pub open spec fn rate_part(m: DetectorView, ev: EventView, counts: Option<StoredCounts>) -> Seq<
    ReportView,
> {
    if m.switches.enable_rate_limiting {
        match counts {
            Some(c) => rate_reports(
                ev,
                c.user_count as nat,
                c.ip_count as nat,
                m.rate.window_seconds,
                m.rate.max_user_attempts as nat,
                m.rate.max_ip_attempts as nat,
            ),
            None => rate_outcome(m.rate, ev),
        }
    } else {
        Seq::empty()
    }
}

/// The reports for one event, in rule order: IP switch, geo velocity
/// (located events only), rate limit.
pub open spec fn detector_outcome(
    m: DetectorView,
    ev: EventView,
    fix: Option<GeoFix>,
    counts: Option<StoredCounts>,
) -> Seq<ReportView> {
    ip_switch_part(m, ev) + geo_part(m, ev, fix) + rate_part(m, ev, counts)
}

/// The detector after one event: each enabled rule's index records it.
pub open spec fn detector_after(m: DetectorView, ev: EventView, fix: Option<GeoFix>) -> DetectorView {
    DetectorView {
        identity: if m.switches.enable_ip_switch {
            identity_after(m.identity, ev)
        } else {
            m.identity
        },
        geo: match fix {
            Some(f) => if m.switches.enable_geo_velocity {
                geo_after(m.geo, ev, f.location)
            } else {
                m.geo
            },
            None => m.geo,
        },
        rate: if m.switches.enable_rate_limiting {
            rate_after(m.rate, ev)
        } else {
            m.rate
        },
        switches: m.switches,
    }
}

/// The rules and their indexes, driven one event at a time by a single writer.
pub struct Detector {
    pub identity: IdentityContext,
    pub geo_velocity: GeoVelocityTracker,
    pub rate_limiter: LoginRateLimiter,
    pub switches: DetectionSwitches,
}

impl View for Detector {
    type V = DetectorView;

    open spec fn view(&self) -> DetectorView {
        DetectorView {
            identity: self.identity@,
            geo: self.geo_velocity@,
            rate: self.rate_limiter@,
            switches: self.switches,
        }
    }
}

impl Detector {
    pub open spec fn wf(&self) -> bool {
        self.rate_limiter.wf()
    }

    pub fn new(
        switches: DetectionSwitches,
        geo_velocity: GeoVelocityTracker,
        rate_limiter: LoginRateLimiter,
    ) -> (r: Self)
        requires
            rate_limiter.wf(),
        ensures
            r.wf(),
            r@ == (DetectorView {
                identity: IdentityMap::empty(),
                geo: geo_velocity@,
                rate: rate_limiter@,
                switches,
            }),
    {
        Detector { identity: IdentityContext::new(), geo_velocity, rate_limiter, switches }
    }

    /// Runs the enabled rules on `event` in their fixed order and returns
    /// the reports. The geo-velocity rule runs only on a located event;
    /// with `counts` the rate thresholds are held against the store's counts.
    pub fn process_event(
        &mut self,
        event: &LogEvent,
        fix: Option<GeoFix>,
        counts: Option<StoredCounts>,
    ) -> (r: Vec<AnomalyReport>)
        requires
            old(self).wf(),
        ensures
            final(self).wf(),
            reports_view(r@) == detector_outcome(old(self)@, event@, fix, counts),
            final(self)@ == detector_after(old(self)@, event@, fix),
    {
        let mut reports: Vec<AnomalyReport> = Vec::new();
        if self.switches.enable_ip_switch {
            match self.identity.check_for_ip_switch(event) {
                Some(rep) => reports.push(rep),
                None => {},
            }
        }
        let ghost after_ip = reports@;
        assert(reports_view(after_ip) =~= ip_switch_part(old(self)@, event@));
        match fix {
            Some(f) => {
                if self.switches.enable_geo_velocity {
                    match self.geo_velocity.check_impossible_travel(event, f.location, f.distance_m) {
                        Some(rep) => reports.push(rep),
                        None => {},
                    }
                }
            },
            None => {},
        }
        let ghost after_geo = reports@;
        assert(reports_view(after_geo) =~= ip_switch_part(old(self)@, event@) + geo_part(
            old(self)@,
            event@,
            fix,
        ));
        if self.switches.enable_rate_limiting {
            let mut rate = match counts {
                Some(c) => self.rate_limiter.check_rate_limit_counted(
                    event,
                    c.user_count,
                    c.ip_count,
                ),
                None => self.rate_limiter.check_rate_limit(event),
            };
            let ghost rate_view = rate@;
            reports.append(&mut rate);
            assert(reports@ =~= after_geo + rate_view);
            assert(reports_view(reports@) =~= reports_view(after_geo) + reports_view(rate_view));
        }
        assert(reports_view(reports@) =~= detector_outcome(old(self)@, event@, fix, counts));
        reports
    }
}

} // verus!
