//! The geo-velocity rule and its index: principal -> (timestamp, location)
//! of the last located login.
//!
//! Coordinates are held in millionths of a degree. The great-circle
//! distance between two logins is computed by the caller (see
//! `GeoVelocityTracker::last_location`) and handed in as whole metres.
use crate::event::{AnomalyReport, EventView, LogEvent, ReportView};
use crate::text::{decimal, u64_text};
use vstd::hash_map::StringHashMap;
use vstd::prelude::*;
use vstd::string::StringExecFns;

verus! {

/// A geographic coordinate in millionths of a degree.
#[derive(Debug, Clone, Copy, PartialEq, Eq, Structural)]
pub struct GeoLocation {
    pub latitude_e6: i32,
    pub longitude_e6: i32,
}

impl GeoLocation {
    /// Latitude within [-90, 90] degrees and longitude within [-180, 180].
    pub open spec fn is_valid(&self) -> bool {
        -90_000_000 <= self.latitude_e6 <= 90_000_000 && -180_000_000 <= self.longitude_e6
            <= 180_000_000
    }

    /// The coordinate, when both parts are in range.
    pub fn from_micro_degrees(latitude_e6: i32, longitude_e6: i32) -> (r: Option<GeoLocation>)
        ensures
            match r {
                Some(g) => g.is_valid() && g.latitude_e6 == latitude_e6 && g.longitude_e6
                    == longitude_e6,
                None => !(GeoLocation { latitude_e6, longitude_e6 }).is_valid(),
            },
    {
        if -90_000_000 <= latitude_e6 && latitude_e6 <= 90_000_000 && -180_000_000 <= longitude_e6
            && longitude_e6 <= 180_000_000 {
            Some(GeoLocation { latitude_e6, longitude_e6 })
        } else {
            None
        }
    }
}

/// Model of the tracker.
pub struct GeoView {
    pub locations: Map<Seq<char>, (i64, GeoLocation)>,
    pub max_velocity_kmh: u32,
}

pub open spec fn simultaneous_rule() -> Seq<char> {
    "Simultaneous Multi-Location Login"@
}

pub open spec fn travel_rule() -> Seq<char> {
    "Impossible Travel Velocity"@
}

/// Less than 0.001 h (3.6 s) elapsed, or the clock went backwards.
pub open spec fn is_simultaneous(elapsed: int) -> bool {
    elapsed * 10 < 36
}

/// The speed `(distance_m / 1000) / (elapsed / 3600)` km/h exceeds
/// `factor * max_kmh`; `elapsed` is positive.
pub open spec fn speed_exceeds(distance_m: nat, elapsed: int, factor: nat, max_kmh: nat) -> bool {
    distance_m * 3600 > factor * max_kmh * 1000 * elapsed
}

/// Severity by the ratio of speed to the maximum: above 10 gives 10,
/// above 5 gives 9, above 2 gives 8, else 7.
pub open spec fn travel_severity(distance_m: nat, elapsed: int, max_kmh: nat) -> u8 {
    if speed_exceeds(distance_m, elapsed, 10, max_kmh) {
        10
    } else if speed_exceeds(distance_m, elapsed, 5, max_kmh) {
        9
    } else if speed_exceeds(distance_m, elapsed, 2, max_kmh) {
        8
    } else {
        7
    }
}

/// Whole km/h for a positive elapsed time.
pub open spec fn speed_kmh(distance_m: nat, elapsed: int) -> nat {
    (((distance_m * 3600) as int) / (1000 * elapsed)) as nat
}

pub open spec fn simultaneous_description(ev: EventView, distance_m: nat) -> Seq<char> {
    "User '"@ + ev.user + "' logged in from two locations "@ + decimal(distance_m / 1000)
        + " km apart within seconds. Likely credential compromise."@
}

pub open spec fn travel_description(
    ev: EventView,
    distance_m: nat,
    elapsed: int,
    max_kmh: nat,
) -> Seq<char> {
    "User '"@ + ev.user + "' traveled "@ + decimal(distance_m / 1000) + " km in "@ + decimal(
        elapsed as nat,
    ) + " seconds ("@ + decimal(speed_kmh(distance_m, elapsed)) + " km/h). Max plausible speed: "@
        + decimal(max_kmh) + " km/h."@
}

pub open spec fn simultaneous_report(ev: EventView, distance_m: nat) -> ReportView {
    ReportView {
        severity: 10,
        rule_name: simultaneous_rule(),
        user: ev.user,
        detected_ip: ev.ip,
        trusted_ip: Seq::empty(),
        timestamp: ev.timestamp,
        description: simultaneous_description(ev, distance_m),
    }
}

pub open spec fn travel_report(ev: EventView, distance_m: nat, elapsed: int, max_kmh: nat) -> ReportView {
    ReportView {
        severity: travel_severity(distance_m, elapsed, max_kmh),
        rule_name: travel_rule(),
        user: ev.user,
        detected_ip: ev.ip,
        trusted_ip: Seq::empty(),
        timestamp: ev.timestamp,
        description: travel_description(ev, distance_m, elapsed, max_kmh),
    }
}

/// What the rule emits for `ev`, located `distance_m` metres from the
/// principal's last located login.
pub open spec fn geo_outcome(m: GeoView, ev: EventView, distance_m: nat) -> Option<ReportView> {
    if !m.locations.contains_key(ev.user) {
        None
    } else {
        let elapsed = ev.timestamp - m.locations[ev.user].0;
        if is_simultaneous(elapsed) {
            Some(simultaneous_report(ev, distance_m))
        } else if !speed_exceeds(distance_m, elapsed, 1, m.max_velocity_kmh as nat) {
            None
        } else {
            Some(travel_report(ev, distance_m, elapsed, m.max_velocity_kmh as nat))
        }
    }
}

/// The tracker after a located event: the event's time and place are kept.
pub open spec fn geo_after(m: GeoView, ev: EventView, loc: GeoLocation) -> GeoView {
    GeoView { locations: m.locations.insert(ev.user, (ev.timestamp, loc)), ..m }
}

/// The tracker after a stored location was recalled: a cached entry wins.
pub open spec fn geo_recalled(m: GeoView, user: Seq<char>, at: i64, loc: GeoLocation) -> GeoView {
    if m.locations.contains_key(user) {
        m
    } else {
        GeoView { locations: m.locations.insert(user, (at, loc)), ..m }
    }
}

/// Tracks login locations and times of each principal for velocity analysis.
pub struct GeoVelocityTracker {
    user_locations: StringHashMap<(i64, GeoLocation)>,
    max_velocity_kmh: u32,
}

impl View for GeoVelocityTracker {
    type V = GeoView;

    closed spec fn view(&self) -> GeoView {
        GeoView { locations: self.user_locations@, max_velocity_kmh: self.max_velocity_kmh }
    }
}

fn exceeds(distance_m: u64, elapsed: i128, factor: u32, max_kmh: u32) -> (r: bool)
    requires
        0 < elapsed <= u64::MAX,
        factor <= 10,
    ensures
        r == speed_exceeds(distance_m as nat, elapsed as int, factor as nat, max_kmh as nat),
{
    let lhs: u128 = distance_m as u128 * 3600;
    let f = factor as u128;
    let m = max_kmh as u128;
    let e = elapsed as u128;
    assert(f * m <= 10 * 0xffff_ffff) by (nonlinear_arith)
        requires
            f <= 10,
            m <= 0xffff_ffff,
    ;
    assert(f * m * 1000 * e <= 10 * 0xffff_ffff * 1000 * 0xffff_ffff_ffff_ffff) by (nonlinear_arith)
        requires
            f * m <= 10 * 0xffff_ffff,
            e <= 0xffff_ffff_ffff_ffff,
    ;
    let rhs: u128 = f * m * 1000 * e;
    lhs > rhs
}

fn describe_simultaneous(event: &LogEvent, distance_m: u64) -> (r: String)
    ensures
        r@ == simultaneous_description(event@, distance_m as nat),
{
    let mut s = String::from_str("User '");
    s.append(event.user.as_str());
    s.append("' logged in from two locations ");
    s.append(u64_text(distance_m / 1000).as_str());
    s.append(" km apart within seconds. Likely credential compromise.");
    s
}

fn describe_travel(event: &LogEvent, distance_m: u64, elapsed: i128, max_kmh: u32) -> (r: String)
    requires
        4 <= elapsed <= u64::MAX,
    ensures
        r@ == travel_description(event@, distance_m as nat, elapsed as int, max_kmh as nat),
{
    let d = distance_m as u128;
    let e = elapsed as u128;
    let speed: u128 = (d * 3600) / (1000 * e);
    assert(speed <= d) by (nonlinear_arith)
        requires
            speed == (d * 3600) / (1000 * e),
            e >= 4,
            d >= 0,
    ;
    let mut s = String::from_str("User '");
    s.append(event.user.as_str());
    s.append("' traveled ");
    s.append(u64_text(distance_m / 1000).as_str());
    s.append(" km in ");
    s.append(u64_text(elapsed as u64).as_str());
    s.append(" seconds (");
    s.append(u64_text(speed as u64).as_str());
    s.append(" km/h). Max plausible speed: ");
    s.append(u64_text(max_kmh as u64).as_str());
    s.append(" km/h.");
    s
}

impl GeoVelocityTracker {
    /// A tracker with the default maximum of 900 km/h (a commercial flight).
    pub fn new() -> (r: Self)
        ensures
            r@ == (GeoView { locations: Map::empty(), max_velocity_kmh: 900 }),
    {
        Self::with_max_velocity(900)
    }

    pub fn with_max_velocity(max_velocity_kmh: u32) -> (r: Self)
        ensures
            r@ == (GeoView { locations: Map::empty(), max_velocity_kmh }),
    {
        GeoVelocityTracker { user_locations: StringHashMap::new(), max_velocity_kmh }
    }

    /// Time and place of the principal's last located login, if any: the
    /// point from which the caller measures the distance to the next one.
    pub fn last_location(&self, user: &str) -> (r: Option<(i64, GeoLocation)>)
        ensures
            match r {
                Some(e) => self@.locations.contains_key(user@) && self@.locations[user@] == e,
                None => !self@.locations.contains_key(user@),
            },
    {
        match self.user_locations.get(user) {
            Some(e) => Some(*e),
            None => None,
        }
    }

    /// Fills a cache miss with a location read back from durable storage.
    /// An entry already cached is kept.
    pub fn recall(&mut self, user: &String, at: i64, location: GeoLocation)
        ensures
            final(self)@ == geo_recalled(old(self)@, user@, at, location),
    {
        if !self.user_locations.contains_key(user.as_str()) {
            self.user_locations.insert(user.clone(), (at, location));
        }
    }

    /// Evaluates the geo-velocity rule on a located event, `distance_m`
    /// metres (great-circle) from the principal's last located login, then
    /// records the event's time and place.
    pub fn check_impossible_travel(
        &mut self,
        event: &LogEvent,
        current_location: GeoLocation,
        distance_m: u64,
    ) -> (r: Option<AnomalyReport>)
        ensures
            crate::identity::report_opt_view(r) == geo_outcome(
                old(self)@,
                event@,
                distance_m as nat,
            ),
            final(self)@ == geo_after(old(self)@, event@, current_location),
    {
        let r = match self.user_locations.get(event.user.as_str()) {
            None => None,
            Some(prev) => {
                let elapsed: i128 = event.timestamp as i128 - prev.0 as i128;
                if elapsed * 10 < 36 {
                    Some(
                        AnomalyReport {
                            severity: 10,
                            rule_name: String::from_str("Simultaneous Multi-Location Login"),
                            user: event.user.clone(),
                            detected_ip: event.ip_address.clone(),
                            trusted_ip: String::new(),
                            timestamp: event.timestamp,
                            description: describe_simultaneous(event, distance_m),
                        },
                    )
                } else if !exceeds(distance_m, elapsed, 1, self.max_velocity_kmh) {
                    None
                } else {
                    let severity: u8 = if exceeds(distance_m, elapsed, 10, self.max_velocity_kmh) {
                        10
                    } else if exceeds(distance_m, elapsed, 5, self.max_velocity_kmh) {
                        9
                    } else if exceeds(distance_m, elapsed, 2, self.max_velocity_kmh) {
                        8
                    } else {
                        7
                    };
                    Some(
                        AnomalyReport {
                            severity,
                            rule_name: String::from_str("Impossible Travel Velocity"),
                            user: event.user.clone(),
                            detected_ip: event.ip_address.clone(),
                            trusted_ip: String::new(),
                            timestamp: event.timestamp,
                            description: describe_travel(
                                event,
                                distance_m,
                                elapsed,
                                self.max_velocity_kmh,
                            ),
                        },
                    )
                }
            },
        };
        self.user_locations.insert(event.user.clone(), (event.timestamp, current_location));
        r
    }

    /// Forgets one principal.
    pub fn clear_user(&mut self, user: &str)
        ensures
            final(self)@ == (GeoView { locations: old(self)@.locations.remove(user@), ..old(self)@ }),
    {
        self.user_locations.remove(user);
    }

    /// Forgets every principal.
    pub fn clear_all(&mut self)
        ensures
            final(self)@ == (GeoView { locations: Map::empty(), ..old(self)@ }),
    {
        self.user_locations.clear();
    }
}

impl Default for GeoVelocityTracker {
    /// Same as `GeoVelocityTracker::new`.
    fn default() -> (r: Self)
        ensures
            r@ == (GeoView { locations: Map::empty(), max_velocity_kmh: 900 }),
    {
        Self::new()
    }
}

} // verus!
