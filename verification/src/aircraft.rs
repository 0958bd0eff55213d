//! Aircraft: their route, their state on the stand, and their fuel.
use vstd::prelude::*;
use std::collections::VecDeque;
use crate::rules::{PlaneColor, plane_color_info, spec_plane_color, spec_base_value};
use crate::routes::{Waypoint, runway_approach, runway_departure, spec_approach, spec_approach_start, spec_departure};

verus! {

/// Taxi speed of a landing plane, in pixels per second.
pub const TAXI_SPEED: u32 = 130;

/// Speed of a fueled plane leaving its stand, in pixels per second.
pub const DEPART_SPEED: u32 = 310;

/// Fuel level of a full plane: fuel is counted in millionths of a full load.
pub const FUEL_FULL: u32 = 1_000_000;

/// A plane on its way to, waiting at, or leaving its runway's stand.
#[derive(Clone, Debug)]
pub struct Aircraft {
    /// Waypoints still ahead, nearest first.
    pub waypoints: VecDeque<Waypoint>,
    /// The waypoint the current leg started from.
    pub seg_start: Waypoint,
    /// Speed in pixels per second.
    pub speed: u32,
    /// On its stand, waiting for fuel.
    pub parked: bool,
    /// Fueled and leaving.
    pub departing: bool,
    /// Runway index, 0 to 3 (higher indices use runway 3's route and stand).
    pub runway: u32,
    pub color: PlaneColor,
    /// Payout with one or two runways open.
    pub base_value: u32,
    /// Arriving at a stand that was still taken when it was sent.
    pub will_collide: bool,
    /// Fuel taken so far, in millionths; kept when the truck leaves mid-fuel.
    pub fuel_ppm: u32,
}

/// What reaching a waypoint led to.
#[derive(Clone, Copy, Debug, PartialEq, Eq, Structural)]
pub enum TaxiEvent {
    /// More waypoints lie ahead, or the plane was already parked or leaving.
    EnRoute,
    /// The plane reached its stand and parked there.
    Parked,
    /// The plane reached a stand still taken by an unfueled plane.
    Collided,
}

/// Fuel after fueling for `dt_us` microseconds at a rate that fills a plane in
/// `duration_ms` milliseconds, capped at a full load.
pub open spec fn spec_add_fuel(fuel: int, dt_us: int, duration_ms: int) -> int {
    let added = dt_us * 1000 / duration_ms;
    if fuel + added >= FUEL_FULL {
        FUEL_FULL as int
    } else {
        fuel + added
    }
}

/// Fueling never takes fuel away, and never fills past a full load.
pub proof fn lemma_fuel_only_grows(fuel: int, dt_us: int, duration_ms: int)
    requires
        0 <= fuel <= FUEL_FULL,
        dt_us >= 0,
        duration_ms > 0,
    ensures
        fuel <= spec_add_fuel(fuel, dt_us, duration_ms) <= FUEL_FULL,
{
    assert(dt_us * 1000 / duration_ms >= 0) by (nonlinear_arith)
        requires
            dt_us >= 0,
            duration_ms > 0,
    ;
}

/// Fueling for the whole duration fills any plane, whatever it held before.
pub proof fn lemma_full_duration_fills(fuel: int, duration_ms: int)
    requires
        0 <= fuel <= FUEL_FULL,
        duration_ms > 0,
    ensures
        spec_add_fuel(fuel, duration_ms * 1000, duration_ms) == FUEL_FULL,
{
    assert(duration_ms * 1000 * 1000 / duration_ms == 1_000_000) by (nonlinear_arith)
        requires
            duration_ms > 0,
    ;
}

/// Fueling runs at a constant rate: a full load takes `duration_ms`
/// milliseconds. A plane holding `fuel` becomes full exactly when the time
/// fueled covers its missing load at that rate; until then it gains the
/// whole millionths that the time fueled pays for, and no more.
pub proof fn lemma_fuel_rate(fuel: int, dt_us: int, duration_ms: int)
    requires
        0 <= fuel <= FUEL_FULL,
        dt_us >= 0,
        duration_ms > 0,
    ensures
        spec_add_fuel(fuel, dt_us, duration_ms) == FUEL_FULL <==> dt_us * 1000 >= (FUEL_FULL - fuel)
            * duration_ms,
        spec_add_fuel(fuel, dt_us, duration_ms) < FUEL_FULL ==> {
            let gained = spec_add_fuel(fuel, dt_us, duration_ms) - fuel;
            &&& gained >= 0
            &&& gained * duration_ms <= dt_us * 1000
            &&& dt_us * 1000 < (gained + 1) * duration_ms
        },
        spec_add_fuel(fuel, dt_us, duration_ms) <= FUEL_FULL,
{
    let q = dt_us * 1000 / duration_ms;
    let missing = FUEL_FULL - fuel;
    assert(q * duration_ms <= dt_us * 1000 < (q + 1) * duration_ms && q >= 0) by (nonlinear_arith)
        requires
            q == dt_us * 1000 / duration_ms,
            dt_us >= 0,
            duration_ms > 0,
    ;
    assert(q >= missing <==> dt_us * 1000 >= missing * duration_ms) by (nonlinear_arith)
        requires
            q * duration_ms <= dt_us * 1000 < (q + 1) * duration_ms,
            duration_ms > 0,
    ;
}

impl Aircraft {
    /// The aircraft's invariant.
    pub open spec fn wf(&self) -> bool {
        &&& self.fuel_ppm <= FUEL_FULL
        &&& self.base_value <= 175
        &&& !(self.parked && self.departing)
        &&& self.parked ==> !self.will_collide
        &&& self.departing ==> !self.will_collide
    }

    /// Parked and not yet fueled.
    pub open spec fn spec_waiting_for_fuel(&self) -> bool {
        self.parked && !self.departing
    }

    /// Parked, not yet fueled, and blocking its stand for the next arrival.
    pub open spec fn spec_blocks_stand(&self) -> bool {
        self.parked && !self.departing && !self.will_collide
    }

    /// A plane just appearing on the approach to `runway` (indices past 3 take
    /// runway 3's route), with the color that `color_idx` selects.
    pub fn new(runway: u32, color_idx: u8, will_collide: bool) -> (ac: Aircraft)
        ensures
            ac.wf(),
            ac.runway == runway,
            ac.seg_start == spec_approach_start(runway as int),
            ac.waypoints@ == spec_approach(runway as int),
            ac.speed == TAXI_SPEED,
            !ac.parked,
            !ac.departing,
            ac.color == spec_plane_color(color_idx as int),
            ac.base_value == spec_base_value(ac.color),
            ac.will_collide == will_collide,
            ac.fuel_ppm == 0,
    {
        let (start, wps) = runway_approach(runway);
        let (color, base_value, _) = plane_color_info(color_idx);
        let mut waypoints: VecDeque<Waypoint> = VecDeque::new();
        let mut i: usize = 0;
        while i < wps.len()
            invariant
                0 <= i <= wps.len(),
                waypoints@ == wps@.subrange(0, i as int),
            decreases wps.len() - i,
        {
            waypoints.push_back(wps[i]);
            i = i + 1;
            assert(waypoints@ =~= wps@.subrange(0, i as int));
        }
        assert(wps@.subrange(0, wps.len() as int) =~= wps@);
        Aircraft {
            waypoints,
            seg_start: start,
            speed: TAXI_SPEED,
            parked: false,
            departing: false,
            runway,
            color,
            base_value,
            will_collide,
            fuel_ppm: 0,
        }
    }

    /// Parked and not yet fueled.
    pub fn waiting_for_fuel(&self) -> (b: bool)
        ensures
            b == self.spec_waiting_for_fuel(),
    {
        self.parked && !self.departing
    }

    /// Parked, not yet fueled, and blocking the stand.
    pub fn blocks_stand(&self) -> (b: bool)
        ensures
            b == self.spec_blocks_stand(),
    {
        self.parked && !self.departing && !self.will_collide
    }

    /// A leaving plane that has flown its whole departure route: it is gone.
    pub fn departure_finished(&self) -> (gone: bool)
        ensures
            gone == (self.departing && self.waypoints@.len() == 0),
    {
        self.departing && self.waypoints.len() == 0
    }

    /// The plane has reached the first waypoint ahead. The waypoint becomes the
    /// start of the next leg. If it was the last one and the plane was neither
    /// parked nor leaving, it has arrived at its stand: it parks there, unless
    /// it was sent to a taken stand and `stand_taken` says the stand is still
    /// taken, in which case it collides. A plane sent to a taken stand that was
    /// cleared in time parks normally.
    pub fn reach_waypoint(&mut self, stand_taken: bool) -> (event: TaxiEvent)
        requires
            old(self).wf(),
            old(self).waypoints@.len() > 0,
        ensures
            final(self).wf(),
            final(self).seg_start == old(self).waypoints@[0],
            final(self).waypoints@ == old(self).waypoints@.drop_first(),
            final(self).speed == old(self).speed,
            final(self).departing == old(self).departing,
            final(self).runway == old(self).runway,
            final(self).color == old(self).color,
            final(self).base_value == old(self).base_value,
            final(self).fuel_ppm == old(self).fuel_ppm,
            ({
                let arrived = final(self).waypoints@.len() == 0 && !old(self).parked
                    && !old(self).departing;
                &&& !arrived ==> event == TaxiEvent::EnRoute && final(self).parked
                    == old(self).parked && final(self).will_collide == old(self).will_collide
                &&& arrived && old(self).will_collide && stand_taken ==> event
                    == TaxiEvent::Collided && !final(self).parked && final(self).will_collide
                &&& arrived && !(old(self).will_collide && stand_taken) ==> event
                    == TaxiEvent::Parked && final(self).parked && !final(self).will_collide
            }),
    {
        let reached = self.waypoints.pop_front();
        let target = reached.unwrap();
        assert(self.waypoints@ =~= old(self).waypoints@.drop_first());
        self.seg_start = target;
        if self.waypoints.len() == 0 && !self.parked && !self.departing {
            if self.will_collide {
                if stand_taken {
                    TaxiEvent::Collided
                } else {
                    self.parked = true;
                    self.will_collide = false;
                    TaxiEvent::Parked
                }
            } else {
                self.parked = true;
                TaxiEvent::Parked
            }
        } else {
            TaxiEvent::EnRoute
        }
    }

    /// Fuels the plane for `dt_us` microseconds with a truck that fills a plane
    /// in `duration_ms` milliseconds. Returns whether the plane is now full.
    pub fn add_fuel(&mut self, dt_us: u64, duration_ms: u32) -> (full: bool)
        requires
            old(self).wf(),
            duration_ms > 0,
        ensures
            final(self).wf(),
            final(self).fuel_ppm == spec_add_fuel(
                old(self).fuel_ppm as int,
                dt_us as int,
                duration_ms as int,
            ),
            full == (final(self).fuel_ppm == FUEL_FULL),
            final(self).waypoints == old(self).waypoints,
            final(self).seg_start == old(self).seg_start,
            final(self).speed == old(self).speed,
            final(self).parked == old(self).parked,
            final(self).departing == old(self).departing,
            final(self).runway == old(self).runway,
            final(self).color == old(self).color,
            final(self).base_value == old(self).base_value,
            final(self).will_collide == old(self).will_collide,
    {
        let dur = duration_ms as u64;
        let full_time = dur * 1000;
        if dt_us >= full_time {
            proof {
                assert((dt_us as int) * 1000 / (dur as int) >= 1_000_000) by (nonlinear_arith)
                    requires
                        dt_us >= dur * 1000,
                        dur > 0,
                ;
            }
            self.fuel_ppm = FUEL_FULL;
        } else {
            let added = dt_us * 1000 / dur;
            assert(added <= 1_000_000) by (nonlinear_arith)
                requires
                    dt_us < dur * 1000,
                    dur > 0,
                    added as int == (dt_us as int) * 1000 / (dur as int),
            ;
            let added32 = added as u32;
            if self.fuel_ppm as u64 + added >= FUEL_FULL as u64 {
                self.fuel_ppm = FUEL_FULL;
            } else {
                self.fuel_ppm = self.fuel_ppm + added32;
            }
        }
        self.fuel_ppm == FUEL_FULL
    }

    /// A fueled plane leaves: it takes its runway's departure route at
    /// departure speed and gives up its stand.
    pub fn depart(&mut self)
        requires
            old(self).wf(),
            old(self).parked,
        ensures
            final(self).wf(),
            final(self).waypoints@ == old(self).waypoints@ + spec_departure(
                old(self).runway as int,
            ),
            !final(self).parked,
            final(self).departing,
            final(self).speed == DEPART_SPEED,
            final(self).seg_start == old(self).seg_start,
            final(self).runway == old(self).runway,
            final(self).color == old(self).color,
            final(self).base_value == old(self).base_value,
            final(self).will_collide == old(self).will_collide,
            final(self).fuel_ppm == old(self).fuel_ppm,
    {
        let route = runway_departure(self.runway);
        let ghost before = self.waypoints@;
        let mut i: usize = 0;
        while i < route.len()
            invariant
                0 <= i <= route.len(),
                route@ == spec_departure(old(self).runway as int),
                self.waypoints@ == before + route@.subrange(0, i as int),
                self.seg_start == old(self).seg_start,
                self.speed == old(self).speed,
                self.parked == old(self).parked,
                self.departing == old(self).departing,
                self.runway == old(self).runway,
                self.color == old(self).color,
                self.base_value == old(self).base_value,
                self.will_collide == old(self).will_collide,
                self.fuel_ppm == old(self).fuel_ppm,
            decreases route.len() - i,
        {
            self.waypoints.push_back(route[i]);
            i = i + 1;
            assert(self.waypoints@ =~= before + route@.subrange(0, i as int));
        }
        assert(route@.subrange(0, route.len() as int) =~= route@);
        self.parked = false;
        self.departing = true;
        self.speed = DEPART_SPEED;
    }
}

} // verus!
