//! Taxi routes of the four runways, in world pixels with the apron centred on
//! the origin. Runways 0 and 1 are the horizontal ones (top and bottom),
//! runways 2 and 3 the vertical ones (left and right).
use vstd::prelude::*;

verus! {

/// A point of a taxi route and the plane's drawing scale there, in percent
/// (planes are drawn small in the air and at full size on the ground).
#[derive(Clone, Copy, Debug, PartialEq, Eq, Structural)]
pub struct Waypoint {
    pub x: i32,
    pub y: i32,
    pub scale_pct: u32,
}

/// Scale of a plane high on approach or departure.
pub const SCALE_HIGH: u32 = 35;
/// Scale of a plane on the runway.
pub const SCALE_MID: u32 = 72;
/// Scale of a plane on the ground.
pub const SCALE_GROUND: u32 = 100;

pub open spec fn wp(x: int, y: int, scale_pct: int) -> Waypoint {
    Waypoint { x: x as i32, y: y as i32, scale_pct: scale_pct as u32 }
}

/// Parking stand of each runway.
pub open spec fn spec_stand(runway: int) -> (int, int) {
    if runway == 0 {
        (0, 230)
    } else if runway == 1 {
        (0, -230)
    } else if runway == 2 {
        (-360, 0)
    } else {
        (360, 0)
    }
}

/// Where the parking stand of `runway` lies; runways past the fourth use the
/// fourth's stand.
pub fn runway_stand(runway: u32) -> (pos: (i32, i32))
    ensures
        pos.0 == spec_stand(runway as int).0,
        pos.1 == spec_stand(runway as int).1,
{
    match runway {
        0 => (0, 230),
        1 => (0, -230),
        2 => (-360, 0),
        _ => (360, 0),
    }
}

/// Where a plane of `runway` appears, high in the air.
pub open spec fn spec_approach_start(runway: int) -> Waypoint {
    if runway == 0 {
        wp(580, 310, 35)
    } else if runway == 1 {
        wp(-580, -310, 35)
    } else if runway == 2 {
        wp(-360, 360, 35)
    } else {
        wp(360, -360, 35)
    }
}

/// The waypoints a landing plane of `runway` follows: touch down on the
/// runway, then taxi to the stand.
pub open spec fn spec_approach(runway: int) -> Seq<Waypoint> {
    if runway == 0 {
        seq![wp(420, 230, 72), wp(0, 230, 100)]
    } else if runway == 1 {
        seq![wp(-420, -230, 72), wp(0, -230, 100)]
    } else if runway == 2 {
        seq![wp(-360, 278, 72), wp(-360, 0, 100)]
    } else {
        seq![wp(360, -278, 72), wp(360, 0, 100)]
    }
}

/// The waypoints a fueled plane of `runway` follows to leave: along the
/// runway, then up and away.
pub open spec fn spec_departure(runway: int) -> Seq<Waypoint> {
    if runway == 0 {
        seq![wp(-420, 230, 72), wp(-580, 310, 35)]
    } else if runway == 1 {
        seq![wp(420, -230, 72), wp(580, -310, 35)]
    } else if runway == 2 {
        seq![wp(-360, -278, 72), wp(-360, -360, 35)]
    } else {
        seq![wp(360, 278, 72), wp(360, 360, 35)]
    }
}

fn mk(x: i32, y: i32, scale_pct: u32) -> (w: Waypoint)
    ensures
        w == wp(x as int, y as int, scale_pct as int),
{
    Waypoint { x, y, scale_pct }
}

/// Start point and waypoints of the approach to `runway`'s stand.
pub fn runway_approach(runway: u32) -> (route: (Waypoint, Vec<Waypoint>))
    ensures
        route.0 == spec_approach_start(runway as int),
        route.1@ == spec_approach(runway as int),
{
    match runway {
        0 => (mk(580, 310, SCALE_HIGH), vec![mk(420, 230, SCALE_MID), mk(0, 230, SCALE_GROUND)]),
        1 => (
            mk(-580, -310, SCALE_HIGH),
            vec![mk(-420, -230, SCALE_MID), mk(0, -230, SCALE_GROUND)],
        ),
        2 => (
            mk(-360, 360, SCALE_HIGH),
            vec![mk(-360, 278, SCALE_MID), mk(-360, 0, SCALE_GROUND)],
        ),
        _ => (
            mk(360, -360, SCALE_HIGH),
            vec![mk(360, -278, SCALE_MID), mk(360, 0, SCALE_GROUND)],
        ),
    }
}

/// Waypoints of the departure from `runway`'s stand.
pub fn runway_departure(runway: u32) -> (route: Vec<Waypoint>)
    ensures
        route@ == spec_departure(runway as int),
{
    match runway {
        0 => vec![mk(-420, 230, SCALE_MID), mk(-580, 310, SCALE_HIGH)],
        1 => vec![mk(420, -230, SCALE_MID), mk(580, -310, SCALE_HIGH)],
        2 => vec![mk(-360, -278, SCALE_MID), mk(-360, -360, SCALE_HIGH)],
        _ => vec![mk(360, 278, SCALE_MID), mk(360, 360, SCALE_HIGH)],
    }
}

/// Every approach ends on its runway's parking stand at full ground scale,
/// and every departure climbs back to the approach's starting altitude.
pub proof fn lemma_routes_meet_stands(runway: int)
    ensures
        spec_approach(runway).len() == 2,
        spec_departure(runway).len() == 2,
        spec_approach(runway).last().x == spec_stand(runway).0,
        spec_approach(runway).last().y == spec_stand(runway).1,
        spec_approach(runway).last().scale_pct == SCALE_GROUND,
        spec_departure(runway).last().scale_pct == spec_approach_start(runway).scale_pct,
{
}

} // verus!
