//! Decisions that look at all aircraft at once: which stands are taken,
//! what traffic heads for each runway, and what a plane reaching a waypoint
//! does to the round.
use vstd::prelude::*;
use crate::aircraft::{Aircraft, TaxiEvent};
use crate::rules::RUNWAY_COUNT;
use crate::state::GameState;

verus! {

/// Every aircraft of the fleet keeps its invariant.
pub open spec fn fleet_wf(fleet: Seq<Aircraft>) -> bool {
    forall|i: int| 0 <= i < fleet.len() ==> #[trigger] fleet[i].wf()
}

/// Runways of the planes parked unfueled on their stands (and not sent to
/// collide), in fleet order.
pub open spec fn spec_parked_runways(fleet: Seq<Aircraft>) -> Seq<u32>
    decreases fleet.len(),
{
    if fleet.len() == 0 {
        Seq::empty()
    } else {
        let before = spec_parked_runways(fleet.drop_last());
        if fleet.last().spec_blocks_stand() {
            before.push(fleet.last().runway)
        } else {
            before
        }
    }
}

/// A runway is listed by `spec_parked_runways` exactly when a plane of the
/// fleet waits for fuel on its stand.
pub proof fn lemma_parked_runways_contains(fleet: Seq<Aircraft>, runway: u32)
    ensures
        spec_parked_runways(fleet).contains(runway) <==> exists|i: int|
            0 <= i < fleet.len() && #[trigger] fleet[i].spec_blocks_stand() && fleet[i].runway
                == runway,
    decreases fleet.len(),
{
    if fleet.len() > 0 {
        let rest = fleet.drop_last();
        lemma_parked_runways_contains(rest, runway);
        let before = spec_parked_runways(rest);
        if exists|i: int|
            0 <= i < fleet.len() && #[trigger] fleet[i].spec_blocks_stand() && fleet[i].runway
                == runway {
            let i = choose|i: int|
                0 <= i < fleet.len() && #[trigger] fleet[i].spec_blocks_stand() && fleet[i].runway
                    == runway;
            if i < fleet.len() - 1 {
                assert(rest[i] == fleet[i]);
                assert(rest[i].spec_blocks_stand());
                let k = choose|k: int| 0 <= k < before.len() && before[k] == runway;
                if fleet.last().spec_blocks_stand() {
                    assert(before.push(fleet.last().runway)[k] == runway);
                }
            } else {
                assert(before.push(fleet.last().runway)[before.len() as int] == runway);
            }
        }
        if spec_parked_runways(fleet).contains(runway) {
            if before.contains(runway) {
                let i = choose|i: int|
                    0 <= i < rest.len() && #[trigger] rest[i].spec_blocks_stand() && rest[i].runway
                        == runway;
                assert(fleet[i] == rest[i]);
                assert(fleet[i].spec_blocks_stand());
            } else {
                let k = choose|k: int|
                    0 <= k < spec_parked_runways(fleet).len() && spec_parked_runways(fleet)[k]
                        == runway;
                assert(fleet.last().spec_blocks_stand());
                assert(k == before.len());
                assert(fleet[fleet.len() - 1].spec_blocks_stand());
            }
        }
    }
}

/// Runways of the planes waiting for fuel on their stands, in fleet order: a
/// plane arriving at one of these stands strikes the plane parked there.
pub fn parked_runways(fleet: &Vec<Aircraft>) -> (runways: Vec<u32>)
    ensures
        runways@ == spec_parked_runways(fleet@),
{
    let mut runways: Vec<u32> = Vec::new();
    let mut i: usize = 0;
    while i < fleet.len()
        invariant
            0 <= i <= fleet.len(),
            runways@ == spec_parked_runways(fleet@.take(i as int)),
        decreases fleet.len() - i,
    {
        assert(fleet@.take(i + 1).drop_last() =~= fleet@.take(i as int));
        if fleet[i].blocks_stand() {
            runways.push(fleet[i].runway);
        }
        i = i + 1;
    }
    assert(fleet@.take(fleet.len() as int) =~= fleet@);
    runways
}

/// Whether `runway` is listed in `runways`.
pub fn lists_runway(runways: &Vec<u32>, runway: u32) -> (found: bool)
    ensures
        found == runways@.contains(runway),
{
    let mut i: usize = 0;
    while i < runways.len()
        invariant
            0 <= i <= runways.len(),
            forall|k: int| 0 <= k < i ==> runways@[k] != runway,
        decreases runways.len() - i,
    {
        if runways[i] == runway {
            return true;
        }
        i = i + 1;
    }
    false
}

/// Some plane of the fleet is heading for `runway`'s stand to collide there.
pub open spec fn spec_crash_inbound(fleet: Seq<Aircraft>, runway: int) -> bool {
    exists|i: int| 0 <= i < fleet.len() && #[trigger] fleet[i].will_collide && fleet[i].runway == runway
}

/// Some plane of the fleet, neither colliding nor leaving, claims `runway`'s
/// stand: it is on its way there or waits there for fuel.
pub open spec fn spec_stand_claimed(fleet: Seq<Aircraft>, runway: int) -> bool {
    exists|i: int|
        0 <= i < fleet.len() && !#[trigger] fleet[i].will_collide && !fleet[i].departing
            && fleet[i].runway == runway
}

/// Traffic heading for each runway's stand, as the spawn decisions need it.
pub struct RunwayTraffic {
    /// The stand is claimed by a plane that is neither colliding nor leaving.
    pub occupied: Vec<bool>,
    /// A plane is heading for the stand to collide there.
    pub crash_inbound: Vec<bool>,
}

/// Gathers, for each runway, whether its stand is claimed and whether a
/// colliding plane is on its way there.
pub fn runway_traffic(fleet: &Vec<Aircraft>) -> (t: RunwayTraffic)
    ensures
        t.occupied@.len() == RUNWAY_COUNT,
        t.crash_inbound@.len() == RUNWAY_COUNT,
        forall|r: int| 0 <= r < 4 ==> #[trigger] t.occupied@[r] == spec_stand_claimed(fleet@, r),
        forall|r: int|
            0 <= r < 4 ==> #[trigger] t.crash_inbound@[r] == spec_crash_inbound(fleet@, r),
{
    let mut occupied: Vec<bool> = vec![false, false, false, false];
    let mut crash_inbound: Vec<bool> = vec![false, false, false, false];
    let mut i: usize = 0;
    while i < fleet.len()
        invariant
            0 <= i <= fleet.len(),
            occupied@.len() == 4,
            crash_inbound@.len() == 4,
            forall|r: int|
                0 <= r < 4 ==> #[trigger] occupied@[r] == exists|j: int|
                    0 <= j < i && !#[trigger] fleet@[j].will_collide && !fleet@[j].departing
                        && fleet@[j].runway == r,
            forall|r: int|
                0 <= r < 4 ==> #[trigger] crash_inbound@[r] == exists|j: int|
                    0 <= j < i && #[trigger] fleet@[j].will_collide && fleet@[j].runway == r,
        decreases fleet.len() - i,
    {
        let ac = &fleet[i];
        if ac.runway < 4 {
            let r = ac.runway as usize;
            if ac.will_collide {
                crash_inbound.set(r, true);
            } else if !ac.departing {
                occupied.set(r, true);
            }
        }
        proof {
            assert forall|r: int| 0 <= r < 4 implies #[trigger] occupied@[r] == exists|j: int|
                0 <= j < i + 1 && !#[trigger] fleet@[j].will_collide && !fleet@[j].departing
                    && fleet@[j].runway == r by {
            }
            assert forall|r: int| 0 <= r < 4 implies #[trigger] crash_inbound@[r] == exists|j: int|
                0 <= j < i + 1 && #[trigger] fleet@[j].will_collide && fleet@[j].runway == r by {
            }
        }
        i = i + 1;
    }
    RunwayTraffic { occupied, crash_inbound }
}

/// A taxiing plane reached the first waypoint ahead; `parked` lists the
/// runways whose stands are taken by planes waiting for fuel (see
/// `parked_runways`), as they were when this round of taxiing began. A plane
/// that arrives at a stand still taken strikes the plane there, and the round
/// is lost; otherwise the round goes on unchanged.
pub fn taxi_reach_waypoint(state: &mut GameState, plane: &mut Aircraft, parked: &Vec<u32>) -> (event:
    TaxiEvent)
    requires
        old(plane).wf(),
        old(plane).waypoints@.len() > 0,
    ensures
        old(state).wf() ==> final(state).wf(),
        final(plane).wf(),
        final(plane).seg_start == old(plane).waypoints@[0],
        final(plane).waypoints@ == old(plane).waypoints@.drop_first(),
        ({
            let arrived = final(plane).waypoints@.len() == 0 && !old(plane).parked
                && !old(plane).departing;
            let struck = arrived && old(plane).will_collide && parked@.contains(old(plane).runway);
            &&& !arrived ==> event == TaxiEvent::EnRoute && final(plane).parked
                == old(plane).parked && final(plane).will_collide == old(plane).will_collide
            &&& struck ==> event == TaxiEvent::Collided && !final(plane).parked
                && final(plane).will_collide
            &&& arrived && !struck ==> event == TaxiEvent::Parked && final(plane).parked
                && !final(plane).will_collide
        }),
        event == TaxiEvent::Collided ==> *final(state) == (GameState { crashed: true, ..*old(state) }),
        event != TaxiEvent::Collided ==> *final(state) == *old(state),
        final(plane).departing == old(plane).departing,
        final(plane).runway == old(plane).runway,
        final(plane).color == old(plane).color,
        final(plane).fuel_ppm == old(plane).fuel_ppm,
        final(plane).base_value == old(plane).base_value,
        final(plane).speed == old(plane).speed,
{
    let taken = lists_runway(parked, plane.runway);
    let event = plane.reach_waypoint(taken);
    if event == TaxiEvent::Collided {
        state.record_crash();
    }
    event
}

} // verus!
