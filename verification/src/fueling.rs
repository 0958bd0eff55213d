//! Fueling: which plane the truck serves, how its fuel grows, and what a
//! completed fueling pays.
use vstd::prelude::*;
use crate::aircraft::{Aircraft, FUEL_FULL, DEPART_SPEED, spec_add_fuel};
use crate::fleet::fleet_wf;
use crate::routes::spec_departure;
use crate::rules::{
    MAX_PAYOUT, RUNWAY_COUNT, fuel_duration_ms, lemma_payout_bounded, spec_fuel_duration_ms,
    spec_payout,
};
use crate::state::{GameState, FuelReward, spec_after_fueling};
use crate::truck::FuelTruck;

verus! {

/// Plane `i` waits for fuel and the truck is within fueling range of it.
pub open spec fn spec_candidate(fleet: Seq<Aircraft>, in_range: Seq<bool>, i: int) -> bool {
    fleet[i].spec_waiting_for_fuel() && in_range[i]
}

/// Plane `i` is the first of the fleet that waits for fuel within range.
pub open spec fn spec_first_candidate(fleet: Seq<Aircraft>, in_range: Seq<bool>, i: int) -> bool {
    &&& 0 <= i < fleet.len()
    &&& spec_candidate(fleet, in_range, i)
    &&& forall|j: int| 0 <= j < i ==> !#[trigger] spec_candidate(fleet, in_range, j)
}

/// No plane of the fleet waits for fuel within range.
pub open spec fn spec_no_candidate(fleet: Seq<Aircraft>, in_range: Seq<bool>) -> bool {
    forall|j: int| 0 <= j < fleet.len() ==> !#[trigger] spec_candidate(fleet, in_range, j)
}

/// The first plane that waits for fuel and that the truck is within range of;
/// `in_range[i]` tells whether the truck is within range of plane `i`.
pub fn fueling_target(fleet: &Vec<Aircraft>, in_range: &Vec<bool>) -> (t: Option<usize>)
    requires
        in_range.len() == fleet.len(),
    ensures
        t matches Some(i) ==> spec_first_candidate(fleet@, in_range@, i as int),
        t is None ==> spec_no_candidate(fleet@, in_range@),
{
    let mut i: usize = 0;
    while i < fleet.len()
        invariant
            0 <= i <= fleet.len(),
            in_range.len() == fleet.len(),
            forall|j: int| 0 <= j < i ==> !#[trigger] spec_candidate(fleet@, in_range@, j),
        decreases fleet.len() - i,
    {
        if fleet[i].waiting_for_fuel() && in_range[i] {
            return Some(i);
        }
        i = i + 1;
    }
    None
}

/// Plane `i` is the first of the fleet parked unfueled on `runway` with some
/// fuel taken already: its fuel fills that runway's bar.
pub open spec fn spec_bar_plane(fleet: Seq<Aircraft>, runway: int, i: int) -> bool {
    fleet[i].spec_waiting_for_fuel() && fleet[i].fuel_ppm > 0 && fleet[i].runway == runway
}

/// `fill` is the fill of `runway`'s fuel bar: the fuel of the first plane
/// parked unfueled there with some fuel taken, or `None` (bar hidden) if
/// there is none.
pub open spec fn spec_bar_fill(fleet: Seq<Aircraft>, runway: int, fill: Option<u32>) -> bool {
    &&& (fill matches Some(p) ==> exists|i: int|
        0 <= i < fleet.len() && #[trigger] spec_bar_plane(fleet, runway, i) && fleet[i].fuel_ppm
            == p && forall|j: int| 0 <= j < i ==> !#[trigger] spec_bar_plane(fleet, runway, j))
    &&& fill is None ==> forall|j: int|
        0 <= j < fleet.len() ==> !#[trigger] spec_bar_plane(fleet, runway, j)
}

/// The fill of `runway`'s fuel bar (see `spec_bar_fill`). Partly fueled
/// planes keep their bar while the truck is elsewhere.
pub fn runway_fuel_bar(fleet: &Vec<Aircraft>, runway: u32) -> (fill: Option<u32>)
    ensures
        spec_bar_fill(fleet@, runway as int, fill),
{
    let mut i: usize = 0;
    while i < fleet.len()
        invariant
            0 <= i <= fleet.len(),
            forall|j: int| 0 <= j < i ==> !#[trigger] spec_bar_plane(fleet@, runway as int, j),
        decreases fleet.len() - i,
    {
        let ac = &fleet[i];
        if ac.waiting_for_fuel() && ac.fuel_ppm > 0 && ac.runway == runway {
            assert(spec_bar_plane(fleet@, runway as int, i as int));
            return Some(ac.fuel_ppm);
        }
        i = i + 1;
    }
    None
}

/// What one fueling check did.
#[derive(Clone, Copy, Debug, PartialEq, Eq, Structural)]
pub enum FuelingOutcome {
    /// The round was lost: nothing is fueled any more.
    Halted,
    /// No plane is being fueled.
    Idle,
    /// Plane `plane` took fuel and is not full yet.
    Fueling { plane: usize },
    /// Plane `plane` became full, was paid for, and left its stand.
    Completed { plane: usize, reward: FuelReward },
}

/// `new` is `old` with fuel `fuel`, everything else unchanged.
pub open spec fn spec_refueled(new: Aircraft, old: Aircraft, fuel: int) -> bool {
    new == (Aircraft { fuel_ppm: fuel as u32, ..old })
}

/// `new` is `old` fueled to full and sent on its departure route.
pub open spec fn spec_departed(new: Aircraft, old: Aircraft) -> bool {
    &&& new.fuel_ppm == FUEL_FULL
    &&& new.waypoints@ == old.waypoints@ + spec_departure(old.runway as int)
    &&& !new.parked
    &&& new.departing
    &&& new.speed == DEPART_SPEED
    &&& new.seg_start == old.seg_start
    &&& new.runway == old.runway
    &&& new.color == old.color
    &&& new.base_value == old.base_value
    &&& new.will_collide == old.will_collide
}

/// What one fueling check does, `dt_us` microseconds after the last, to the
/// round (`s0` to `s1`), the truck (`t0` to `t1`) and the fleet (`f0` to
/// `f1`), with `in_range[i]` telling whether the truck is within fueling
/// range of plane `i`.
///
/// After a crash nothing happens. Otherwise, when the truck stands still
/// (has no destination) and a plane waits for fuel within range, the first
/// such plane takes fuel at the rate of the truck's level. If that fills it,
/// the plane leaves, its payout is recorded, and the truck stops fueling;
/// else the truck keeps fueling. When the truck is on its way somewhere or no
/// plane is in range, the truck stops fueling and every plane keeps the fuel
/// it has, so fueling resumes where it stopped when the truck returns.
pub open spec fn spec_fueling_step<P>(
    s0: GameState,
    s1: GameState,
    t0: FuelTruck<P>,
    t1: FuelTruck<P>,
    f0: Seq<Aircraft>,
    f1: Seq<Aircraft>,
    in_range: Seq<bool>,
    dt_us: int,
    outcome: FuelingOutcome,
) -> bool {
    &&& f1.len() == f0.len()
    &&& t1.destination == t0.destination
    &&& t1.speed == t0.speed
    &&& s0.crashed ==> outcome == FuelingOutcome::Halted && s1 == s0 && f1 == f0 && t1.fueling
        == t0.fueling
    &&& !s0.crashed && (t0.destination is Some || spec_no_candidate(f0, in_range)) ==> outcome
        == FuelingOutcome::Idle
    &&& outcome == FuelingOutcome::Idle ==> s1 == s0 && f1 == f0 && !t1.fueling
    &&& !s0.crashed && t0.destination is None && !spec_no_candidate(f0, in_range) ==> outcome
        is Fueling || outcome is Completed
    &&& outcome matches FuelingOutcome::Fueling { plane } ==> {
        let fuel = spec_add_fuel(
            f0[plane as int].fuel_ppm as int,
            dt_us,
            spec_fuel_duration_ms(s0.truck_level as int),
        );
        &&& !s0.crashed
        &&& t0.destination is None
        &&& spec_first_candidate(f0, in_range, plane as int)
        &&& fuel < FUEL_FULL
        &&& spec_refueled(f1[plane as int], f0[plane as int], fuel)
        &&& f1 == f0.update(plane as int, f1[plane as int])
        &&& s1 == s0
        &&& t1.fueling
    }
    &&& outcome matches FuelingOutcome::Completed { plane, reward } ==> {
        let fuel = spec_add_fuel(
            f0[plane as int].fuel_ppm as int,
            dt_us,
            spec_fuel_duration_ms(s0.truck_level as int),
        );
        let base = f0[plane as int].base_value as int;
        &&& !s0.crashed
        &&& t0.destination is None
        &&& spec_first_candidate(f0, in_range, plane as int)
        &&& fuel == FUEL_FULL
        &&& spec_departed(f1[plane as int], f0[plane as int])
        &&& f1 == f0.update(plane as int, f1[plane as int])
        &&& s1 == spec_after_fueling(s0, base)
        &&& reward.earned == spec_payout(base, s0.active_runways as int)
        &&& reward.runways_before == s0.active_runways
        &&& reward.runways_after == s1.active_runways
        &&& !t1.fueling
    }
}

/// What one fueling check did, and the fill of each runway's fuel bar
/// afterwards (`None` after a crash: the bars are left as they are).
#[derive(Clone, Debug, PartialEq, Eq)]
pub struct FuelingReport {
    pub outcome: FuelingOutcome,
    pub bars: Option<Vec<Option<u32>>>,
}

fn fuel_first_in_range<P>(
    state: &mut GameState,
    truck: &mut FuelTruck<P>,
    fleet: &mut Vec<Aircraft>,
    in_range: &Vec<bool>,
    dt_us: u64,
) -> (outcome: FuelingOutcome)
    requires
        fleet_wf(old(fleet)@),
        in_range.len() == old(fleet).len(),
        old(state).planes_fueled < u32::MAX,
        old(state).money <= u64::MAX - MAX_PAYOUT,
    ensures
        old(state).wf() ==> final(state).wf(),
        fleet_wf(final(fleet)@),
        spec_fueling_step(
            *old(state),
            *final(state),
            *old(truck),
            *final(truck),
            old(fleet)@,
            final(fleet)@,
            in_range@,
            dt_us as int,
            outcome,
        ),
{
    if state.crashed {
        return FuelingOutcome::Halted;
    }
    let target = fueling_target(fleet, in_range);
    match target {
        Some(i) => {
            if truck.destination.is_some() {
                truck.fueling = false;
                return FuelingOutcome::Idle;
            }
            truck.fueling = true;
            let dur = fuel_duration_ms(state.truck_level);
            let ghost before = fleet@;
            assert(before[i as int].wf());
            let full = fleet[i].add_fuel(dt_us, dur);
            proof {
                assert(spec_refueled(fleet@[i as int], before[i as int], fleet@[i as int].fuel_ppm as int));
            }
            if full {
                let base = fleet[i].base_value;
                fleet[i].depart();
                proof {
                    lemma_payout_bounded(base as int, state.active_runways as int);
                }
                let reward = state.record_fueled(base);
                truck.fueling = false;
                proof {
                    assert(fleet@ =~= before.update(i as int, fleet@[i as int]));
                    assert forall|k: int| 0 <= k < fleet@.len() implies #[trigger] fleet@[k].wf() by {
                        if k != i {
                            assert(fleet@[k] == before[k]);
                        }
                    }
                }
                FuelingOutcome::Completed { plane: i, reward }
            } else {
                proof {
                    assert(fleet@ =~= before.update(i as int, fleet@[i as int]));
                    assert forall|k: int| 0 <= k < fleet@.len() implies #[trigger] fleet@[k].wf() by {
                        if k != i {
                            assert(fleet@[k] == before[k]);
                        }
                    }
                }
                FuelingOutcome::Fueling { plane: i }
            }
        },
        None => {
            truck.fueling = false;
            FuelingOutcome::Idle
        },
    }
}

/// One fueling check, `dt_us` microseconds after the last; `in_range[i]`
/// tells whether the truck is within fueling range of plane `i`. It does what
/// `spec_fueling_step` says, then, unless the round was lost, reports the
/// fill of every runway's fuel bar as `runway_fuel_bar` gives it for the
/// fleet after the check: partly fueled planes keep their bar while the
/// truck is elsewhere.
pub fn check_fueling<P>(
    state: &mut GameState,
    truck: &mut FuelTruck<P>,
    fleet: &mut Vec<Aircraft>,
    in_range: &Vec<bool>,
    dt_us: u64,
) -> (report: FuelingReport)
    requires
        fleet_wf(old(fleet)@),
        in_range.len() == old(fleet).len(),
        old(state).planes_fueled < u32::MAX,
        old(state).money <= u64::MAX - MAX_PAYOUT,
    ensures
        old(state).wf() ==> final(state).wf(),
        fleet_wf(final(fleet)@),
        spec_fueling_step(
            *old(state),
            *final(state),
            *old(truck),
            *final(truck),
            old(fleet)@,
            final(fleet)@,
            in_range@,
            dt_us as int,
            report.outcome,
        ),
        old(state).crashed ==> report.bars is None,
        !old(state).crashed ==> (report.bars matches Some(bars) && bars@.len() == RUNWAY_COUNT
            && forall|r: int| 0 <= r < 4 ==> #[trigger] spec_bar_fill(final(fleet)@, r, bars@[r])),
{
    let outcome = fuel_first_in_range(state, truck, fleet, in_range, dt_us);
    if outcome == FuelingOutcome::Halted {
        return FuelingReport { outcome, bars: None };
    }
    let mut bars: Vec<Option<u32>> = Vec::new();
    let mut r: u32 = 0;
    while r < 4
        invariant
            r <= 4,
            bars@.len() == r,
            forall|k: int| 0 <= k < r ==> #[trigger] spec_bar_fill(fleet@, k, bars@[k]),
        decreases 4 - r,
    {
        bars.push(runway_fuel_bar(fleet, r));
        r = r + 1;
    }
    FuelingReport { outcome, bars: Some(bars) }
}

} // verus!
