use airport_chaos::aircraft::{Aircraft, TaxiEvent, DEPART_SPEED, FUEL_FULL, TAXI_SPEED};
use airport_chaos::fleet::{parked_runways, runway_traffic, taxi_reach_waypoint};
use airport_chaos::fueling::{check_fueling, fueling_target, runway_fuel_bar, FuelingOutcome};
use airport_chaos::routes::{runway_departure, runway_stand};
use airport_chaos::rules::PlaneColor;
use airport_chaos::state::{GameState, RestartAction};
use airport_chaos::truck::FuelTruck;

fn started() -> GameState {
    let mut s = GameState::default();
    assert_eq!(s.press_restart(), RestartAction::Started);
    s
}

/// A plane that has taxied all the way to its stand.
fn parked(runway: u32, color_idx: u8) -> Aircraft {
    let mut s = started();
    let taken: Vec<u32> = vec![];
    let mut ac = Aircraft::new(runway, color_idx, false);
    assert_eq!(taxi_reach_waypoint(&mut s, &mut ac, &taken), TaxiEvent::EnRoute);
    assert_eq!(taxi_reach_waypoint(&mut s, &mut ac, &taken), TaxiEvent::Parked);
    ac
}

#[test]
fn new_aircraft_approach() {
    let ac = Aircraft::new(1, 3, false);
    assert_eq!(ac.runway, 1);
    assert_eq!(ac.color, PlaneColor::Orange);
    assert_eq!(ac.base_value, 150);
    assert_eq!(ac.speed, TAXI_SPEED);
    assert_eq!(ac.waypoints.len(), 2);
    assert!(!ac.parked && !ac.departing && !ac.will_collide);
    assert_eq!(ac.fuel_ppm, 0);
    assert_eq!((ac.seg_start.x, ac.seg_start.y), (-580, -310));
}

#[test]
fn plane_parks_on_its_stand() {
    let ac = parked(2, 0);
    assert!(ac.parked && ac.waiting_for_fuel() && ac.blocks_stand());
    assert_eq!((ac.seg_start.x, ac.seg_start.y), runway_stand(2));
    assert!(ac.waypoints.is_empty());
}

#[test]
fn collider_strikes_a_parked_plane() {
    let mut s = started();
    let fleet = vec![parked(0, 1)];
    let taken = parked_runways(&fleet);
    assert_eq!(taken, vec![0]);
    let mut ac = Aircraft::new(0, 2, true);
    assert_eq!(taxi_reach_waypoint(&mut s, &mut ac, &taken), TaxiEvent::EnRoute);
    assert!(!s.crashed);
    assert_eq!(taxi_reach_waypoint(&mut s, &mut ac, &taken), TaxiEvent::Collided);
    assert!(s.crashed);
    assert!(!ac.parked);
}

#[test]
fn collider_parks_when_the_stand_was_cleared_in_time() {
    let mut s = started();
    let taken = vec![0, 1, 2];
    let mut ac = Aircraft::new(3, 4, true);
    taxi_reach_waypoint(&mut s, &mut ac, &taken);
    assert_eq!(taxi_reach_waypoint(&mut s, &mut ac, &taken), TaxiEvent::Parked);
    assert!(ac.parked && !ac.will_collide);
    assert!(!s.crashed);
}

#[test]
fn traffic_per_runway() {
    let fleet = vec![parked(0, 0), Aircraft::new(1, 0, false), Aircraft::new(0, 1, true)];
    let t = runway_traffic(&fleet);
    assert_eq!(t.occupied, vec![true, true, false, false]);
    assert_eq!(t.crash_inbound, vec![true, false, false, false]);
    // a plane still on approach does not block the stand for collisions
    assert_eq!(parked_runways(&fleet), vec![0]);
}

#[test]
fn fueling_target_is_the_first_parked_plane_in_range() {
    let fleet = vec![Aircraft::new(0, 0, false), parked(1, 0), parked(2, 0)];
    assert_eq!(fueling_target(&fleet, &vec![true, false, true]), Some(2));
    assert_eq!(fueling_target(&fleet, &vec![true, true, true]), Some(1));
    assert_eq!(fueling_target(&fleet, &vec![true, false, false]), None);
}

#[test]
fn fueling_fills_a_plane_and_pays() {
    let mut s = started();
    let mut truck: FuelTruck<(i32, i32)> = FuelTruck::new(0);
    let mut fleet = vec![parked(0, 2)];
    let in_range = vec![true];
    // level 0 takes 2.5 s: one second fills 40%
    let out = check_fueling(&mut s, &mut truck, &mut fleet, &in_range, 1_000_000);
    assert_eq!(out.bars, Some(vec![Some(400_000), None, None, None]));
    let out = out.outcome;
    assert_eq!(out, FuelingOutcome::Fueling { plane: 0 });
    assert!(truck.fueling);
    assert_eq!(fleet[0].fuel_ppm, 400_000);
    assert_eq!(runway_fuel_bar(&fleet, 0), Some(400_000));
    assert_eq!(runway_fuel_bar(&fleet, 1), None);
    let report = check_fueling(&mut s, &mut truck, &mut fleet, &in_range, 1_500_000);
    assert_eq!(report.bars, Some(vec![None; 4]));
    match report.outcome {
        FuelingOutcome::Completed { plane, reward } => {
            assert_eq!(plane, 0);
            assert_eq!(reward.earned, 120);
        }
        other => panic!("unexpected {:?}", other),
    }
    assert!(!truck.fueling);
    assert_eq!(fleet[0].fuel_ppm, FUEL_FULL);
    assert!(fleet[0].departing && !fleet[0].parked);
    assert_eq!(fleet[0].speed, DEPART_SPEED);
    let dep: Vec<_> = fleet[0].waypoints.iter().copied().collect();
    assert_eq!(dep, runway_departure(0));
    assert_eq!(s.money, 120);
    assert_eq!(s.planes_fueled, 1);
    assert_eq!(runway_fuel_bar(&fleet, 0), None);
    // the stand is free again
    assert!(parked_runways(&fleet).is_empty());
}

#[test]
fn partial_fuel_persists_when_the_truck_leaves() {
    let mut s = started();
    let mut truck: FuelTruck<(i32, i32)> = FuelTruck::new(0);
    let mut fleet = vec![parked(1, 0)];
    check_fueling(&mut s, &mut truck, &mut fleet, &vec![true], 500_000);
    assert_eq!(fleet[0].fuel_ppm, 200_000);
    // the player sends the truck away
    truck.redirect((10, 10));
    assert!(!truck.fueling);
    let out = check_fueling(&mut s, &mut truck, &mut fleet, &vec![true], 500_000);
    assert_eq!(out.outcome, FuelingOutcome::Idle);
    assert_eq!(out.bars, Some(vec![None, Some(200_000), None, None]));
    assert_eq!(fleet[0].fuel_ppm, 200_000);
    // the bar keeps showing the partial fuel
    assert_eq!(runway_fuel_bar(&fleet, 1), Some(200_000));
    // the truck comes back and stops: fueling resumes where it stopped
    truck.arrive();
    check_fueling(&mut s, &mut truck, &mut fleet, &vec![true], 500_000);
    assert_eq!(fleet[0].fuel_ppm, 400_000);
    // out of range: nothing happens
    let out = check_fueling(&mut s, &mut truck, &mut fleet, &vec![false], 500_000);
    assert_eq!(out.outcome, FuelingOutcome::Idle);
    assert_eq!(fleet[0].fuel_ppm, 400_000);
}

#[test]
fn nothing_fuels_after_a_crash() {
    let mut s = started();
    s.record_crash();
    let mut truck: FuelTruck<(i32, i32)> = FuelTruck::new(0);
    let mut fleet = vec![parked(1, 0)];
    let out = check_fueling(&mut s, &mut truck, &mut fleet, &vec![true], 5_000_000);
    assert_eq!(out.outcome, FuelingOutcome::Halted);
    assert_eq!(out.bars, None);
    assert_eq!(fleet[0].fuel_ppm, 0);
}

#[test]
fn faster_trucks_fuel_quicker() {
    let mut s = started();
    s.money = 20_000;
    for _ in 0..8 {
        assert!(s.try_upgrade());
    }
    let mut truck: FuelTruck<(i32, i32)> = FuelTruck::new(s.truck_level);
    assert_eq!(truck.speed, 395);
    let mut fleet = vec![parked(0, 4)];
    // 0.6 s at the top level
    let out = check_fueling(&mut s, &mut truck, &mut fleet, &vec![true], 600_000);
    assert!(matches!(out.outcome, FuelingOutcome::Completed { .. }));
}

#[test]
fn add_fuel_caps_at_full() {
    let mut ac = parked(0, 0);
    assert!(!ac.add_fuel(0, 2500));
    assert_eq!(ac.fuel_ppm, 0);
    assert!(!ac.add_fuel(1, 2500));
    assert!(ac.add_fuel(u64::MAX, 2500));
    assert_eq!(ac.fuel_ppm, FUEL_FULL);
}

#[test]
fn departing_plane_flies_away() {
    let mut ac = parked(3, 0);
    ac.depart();
    assert!(!ac.departure_finished());
    let mut s = started();
    let taken = vec![3];
    assert_eq!(taxi_reach_waypoint(&mut s, &mut ac, &taken), TaxiEvent::EnRoute);
    assert_eq!(taxi_reach_waypoint(&mut s, &mut ac, &taken), TaxiEvent::EnRoute);
    assert!(ac.departure_finished());
    assert!(!s.crashed);
}

#[test]
fn upgrade_keeps_destination_and_fueling() {
    let mut truck: FuelTruck<(i32, i32)> = FuelTruck::new(0);
    assert_eq!(truck.speed, 130);
    assert!(!truck.drives());
    truck.redirect((5, -7));
    assert!(truck.drives());
    truck.upgrade_to(1);
    assert_eq!(truck.speed, 155);
    assert_eq!(truck.destination, Some((5, -7)));
    truck.arrive();
    truck.fueling = true;
    truck.upgrade_to(2);
    assert!(truck.fueling);
    assert_eq!(truck.destination, None);
    assert_eq!(truck.speed, 180);
}

#[test]
fn runways_past_the_fourth_use_its_route() {
    let ac = Aircraft::new(6, 0, false);
    let ac3 = Aircraft::new(3, 0, false);
    assert_eq!(ac.runway, 6);
    assert_eq!(ac.seg_start, ac3.seg_start);
    assert_eq!(ac.waypoints, ac3.waypoints);
    // its stand counts as taken only for planes of the same runway index
    let mut s = started();
    let mut p = Aircraft::new(6, 0, false);
    let none: Vec<u32> = vec![];
    taxi_reach_waypoint(&mut s, &mut p, &none);
    taxi_reach_waypoint(&mut s, &mut p, &none);
    assert!(p.parked);
    assert_eq!(parked_runways(&vec![p]), vec![6]);
}
