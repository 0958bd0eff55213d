use airport_chaos::rules::{
    active_runways_for_progress, firework_color, fuel_duration_ms, payout, plane_color_info,
    scale_roll, spawn_interval_for_progress, truck_body_size, truck_label_color,
    truck_level_colors, truck_next_level_colors, truck_speed, upgrade_cost, FireworkColor,
    LabelColor, PlaneColor, TruckPaint, MAX_TRUCK_LEVEL, WIN_PLANES,
};
use airport_chaos::routes::{runway_approach, runway_departure, runway_stand, Waypoint};

#[test]
fn runways_open_at_ten_and_twenty_five() {
    assert_eq!(active_runways_for_progress(0), 2);
    assert_eq!(active_runways_for_progress(9), 2);
    assert_eq!(active_runways_for_progress(10), 3);
    assert_eq!(active_runways_for_progress(24), 3);
    assert_eq!(active_runways_for_progress(25), 4);
    assert_eq!(active_runways_for_progress(1000), 4);
}

#[test]
fn runways_never_close_as_progress_grows() {
    let mut prev = active_runways_for_progress(0);
    for n in 1..200u32 {
        let now = active_runways_for_progress(n);
        assert!(now >= prev);
        prev = now;
    }
}

#[test]
fn spawn_interval_tightens() {
    assert_eq!(spawn_interval_for_progress(0), 18);
    assert_eq!(spawn_interval_for_progress(9), 18);
    assert_eq!(spawn_interval_for_progress(10), 15);
    assert_eq!(spawn_interval_for_progress(24), 15);
    assert_eq!(spawn_interval_for_progress(25), 13);
    assert_eq!(spawn_interval_for_progress(39), 13);
    assert_eq!(spawn_interval_for_progress(40), 11);
    assert_eq!(spawn_interval_for_progress(60), 10);
    assert_eq!(spawn_interval_for_progress(80), 9);
    assert_eq!(spawn_interval_for_progress(u32::MAX), 9);
    let mut prev = spawn_interval_for_progress(0);
    for n in 1..120u32 {
        let now = spawn_interval_for_progress(n);
        assert!(now <= prev);
        prev = now;
    }
}

#[test]
fn plane_colors_and_base_values() {
    assert_eq!(plane_color_info(0), (PlaneColor::Azure, 60, "Azure"));
    assert_eq!(plane_color_info(1), (PlaneColor::Blue, 90, "Blue"));
    assert_eq!(plane_color_info(2), (PlaneColor::Yellow, 120, "Yellow"));
    assert_eq!(plane_color_info(3), (PlaneColor::Orange, 150, "Orange"));
    assert_eq!(plane_color_info(4), (PlaneColor::Red, 175, "Red"));
    // indices wrap around every five
    assert_eq!(plane_color_info(5), (PlaneColor::Azure, 60, "Azure"));
    assert_eq!(plane_color_info(9), (PlaneColor::Red, 175, "Red"));
}

#[test]
fn payout_table_matches_the_published_values() {
    // colour: (1-2 runways, 3rd open, 4th open)
    let table: [(u8, u64, u64, u64); 5] = [
        (0, 60, 85, 100),
        (1, 90, 115, 130),
        (2, 120, 150, 165),
        (3, 150, 180, 200),
        (4, 175, 205, 225),
    ];
    for (idx, two, three, four) in table {
        let base = plane_color_info(idx).1;
        assert_eq!(payout(base, 2), two);
        assert_eq!(payout(base, 3), three);
        assert_eq!(payout(base, 4), four);
    }
}

#[test]
fn payout_rounds_up_to_five_dollars() {
    // 100 * 1.05 = 105 exactly: no rounding up past it
    assert_eq!(payout(100, 3), 125);
    // 101 * 1.05 = 106.05 -> 110
    assert_eq!(payout(101, 3), 130);
    // 0 stays 0 before the flat bonus
    assert_eq!(payout(0, 3), 20);
    assert_eq!(payout(0, 4), 30);
    assert_eq!(payout(0, 2), 0);
}

#[test]
fn payout_grows_with_open_runways() {
    for base in 0..400u32 {
        assert!(payout(base, 2) <= payout(base, 3));
        assert!(payout(base, 3) <= payout(base, 4));
        assert!(payout(base, 2) == base as u64);
    }
}

#[test]
fn upgrade_costs_run_from_500_to_4000() {
    let costs: Vec<u64> = (0..MAX_TRUCK_LEVEL).map(|l| upgrade_cost(l).unwrap()).collect();
    assert_eq!(costs, vec![500, 1000, 1500, 2000, 2500, 3000, 3500, 4000]);
    assert_eq!(upgrade_cost(MAX_TRUCK_LEVEL), None);
    assert_eq!(upgrade_cost(u32::MAX), None);
}

#[test]
fn upgrades_make_the_truck_faster_and_quicker() {
    assert_eq!(truck_speed(0), 130);
    assert_eq!(truck_speed(MAX_TRUCK_LEVEL), 395);
    assert_eq!(fuel_duration_ms(0), 2500);
    assert_eq!(fuel_duration_ms(MAX_TRUCK_LEVEL), 600);
    for l in 0..MAX_TRUCK_LEVEL {
        assert!(truck_speed(l) < truck_speed(l + 1));
        assert!(fuel_duration_ms(l + 1) < fuel_duration_ms(l));
        let (w0, h0) = truck_body_size(l);
        let (w1, h1) = truck_body_size(l + 1);
        assert!(w0 < w1 && h0 < h1);
    }
    assert_eq!(truck_speed(100), 395);
    assert_eq!(fuel_duration_ms(100), 600);
    assert_eq!(truck_body_size(0), (22, 28));
}

#[test]
fn truck_paints_follow_the_levels() {
    let paints: Vec<TruckPaint> = (0..=MAX_TRUCK_LEVEL).map(truck_level_colors).collect();
    assert_eq!(
        paints,
        vec![
            TruckPaint::Gray,
            TruckPaint::Yellow,
            TruckPaint::Orange,
            TruckPaint::Red,
            TruckPaint::Purple,
            TruckPaint::Green,
            TruckPaint::Cyan,
            TruckPaint::Pink,
            TruckPaint::Gold,
        ]
    );
    assert_eq!(truck_next_level_colors(0), TruckPaint::Yellow);
    assert_eq!(truck_next_level_colors(7), TruckPaint::Gold);
    assert_eq!(truck_next_level_colors(MAX_TRUCK_LEVEL), TruckPaint::Maxed);
    assert_eq!(truck_next_level_colors(u32::MAX), TruckPaint::Maxed);
}

#[test]
fn fuel_label_contrasts_with_the_paint() {
    assert_eq!(truck_label_color(0), LabelColor::Red);
    assert_eq!(truck_label_color(2), LabelColor::Red);
    assert_eq!(truck_label_color(3), LabelColor::Yellow);
    assert_eq!(truck_label_color(5), LabelColor::Yellow);
    assert_eq!(truck_label_color(MAX_TRUCK_LEVEL), LabelColor::Yellow);
}

#[test]
fn rolls_split_into_equal_parts() {
    assert_eq!(scale_roll(0, 5), 0);
    assert_eq!(scale_roll(13106, 5), 0);
    assert_eq!(scale_roll(13107, 5), 1);
    assert_eq!(scale_roll(52427, 5), 3);
    assert_eq!(scale_roll(52428, 5), 4);
    assert_eq!(scale_roll(65534, 5), 4);
    assert_eq!(scale_roll(65535, 5), 5);
}

#[test]
fn scaled_rolls_agree_with_float_scaling() {
    for roll in 0..=65535u32 {
        let f = roll as f32 / 65535.0;
        assert_eq!(scale_roll(roll, 5), (f * 5.0) as u32);
        assert_eq!(scale_roll(roll, 6), (f * 6.0) as u32);
    }
}

#[test]
fn firework_colors_cover_the_hue_range() {
    assert_eq!(firework_color(0), FireworkColor::Red);
    assert_eq!(firework_color(10922), FireworkColor::Red);
    assert_eq!(firework_color(10923), FireworkColor::Orange);
    assert_eq!(firework_color(32768), FireworkColor::Green);
    assert_eq!(firework_color(65534), FireworkColor::Violet);
    assert_eq!(firework_color(65535), FireworkColor::Violet);
}

#[test]
fn approaches_end_on_their_stands() {
    for r in 0..4u32 {
        let (start, wps) = runway_approach(r);
        assert_eq!(start.scale_pct, 35);
        assert_eq!(wps.len(), 2);
        let last = wps[wps.len() - 1];
        assert_eq!((last.x, last.y), runway_stand(r));
        assert_eq!(last.scale_pct, 100);
        let dep = runway_departure(r);
        assert_eq!(dep.len(), 2);
        assert_eq!(dep[1].scale_pct, start.scale_pct);
    }
}

#[test]
fn route_coordinates() {
    let (start, wps) = runway_approach(2);
    assert_eq!(start, Waypoint { x: -360, y: 360, scale_pct: 35 });
    assert_eq!(wps[0], Waypoint { x: -360, y: 278, scale_pct: 72 });
    assert_eq!(
        runway_departure(0),
        vec![
            Waypoint { x: -420, y: 230, scale_pct: 72 },
            Waypoint { x: -580, y: 310, scale_pct: 35 }
        ]
    );
    assert_eq!(runway_stand(1), (0, -230));
    assert_eq!(runway_stand(3), (360, 0));
}

#[test]
fn win_target_is_fifty() {
    assert_eq!(WIN_PLANES, 50);
}
