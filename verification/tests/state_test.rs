use airport_chaos::state::{
    GameState, HudMessage, RestartAction, SpawnDecision, SpawnOrder, UpgradeOffer,
    FIREWORK_PERIOD_US, PAYOUT_FLASH_US, RNG_SEED,
};
use airport_chaos::rules::firework_color;
use airport_chaos::state::FireworkBurst;
use airport_chaos::timers::SpawnTimers;

fn lcg(s: u32) -> u32 {
    s.wrapping_mul(1664525).wrapping_add(1013904223)
}

fn started() -> GameState {
    let mut s = GameState::default();
    assert_eq!(s.press_restart(), RestartAction::Started);
    s
}

#[test]
fn initial_state() {
    let s = GameState::default();
    assert!(!s.started && !s.crashed && !s.game_complete && !s.crash_anim_spawned);
    assert_eq!(s.money, 0);
    assert_eq!(s.truck_level, 0);
    assert_eq!(s.planes_fueled, 0);
    assert_eq!(s.active_runways, 2);
    assert_eq!(s.rng_state, RNG_SEED);
    assert_eq!(s.spawn_timers, SpawnTimers { runway0: 0, runway1: 7_000_000, runway2: 0, runway3: 0 });
}

#[test]
fn random_rolls_follow_the_generator() {
    let mut s = GameState::default();
    let mut expect = RNG_SEED;
    for _ in 0..1000 {
        expect = lcg(expect);
        let r = s.next_rand();
        assert_eq!(r, expect >> 16);
        assert!(r <= 65535);
        assert_eq!(s.rng_state, expect);
    }
}

#[test]
fn restart_starts_then_resets() {
    let mut s = GameState::default();
    assert!(s.restart_button_visible());
    assert_eq!(s.press_restart(), RestartAction::Started);
    assert!(s.started);
    assert!(!s.restart_button_visible());
    // while a round is under way the button does nothing
    let before = s;
    assert_eq!(s.press_restart(), RestartAction::Ignored);
    assert_eq!(s, before);
    // after a crash it resets everything but keeps the game started
    s.money = 700;
    s.truck_level = 1;
    s.record_crash();
    assert!(s.restart_button_visible());
    assert_eq!(s.press_restart(), RestartAction::Reset);
    let mut fresh = GameState::default();
    fresh.started = true;
    assert_eq!(s, fresh);
}

#[test]
fn fueling_pays_counts_and_flashes() {
    let mut s = started();
    let r = s.record_fueled(120);
    assert_eq!(r.earned, 120);
    assert_eq!(s.money, 120);
    assert_eq!(s.last_payout, 120);
    assert_eq!(s.planes_fueled, 1);
    assert_eq!(s.payout_flash_us, PAYOUT_FLASH_US);
    assert_eq!((r.runways_before, r.runways_after), (2, 2));
    assert_eq!(s.hud_message(true), HudMessage::Payout { earned: 120, fueled: 1 });
    assert_eq!(s.hud_message(false), HudMessage::Progress { fueled: 1 });
}

#[test]
fn tenth_plane_opens_the_third_runway_with_a_staggered_timer() {
    let mut s = started();
    for _ in 0..9 {
        s.record_fueled(60);
    }
    assert_eq!(s.active_runways, 2);
    assert!(!s.runway_is_open(2));
    let r = s.record_fueled(60);
    assert_eq!((r.runways_before, r.runways_after), (2, 3));
    assert!(s.runway_is_open(2));
    assert!(!s.runway_is_open(3));
    // first arrival after half the new 15 s interval
    assert_eq!(s.spawn_timers.runway2, 7_500_000);
    // the eleventh plane already earns the three-runway payout
    let r = s.record_fueled(60);
    assert_eq!(r.earned, 85);
}

#[test]
fn twenty_fifth_plane_opens_the_fourth_runway() {
    let mut s = started();
    for _ in 0..24 {
        s.record_fueled(175);
    }
    assert_eq!(s.active_runways, 3);
    let r = s.record_fueled(175);
    assert_eq!(r.earned, 205);
    assert_eq!((r.runways_before, r.runways_after), (3, 4));
    assert_eq!(s.spawn_timers.runway3, 6_500_000);
    assert_eq!(s.record_fueled(175).earned, 225);
}

#[test]
fn fiftieth_plane_wins() {
    let mut s = started();
    for _ in 0..49 {
        s.record_fueled(60);
        assert!(!s.game_complete);
    }
    s.record_fueled(60);
    assert!(s.game_complete);
    assert_eq!(s.planes_fueled, 50);
    assert!(!s.spawning_active());
    assert!(!s.taxiing_active());
    assert!(s.restart_button_visible());
    assert_eq!(s.hud_message(true), HudMessage::Blank);
}

#[test]
fn upgrades_need_the_money() {
    let mut s = started();
    assert_eq!(s.upgrade_offer(), UpgradeOffer::TooExpensive(500));
    assert!(!s.try_upgrade());
    assert_eq!(s.truck_level, 0);
    s.money = 499;
    assert!(!s.try_upgrade());
    s.money = 1600;
    assert_eq!(s.upgrade_offer(), UpgradeOffer::Affordable(500));
    assert!(s.try_upgrade());
    assert_eq!((s.truck_level, s.money), (1, 1100));
    assert!(s.try_upgrade());
    assert_eq!((s.truck_level, s.money), (2, 100));
    assert_eq!(s.upgrade_offer(), UpgradeOffer::TooExpensive(1500));
    assert_eq!(s.level_label(), Some(2));
}

#[test]
fn upgrades_stop_at_the_top_level() {
    let mut s = started();
    s.money = 100_000;
    let mut spent = 0;
    for level in 0..8u64 {
        assert!(s.try_upgrade());
        spent += 500 * (level + 1);
    }
    assert_eq!(s.truck_level, 8);
    assert_eq!(s.money, 100_000 - spent);
    assert_eq!(spent, 18_000);
    assert!(!s.try_upgrade());
    assert_eq!(s.upgrade_offer(), UpgradeOffer::Maxed);
    assert_eq!(s.level_label(), None);
}

#[test]
fn spawn_decisions() {
    let mut s = started();
    let before = s;
    assert_eq!(s.spawn_decision(true, false), SpawnDecision::Hold);
    assert_eq!(s, before);

    let s1 = lcg(s.rng_state);
    let s2 = lcg(s1);
    let d = s.spawn_decision(false, false);
    assert_eq!(
        d,
        SpawnDecision::Plane {
            color_idx: ((s1 >> 16) as u64 * 5 / 65535) as u8,
            jitter_roll: s2 >> 16
        }
    );
    assert_eq!(s.rng_state, s2);

    let s3 = lcg(s.rng_state);
    let d = s.spawn_decision(false, true);
    assert_eq!(d, SpawnDecision::Collider { color_idx: ((s3 >> 16) as u64 * 5 / 65535) as u8 });
    assert_eq!(s.rng_state, s3);
}

#[test]
fn spawn_tick_counts_down_and_sends_planes() {
    let mut s = started();
    let free = vec![false; 4];
    let orders = s.spawn_tick(&free, &free, 100_000);
    // runway 0 starts at zero: a plane is sent at once
    assert_eq!(orders.len(), 1);
    assert_eq!(orders[0].runway, 0);
    assert!(!orders[0].will_collide);
    assert_eq!(s.spawn_timers.runway1, 6_900_000);
    // the new timer is the 18 s interval moved by at most 2 s
    let t0 = s.spawn_timers.runway0;
    assert!((16_000_000..=20_000_000).contains(&t0));
    // runways 2 and 3 are closed: untouched
    assert_eq!(s.spawn_timers.runway2, 0);
    assert_eq!(s.spawn_timers.runway3, 0);

    // runway 1 runs out while its stand is taken: a colliding plane
    let mut taken = vec![false; 4];
    taken[1] = true;
    let orders = s.spawn_tick(&taken, &free, 7_000_000);
    assert_eq!(orders, vec![SpawnOrder { runway: 1, color_idx: orders[0].color_idx, will_collide: true }]);
    assert_eq!(s.spawn_timers.runway1, 18_000_000);

    // a colliding plane already on its way: only the timer restarts
    let mut s2 = started();
    let mut inbound = vec![false; 4];
    inbound[0] = true;
    let rng = s2.rng_state;
    let orders = s2.spawn_tick(&free, &inbound, 1);
    assert!(orders.is_empty());
    assert_eq!(s2.spawn_timers.runway0, 18_000_000);
    assert_eq!(s2.rng_state, rng);
}

#[test]
fn nothing_spawns_before_start_or_after_the_end() {
    let mut s = GameState::default();
    let free = vec![false; 4];
    let before = s;
    assert!(s.spawn_tick(&free, &free, 10_000_000).is_empty());
    assert_eq!(s, before);
    let mut s = started();
    s.record_crash();
    let before = s;
    assert!(s.spawn_tick(&free, &free, 10_000_000).is_empty());
    assert_eq!(s, before);
}

#[test]
fn crash_animation_runs_once() {
    let mut s = started();
    assert!(!s.begin_crash_animation());
    s.record_crash();
    assert!(!s.accepts_clicks());
    assert!(s.begin_crash_animation());
    assert!(!s.begin_crash_animation());
}

#[test]
fn payout_flash_counts_down() {
    let mut s = started();
    s.record_fueled(60);
    assert!(s.tick_payout_flash(1_000_000));
    assert_eq!(s.payout_flash_us, 1_500_000);
    assert!(!s.tick_payout_flash(1_500_000));
    assert_eq!(s.payout_flash_us, 0);
    // the timer keeps counting down below zero
    assert!(!s.tick_payout_flash(5));
    assert_eq!(s.payout_flash_us, -5);
    assert!(!s.tick_payout_flash(3_000_000));
    assert_eq!(s.payout_flash_us, -3_000_005);
    s.record_fueled(60);
    assert_eq!(s.payout_flash_us, PAYOUT_FLASH_US);
}

#[test]
fn fireworks_only_after_winning() {
    let mut s = started();
    assert!(!s.fireworks_due(1_000_000));
    for _ in 0..50 {
        s.record_fueled(60);
    }
    assert!(s.fireworks_due(1));
    assert_eq!(s.firework_timer_us, FIREWORK_PERIOD_US);
    assert!(!s.fireworks_due(400_000));
    assert!(s.fireworks_due(50_000));
}

#[test]
fn hud_before_start() {
    let s = GameState::default();
    assert_eq!(s.hud_message(true), HudMessage::Intro);
    assert!(!s.accepts_clicks());
    assert!(!s.spawning_active());
    assert!(s.taxiing_active());
}

#[test]
fn spawn_orders_respect_the_stands() {
    let mut s = started();
    for _ in 0..30 {
        s.record_fueled(60);
    }
    assert_eq!(s.active_runways, 4);
    let mut pattern: u32 = 7;
    for step in 0..500u64 {
        pattern = pattern.wrapping_mul(1103515245).wrapping_add(12345);
        let occupied: Vec<bool> = (0..4).map(|r| (pattern >> (r + 3)) & 1 == 1).collect();
        let inbound: Vec<bool> = (0..4).map(|r| (pattern >> (r + 9)) & 3 == 0).collect();
        let orders = s.spawn_tick(&occupied, &inbound, 1_000_000 + step * 10_000);
        let mut last: Option<u32> = None;
        for o in &orders {
            let r = o.runway as usize;
            assert!(r < 4);
            assert!(!inbound[r]);
            assert_eq!(o.will_collide, occupied[r]);
            assert!(o.color_idx <= 5);
            if let Some(prev) = last {
                assert!(prev < o.runway);
            }
            last = Some(o.runway);
        }
        for t in [s.spawn_timers.runway0, s.spawn_timers.runway1, s.spawn_timers.runway2, s.spawn_timers.runway3] {
            assert!(t <= 15_000_000);
        }
    }
}

#[test]
fn eighth_upgrade_costs_4000() {
    let mut s = started();
    s.truck_level = 7;
    s.money = 4000;
    assert_eq!(s.upgrade_offer(), UpgradeOffer::Affordable(4000));
    assert!(s.try_upgrade());
    assert_eq!((s.truck_level, s.money), (8, 0));
    s.money = 1_000_000;
    assert!(!s.try_upgrade());
    assert_eq!(s.truck_level, 8);
}

#[test]
fn firework_burst_draws_three_rolls() {
    let mut s = started();
    let s1 = lcg(s.rng_state);
    let s2 = lcg(s1);
    let s3 = lcg(s2);
    let b = s.firework_burst();
    assert_eq!(
        b,
        FireworkBurst { x_roll: s1 >> 16, y_roll: s2 >> 16, color: firework_color(s3 >> 16) }
    );
    assert_eq!(s.rng_state, s3);
}
