//! Progression, economy and truck tables of the game.
use vstd::prelude::*;

verus! {

/// Planes that must be fueled to win the game.
pub const WIN_PLANES: u32 = 50;

/// The third runway opens once this many planes have been fueled.
pub const RUNWAY3_OPEN_AT: u32 = 10;

/// The fourth runway opens once this many planes have been fueled.
pub const RUNWAY4_OPEN_AT: u32 = 25;

/// Highest truck level; the truck starts at level 0.
pub const MAX_TRUCK_LEVEL: u32 = 8;

/// Largest payout any plane can earn (a red plane with four runways open).
pub const MAX_PAYOUT: u64 = 225;

/// Number of runways of the airport.
pub const RUNWAY_COUNT: usize = 4;

// ── Progression ────────────────────────────────────────────────────────────

/// Seconds between plane arrivals per runway, by planes fueled so far.
pub open spec fn spec_spawn_interval(fueled: int) -> int {
    if fueled < 10 {
        18
    } else if fueled < 25 {
        15
    } else if fueled < 40 {
        13
    } else if fueled < 60 {
        11
    } else if fueled < 80 {
        10
    } else {
        9
    }
}

/// Seconds between plane arrivals on each runway, given the planes fueled.
pub fn spawn_interval_for_progress(fueled: u32) -> (secs: u32)
    ensures
        secs == spec_spawn_interval(fueled as int),
{
    if fueled < RUNWAY3_OPEN_AT {
        18
    } else if fueled < RUNWAY4_OPEN_AT {
        15
    } else if fueled < 40 {
        13
    } else if fueled < 60 {
        11
    } else if fueled < 80 {
        10
    } else {
        9
    }
}

/// Runways open for a given number of planes fueled.
pub open spec fn spec_active_runways(fueled: int) -> int {
    if fueled >= 25 {
        4
    } else if fueled >= 10 {
        3
    } else {
        2
    }
}

/// How many runways are open for the planes fueled so far.
pub fn active_runways_for_progress(fueled: u32) -> (n: usize)
    ensures
        n == spec_active_runways(fueled as int),
{
    if fueled >= RUNWAY4_OPEN_AT {
        4
    } else if fueled >= RUNWAY3_OPEN_AT {
        3
    } else {
        2
    }
}

/// Fueling more planes never closes a runway.
pub proof fn lemma_runways_never_close(a: int, b: int)
    requires
        a <= b,
    ensures
        spec_active_runways(a) <= spec_active_runways(b),
        2 <= spec_active_runways(a) <= 4,
{
}

/// Runways 1 and 2 are open from the start, the third opens with the tenth
/// plane fueled, the fourth with the twenty-fifth; and planes arrive on each
/// runway every 18 s before the tenth plane, then every 15, 13, 11 and 10 s
/// from the 10th, 25th, 40th and 60th plane, and every 9 s from the 80th.
pub proof fn lemma_progress_schedule(fueled: int)
    requires
        fueled >= 0,
    ensures
        fueled < 10 ==> spec_active_runways(fueled) == 2 && spec_spawn_interval(fueled) == 18,
        10 <= fueled < 25 ==> spec_active_runways(fueled) == 3 && spec_spawn_interval(fueled) == 15,
        25 <= fueled < 40 ==> spec_active_runways(fueled) == 4 && spec_spawn_interval(fueled) == 13,
        40 <= fueled < 60 ==> spec_active_runways(fueled) == 4 && spec_spawn_interval(fueled) == 11,
        60 <= fueled < 80 ==> spec_active_runways(fueled) == 4 && spec_spawn_interval(fueled) == 10,
        80 <= fueled ==> spec_active_runways(fueled) == 4 && spec_spawn_interval(fueled) == 9,
{
}

/// The spawn interval tightens (never grows) as the player progresses.
pub proof fn lemma_spawn_interval_tightens(a: int, b: int)
    requires
        a <= b,
    ensures
        spec_spawn_interval(b) <= spec_spawn_interval(a),
        9 <= spec_spawn_interval(b) <= 18,
{
}

// ── Payouts ────────────────────────────────────────────────────────────────

/// Colors an arriving plane can have.
#[derive(Clone, Copy, Debug, PartialEq, Eq, Structural)]
pub enum PlaneColor {
    Azure,
    Blue,
    Yellow,
    Orange,
    Red,
}

/// The color a color index selects (indices wrap around every five).
pub open spec fn spec_plane_color(idx: int) -> PlaneColor {
    let k = idx % 5;
    if k == 0 {
        PlaneColor::Azure
    } else if k == 1 {
        PlaneColor::Blue
    } else if k == 2 {
        PlaneColor::Yellow
    } else if k == 3 {
        PlaneColor::Orange
    } else {
        PlaneColor::Red
    }
}

/// Base payout of a plane of the given color, with one or two runways open.
pub open spec fn spec_base_value(c: PlaneColor) -> int {
    match c {
        PlaneColor::Azure => 60,
        PlaneColor::Blue => 90,
        PlaneColor::Yellow => 120,
        PlaneColor::Orange => 150,
        PlaneColor::Red => 175,
    }
}

/// Name of a plane color as shown to the player.
pub open spec fn spec_color_name(c: PlaneColor) -> Seq<char> {
    match c {
        PlaneColor::Azure => "Azure"@,
        PlaneColor::Blue => "Blue"@,
        PlaneColor::Yellow => "Yellow"@,
        PlaneColor::Orange => "Orange"@,
        PlaneColor::Red => "Red"@,
    }
}

/// Color, base payout and display name selected by a color index.
pub fn plane_color_info(idx: u8) -> (info: (PlaneColor, u32, &'static str))
    ensures
        info.0 == spec_plane_color(idx as int),
        info.1 == spec_base_value(info.0),
        info.2@ == spec_color_name(info.0),
{
    match idx % 5 {
        0 => (PlaneColor::Azure, 60, "Azure"),
        1 => (PlaneColor::Blue, 90, "Blue"),
        2 => (PlaneColor::Yellow, 120, "Yellow"),
        3 => (PlaneColor::Orange, 150, "Orange"),
        _ => (PlaneColor::Red, 175, "Red"),
    }
}

/// `num / den` rounded up to the next multiple of five.
pub open spec fn round_up_to_5(num: int, den: int) -> int {
    5 * ((num + 5 * den - 1) / (5 * den))
}

/// What fueling a plane of base value `base` earns with `active` runways
/// open: the base alone with two runways; with three, the base raised by 5%,
/// rounded up to $5, plus $20; with four, the base raised by 10.25%, rounded
/// up to $5, plus $30.
pub open spec fn spec_payout(base: int, active: int) -> int {
    if active <= 2 {
        base
    } else if active == 3 {
        round_up_to_5(base * 105, 100) + 20
    } else {
        round_up_to_5(base * 11025, 10000) + 30
    }
}

/// The payout for a plane of base value `base` with `active` runways open.
pub fn payout(base: u32, active: usize) -> (earned: u64)
    ensures
        earned == spec_payout(base as int, active as int),
{
    let b = base as u64;
    if active <= 2 {
        b
    } else if active == 3 {
        5 * ((b * 105 + 499) / 500) + 20
    } else {
        5 * ((b * 11025 + 49999) / 50000) + 30
    }
}

/// `round_up_to_5` gives the least multiple of five that is not below the
/// quotient.
pub proof fn lemma_round_up_to_5(num: int, den: int)
    requires
        num >= 0,
        den > 0,
    ensures
        round_up_to_5(num, den) % 5 == 0,
        round_up_to_5(num, den) * den >= num,
        (round_up_to_5(num, den) - 5) * den < num,
{
    let d = 5 * den;
    let q = (num + d - 1) / d;
    let r = (num + d - 1) % d;
    assert(d * q + r == num + d - 1 && 0 <= r < d) by (nonlinear_arith)
        requires
            d > 0,
            q == (num + d - 1) / d,
            r == (num + d - 1) % d,
    ;
    assert(5 * q % 5 == 0) by (nonlinear_arith);
    assert(5 * q * den == d * q) by (nonlinear_arith)
        requires
            d == 5 * den,
    ;
    assert((5 * q - 5) * den == d * q - d) by (nonlinear_arith)
        requires
            d == 5 * den,
    ;
}

/// Payouts scale up as runways open: a plane never earns less with more
/// runways open.
pub proof fn lemma_payout_grows_with_runways(base: int, a: int, b: int)
    requires
        0 <= base,
        2 <= a <= b <= 4,
    ensures
        spec_payout(base, a) <= spec_payout(base, b),
        base <= spec_payout(base, a),
{
    lemma_round_up_to_5(base * 105, 100);
    lemma_round_up_to_5(base * 11025, 10000);
    let p3 = round_up_to_5(base * 105, 100);
    let p4 = round_up_to_5(base * 11025, 10000);
    // p3 covers 1.05 * base, and p4 - 5 falls short of 1.1025 * base
    assert(p3 * 100 >= base * 105);
    assert(p4 * 10000 >= base * 11025);
    assert((p4 - 5) * 10000 < base * 11025);
    assert((p3 - 5) * 100 < base * 105);
    assert(p3 >= base) by (nonlinear_arith)
        requires
            p3 * 100 >= base * 105,
            base >= 0,
    ;
    assert(p3 <= p4 + 10) by (nonlinear_arith)
        requires
            (p3 - 5) * 100 < base * 105,
            p4 * 10000 >= base * 11025,
            base >= 0,
    ;
}

/// The payout table by plane color (azure, blue, yellow, orange, red) with
/// two, three and four runways open: $60/$85/$100, $90/$115/$130,
/// $120/$150/$165, $150/$180/$200 and $175/$205/$225.
pub proof fn lemma_payout_table(idx: int)
    requires
        idx >= 0,
    ensures
        ({
            let base = spec_base_value(spec_plane_color(idx));
            let k = idx % 5;
            &&& spec_payout(base, 2) == seq![60int, 90, 120, 150, 175][k]
            &&& spec_payout(base, 3) == seq![85int, 115, 150, 180, 205][k]
            &&& spec_payout(base, 4) == seq![100int, 130, 165, 200, 225][k]
        }),
{
    let base = spec_base_value(spec_plane_color(idx));
    lemma_round_up_to_5(base * 105, 100);
    lemma_round_up_to_5(base * 11025, 10000);
}

/// No plane earns more than `MAX_PAYOUT`.
pub proof fn lemma_payout_bounded(base: int, active: int)
    requires
        0 <= base <= 175,
    ensures
        0 <= spec_payout(base, active) <= MAX_PAYOUT,
{
    lemma_round_up_to_5(base * 105, 100);
    lemma_round_up_to_5(base * 11025, 10000);
    let p3 = round_up_to_5(base * 105, 100);
    let p4 = round_up_to_5(base * 11025, 10000);
    assert(base * 105 <= 175 * 105 && base * 11025 <= 175 * 11025) by (nonlinear_arith)
        requires
            0 <= base <= 175,
    ;
    assert(p3 >= 0 && p4 >= 0);
}

// ── Truck upgrades ─────────────────────────────────────────────────────────

/// Price of upgrading the truck from `level` to the next level, if there is one:
/// $500 for the first upgrade, then $500 more for each further one, up to $4000.
pub open spec fn spec_upgrade_cost(level: int) -> Option<int> {
    if 0 <= level < MAX_TRUCK_LEVEL {
        Some(500 * (level + 1))
    } else {
        None
    }
}

/// Price of the next truck upgrade from `level`; `None` at the top level.
pub fn upgrade_cost(level: u32) -> (cost: Option<u64>)
    ensures
        match cost {
            Some(c) => spec_upgrade_cost(level as int) == Some(c as int),
            None => spec_upgrade_cost(level as int) is None,
        },
{
    if level < MAX_TRUCK_LEVEL {
        Some(500 * (level as u64 + 1))
    } else {
        None
    }
}

/// Truck speed in pixels per second at each level (levels past the top
/// drive at the top speed).
pub open spec fn spec_truck_speed(level: int) -> int {
    if level <= 0 {
        130
    } else if level == 1 {
        155
    } else if level == 2 {
        180
    } else if level == 3 {
        210
    } else if level == 4 {
        240
    } else if level == 5 {
        275
    } else if level == 6 {
        315
    } else if level == 7 {
        355
    } else {
        395
    }
}

/// Movement speed of the truck at `level`, in pixels per second.
pub fn truck_speed(level: u32) -> (speed: u32)
    ensures
        speed == spec_truck_speed(level as int),
{
    match level {
        0 => 130,
        1 => 155,
        2 => 180,
        3 => 210,
        4 => 240,
        5 => 275,
        6 => 315,
        7 => 355,
        _ => 395,
    }
}

/// Time to fuel one plane at each truck level, in milliseconds.
pub open spec fn spec_fuel_duration_ms(level: int) -> int {
    if level <= 0 {
        2500
    } else if level == 1 {
        2200
    } else if level == 2 {
        1900
    } else if level == 3 {
        1650
    } else if level == 4 {
        1400
    } else if level == 5 {
        1200
    } else if level == 6 {
        1000
    } else if level == 7 {
        800
    } else {
        600
    }
}

/// Time the truck at `level` needs to fuel a plane, in milliseconds.
pub fn fuel_duration_ms(level: u32) -> (ms: u32)
    ensures
        ms == spec_fuel_duration_ms(level as int),
{
    match level {
        0 => 2500,
        1 => 2200,
        2 => 1900,
        3 => 1650,
        4 => 1400,
        5 => 1200,
        6 => 1000,
        7 => 800,
        _ => 600,
    }
}

/// Every upgrade makes the truck strictly faster and its fueling strictly
/// quicker, from 130 px/s and 2.5 s at level 0 to 395 px/s and 0.6 s at the
/// top level.
pub proof fn lemma_upgrade_improves_truck(level: int)
    requires
        0 <= level < MAX_TRUCK_LEVEL,
    ensures
        spec_truck_speed(level) < spec_truck_speed(level + 1),
        spec_fuel_duration_ms(level + 1) < spec_fuel_duration_ms(level),
        spec_truck_speed(0) == 130,
        spec_truck_speed(MAX_TRUCK_LEVEL as int) == 395,
        spec_fuel_duration_ms(0) == 2500,
        spec_fuel_duration_ms(MAX_TRUCK_LEVEL as int) == 600,
{
}

/// The truck's tables by level 0 to 8: speeds 130, 155, 180, 210, 240, 275,
/// 315, 355 and 395 px/s; fueling times 2500, 2200, 1900, 1650, 1400, 1200,
/// 1000, 800 and 600 ms; upgrade prices $500 times the next level. Levels past
/// the top behave like the top level and cannot be upgraded.
pub proof fn lemma_truck_tables(level: int)
    ensures
        0 <= level <= 8 ==> spec_truck_speed(level) == seq![
            130int,
            155,
            180,
            210,
            240,
            275,
            315,
            355,
            395,
        ][level],
        0 <= level <= 8 ==> spec_fuel_duration_ms(level) == seq![
            2500int,
            2200,
            1900,
            1650,
            1400,
            1200,
            1000,
            800,
            600,
        ][level],
        0 <= level < 8 ==> spec_upgrade_cost(level) == Some(500 * (level + 1)),
        level > 8 ==> spec_truck_speed(level) == 395 && spec_fuel_duration_ms(level) == 600,
        level >= 8 ==> spec_upgrade_cost(level) is None,
{
}

/// Upgrades get dearer: each costs $500 more than the one before.
pub proof fn lemma_upgrades_get_dearer(level: int)
    requires
        0 <= level < MAX_TRUCK_LEVEL - 1,
    ensures
        spec_upgrade_cost(level + 1)->0 == spec_upgrade_cost(level)->0 + 500,
        spec_upgrade_cost(0) == Some(500int),
        spec_upgrade_cost(MAX_TRUCK_LEVEL - 1) == Some(4000int),
{
}

/// Paint schemes of the truck (tank and cab colors), one per level, plus the
/// dimmed scheme of the upgrade preview once no upgrade is left.
#[derive(Clone, Copy, Debug, PartialEq, Eq, Structural)]
pub enum TruckPaint {
    Gray,
    Yellow,
    Orange,
    Red,
    Purple,
    Green,
    Cyan,
    Pink,
    Gold,
    Maxed,
}

/// Paint of the truck at each level.
pub open spec fn spec_truck_paint(level: int) -> TruckPaint {
    if level <= 0 {
        TruckPaint::Gray
    } else if level == 1 {
        TruckPaint::Yellow
    } else if level == 2 {
        TruckPaint::Orange
    } else if level == 3 {
        TruckPaint::Red
    } else if level == 4 {
        TruckPaint::Purple
    } else if level == 5 {
        TruckPaint::Green
    } else if level == 6 {
        TruckPaint::Cyan
    } else if level == 7 {
        TruckPaint::Pink
    } else {
        TruckPaint::Gold
    }
}

/// Tank and cab paint for the truck's current level.
pub fn truck_level_colors(level: u32) -> (paint: TruckPaint)
    ensures
        paint == spec_truck_paint(level as int),
{
    match level {
        0 => TruckPaint::Gray,
        1 => TruckPaint::Yellow,
        2 => TruckPaint::Orange,
        3 => TruckPaint::Red,
        4 => TruckPaint::Purple,
        5 => TruckPaint::Green,
        6 => TruckPaint::Cyan,
        7 => TruckPaint::Pink,
        _ => TruckPaint::Gold,
    }
}

/// Paint shown on the upgrade preview: that of the next level, or the dimmed
/// scheme when the truck is already at the top level.
pub fn truck_next_level_colors(current: u32) -> (paint: TruckPaint)
    ensures
        current < MAX_TRUCK_LEVEL ==> paint == spec_truck_paint(current + 1),
        current >= MAX_TRUCK_LEVEL ==> paint == TruckPaint::Maxed,
{
    if current < MAX_TRUCK_LEVEL {
        truck_level_colors(current + 1)
    } else {
        TruckPaint::Maxed
    }
}

/// Colors of the "FUEL" label painted on the truck.
#[derive(Clone, Copy, Debug, PartialEq, Eq, Structural)]
pub enum LabelColor {
    Red,
    Yellow,
}

/// Contrast color of the "FUEL" label: red on the three lightest paints
/// (gray, yellow, orange), yellow on all darker ones.
pub fn truck_label_color(level: u32) -> (c: LabelColor)
    ensures
        level <= 2 ==> c == LabelColor::Red,
        level > 2 ==> c == LabelColor::Yellow,
{
    if level <= 2 {
        LabelColor::Red
    } else {
        LabelColor::Yellow
    }
}

/// Width and height of the truck's tank at each level, in pixels.
pub open spec fn spec_truck_size(level: int) -> (int, int) {
    if level <= 0 {
        (22, 28)
    } else if level == 1 {
        (24, 33)
    } else if level == 2 {
        (26, 38)
    } else if level == 3 {
        (28, 43)
    } else if level == 4 {
        (30, 48)
    } else if level == 5 {
        (32, 54)
    } else if level == 6 {
        (34, 58)
    } else if level == 7 {
        (36, 62)
    } else {
        (38, 66)
    }
}

/// Size of the truck's tank at `level`: the truck grows with every upgrade.
pub fn truck_body_size(level: u32) -> (size: (u32, u32))
    ensures
        size.0 == spec_truck_size(level as int).0,
        size.1 == spec_truck_size(level as int).1,
{
    match level {
        0 => (22, 28),
        1 => (24, 33),
        2 => (26, 38),
        3 => (28, 43),
        4 => (30, 48),
        5 => (32, 54),
        6 => (34, 58),
        7 => (36, 62),
        _ => (38, 66),
    }
}

// ── Random rolls ───────────────────────────────────────────────────────────

/// Largest value a random roll can take.
pub const ROLL_MAX: u32 = 65535;

/// Splits the roll range `0..=ROLL_MAX` into `n` equal parts and returns the
/// part that `roll` falls in (a roll of exactly `ROLL_MAX` gives `n`).
pub fn scale_roll(roll: u32, n: u32) -> (part: u32)
    requires
        roll <= ROLL_MAX,
    ensures
        part == (roll as int * n as int) / (ROLL_MAX as int),
        part <= n,
{
    assert((roll as u64) * (n as u64) <= 65535 * 0xffff_ffff) by (nonlinear_arith)
        requires
            roll <= 65535,
    ;
    let p = (roll as u64) * (n as u64);
    assert(p <= 65535 * (n as u64)) by (nonlinear_arith)
        requires
            p == (roll as u64) * (n as u64),
            roll <= 65535,
    ;
    let q = p / 65535;
    assert(q <= n as u64) by (nonlinear_arith)
        requires
            q == p / 65535,
            p <= 65535 * (n as u64),
    ;
    q as u32
}

/// Colors of a firework burst.
#[derive(Clone, Copy, Debug, PartialEq, Eq, Structural)]
pub enum FireworkColor {
    Red,
    Orange,
    Yellow,
    Green,
    Blue,
    Violet,
}

/// The firework color that a hue roll selects: the roll range is split into
/// six equal parts; a roll of exactly `ROLL_MAX` counts as the last part.
pub open spec fn spec_firework_color(roll: int) -> FireworkColor {
    let k = roll * 6 / 65535;
    if k == 0 {
        FireworkColor::Red
    } else if k == 1 {
        FireworkColor::Orange
    } else if k == 2 {
        FireworkColor::Yellow
    } else if k == 3 {
        FireworkColor::Green
    } else if k == 4 {
        FireworkColor::Blue
    } else {
        FireworkColor::Violet
    }
}

/// Picks the color of a firework burst from a hue roll.
pub fn firework_color(roll: u32) -> (c: FireworkColor)
    requires
        roll <= ROLL_MAX,
    ensures
        c == spec_firework_color(roll as int),
{
    match scale_roll(roll, 6) {
        0 => FireworkColor::Red,
        1 => FireworkColor::Orange,
        2 => FireworkColor::Yellow,
        3 => FireworkColor::Green,
        4 => FireworkColor::Blue,
        _ => FireworkColor::Violet,
    }
}

} // verus!
