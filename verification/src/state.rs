//! The state of a round: progress, money, truck level, and the random
//! generator that picks arriving planes.
use vstd::prelude::*;
use crate::timers::SpawnTimers;
use crate::rules::{
    FireworkColor, MAX_PAYOUT, MAX_TRUCK_LEVEL, ROLL_MAX, WIN_PLANES, active_runways_for_progress,
    firework_color, spec_firework_color,
    spawn_interval_for_progress, spec_spawn_interval,
    lemma_payout_bounded, lemma_round_up_to_5, lemma_runways_never_close, payout, scale_roll, spec_active_runways,
    spec_payout, upgrade_cost,
};

verus! {

/// The discrete state of a round.
#[derive(Clone, Copy, Debug, PartialEq, Eq, Structural)]
pub struct GameState {
    /// A taxiing plane struck a parked one: the round is lost.
    pub crashed: bool,
    /// Money earned and not spent, in dollars.
    pub money: u64,
    /// Truck level, 0 to `MAX_TRUCK_LEVEL`.
    pub truck_level: u32,
    /// What the last fueled plane earned.
    pub last_payout: u64,
    pub planes_fueled: u32,
    /// Runways open to traffic, 2 to 4.
    pub active_runways: usize,
    /// The crash explosion was already set off.
    pub crash_anim_spawned: bool,
    /// State of the random generator.
    pub rng_state: u32,
    /// The player pressed START.
    pub started: bool,
    /// Enough planes were fueled: the round is won.
    pub game_complete: bool,
    /// Time left until the next arrival on each runway.
    pub spawn_timers: SpawnTimers,
    /// Time the payout message stays up, in microseconds; it keeps counting
    /// down below zero once the message is gone.
    pub payout_flash_us: i64,
    /// Time until the next firework burst, in microseconds.
    pub firework_timer_us: u64,
}

/// How long the payout message stays up after a plane is fueled.
pub const PAYOUT_FLASH_US: i64 = 2_500_000;

/// Time between two firework bursts once the round is won.
pub const FIREWORK_PERIOD_US: u64 = 450_000;

/// Largest random offset of an arrival timer: arrivals come up to half of
/// this earlier or later than the interval.
pub const SPAWN_JITTER_US: u64 = 4_000_000;

/// A plane ordered onto a runway.
#[derive(Clone, Copy, Debug, PartialEq, Eq, Structural)]
pub struct SpawnOrder {
    pub runway: u32,
    pub color_idx: u8,
    /// Sent to a stand that is still taken.
    pub will_collide: bool,
}

/// Seed of the random generator at the start of every round.
pub const RNG_SEED: u32 = 0x9E37_79B9;

/// The state before the first round starts.
pub open spec fn initial_state() -> GameState {
    GameState {
        crashed: false,
        money: 0,
        truck_level: 0,
        last_payout: 0,
        planes_fueled: 0,
        active_runways: 2,
        crash_anim_spawned: false,
        rng_state: RNG_SEED,
        started: false,
        game_complete: false,
        spawn_timers: SpawnTimers { runway0: 0, runway1: 7_000_000, runway2: 0, runway3: 0 },
        payout_flash_us: 0,
        firework_timer_us: 0,
    }
}

/// The timers with those of runways `from` up to (not including) `to` set to `t`.
pub open spec fn spec_set_timers(timers: SpawnTimers, from: int, to: int, t: u64) -> SpawnTimers {
    SpawnTimers {
        runway0: if from <= 0 < to { t } else { timers.runway0 },
        runway1: if from <= 1 < to { t } else { timers.runway1 },
        runway2: if from <= 2 < to { t } else { timers.runway2 },
        runway3: if from <= 3 < to { t } else { timers.runway3 },
    }
}


/// The state after a plane of base value `base` was fueled to full: its
/// payout (at the runways open before it) is added to the money, shown as the
/// last payout and flashed; the count grows by one; runways open as the new
/// count calls for (none ever closes), each newly opened one getting its
/// first arrival after half the new arrival interval; and the round is won
/// once the count reaches `WIN_PLANES`.
pub open spec fn spec_after_fueling(s: GameState, base: int) -> GameState {
    let earned = spec_payout(base, s.active_runways as int);
    let fueled = s.planes_fueled + 1;
    let open = spec_active_runways(fueled);
    let active = if open > s.active_runways { open } else { s.active_runways as int };
    let half_interval = spec_spawn_interval(fueled) * 1_000_000 / 2;
    GameState {
        money: (s.money + earned) as u64,
        last_payout: earned as u64,
        planes_fueled: fueled as u32,
        active_runways: active as usize,
        game_complete: s.game_complete || fueled >= WIN_PLANES,
        payout_flash_us: PAYOUT_FLASH_US,
        spawn_timers: spec_set_timers(
            s.spawn_timers,
            s.active_runways as int,
            open,
            half_interval as u64,
        ),
        ..s
    }
}

/// One step of the linear congruential generator:
/// `s * 1664525 + 1013904223`, wrapping at 2^32.
pub open spec fn lcg_step(s: u32) -> u32 {
    (((s as int * 1664525) % 0x1_0000_0000 + 1013904223) % 0x1_0000_0000) as u32
}

/// The roll a generator state yields: its upper 16 bits.
pub open spec fn roll_of(s: u32) -> u32 {
    (s as int / 0x1_0000) as u32
}

/// The color index that a roll selects among the five plane colors.
pub open spec fn color_idx_of(roll: u32) -> u8 {
    (roll as int * 5 / ROLL_MAX as int) as u8
}

/// What to do on a runway whose arrival timer ran out.
#[derive(Clone, Copy, Debug, PartialEq, Eq, Structural)]
pub enum SpawnDecision {
    /// A plane is already heading for a collision there: only restart the timer.
    Hold,
    /// The stand is free: send a plane, and restart the timer with the jitter
    /// that `jitter_roll` gives.
    Plane { color_idx: u8, jitter_roll: u32 },
    /// The stand is still taken: send a plane that will strike the parked one
    /// unless it is fueled and gone before the new one arrives.
    Collider { color_idx: u8 },
}

/// Arrival timer after a plane was sent to a free stand: the interval, moved
/// by up to half the jitter earlier or later as `roll` says.
pub open spec fn spec_jittered(interval_us: int, roll: int) -> int {
    interval_us - SPAWN_JITTER_US / 2 + roll * SPAWN_JITTER_US / (ROLL_MAX as int)
}

/// One arrival pass over the first `n` runways, `dt_us` microseconds after
/// the last: timers, generator state and planes ordered after the pass. A
/// runway whose timer has not run out counts it down. One whose timer ran out
/// restarts it and, as `SpawnDecision` says, gets nothing (a collision is
/// already on its way), a plane with a jittered timer (free stand), or a
/// plane that will collide (stand taken).
pub open spec fn spec_spawn_pass(
    timers: SpawnTimers,
    rng: u32,
    occupied: Seq<bool>,
    crash_inbound: Seq<bool>,
    dt_us: int,
    interval_us: int,
    n: nat,
) -> (SpawnTimers, u32, Seq<SpawnOrder>)
    decreases n,
{
    if n == 0 {
        (timers, rng, Seq::empty())
    } else {
        let prev = spec_spawn_pass(
            timers,
            rng,
            occupied,
            crash_inbound,
            dt_us,
            interval_us,
            (n - 1) as nat,
        );
        let i = n - 1;
        let t = prev.0@[i];
        if dt_us < t {
            (prev.0.with(i, (t - dt_us) as u64), prev.1, prev.2)
        } else if crash_inbound[i] {
            (prev.0.with(i, interval_us as u64), prev.1, prev.2)
        } else if !occupied[i] {
            let s1 = lcg_step(prev.1);
            let s2 = lcg_step(s1);
            (
                prev.0.with(i, spec_jittered(interval_us, roll_of(s2) as int) as u64),
                s2,
                prev.2.push(
                    SpawnOrder {
                        runway: i as u32,
                        color_idx: color_idx_of(roll_of(s1)),
                        will_collide: false,
                    },
                ),
            )
        } else {
            let s1 = lcg_step(prev.1);
            (
                prev.0.with(i, interval_us as u64),
                s1,
                prev.2.push(
                    SpawnOrder { runway: i as u32, color_idx: color_idx_of(roll_of(s1)), will_collide: true },
                ),
            )
        }
    }
}

/// In one arrival pass over the first `n` runways, each runway gets at most
/// one plane, in runway order; a plane is sent normally only to a stand that
/// nobody claims, a plane sent to a claimed stand is always one that will
/// collide, and no plane is sent where a collision is already on its way.
pub proof fn lemma_spawn_pass_orders(
    timers: SpawnTimers,
    rng: u32,
    occupied: Seq<bool>,
    crash_inbound: Seq<bool>,
    dt_us: int,
    interval_us: int,
    n: nat,
)
    requires
        n <= 4,
    ensures
        ({
            let orders = spec_spawn_pass(timers, rng, occupied, crash_inbound, dt_us, interval_us, n).2;
            &&& orders.len() <= n
            &&& forall|k: int|
                0 <= k < orders.len() ==> {
                    &&& #[trigger] orders[k].runway < n
                    &&& !crash_inbound[orders[k].runway as int]
                    &&& orders[k].will_collide == occupied[orders[k].runway as int]
                }
            &&& forall|k: int, l: int|
                0 <= k < l < orders.len() ==> #[trigger] orders[k].runway < #[trigger] orders[l].runway
        }),
    decreases n,
{
    if n > 0 {
        lemma_spawn_pass_orders(timers, rng, occupied, crash_inbound, dt_us, interval_us, (n - 1) as nat);
    }
}

/// What an arrival pass over the first `n` runways does to each of them,
/// stated over the timers before the pass. A runway whose timer has not run
/// out counts it down and gets no plane. One whose timer ran out while a
/// collision is on its way gets no plane and waits a full interval. Any other
/// runway whose timer ran out gets exactly one plane: a normal one if its
/// stand is free, with the next arrival a full interval away give or take two
/// seconds; one that will collide if the stand is taken, with the next
/// arrival a full interval away. Runways past the first `n` are untouched.
pub proof fn lemma_spawn_pass_serves_every_runway(
    timers: SpawnTimers,
    rng: u32,
    occupied: Seq<bool>,
    crash_inbound: Seq<bool>,
    dt_us: int,
    interval_us: int,
    n: nat,
)
    requires
        n <= 4,
        dt_us >= 0,
        SPAWN_JITTER_US / 2 <= interval_us <= 20_000_000,
    ensures
        ({
            let pass = spec_spawn_pass(timers, rng, occupied, crash_inbound, dt_us, interval_us, n);
            let orders = pass.2;
            &&& forall|j: int| n <= j < 4 ==> #[trigger] pass.0@[j] == timers@[j]
            &&& forall|i: int|
                0 <= i < n ==> {
                    let t = #[trigger] timers@[i];
                    &&& dt_us < t ==> pass.0@[i] == t - dt_us && forall|k: int|
                        0 <= k < orders.len() ==> orders[k].runway != i
                    &&& dt_us >= t && crash_inbound[i] ==> pass.0@[i] == interval_us && forall|k: int|
                        0 <= k < orders.len() ==> orders[k].runway != i
                    &&& dt_us >= t && !crash_inbound[i] ==> exists|k: int|
                        0 <= k < orders.len() && orders[k].runway == i && orders[k].will_collide
                            == occupied[i]
                    &&& dt_us >= t && !crash_inbound[i] && occupied[i] ==> pass.0@[i] == interval_us
                    &&& dt_us >= t && !crash_inbound[i] && !occupied[i] ==> interval_us
                        - SPAWN_JITTER_US / 2 <= pass.0@[i] <= interval_us + SPAWN_JITTER_US / 2
                }
        }),
    decreases n,
{
    if n > 0 {
        let m = (n - 1) as nat;
        lemma_spawn_pass_serves_every_runway(timers, rng, occupied, crash_inbound, dt_us, interval_us, m);
        lemma_spawn_pass_orders(timers, rng, occupied, crash_inbound, dt_us, interval_us, m);
        let prev = spec_spawn_pass(timers, rng, occupied, crash_inbound, dt_us, interval_us, m);
        let pass = spec_spawn_pass(timers, rng, occupied, crash_inbound, dt_us, interval_us, n);
        let i = m as int;
        let t = prev.0@[i];
        assert(t == timers@[i]);
        let v: u64 = if dt_us < t {
            (t - dt_us) as u64
        } else if crash_inbound[i] || occupied[i] {
            interval_us as u64
        } else {
            let s2 = lcg_step(lcg_step(prev.1));
            assert(roll_of(s2) <= 65535);
            assert(roll_of(s2) as int * SPAWN_JITTER_US / (ROLL_MAX as int) <= SPAWN_JITTER_US) by (
            nonlinear_arith)
                requires
                    roll_of(s2) <= 65535,
            ;
            assert(roll_of(s2) as int * SPAWN_JITTER_US / (ROLL_MAX as int) >= 0) by (
            nonlinear_arith);
            spec_jittered(interval_us, roll_of(s2) as int) as u64
        };
        prev.0.lemma_with(i, v);
        assert(pass.0 == prev.0.with(i, v));
        assert forall|j: int| n <= j < 4 implies #[trigger] pass.0@[j] == timers@[j] by {
            assert(pass.0@[j] == prev.0@[j]);
        }
        if dt_us >= t && !crash_inbound[i] {
            assert(pass.2.len() == prev.2.len() + 1);
            assert(pass.2[prev.2.len() as int].runway == i);
        }
        assert forall|i2: int| 0 <= i2 < n implies {
            let t2 = #[trigger] timers@[i2];
            &&& dt_us < t2 ==> pass.0@[i2] == t2 - dt_us && forall|k: int|
                0 <= k < pass.2.len() ==> pass.2[k].runway != i2
            &&& dt_us >= t2 && crash_inbound[i2] ==> pass.0@[i2] == interval_us && forall|k: int|
                0 <= k < pass.2.len() ==> pass.2[k].runway != i2
            &&& dt_us >= t2 && !crash_inbound[i2] ==> exists|k: int|
                0 <= k < pass.2.len() && pass.2[k].runway == i2 && pass.2[k].will_collide
                    == occupied[i2]
            &&& dt_us >= t2 && !crash_inbound[i2] && occupied[i2] ==> pass.0@[i2] == interval_us
            &&& dt_us >= t2 && !crash_inbound[i2] && !occupied[i2] ==> interval_us
                - SPAWN_JITTER_US / 2 <= pass.0@[i2] <= interval_us + SPAWN_JITTER_US / 2
        } by {
            if i2 < i {
                assert(pass.0@[i2] == prev.0@[i2]);
                assert forall|k: int| 0 <= k < prev.2.len() implies pass.2[k] == prev.2[k] by {}
                if dt_us >= timers@[i2] && !crash_inbound[i2] {
                    let k = choose|k: int|
                        0 <= k < prev.2.len() && prev.2[k].runway == i2 && prev.2[k].will_collide
                            == occupied[i2];
                    assert(pass.2[k] == prev.2[k]);
                }
            } else {
                assert(i2 == i);
                assert forall|k: int| 0 <= k < prev.2.len() implies #[trigger] pass.2[k].runway
                    != i by {
                    assert(pass.2[k] == prev.2[k]);
                    assert(prev.2[k].runway < m);
                }
            }
        }
    }
}

/// Where a firework bursts and in which color: the burst centre is given by
/// two rolls, one across the screen and one up it.
#[derive(Clone, Copy, Debug, PartialEq, Eq, Structural)]
pub struct FireworkBurst {
    pub x_roll: u32,
    pub y_roll: u32,
    pub color: FireworkColor,
}

/// What fueling a plane to full earned, and the runways open before and after.
#[derive(Clone, Copy, Debug, PartialEq, Eq, Structural)]
pub struct FuelReward {
    pub earned: u64,
    pub runways_before: usize,
    pub runways_after: usize,
}

/// What pressing the START / RESTART button did.
#[derive(Clone, Copy, Debug, PartialEq, Eq, Structural)]
pub enum RestartAction {
    /// The button is hidden while a round is under way: nothing happened.
    Ignored,
    /// The first round started.
    Started,
    /// A finished round was cleared and a new one started.
    Reset,
}

/// The status line below the HUD bar.
#[derive(Clone, Copy, Debug, PartialEq, Eq, Structural)]
pub enum HudMessage {
    /// Before the first round: the game's instruction.
    Intro,
    /// The round is over: nothing.
    Blank,
    /// Just after a plane was fueled: what it earned and the progress.
    Payout { earned: u64, fueled: u32 },
    /// Otherwise: the progress towards the goal.
    Progress { fueled: u32 },
}

/// The state of the upgrade button.
#[derive(Clone, Copy, Debug, PartialEq, Eq, Structural)]
pub enum UpgradeOffer {
    /// The truck is at the top level.
    Maxed,
    /// The next upgrade costs this much and the player can pay it.
    Affordable(u64),
    /// The next upgrade costs this much and the player cannot pay it yet.
    TooExpensive(u64),
}

impl GameState {
    /// The state's invariant.
    pub open spec fn wf(&self) -> bool {
        &&& self.truck_level <= MAX_TRUCK_LEVEL
        &&& self.active_runways == spec_active_runways(self.planes_fueled as int)
        &&& self.game_complete == (self.planes_fueled >= WIN_PLANES)
        &&& self.money <= MAX_PAYOUT * self.planes_fueled
        &&& self.last_payout <= MAX_PAYOUT
        &&& self.crash_anim_spawned ==> self.crashed
    }

    /// Draws a random roll in `0..=ROLL_MAX` and advances the generator.
    pub fn next_rand(&mut self) -> (roll: u32)
        ensures
            final(self).rng_state == lcg_step(old(self).rng_state),
            roll == roll_of(final(self).rng_state),
            roll <= ROLL_MAX,
            *final(self) == (GameState { rng_state: final(self).rng_state, ..*old(self) }),
    {
        let s = self.rng_state;
        let next = s.wrapping_mul(1664525).wrapping_add(1013904223);
        self.rng_state = next;
        let r = next >> 16;
        assert(next >> 16 == next / 0x1_0000) by (bit_vector);
        assert(r <= 65535) by (bit_vector)
            requires
                r == next >> 16,
        ;
        r
    }

    /// Play is under way: clicks on the apron move the truck.
    pub fn accepts_clicks(&self) -> (b: bool)
        ensures
            b == (self.started && !self.crashed),
    {
        self.started && !self.crashed
    }

    /// New planes arrive only while a round is under way.
    pub fn spawning_active(&self) -> (b: bool)
        ensures
            b == (self.started && !self.crashed && !self.game_complete),
    {
        self.started && !self.crashed && !self.game_complete
    }

    /// Planes move until the round is lost or won.
    pub fn taxiing_active(&self) -> (b: bool)
        ensures
            b == (!self.crashed && !self.game_complete),
    {
        !self.crashed && !self.game_complete
    }

    /// Whether runway `idx` is open to traffic.
    pub fn runway_is_open(&self, idx: usize) -> (b: bool)
        ensures
            b == (idx < self.active_runways),
    {
        idx < self.active_runways
    }

    /// A taxiing plane struck a parked one: the round is lost.
    pub fn record_crash(&mut self)
        ensures
            old(self).wf() ==> final(self).wf(),
            *final(self) == (GameState { crashed: true, ..*old(self) }),
    {
        self.crashed = true;
    }

    /// Whether the crash explosion is to be set off now: once per crash.
    pub fn begin_crash_animation(&mut self) -> (go: bool)
        ensures
            old(self).wf() ==> final(self).wf(),
            go == (old(self).crashed && !old(self).crash_anim_spawned),
            go ==> *final(self) == (GameState { crash_anim_spawned: true, ..*old(self) }),
            !go ==> *final(self) == *old(self),
    {
        if !self.crashed || self.crash_anim_spawned {
            false
        } else {
            self.crash_anim_spawned = true;
            true
        }
    }

    /// Pays for a plane of base value `base_value` that was just fueled to
    /// full, counts it, opens runways as the count calls for, and declares
    /// the round won when enough planes have been fueled.
    pub fn record_fueled(&mut self, base_value: u32) -> (reward: FuelReward)
        requires
            old(self).planes_fueled < u32::MAX,
            old(self).money + spec_payout(base_value as int, old(self).active_runways as int)
                <= u64::MAX,
        ensures
            old(self).wf() && base_value <= 175 ==> final(self).wf(),
            reward.earned == spec_payout(base_value as int, old(self).active_runways as int),
            reward.runways_before == old(self).active_runways,
            reward.runways_after == final(self).active_runways,
            *final(self) == spec_after_fueling(*old(self), base_value as int),
            final(self).last_payout == final(self).money - old(self).money,
            reward.earned == final(self).money - old(self).money,
    {
        let before = self.active_runways;
        let earned = payout(base_value, before);
        proof {
            if old(self).wf() && base_value <= 175 {
                lemma_after_fueling_keeps_invariant(*old(self), base_value as int);
            }
        }
        self.money = self.money + earned;
        self.last_payout = earned;
        self.planes_fueled = self.planes_fueled + 1;
        let now_open = active_runways_for_progress(self.planes_fueled);
        proof {
            lemma_runways_never_close(old(self).planes_fueled as int, self.planes_fueled as int);
        }
        self.payout_flash_us = PAYOUT_FLASH_US;
        if now_open > self.active_runways {
            let half_interval = spawn_interval_for_progress(self.planes_fueled) as u64 * 500_000;
            let mut i = self.active_runways;
            let mut timers = self.spawn_timers;
            while i < now_open
                invariant
                    before <= i <= now_open <= 4,
                    timers == spec_set_timers(
                        old(self).spawn_timers,
                        before as int,
                        i as int,
                        half_interval,
                    ),
                decreases now_open - i,
            {
                timers.set(i, half_interval);
                i = i + 1;
            }
            self.spawn_timers = timers;
            self.active_runways = now_open;
        }
        if self.planes_fueled >= WIN_PLANES {
            self.game_complete = true;
        }
        FuelReward { earned, runways_before: before, runways_after: self.active_runways }
    }

    /// Decides what a runway whose arrival timer ran out gets. A runway with
    /// a plane already heading for a collision only restarts its timer. A
    /// free stand gets a plane of a random color and a random timer jitter
    /// (two rolls). A stand still taken by an unfueled plane gets a plane of a
    /// random color (one roll) that will collide unless the stand is cleared.
    pub fn spawn_decision(&mut self, crash_inbound: bool, occupied: bool) -> (d: SpawnDecision)
        ensures
            old(self).wf() ==> final(self).wf(),
            crash_inbound ==> d == SpawnDecision::Hold && *final(self) == *old(self),
            !crash_inbound && !occupied ==> {
                let s1 = lcg_step(old(self).rng_state);
                let s2 = lcg_step(s1);
                &&& d == SpawnDecision::Plane {
                    color_idx: color_idx_of(roll_of(s1)),
                    jitter_roll: roll_of(s2),
                }
                &&& *final(self) == (GameState { rng_state: s2, ..*old(self) })
            },
            !crash_inbound && occupied ==> {
                let s1 = lcg_step(old(self).rng_state);
                &&& d == SpawnDecision::Collider { color_idx: color_idx_of(roll_of(s1)) }
                &&& *final(self) == (GameState { rng_state: s1, ..*old(self) })
            },
    {
        if crash_inbound {
            SpawnDecision::Hold
        } else if !occupied {
            let roll = self.next_rand();
            let color_idx = scale_roll(roll, 5) as u8;
            let jitter_roll = self.next_rand();
            SpawnDecision::Plane { color_idx, jitter_roll }
        } else {
            let roll = self.next_rand();
            let color_idx = scale_roll(roll, 5) as u8;
            SpawnDecision::Collider { color_idx }
        }
    }

    /// Runs the arrival timers of the open runways for `dt_us` microseconds
    /// and returns the planes to send, in runway order. `occupied[r]` tells
    /// whether runway `r`'s stand is claimed by a plane neither colliding nor
    /// leaving, `crash_inbound[r]` whether a colliding plane is on its way
    /// there. Nothing happens unless a round is under way.
    pub fn spawn_tick(&mut self, occupied: &Vec<bool>, crash_inbound: &Vec<bool>, dt_us: u64) -> (orders:
        Vec<SpawnOrder>)
        requires
            old(self).active_runways <= 4,
            occupied@.len() == 4,
            crash_inbound@.len() == 4,
        ensures
            old(self).wf() ==> final(self).wf(),
            !old(self).spawning_active_spec() ==> *final(self) == *old(self) && orders@.len() == 0,
            old(self).spawning_active_spec() ==> {
                let pass = spec_spawn_pass(
                    old(self).spawn_timers,
                    old(self).rng_state,
                    occupied@,
                    crash_inbound@,
                    dt_us as int,
                    spec_spawn_interval(old(self).planes_fueled as int) * 1_000_000,
                    old(self).active_runways as nat,
                );
                &&& *final(self) == (GameState {
                    spawn_timers: pass.0,
                    rng_state: pass.1,
                    ..*old(self)
                })
                &&& orders@ == pass.2
            },
    {
        let mut orders: Vec<SpawnOrder> = Vec::new();
        if !self.spawning_active() {
            return orders;
        }
        let interval_us = spawn_interval_for_progress(self.planes_fueled) as u64 * 1_000_000;
        let n = self.active_runways;
        let ghost start = *self;
        let mut i: usize = 0;
        while i < n
            invariant
                0 <= i <= n <= 4,
                n == start.active_runways,
                start == *old(self),
                start.active_runways <= 4,
                occupied@.len() == 4,
                crash_inbound@.len() == 4,
                interval_us == spec_spawn_interval(start.planes_fueled as int) * 1_000_000,
                9_000_000 <= interval_us <= 18_000_000,
                ({
                    let pass = spec_spawn_pass(
                        start.spawn_timers,
                        start.rng_state,
                        occupied@,
                        crash_inbound@,
                        dt_us as int,
                        interval_us as int,
                        i as nat,
                    );
                    &&& *self == (GameState {
                        spawn_timers: pass.0,
                        rng_state: pass.1,
                        ..start
                    })
                    &&& orders@ == pass.2
                }),
            decreases n - i,
        {
            let t = self.spawn_timers.get(i);
            if dt_us < t {
                self.spawn_timers.set(i, t - dt_us);
            } else {
                let d = self.spawn_decision(crash_inbound[i], occupied[i]);
                match d {
                    SpawnDecision::Hold => {
                        self.spawn_timers.set(i, interval_us);
                    },
                    SpawnDecision::Plane { color_idx, jitter_roll } => {
                        orders.push(SpawnOrder { runway: i as u32, color_idx, will_collide: false });
                        assert(jitter_roll as u64 * SPAWN_JITTER_US <= 65535 * 4_000_000) by (
                        nonlinear_arith)
                            requires
                                jitter_roll <= 65535,
                        ;
                        let jitter = jitter_roll as u64 * SPAWN_JITTER_US / 65535;
                        self.spawn_timers.set(i, interval_us - SPAWN_JITTER_US / 2 + jitter);
                    },
                    SpawnDecision::Collider { color_idx } => {
                        orders.push(SpawnOrder { runway: i as u32, color_idx, will_collide: true });
                        self.spawn_timers.set(i, interval_us);
                    },
                }
            }
            i = i + 1;
        }
        orders
    }

    /// A round is under way.
    pub open spec fn spawning_active_spec(&self) -> bool {
        self.started && !self.crashed && !self.game_complete
    }

    /// Counts the payout message timer down by `dt_us` microseconds (it goes
    /// on below zero); returns whether the message is still up.
    pub fn tick_payout_flash(&mut self, dt_us: u64) -> (up: bool)
        requires
            old(self).payout_flash_us - dt_us >= i64::MIN,
        ensures
            old(self).wf() ==> final(self).wf(),
            *final(self) == (GameState {
                payout_flash_us: (old(self).payout_flash_us - dt_us) as i64,
                ..*old(self)
            }),
            up == (final(self).payout_flash_us > 0),
    {
        let left = self.payout_flash_us as i128 - dt_us as i128;
        self.payout_flash_us = left as i64;
        self.payout_flash_us > 0
    }

    /// Once the round is won, a firework bursts every `FIREWORK_PERIOD_US`.
    /// Runs the firework timer for `dt_us` microseconds and returns whether a
    /// burst is due now.
    pub fn fireworks_due(&mut self, dt_us: u64) -> (due: bool)
        ensures
            old(self).wf() ==> final(self).wf(),
            !old(self).game_complete ==> !due && *final(self) == *old(self),
            old(self).game_complete && dt_us < old(self).firework_timer_us ==> !due
                && *final(self) == (GameState {
                firework_timer_us: (old(self).firework_timer_us - dt_us) as u64,
                ..*old(self)
            }),
            old(self).game_complete && dt_us >= old(self).firework_timer_us ==> due
                && *final(self) == (GameState { firework_timer_us: FIREWORK_PERIOD_US, ..*old(self) }),
    {
        if !self.game_complete {
            return false;
        }
        if dt_us < self.firework_timer_us {
            self.firework_timer_us = self.firework_timer_us - dt_us;
            false
        } else {
            self.firework_timer_us = FIREWORK_PERIOD_US;
            true
        }
    }

    /// Draws a firework burst: a roll across the screen, a roll up it, and a
    /// roll for its color, in that order.
    pub fn firework_burst(&mut self) -> (burst: FireworkBurst)
        ensures
            old(self).wf() ==> final(self).wf(),
            ({
                let s1 = lcg_step(old(self).rng_state);
                let s2 = lcg_step(s1);
                let s3 = lcg_step(s2);
                &&& burst.x_roll == roll_of(s1)
                &&& burst.y_roll == roll_of(s2)
                &&& burst.color == spec_firework_color(roll_of(s3) as int)
                &&& *final(self) == (GameState { rng_state: s3, ..*old(self) })
            }),
            burst.x_roll <= ROLL_MAX,
            burst.y_roll <= ROLL_MAX,
    {
        let x_roll = self.next_rand();
        let y_roll = self.next_rand();
        let color = firework_color(self.next_rand());
        FireworkBurst { x_roll, y_roll, color }
    }

    /// Buys the next truck upgrade if there is one and the player can pay it.
    pub fn try_upgrade(&mut self) -> (upgraded: bool)
        ensures
            old(self).wf() ==> final(self).wf(),
            upgraded == (old(self).truck_level < MAX_TRUCK_LEVEL && old(self).money >= 500 * (
            old(self).truck_level + 1)),
            upgraded ==> *final(self) == (GameState {
                money: (old(self).money - 500 * (old(self).truck_level + 1)) as u64,
                truck_level: (old(self).truck_level + 1) as u32,
                ..*old(self)
            }),
            !upgraded ==> *final(self) == *old(self),
    {
        match upgrade_cost(self.truck_level) {
            Some(cost) => {
                if self.money >= cost {
                    self.money = self.money - cost;
                    self.truck_level = self.truck_level + 1;
                    true
                } else {
                    false
                }
            },
            None => false,
        }
    }

    /// The START / RESTART button was pressed. It acts only when it is shown:
    /// before the first round, which it starts, and after a round was lost or
    /// won, which it clears to the initial state of a started round.
    pub fn press_restart(&mut self) -> (action: RestartAction)
        ensures
            old(self).wf() ==> final(self).wf(),
            old(self).started && !old(self).crashed && !old(self).game_complete ==> action
                == RestartAction::Ignored && *final(self) == *old(self),
            !old(self).started ==> action == RestartAction::Started && *final(self) == (
            GameState { started: true, ..*old(self) }),
            old(self).started && (old(self).crashed || old(self).game_complete) ==> action
                == RestartAction::Reset && *final(self) == (GameState {
                started: true,
                ..initial_state()
            }),
    {
        if self.started && !self.crashed && !self.game_complete {
            RestartAction::Ignored
        } else if !self.started {
            self.started = true;
            RestartAction::Started
        } else {
            *self = GameState::default();
            self.started = true;
            RestartAction::Reset
        }
    }

    /// Whether the START / RESTART button is shown.
    pub fn restart_button_visible(&self) -> (b: bool)
        ensures
            b == (!self.started || self.crashed || self.game_complete),
    {
        !self.started || self.crashed || self.game_complete
    }

    /// The status line, given whether the payout flash is still showing.
    pub fn hud_message(&self, flash_active: bool) -> (m: HudMessage)
        ensures
            !self.started ==> m == HudMessage::Intro,
            self.started && (self.crashed || self.game_complete) ==> m == HudMessage::Blank,
            self.started && !self.crashed && !self.game_complete && flash_active ==> m
                == (HudMessage::Payout { earned: self.last_payout, fueled: self.planes_fueled }),
            self.started && !self.crashed && !self.game_complete && !flash_active ==> m
                == (HudMessage::Progress { fueled: self.planes_fueled }),
    {
        if !self.started {
            HudMessage::Intro
        } else if self.crashed || self.game_complete {
            HudMessage::Blank
        } else if flash_active {
            HudMessage::Payout { earned: self.last_payout, fueled: self.planes_fueled }
        } else {
            HudMessage::Progress { fueled: self.planes_fueled }
        }
    }

    /// The truck level shown in the HUD: `Some(level)` below the top level,
    /// `None` (shown as "MAX") at the top.
    pub fn level_label(&self) -> (label: Option<u32>)
        ensures
            self.truck_level < MAX_TRUCK_LEVEL ==> label == Some(self.truck_level),
            self.truck_level >= MAX_TRUCK_LEVEL ==> label is None,
    {
        if self.truck_level < MAX_TRUCK_LEVEL {
            Some(self.truck_level)
        } else {
            None
        }
    }

    /// What the upgrade button offers.
    pub fn upgrade_offer(&self) -> (offer: UpgradeOffer)
        ensures
            self.truck_level >= MAX_TRUCK_LEVEL ==> offer == UpgradeOffer::Maxed,
            self.truck_level < MAX_TRUCK_LEVEL && self.money >= 500 * (self.truck_level + 1)
                ==> offer == UpgradeOffer::Affordable((500 * (self.truck_level + 1)) as u64),
            self.truck_level < MAX_TRUCK_LEVEL && self.money < 500 * (self.truck_level + 1)
                ==> offer == UpgradeOffer::TooExpensive((500 * (self.truck_level + 1)) as u64),
    {
        match upgrade_cost(self.truck_level) {
            Some(cost) => {
                if self.money >= cost {
                    UpgradeOffer::Affordable(cost)
                } else {
                    UpgradeOffer::TooExpensive(cost)
                }
            },
            None => UpgradeOffer::Maxed,
        }
    }
}

/// The round is won with the fiftieth plane fueled, and not before; the third
/// runway opens with the tenth plane fueled and the fourth with the
/// twenty-fifth, and payouts grow as they open.
pub proof fn lemma_progress_milestones(s: GameState, base: int)
    requires
        s.wf(),
        0 <= base <= 175,
    ensures
        spec_after_fueling(s, base).game_complete <==> s.planes_fueled + 1 >= WIN_PLANES,
        s.planes_fueled == 9 ==> s.active_runways == 2 && spec_after_fueling(s, base).active_runways == 3,
        s.planes_fueled == 24 ==> s.active_runways == 3 && spec_after_fueling(s, base).active_runways == 4,
        spec_after_fueling(s, base).active_runways >= s.active_runways,
{
}

/// Every operation on the round keeps its invariant, so in every reachable
/// state the round is won exactly when fifty planes have been fueled, the
/// open runways match the planes fueled, and the money never exceeds what the
/// fueled planes could have earned.
pub proof fn lemma_after_fueling_keeps_invariant(s: GameState, base: int)
    requires
        s.wf(),
        0 <= base <= 175,
        s.planes_fueled < u32::MAX,
    ensures
        spec_after_fueling(s, base).wf(),
        spec_after_fueling(s, base).money == s.money + spec_payout(base, s.active_runways as int),
{
    lemma_payout_bounded(base, s.active_runways as int);
    assert(MAX_PAYOUT * s.planes_fueled + MAX_PAYOUT == MAX_PAYOUT * (s.planes_fueled + 1)) by (
    nonlinear_arith);
    assert(MAX_PAYOUT * (s.planes_fueled + 1) <= 225 * 0xffff_ffffu64) by (nonlinear_arith)
        requires
            s.planes_fueled < 0xffff_ffffu32,
    ;
}

/// The payout shown after a plane is fueled is exactly what the plane added
/// to the money, and the status line announces that amount with the new
/// count of planes fueled.
pub proof fn lemma_shown_payout_is_money_gained(s: GameState, base: int)
    requires
        base >= 0,
        s.planes_fueled < u32::MAX,
        s.money + spec_payout(base, s.active_runways as int) <= u64::MAX,
    ensures
        spec_after_fueling(s, base).last_payout == spec_after_fueling(s, base).money - s.money,
        spec_after_fueling(s, base).last_payout == spec_payout(base, s.active_runways as int),
        spec_after_fueling(s, base).planes_fueled == s.planes_fueled + 1,
        spec_after_fueling(s, base).payout_flash_us > 0,
{
    lemma_round_up_to_5(base * 105, 100);
    lemma_round_up_to_5(base * 11025, 10000);
    assert(base * 105 >= 0 && base * 11025 >= 0) by (nonlinear_arith)
        requires
            base >= 0,
    ;
}

/// No payout message is up in a fresh round, before or after START or
/// RESTART, and while no plane has been fueled the message timer only counts
/// down, so the status line never announces a payout before the first plane
/// is fueled.
pub proof fn lemma_no_payout_shown_before_fueling(s: GameState, dt_us: int)
    requires
        s.planes_fueled == 0 ==> s.payout_flash_us <= 0,
        dt_us >= 0,
    ensures
        initial_state().payout_flash_us <= 0,
        initial_state().planes_fueled == 0,
        initial_state().last_payout == 0,
        (GameState { started: true, ..initial_state() }).payout_flash_us <= 0,
        s.planes_fueled == 0 ==> s.payout_flash_us - dt_us <= 0,
{
}

impl Default for GameState {
    /// The state before the first round.
    fn default() -> (s: GameState)
        ensures
            s == initial_state(),
            s.wf(),
            s.payout_flash_us <= 0,
            s.planes_fueled == 0,
    {
        GameState {
            crashed: false,
            money: 0,
            truck_level: 0,
            last_payout: 0,
            planes_fueled: 0,
            active_runways: 2,
            crash_anim_spawned: false,
            rng_state: RNG_SEED,
            started: false,
            game_complete: false,
            spawn_timers: SpawnTimers::initial(),
            payout_flash_us: 0,
            firework_timer_us: 0,
        }
    }
}

} // verus!
