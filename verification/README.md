# airport_chaos

The rules of Airport Ramp Chaos, a top-down ramp-management game, as a
library verified with Verus, and the Bevy program that plays it.

Aircraft land on up to four runways and taxi to their stands; the player
drives a fuel truck to fuel each parked plane before the next one arrives on
the same stand. Fifty fueled planes win the round; a plane that lands on a
stand still taken by an unfueled one loses it.

## Layout

- `src/rules.rs`: progression (runway openings at 10 and 25 planes, arrival
  intervals), payouts ($60–$175 base, scaled when the third and fourth runways
  open), truck upgrade prices, speeds, fueling times, paints and sizes.
- `src/routes.rs`: approach and departure routes of each runway, stands.
- `src/aircraft.rs`: a plane's route, parking, collision and fuel.
- `src/truck.rs`: the truck's destination, fueling flag and speed.
- `src/timers.rs`, `src/state.rs`: the state of a round — money, level,
  planes fueled, open runways, arrival timers, the random generator — and
  every transition of it (arrivals, payouts, upgrades, start and restart).
- `src/fleet.rs`, `src/fueling.rs`: decisions over all planes at once —
  stands taken, traffic per runway, the plane the truck fuels, fuel bars.
- `tests/`: tests of the rules on concrete values.
- `app/`: the Bevy program (drawing, input, motion, particles).

Time is counted in microseconds, fuel in millionths of a full load, money in
whole dollars, and random rolls as integers in `0..=65535`.
