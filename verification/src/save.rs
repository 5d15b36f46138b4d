//! Resuming a saved game: how many ticks were missed while away, and what
//! they are worth.

use vstd::prelude::*;
use crate::fixed::{fixed_times, spec_add, spec_sub, spec_times, Fixed, FIXED_MAX};
use crate::resources::Resources;
use crate::state::{GameState, GameView};

verus! {

/// The length of one tick in milliseconds.
pub const TICK_MS: u64 = 250;

/// The most ticks that are made up for after a time away: eight hours.
pub const MAX_OFFLINE_TICKS: u64 = 115_200;

/// The version of the saved document.
pub const SAVE_VERSION: u32 = 1;

/// A saved game brought up to date.
#[derive(Debug, Clone)]
pub struct LoadResult {
    pub state: GameState,
    /// The ticks made up for.
    pub offline_ticks: u64,
    /// What they credited.
    pub offline_earnings: Resources,
}

/// The ticks made up for after `elapsed_ms` milliseconds away: the whole
/// ticks that fit, none for a clock that ran backwards, at most eight hours.
pub open spec fn spec_offline_ticks(elapsed_ms: i64) -> u64 {
    if elapsed_ms <= 0 {
        0
    } else if elapsed_ms / 250 > MAX_OFFLINE_TICKS {
        MAX_OFFLINE_TICKS
    } else {
        (elapsed_ms / 250) as u64
    }
}

/// A ledger taken a whole number of times, resource by resource.
pub open spec fn spec_times_over(rate: Resources, ticks: int) -> Resources {
    Resources {
        compute: spec_times(rate.compute, ticks),
        bandwidth: spec_times(rate.bandwidth, ticks),
        storage: spec_times(rate.storage, ticks),
        reputation: spec_times(rate.reputation, ticks),
        crypto: spec_times(rate.crypto, ticks),
    }
}

/// The ledger after `ticks` credits of the same yield, one after the other.
pub open spec fn spec_credited(held: Resources, rate: Resources, ticks: nat) -> Resources
    decreases ticks,
{
    if ticks == 0 {
        held
    } else {
        spec_credited(held, rate, (ticks - 1) as nat).spec_plus(rate)
    }
}

impl GameView {
    /// What one tick away yields: the production snapshot, every resource
    /// of it scaled by the offline efficiency.
    pub open spec fn offline_rate(self) -> Resources {
        self.production_per_tick.spec_scaled(self.offline_efficiency)
    }

    /// The game as it comes back from a save: the compute history is not
    /// saved and starts empty.
    pub open spec fn restored(self) -> GameView {
        GameView { compute_history: Seq::empty(), ..self }
    }

    /// The restored game after `ticks` ticks of production only, each
    /// crediting the offline rate and counting one tick. No event fires.
    pub open spec fn after_catch_up(self, ticks: u64) -> GameView {
        GameView {
            resources: self.resources.spec_plus(
                spec_times_over(self.offline_rate(), ticks as int),
            ),
            total_ticks: (self.total_ticks + ticks) as u64,
            ..self.restored()
        }
    }
}

/// What the catch-up credited: the difference of the ledgers, resource by
/// resource.
pub open spec fn spec_earnings(before: Resources, after: Resources) -> Resources {
    after.spec_minus(before)
}

/// The ticks made up for after `elapsed_ms` milliseconds away.
pub fn offline_ticks(elapsed_ms: i64) -> (ticks: u64)
    ensures
        ticks == spec_offline_ticks(elapsed_ms),
        ticks <= MAX_OFFLINE_TICKS,
{
    if elapsed_ms <= 0 {
        0
    } else {
        let missed: u64 = (elapsed_ms as u64) / TICK_MS;
        if missed > MAX_OFFLINE_TICKS {
            MAX_OFFLINE_TICKS
        } else {
            missed
        }
    }
}

/// Brings a game that was saved `elapsed_ms` milliseconds ago up to date:
/// the missed ticks, capped at eight hours, are made up for at the offline
/// rate, and the result reports how many they were and what they credited.
pub fn load_game(state: GameState, elapsed_ms: i64) -> (result: LoadResult)
    requires
        state.total_ticks <= u64::MAX - MAX_OFFLINE_TICKS,
    ensures
        result.offline_ticks == spec_offline_ticks(elapsed_ms),
        result.state@ == state@.after_catch_up(result.offline_ticks),
        result.offline_earnings == spec_earnings(state.resources, result.state.resources),
        result.state.rng == state.rng,
{
    let mut state = state;
    let ticks = offline_ticks(elapsed_ms);
    let before = state.resources;
    state.compute_history.clear();
    let rate = state.production_per_tick.scaled(state.offline_efficiency);
    let credit = Resources {
        compute: fixed_times(rate.compute, ticks as u32),
        bandwidth: fixed_times(rate.bandwidth, ticks as u32),
        storage: fixed_times(rate.storage, ticks as u32),
        reputation: fixed_times(rate.reputation, ticks as u32),
        crypto: fixed_times(rate.crypto, ticks as u32),
    };
    state.resources.add(&credit);
    state.total_ticks = state.total_ticks + ticks;
    let mut offline_earnings = state.resources;
    offline_earnings.subtract(&before);
    LoadResult { state, offline_ticks: ticks, offline_earnings }
}

/// Loading resets the compute history and nothing else: without time away
/// a loaded game is the saved game with an empty history, every other
/// field as it was saved.
pub proof fn lemma_loading_resets_only_the_history(v: GameView)
    ensures
        v.after_catch_up(0) == v.restored(),
        v.restored().compute_history.len() == 0,
        v.restored() == (GameView { compute_history: v.restored().compute_history, ..v }),
        v.restored().restored() == v.restored(),
{
}

/// However long the time away, no more than eight hours are made up for,
/// and the number of ticks never falls as the time away grows.
pub proof fn lemma_offline_ticks_are_capped(shorter_ms: i64, longer_ms: i64)
    requires
        shorter_ms <= longer_ms,
    ensures
        spec_offline_ticks(shorter_ms) <= spec_offline_ticks(longer_ms) <= MAX_OFFLINE_TICKS,
        longer_ms >= 28_800_000 ==> spec_offline_ticks(longer_ms) == MAX_OFFLINE_TICKS,
{
}

/// Crediting one yield tick after tick gives what crediting the yield
/// taken that many times gives at once.
pub proof fn lemma_catch_up_is_replay(held: Resources, rate: Resources, ticks: nat)
    requires
        ticks > 0,
    ensures
        spec_credited(held, rate, ticks) == held.spec_plus(spec_times_over(rate, ticks as int)),
    decreases ticks,
{
    lemma_credit_step(held.compute, rate.compute, ticks);
    lemma_credit_step(held.bandwidth, rate.bandwidth, ticks);
    lemma_credit_step(held.storage, rate.storage, ticks);
    lemma_credit_step(held.reputation, rate.reputation, ticks);
    lemma_credit_step(held.crypto, rate.crypto, ticks);
    let earlier = spec_credited(held, rate, (ticks - 1) as nat);
    assert(spec_credited(held, rate, ticks) == earlier.spec_plus(rate));
    if ticks > 1 {
        lemma_catch_up_is_replay(held, rate, (ticks - 1) as nat);
    } else {
        assert(earlier == held);
    }
}

/// One more credit of a quantity on top of `ticks - 1` of them is the
/// credit of `ticks` of them.
proof fn lemma_credit_step(held: Fixed, rate: Fixed, ticks: nat)
    requires
        ticks > 0,
    ensures
        ticks == 1 ==> spec_add(held, rate) == spec_add(held, spec_times(rate, 1)),
        ticks > 1 ==> spec_add(spec_add(held, spec_times(rate, ticks - 1)), rate) == spec_add(
            held,
            spec_times(rate, ticks as int),
        ),
{
    let more = rate as int * ticks as int;
    let fewer = rate as int * (ticks - 1);
    assert(more == fewer + rate as int) by (nonlinear_arith)
        requires
            more == rate as int * ticks as int,
            fewer == rate as int * (ticks - 1),
    ;
    assert(fewer >= 0) by (nonlinear_arith)
        requires
            fewer == rate as int * (ticks - 1),
            rate >= 0,
            ticks >= 1,
    ;
    assert(rate as int * 1 == rate as int) by (nonlinear_arith);
}

/// Below the ceiling the catch-up credits exactly the offline rate times
/// the ticks made up for, and reports exactly that as earned: shown for a
/// resource held `held` that accrues `rate` per tick.
pub proof fn lemma_credit_is_exact(held: Fixed, rate: Fixed, ticks: u64)
    requires
        held as int + rate as int * ticks as int <= FIXED_MAX,
    ensures
        spec_add(held, spec_times(rate, ticks as int)) as int == held as int + rate as int
            * ticks as int,
        spec_sub(spec_add(held, spec_times(rate, ticks as int)), held) as int == rate as int
            * ticks as int,
{
    assert(rate as int * ticks as int >= 0) by (nonlinear_arith)
        requires
            rate >= 0,
            ticks >= 0,
    ;
}

/// Below the ceiling the catch-up credits every resource exactly its
/// offline rate times the ticks made up for, and reports exactly that as
/// earned.
pub proof fn lemma_catch_up_credits_exactly(v: GameView, ticks: u64)
    requires
        v.resources.compute as int + v.offline_rate().compute as int * ticks as int <= FIXED_MAX,
        v.resources.bandwidth as int + v.offline_rate().bandwidth as int * ticks as int
            <= FIXED_MAX,
        v.resources.storage as int + v.offline_rate().storage as int * ticks as int <= FIXED_MAX,
        v.resources.reputation as int + v.offline_rate().reputation as int * ticks as int
            <= FIXED_MAX,
        v.resources.crypto as int + v.offline_rate().crypto as int * ticks as int <= FIXED_MAX,
    ensures
        ({
            let after = v.after_catch_up(ticks).resources;
            let rate = v.offline_rate();
            let earned = spec_earnings(v.resources, after);
            &&& after.compute as int == v.resources.compute + rate.compute as int * ticks as int
            &&& after.bandwidth as int == v.resources.bandwidth + rate.bandwidth as int
                * ticks as int
            &&& after.storage as int == v.resources.storage + rate.storage as int * ticks as int
            &&& after.reputation as int == v.resources.reputation + rate.reputation as int
                * ticks as int
            &&& after.crypto as int == v.resources.crypto + rate.crypto as int * ticks as int
            &&& earned.compute as int == rate.compute as int * ticks as int
            &&& earned.bandwidth as int == rate.bandwidth as int * ticks as int
            &&& earned.storage as int == rate.storage as int * ticks as int
            &&& earned.reputation as int == rate.reputation as int * ticks as int
            &&& earned.crypto as int == rate.crypto as int * ticks as int
        }),
{
    let rate = v.offline_rate();
    lemma_credit_is_exact(v.resources.compute, rate.compute, ticks);
    lemma_credit_is_exact(v.resources.bandwidth, rate.bandwidth, ticks);
    lemma_credit_is_exact(v.resources.storage, rate.storage, ticks);
    lemma_credit_is_exact(v.resources.reputation, rate.reputation, ticks);
    lemma_credit_is_exact(v.resources.crypto, rate.crypto, ticks);
}

} // verus!
