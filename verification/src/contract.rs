//! The contract's entry points as verified transitions of its persistent
//! entries: initialisation, and the two halves of starting a game (the
//! checks before the wager transfer, and the bookkeeping after it).

use crate::game::{
    AccountId, ContractConfig, ContractStats, Error, GamePhase, GameState, Side, StorageKey,
};
use crate::payout::{fits_i128, BPS_DENOMINATOR, MULTIPLIER_STREAK_4_PLUS};
use crate::randomness::{be_bytes, contract_random, sha256_digest};
use crate::store::{lookup, ContractStore};
use soroban_sdk::Env;
use vstd::prelude::*;

verus! {

/// Lowest accepted protocol fee, in basis points (2%).
pub const MIN_FEE_BPS: u32 = 200;

/// Highest accepted protocol fee, in basis points (5%).
pub const MAX_FEE_BPS: u32 = 500;

/// The outcome of `initialize` on a store that is (`initialized`) or is not
/// yet initialised. The checks run in this order.
pub open spec fn initialize_result(
    initialized: bool,
    admin: AccountId,
    treasury: AccountId,
    fee_bps: u32,
    min_wager: i128,
    max_wager: i128,
) -> Result<(), Error> {
    if initialized {
        Err(Error::AlreadyInitialized)
    } else if admin == treasury {
        Err(Error::AdminTreasuryConflict)
    } else if fee_bps < 200 || fee_bps > 500 {
        Err(Error::InvalidFeePercentage)
    } else if min_wager >= max_wager {
        Err(Error::InvalidWagerLimits)
    } else {
        Ok(())
    }
}

/// The configuration written by a successful `initialize`: not paused.
pub open spec fn initial_config(
    admin: AccountId,
    treasury: AccountId,
    token: AccountId,
    fee_bps: u32,
    min_wager: i128,
    max_wager: i128,
) -> ContractConfig {
    ContractConfig { admin, treasury, token, fee_bps, min_wager, max_wager, paused: false }
}

/// The statistics written by a successful `initialize`: all zero.
pub open spec fn initial_stats() -> ContractStats {
    ContractStats { total_games: 0, total_volume: 0, total_fees: 0, reserve_balance: 0 }
}

/// The worst-case payout of a wager: the gross payout at the 10x tier,
/// `wager * 100_000 / 10_000`, or `None` when `wager * 100_000` overflows.
pub open spec fn max_payout(wager: i128) -> Option<int> {
    if fits_i128(wager * 100_000) {
        Some(wager * 10)
    } else {
        None
    }
}

/// Why a new game for a player whose stored game is `existing` is refused,
/// if it is: the guards run in this order.
pub open spec fn start_rejection(
    config: ContractConfig,
    stats: ContractStats,
    existing: Option<GameState>,
    wager: i128,
) -> Option<Error> {
    if config.paused {
        Some(Error::ContractPaused)
    } else if wager < config.min_wager {
        Some(Error::WagerBelowMinimum)
    } else if wager > config.max_wager {
        Some(Error::WagerAboveMaximum)
    } else if existing matches Some(g) && g.phase != GamePhase::Completed {
        Some(Error::ActiveGameExists)
    } else if max_payout(wager) is None || stats.reserve_balance < max_payout(wager).unwrap() {
        Some(Error::InsufficientReserves)
    } else {
        None
    }
}

/// A fresh game: streak 0, in the `Committed` phase.
pub open spec fn fresh_game(
    wager: i128,
    side: Side,
    commitment: [u8; 32],
    contract_random: [u8; 32],
) -> GameState {
    GameState { wager, side, streak: 0, commitment, contract_random, phase: GamePhase::Committed }
}

/// A token transfer that the caller must perform: `amount` of `token`
/// from `from` into the contract's custody.
#[derive(Clone, Copy, Debug, PartialEq, Eq)]
pub struct WagerTransfer {
    pub token: AccountId,
    pub from: AccountId,
    pub amount: i128,
}

/// A game that passed every check: the wager transfer to perform, then the
/// game to record for `player`.
#[derive(Clone, Copy, Debug, PartialEq, Eq)]
pub struct PendingGame {
    pub player: AccountId,
    pub game: GameState,
    pub transfer: WagerTransfer,
}

/// The pending game for `player` under `config`.
pub open spec fn pending_game(
    config: ContractConfig,
    player: AccountId,
    side: Side,
    wager: i128,
    commitment: [u8; 32],
    contract_random: [u8; 32],
) -> PendingGame {
    PendingGame {
        player,
        game: fresh_game(wager, side, commitment, contract_random),
        transfer: WagerTransfer { token: config.token, from: player, amount: wager },
    }
}

/// The statistics after a game with `wager` starts: the wager is added to
/// the reserve balance and, unless the sum overflows (then the volume is
/// kept), to the total volume; the game count grows by one unless it is
/// already at its maximum.
pub open spec fn started_game_stats(before: ContractStats, wager: i128) -> ContractStats {
    ContractStats {
        total_games: if before.total_games < u64::MAX {
            (before.total_games + 1) as u64
        } else {
            before.total_games
        },
        total_volume: if fits_i128(before.total_volume + wager) {
            (before.total_volume + wager) as i128
        } else {
            before.total_volume
        },
        total_fees: before.total_fees,
        reserve_balance: (before.reserve_balance + wager) as i128,
    }
}

/// The coinflip contract.
pub struct CoinflipContract;

impl CoinflipContract {
    /// Stores the configuration.
    pub fn save_config(store: &mut ContractStore, config: ContractConfig)
        requires
            old(store).wf(),
        ensures
            final(store).wf(),
            final(store).config == Some(config),
            final(store).stats == old(store).stats,
            final(store).games() == old(store).games(),
    {
        store.config = Some(config);
    }

    /// The stored configuration (present once initialised).
    pub fn load_config(store: &ContractStore) -> (config: ContractConfig)
        requires
            store.config is Some,
        ensures
            config == store.config.unwrap(),
    {
        store.config.unwrap()
    }

    /// Stores the statistics.
    pub fn save_stats(store: &mut ContractStore, stats: ContractStats)
        requires
            old(store).wf(),
        ensures
            final(store).wf(),
            final(store).stats == Some(stats),
            final(store).config == old(store).config,
            final(store).games() == old(store).games(),
    {
        store.stats = Some(stats);
    }

    /// The stored statistics (present once initialised).
    pub fn load_stats(store: &ContractStore) -> (stats: ContractStats)
        requires
            store.stats is Some,
        ensures
            stats == store.stats.unwrap(),
    {
        store.stats.unwrap()
    }

    /// Stores `game` as the game of `player`.
    pub fn save_player_game(store: &mut ContractStore, player: &AccountId, game: &GameState)
        requires
            old(store).wf(),
        ensures
            final(store).wf(),
            final(store).games() == old(store).games().insert(*player, *game),
            final(store).config == old(store).config,
            final(store).stats == old(store).stats,
    {
        store.set_player_game(*player, *game);
    }

    /// The stored game of `player`, if any.
    pub fn load_player_game(store: &ContractStore, player: &AccountId) -> (r: Option<GameState>)
        requires
            store.wf(),
        ensures
            r == store.game_of(*player),
    {
        store.player_game(player)
    }

    /// Removes the game of `player`.
    pub fn delete_player_game(store: &mut ContractStore, player: &AccountId)
        requires
            old(store).wf(),
        ensures
            final(store).wf(),
            final(store).games() == old(store).games().remove(*player),
            final(store).config == old(store).config,
            final(store).stats == old(store).stats,
    {
        store.remove_player_game(player);
    }

    /// Initialize the contract with its configuration.
    ///
    /// Fails with `AlreadyInitialized` if a configuration is stored, with
    /// `AdminTreasuryConflict` if `admin == treasury`, with
    /// `InvalidFeePercentage` unless `200 <= fee_bps <= 500`, and with
    /// `InvalidWagerLimits` unless `min_wager < max_wager`, in that order.
    /// On success it stores the unpaused configuration and zeroed statistics;
    /// on failure it changes nothing.
    pub fn initialize(
        store: &mut ContractStore,
        admin: AccountId,
        treasury: AccountId,
        token: AccountId,
        fee_bps: u32,
        min_wager: i128,
        max_wager: i128,
    ) -> (r: Result<(), Error>)
        requires
            old(store).wf(),
        ensures
            final(store).wf(),
            r == initialize_result(
                old(store).holds(StorageKey::Config),
                admin,
                treasury,
                fee_bps,
                min_wager,
                max_wager,
            ),
            r is Ok ==> final(store).config == Some(
                initial_config(admin, treasury, token, fee_bps, min_wager, max_wager),
            ) && final(store).stats == Some(initial_stats()),
            r is Err ==> *final(store) == *old(store),
            final(store).games() == old(store).games(),
            r is Ok <==> (old(store).config is None && admin != treasury && 200 <= fee_bps <= 500
                && min_wager < max_wager),
    {
        proof {
            lemma_initialize_accepts_exactly_valid_parameters(
                old(store).holds(StorageKey::Config),
                admin,
                treasury,
                fee_bps,
                min_wager,
                max_wager,
            );
        }
        if store.has(&StorageKey::Config) {
            return Err(Error::AlreadyInitialized);
        }
        if admin.same_as(&treasury) {
            return Err(Error::AdminTreasuryConflict);
        }
        if fee_bps < MIN_FEE_BPS || fee_bps > MAX_FEE_BPS {
            return Err(Error::InvalidFeePercentage);
        }
        if min_wager >= max_wager {
            return Err(Error::InvalidWagerLimits);
        }
        let config = ContractConfig {
            admin,
            treasury,
            token,
            fee_bps,
            min_wager,
            max_wager,
            paused: false,
        };
        let stats = ContractStats {
            total_games: 0,
            total_volume: 0,
            total_fees: 0,
            reserve_balance: 0,
        };
        Self::save_config(store, config);
        Self::save_stats(store, stats);
        Ok(())
    }

    /// The worst-case payout of `wager` (its gross payout at the 10x tier),
    /// or `None` when the multiplication overflows.
    pub fn max_payout(wager: i128) -> (r: Option<i128>)
        ensures
            match r {
                Some(p) => max_payout(wager) == Some(p as int),
                None => max_payout(wager) is None,
            },
    {
        match wager.checked_mul(MULTIPLIER_STREAK_4_PLUS as i128) {
            Some(product) => {
                assert(product == wager * 10 * 10_000);
                product.checked_div(BPS_DENOMINATOR)
            },
            None => None,
        }
    }

    /// Runs the guards of a new game for `player` in order: paused
    /// contract, wager below the minimum, wager above the maximum, an
    /// unfinished stored game, reserves below the worst-case payout.
    pub fn check_new_game(store: &ContractStore, player: &AccountId, wager: i128) -> (r: Result<
        (),
        Error,
    >)
        requires
            store.wf(),
            store.config is Some,
            store.stats is Some,
        ensures
            r == match start_rejection(
                store.config.unwrap(),
                store.stats.unwrap(),
                store.game_of(*player),
                wager,
            ) {
                Some(e) => Err(e),
                None => Ok(()),
            },
            r is Ok <==> new_game_admissible(
                store.config.unwrap(),
                store.stats.unwrap(),
                store.game_of(*player),
                wager,
            ),
    {
        proof {
            lemma_start_accepted_exactly_when_admissible(
                store.config.unwrap(),
                store.stats.unwrap(),
                store.game_of(*player),
                wager,
            );
        }
        let config = Self::load_config(store);
        if config.paused {
            return Err(Error::ContractPaused);
        }
        if wager < config.min_wager {
            return Err(Error::WagerBelowMinimum);
        }
        if wager > config.max_wager {
            return Err(Error::WagerAboveMaximum);
        }
        match Self::load_player_game(store, player) {
            Some(existing) => {
                if existing.phase != GamePhase::Completed {
                    return Err(Error::ActiveGameExists);
                }
            },
            None => {},
        }
        let stats = Self::load_stats(store);
        match Self::max_payout(wager) {
            Some(max_payout) => {
                if stats.reserve_balance < max_payout {
                    return Err(Error::InsufficientReserves);
                }
            },
            None => {
                return Err(Error::InsufficientReserves);
            },
        }
        Ok(())
    }

    /// The game that a successful start records, with the wager transfer
    /// that must precede it, given the contract's random contribution.
    pub fn new_pending_game(
        config: &ContractConfig,
        player: AccountId,
        side: Side,
        wager: i128,
        commitment: [u8; 32],
        contract_random: [u8; 32],
    ) -> (p: PendingGame)
        ensures
            p == pending_game(*config, player, side, wager, commitment, contract_random),
    {
        PendingGame {
            player,
            game: GameState {
                wager,
                side,
                streak: 0,
                commitment,
                contract_random,
                phase: GamePhase::Committed,
            },
            transfer: WagerTransfer { token: config.token, from: player, amount: wager },
        }
    }

    /// Begin a new coinflip game for `player` (first half).
    ///
    /// Runs the guards of [`Self::check_new_game`] and, if all pass,
    /// derives the contract's random contribution from `ledger_sequence`.
    /// It changes nothing: the caller performs the returned wager transfer
    /// and then hands the pending game to [`Self::record_started_game`].
    pub fn start_game(
        store: &ContractStore,
        env: &Env,
        player: AccountId,
        side: Side,
        wager: i128,
        commitment: [u8; 32],
        ledger_sequence: u32,
    ) -> (r: Result<PendingGame, Error>)
        requires
            store.wf(),
            store.config is Some,
            store.stats is Some,
        ensures
            match r {
                Err(e) => start_rejection(
                    store.config.unwrap(),
                    store.stats.unwrap(),
                    store.game_of(player),
                    wager,
                ) == Some(e),
                Ok(p) => start_rejection(
                    store.config.unwrap(),
                    store.stats.unwrap(),
                    store.game_of(player),
                    wager,
                ) is None && p == pending_game(
                    store.config.unwrap(),
                    player,
                    side,
                    wager,
                    commitment,
                    p.game.contract_random,
                ) && p.game.contract_random@ == sha256_digest(be_bytes(ledger_sequence)),
            },
    {
        match Self::check_new_game(store, &player, wager) {
            Err(e) => Err(e),
            Ok(()) => {
                let random = contract_random(env, ledger_sequence);
                let config = Self::load_config(store);
                Ok(Self::new_pending_game(&config, player, side, wager, commitment, random))
            },
        }
    }

    /// Begin a new coinflip game (second half, after the wager transfer).
    ///
    /// Adds the wager to the reserve balance and to the total volume (which
    /// is kept as it is when the sum would overflow), counts one more game
    /// (the count stays at its maximum once it gets there), and stores the
    /// pending game for its player. Fails with `TransferFailed`, changing
    /// nothing, when the new reserve balance would overflow.
    pub fn record_started_game(store: &mut ContractStore, pending: PendingGame) -> (r: Result<
        (),
        Error,
    >)
        requires
            old(store).wf(),
            old(store).stats is Some,
        ensures
            final(store).wf(),
            ({
                let before = old(store).stats.unwrap();
                let reserve = before.reserve_balance + pending.game.wager;
                if fits_i128(reserve) {
                    &&& r is Ok
                    &&& final(store).stats == Some(
                        started_game_stats(before, pending.game.wager),
                    )
                    &&& final(store).games() == old(store).games().insert(
                        pending.player,
                        pending.game,
                    )
                    &&& final(store).config == old(store).config
                } else {
                    &&& r == Err::<(), Error>(Error::TransferFailed)
                    &&& *final(store) == *old(store)
                }
            }),
            r is Ok ==> final(store).stats.unwrap().reserve_balance == old(
                store,
            ).stats.unwrap().reserve_balance + pending.game.wager,
            r is Ok ==> final(store).stats.unwrap().total_fees == old(
                store,
            ).stats.unwrap().total_fees,
            r is Ok ==> final(store).game_of(pending.player) == Some(pending.game),
    {
        proof {
            let before = old(store).stats.unwrap();
            if fits_i128(before.reserve_balance + pending.game.wager) {
                lemma_started_game_stats(before, pending.game.wager);
            }
        }
        let mut stats = Self::load_stats(store);
        match stats.reserve_balance.checked_add(pending.game.wager) {
            Some(reserve) => {
                stats.reserve_balance = reserve;
            },
            None => {
                return Err(Error::TransferFailed);
            },
        }
        match stats.total_volume.checked_add(pending.game.wager) {
            Some(volume) => {
                stats.total_volume = volume;
            },
            None => {},
        }
        if stats.total_games < u64::MAX {
            stats.total_games = stats.total_games + 1;
        }
        Self::save_stats(store, stats);
        Self::save_player_game(store, &pending.player, &pending.game);
        Ok(())
    }
}

/// Once a configuration is stored, every further `initialize` is refused
/// with `AlreadyInitialized`, whatever its arguments.
pub proof fn lemma_initialize_only_once(
    store: ContractStore,
    admin: AccountId,
    treasury: AccountId,
    fee_bps: u32,
    min_wager: i128,
    max_wager: i128,
)
    requires
        store.holds(StorageKey::Config),
    ensures
        initialize_result(store.holds(StorageKey::Config), admin, treasury, fee_bps, min_wager, max_wager)
            == Err::<(), Error>(Error::AlreadyInitialized),
{
}

/// On a fresh contract, distinct admin and treasury addresses, a fee in
/// 200..=500 and `min_wager < max_wager` are always accepted.
pub proof fn lemma_valid_parameters_accepted(
    admin: AccountId,
    treasury: AccountId,
    fee_bps: u32,
    min_wager: i128,
    max_wager: i128,
)
    requires
        admin != treasury,
        200 <= fee_bps <= 500,
        min_wager < max_wager,
    ensures
        initialize_result(false, admin, treasury, fee_bps, min_wager, max_wager) == Ok::<(), Error>(()),
{
}

/// An accepted game is covered: the contract is not paused, the wager is
/// within the configured bounds, and the reserves hold at least the
/// worst-case payout of ten times the wager.
pub proof fn lemma_accepted_game_is_covered(
    config: ContractConfig,
    stats: ContractStats,
    existing: Option<GameState>,
    wager: i128,
)
    requires
        start_rejection(config, stats, existing, wager) is None,
    ensures
        !config.paused,
        config.min_wager <= wager <= config.max_wager,
        stats.reserve_balance >= wager * 10,
        existing matches Some(g) ==> g.phase == GamePhase::Completed,
{
}

/// Reserves stay non-negative: when a non-negative wager is accepted on
/// non-negative reserves, the reserve balance after adding the wager is
/// still non-negative (it is at least eleven times the wager).
pub proof fn lemma_reserve_stays_non_negative(
    config: ContractConfig,
    stats: ContractStats,
    existing: Option<GameState>,
    wager: i128,
)
    requires
        start_rejection(config, stats, existing, wager) is None,
        wager >= 0,
    ensures
        stats.reserve_balance + wager >= 11 * wager >= 0,
{
}

/// A started game blocks a second start for the same player: once the
/// pending game is recorded, any further start whose wager passes the
/// bound checks is refused with `ActiveGameExists`.
pub proof fn lemma_started_game_blocks_restart(
    games: Map<AccountId, GameState>,
    config: ContractConfig,
    stats: ContractStats,
    player: AccountId,
    side: Side,
    wager: i128,
    commitment: [u8; 32],
    contract_random: [u8; 32],
    next_wager: i128,
)
    requires
        !config.paused,
        config.min_wager <= next_wager <= config.max_wager,
    ensures
        start_rejection(
            config,
            stats,
            lookup(
                games.insert(
                    player,
                    pending_game(config, player, side, wager, commitment, contract_random).game,
                ),
                player,
            ),
            next_wager,
        ) == Some(Error::ActiveGameExists),
{
}

/// Games are kept per player: recording a game for one player leaves the
/// game of every other player as it was, so two players who start games
/// each find their own.
pub proof fn lemma_games_isolated_per_player(
    games: Map<AccountId, GameState>,
    first: AccountId,
    first_game: GameState,
    second: AccountId,
    second_game: GameState,
)
    requires
        first != second,
    ensures
        lookup(games.insert(first, first_game), second) == lookup(games, second),
        lookup(games.insert(first, first_game).insert(second, second_game), first) == Some(
            first_game,
        ),
        lookup(games.insert(first, first_game).insert(second, second_game), second) == Some(
            second_game,
        ),
{
}

/// Everything a new game must meet: the contract is not paused, the wager is
/// within the configured bounds, the player has no stored game or only a
/// `Completed` one, and the reserves cover ten times the wager (with
/// `wager * 100_000` representable).
pub open spec fn new_game_admissible(
    config: ContractConfig,
    stats: ContractStats,
    existing: Option<GameState>,
    wager: i128,
) -> bool {
    &&& !config.paused
    &&& config.min_wager <= wager <= config.max_wager
    &&& (existing is None || existing.unwrap().phase == GamePhase::Completed)
    &&& i128::MIN <= wager * 100_000 <= i128::MAX
    &&& stats.reserve_balance >= wager * 10
}

/// The guards of a new game refuse exactly the inadmissible games: a game
/// is accepted if and only if the contract is not paused, the wager is in
/// bounds, the player has no unfinished game, and the reserves cover ten
/// times this wager. Nothing else (an earlier completed game, say) is asked.
pub proof fn lemma_start_accepted_exactly_when_admissible(
    config: ContractConfig,
    stats: ContractStats,
    existing: Option<GameState>,
    wager: i128,
)
    ensures
        start_rejection(config, stats, existing, wager) is None <==> new_game_admissible(
            config,
            stats,
            existing,
            wager,
        ),
{
}

/// `initialize` succeeds exactly on a store without configuration, with
/// distinct admin and treasury, a fee of 200 to 500 bps and
/// `min_wager < max_wager`; each failed condition gives its own error,
/// checked in that order.
pub proof fn lemma_initialize_accepts_exactly_valid_parameters(
    initialized: bool,
    admin: AccountId,
    treasury: AccountId,
    fee_bps: u32,
    min_wager: i128,
    max_wager: i128,
)
    ensures
        initialize_result(initialized, admin, treasury, fee_bps, min_wager, max_wager) is Ok
            <==> (!initialized && admin != treasury && 200 <= fee_bps <= 500 && min_wager
            < max_wager),
        initialized ==> initialize_result(
            initialized,
            admin,
            treasury,
            fee_bps,
            min_wager,
            max_wager,
        ) == Err::<(), Error>(Error::AlreadyInitialized),
        !initialized && admin == treasury ==> initialize_result(
            initialized,
            admin,
            treasury,
            fee_bps,
            min_wager,
            max_wager,
        ) == Err::<(), Error>(Error::AdminTreasuryConflict),
        !initialized && admin != treasury && (fee_bps < 200 || fee_bps > 500) ==> initialize_result(
            initialized,
            admin,
            treasury,
            fee_bps,
            min_wager,
            max_wager,
        ) == Err::<(), Error>(Error::InvalidFeePercentage),
        !initialized && admin != treasury && 200 <= fee_bps <= 500 && min_wager >= max_wager
            ==> initialize_result(initialized, admin, treasury, fee_bps, min_wager, max_wager)
            == Err::<(), Error>(Error::InvalidWagerLimits),
{
}

/// The statistics after a start: the reserve grows by exactly the wager,
/// the fees are untouched, the volume grows by the wager whenever the sum is
/// representable, and the game count grows by one below its maximum.
pub proof fn lemma_started_game_stats(before: ContractStats, wager: i128)
    requires
        i128::MIN <= before.reserve_balance + wager <= i128::MAX,
    ensures
        started_game_stats(before, wager).reserve_balance == before.reserve_balance + wager,
        started_game_stats(before, wager).total_fees == before.total_fees,
        i128::MIN <= before.total_volume + wager <= i128::MAX ==> started_game_stats(
            before,
            wager,
        ).total_volume == before.total_volume + wager,
        before.total_games < u64::MAX ==> started_game_stats(before, wager).total_games
            == before.total_games + 1,
{
}

} // verus!
