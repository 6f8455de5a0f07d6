use coinflip::contract::CoinflipContract;
use coinflip::randomness::{contract_random, u32_be_bytes};
use coinflip::store::ContractStore;
use coinflip::{calculate_payout, get_multiplier};
use coinflip::{AccountId, Error, GamePhase, GameState, Side, StorageKey};
use soroban_sdk::testutils::EnvTestConfig;
use soroban_sdk::Env;

fn test_env() -> Env {
    Env::new_with_config(EnvTestConfig { capture_snapshot_at_drop: false })
}

/// An address whose strkey is `G` followed by the letter `tag`.
fn addr(tag: u8) -> AccountId {
    let mut strkey = [b'A'; 56];
    strkey[0] = b'G';
    strkey[55] = tag;
    AccountId::from_strkey(strkey)
}

fn gross(wager: i128, streak: u32) -> i128 {
    wager * get_multiplier(streak) as i128 / 10_000
}

/// Initialised store: fee 300 bps, wagers 1_000_000..=100_000_000,
/// reserves 1_000_000_000.
fn funded_store() -> ContractStore {
    let mut store = ContractStore::new();
    CoinflipContract::initialize(&mut store, addr(b'B'), addr(b'C'), addr(b'D'), 300, 1_000_000, 100_000_000)
        .unwrap();
    let mut stats = CoinflipContract::load_stats(&store);
    stats.reserve_balance = 1_000_000_000;
    CoinflipContract::save_stats(&mut store, stats);
    store
}

fn start(store: &mut ContractStore, env: &Env, player: AccountId, wager: i128) -> Result<(), Error> {
    let pending = CoinflipContract::start_game(store, env, player, Side::Heads, wager, [7u8; 32], 0)?;
    CoinflipContract::record_started_game(store, pending)
}

#[test]
fn multiplier_strictly_increases_to_the_cap() {
    for streak in 1u32..=3 {
        assert!(get_multiplier(streak) < get_multiplier(streak + 1));
    }
}

#[test]
fn multiplier_constant_from_streak_four() {
    for streak in 4u32..=1_000 {
        assert_eq!(get_multiplier(streak), 100_000);
        assert!(get_multiplier(3) < get_multiplier(streak));
    }
}

#[test]
fn multiplier_between_one_and_ten_times() {
    for streak in 0u32..=100 {
        let m = get_multiplier(streak);
        assert!(m > 10_000 && m <= 100_000);
    }
    assert_eq!(get_multiplier(u32::MAX), 100_000);
}

#[test]
fn payout_formula_exact_values() {
    assert_eq!(calculate_payout(7, 2, 250), Some(24));
    assert_eq!(calculate_payout(123_456_789, 3, 437), Some(708_370_364));
}

#[test]
fn payout_rounds_toward_zero_for_negative_wagers() {
    assert_eq!(calculate_payout(-1, 1, 300), Some(-1));
    assert_eq!(calculate_payout(-10_000_000, 1, 300), Some(-18_430_000));
}

#[test]
fn payout_fee_product_overflow_returns_none() {
    let safe = i128::MAX / 100_000;
    assert_eq!(calculate_payout(safe, 4, u32::MAX), None);
    assert_eq!(calculate_payout(safe, 4, 500), Some(16_163_412_428_744_577_014_510_293_853_008_990));
}

#[test]
fn payout_above_safe_wager_overflows_only_at_cap() {
    let above = i128::MAX / 100_000 + 1;
    assert_eq!(calculate_payout(above, 4, 300), None);
    assert_eq!(calculate_payout(above, 1, 300), Some(3_135_702_011_176_447_940_814_997_007_483_746));
}

#[test]
fn payout_net_below_gross_when_fee_nonzero() {
    for wager in [150i128, 1_000, 10_000_000, 99_999_999] {
        for streak in 1u32..=10 {
            for fee in [200u32, 300, 500] {
                let g = gross(wager, streak);
                if g * fee as i128 >= 10_000 {
                    assert!(calculate_payout(wager, streak, fee).unwrap() < g);
                }
            }
        }
    }
}

#[test]
fn payout_equals_gross_when_fee_rounds_to_zero() {
    assert_eq!(gross(1, 1), 1);
    assert_eq!(calculate_payout(1, 1, 300), Some(1));
}

#[test]
fn payout_always_positive() {
    for wager in [1i128, 2, 17, 10_000_000, 99_999_999] {
        for streak in 1u32..=10 {
            for fee in [200u32, 350, 500, 9_999] {
                assert!(calculate_payout(wager, streak, fee).unwrap() > 0);
            }
        }
    }
}

#[test]
fn payout_increases_with_streak() {
    for wager in [1i128, 2, 3, 1_000_001, 99_999_999] {
        for streak in 1u32..=3 {
            for fee in [200u32, 500] {
                let lower = calculate_payout(wager, streak, fee).unwrap();
                let higher = calculate_payout(wager, streak + 1, fee).unwrap();
                assert!(higher > lower);
            }
        }
    }
}

#[test]
fn payout_linear_in_wager() {
    for wager in [1i128, 3, 7, 4_999, 49_999_999] {
        for streak in 1u32..=10 {
            for fee in [200u32, 333, 500, 10_000] {
                let single = calculate_payout(wager, streak, fee).unwrap();
                let double = calculate_payout(wager * 2, streak, fee).unwrap();
                assert!((double - single * 2).abs() <= 1);
            }
        }
    }
}

#[test]
fn error_codes_are_distinct() {
    let all = [
        Error::WagerBelowMinimum,
        Error::WagerAboveMaximum,
        Error::ActiveGameExists,
        Error::InsufficientReserves,
        Error::ContractPaused,
        Error::NoActiveGame,
        Error::InvalidPhase,
        Error::CommitmentMismatch,
        Error::RevealTimeout,
        Error::NoWinningsToClaimOrContinue,
        Error::InvalidCommitment,
        Error::Unauthorized,
        Error::InvalidFeePercentage,
        Error::InvalidWagerLimits,
        Error::TransferFailed,
        Error::AdminTreasuryConflict,
        Error::AlreadyInitialized,
    ];
    for (i, a) in all.iter().enumerate() {
        for (j, b) in all.iter().enumerate() {
            assert_eq!(i == j, a.code() == b.code());
        }
    }
}

#[test]
fn initialize_stores_config_and_zero_stats() {
    let mut store = ContractStore::new();
    assert!(!store.has(&StorageKey::Config));
    assert_eq!(
        CoinflipContract::initialize(&mut store, addr(b'B'), addr(b'C'), addr(b'D'), 250, -5, 5),
        Ok(())
    );
    let config = CoinflipContract::load_config(&store);
    assert_eq!(config.admin, addr(b'B'));
    assert_eq!(config.treasury, addr(b'C'));
    assert_eq!(config.token, addr(b'D'));
    assert_eq!(config.fee_bps, 250);
    assert_eq!((config.min_wager, config.max_wager), (-5, 5));
    assert!(!config.paused);
    let stats = CoinflipContract::load_stats(&store);
    assert_eq!(stats.total_games, 0);
    assert_eq!(stats.total_volume, 0);
    assert_eq!(stats.total_fees, 0);
    assert_eq!(stats.reserve_balance, 0);
    assert!(store.has(&StorageKey::Config));
    assert!(store.has(&StorageKey::Stats));
}

#[test]
fn initialize_accepts_all_valid_parameters() {
    for fee in [200u32, 201, 350, 499, 500] {
        for (min, max) in [(1_000_000i128, 10_000_001i128), (9_999_999, 999_999_999), (0, 1)] {
            let mut store = ContractStore::new();
            assert!(CoinflipContract::initialize(&mut store, addr(b'B'), addr(b'C'), addr(b'D'), fee, min, max)
                .is_ok());
        }
    }
}

#[test]
fn initialize_rejection_changes_nothing() {
    let mut store = ContractStore::new();
    assert_eq!(
        CoinflipContract::initialize(&mut store, addr(b'B'), addr(b'C'), addr(b'D'), 199, 1, 2),
        Err(Error::InvalidFeePercentage)
    );
    assert_eq!(
        CoinflipContract::initialize(&mut store, addr(b'B'), addr(b'C'), addr(b'D'), 501, 1, 2),
        Err(Error::InvalidFeePercentage)
    );
    assert_eq!(
        CoinflipContract::initialize(&mut store, addr(b'B'), addr(b'C'), addr(b'D'), 300, 2, 2),
        Err(Error::InvalidWagerLimits)
    );
    assert!(!store.has(&StorageKey::Config));
    assert!(!store.has(&StorageKey::Stats));
}

#[test]
fn initialize_checks_reinitialization_first() {
    let mut store = ContractStore::new();
    CoinflipContract::initialize(&mut store, addr(b'B'), addr(b'C'), addr(b'D'), 300, 1, 2).unwrap();
    assert_eq!(
        CoinflipContract::initialize(&mut store, addr(b'B'), addr(b'B'), addr(b'D'), 1, 5, 2),
        Err(Error::AlreadyInitialized)
    );
    assert_eq!(CoinflipContract::load_config(&store).fee_bps, 300);
}

#[test]
fn wager_bounds_are_inclusive() {
    let env = test_env();
    let mut store = funded_store();
    assert_eq!(start(&mut store, &env, addr(b'1'), 999_999), Err(Error::WagerBelowMinimum));
    assert_eq!(start(&mut store, &env, addr(b'2'), 1_000_000), Ok(()));
    assert_eq!(start(&mut store, &env, addr(b'3'), 100_000_001), Err(Error::WagerAboveMaximum));
    assert_eq!(start(&mut store, &env, addr(b'4'), 100_000_000), Ok(()));
}

#[test]
fn completed_game_does_not_block_a_new_one() {
    let env = test_env();
    let mut store = funded_store();
    let player = addr(b'P');
    let done = GameState {
        wager: 5_000_000,
        side: Side::Tails,
        streak: 3,
        commitment: [1u8; 32],
        contract_random: [2u8; 32],
        phase: GamePhase::Completed,
    };
    CoinflipContract::save_player_game(&mut store, &player, &done);
    assert_eq!(start(&mut store, &env, player, 2_000_000), Ok(()));
    let game = CoinflipContract::load_player_game(&store, &player).unwrap();
    assert_eq!(game.streak, 0);
    assert_eq!(game.wager, 2_000_000);
    assert_eq!(game.phase, GamePhase::Committed);
}

#[test]
fn revealed_game_blocks_a_new_one() {
    let env = test_env();
    let mut store = funded_store();
    let player = addr(b'P');
    let revealed = GameState {
        wager: 5_000_000,
        side: Side::Heads,
        streak: 1,
        commitment: [1u8; 32],
        contract_random: [2u8; 32],
        phase: GamePhase::Revealed,
    };
    CoinflipContract::save_player_game(&mut store, &player, &revealed);
    assert_eq!(start(&mut store, &env, player, 2_000_000), Err(Error::ActiveGameExists));
    assert_eq!(CoinflipContract::load_player_game(&store, &player), Some(revealed));
}

#[test]
fn paused_check_comes_before_wager_checks() {
    let env = test_env();
    let mut store = funded_store();
    let mut config = CoinflipContract::load_config(&store);
    config.paused = true;
    CoinflipContract::save_config(&mut store, config);
    assert_eq!(start(&mut store, &env, addr(b'P'), 1), Err(Error::ContractPaused));
}

#[test]
fn overflowing_worst_case_payout_is_insufficient_reserves() {
    let env = test_env();
    let mut store = ContractStore::new();
    CoinflipContract::initialize(&mut store, addr(b'B'), addr(b'C'), addr(b'D'), 300, 1, i128::MAX).unwrap();
    let mut stats = CoinflipContract::load_stats(&store);
    stats.reserve_balance = i128::MAX;
    CoinflipContract::save_stats(&mut store, stats);
    let wager = i128::MAX / 100_000 + 1;
    assert_eq!(start(&mut store, &env, addr(b'P'), wager), Err(Error::InsufficientReserves));
    assert_eq!(CoinflipContract::max_payout(wager), None);
    assert_eq!(CoinflipContract::max_payout(wager - 1), Some((wager - 1) * 10));
}

#[test]
fn reserve_overflow_is_transfer_failed_and_changes_nothing() {
    let env = test_env();
    let mut store = ContractStore::new();
    CoinflipContract::initialize(&mut store, addr(b'B'), addr(b'C'), addr(b'D'), 300, 1, 100).unwrap();
    let mut stats = CoinflipContract::load_stats(&store);
    stats.reserve_balance = i128::MAX - 5;
    CoinflipContract::save_stats(&mut store, stats);
    let player = addr(b'P');
    assert_eq!(start(&mut store, &env, player, 10), Err(Error::TransferFailed));
    assert_eq!(CoinflipContract::load_stats(&store).reserve_balance, i128::MAX - 5);
    assert_eq!(CoinflipContract::load_player_game(&store, &player), None);
}

#[test]
fn start_game_orders_the_wager_transfer() {
    let env = test_env();
    let store = funded_store();
    let player = addr(b'P');
    let pending =
        CoinflipContract::start_game(&store, &env, player, Side::Tails, 3_000_000, [9u8; 32], 0).unwrap();
    assert_eq!(pending.player, player);
    assert_eq!(pending.transfer.token, addr(b'D'));
    assert_eq!(pending.transfer.from, player);
    assert_eq!(pending.transfer.amount, 3_000_000);
    assert_eq!(pending.game.commitment, [9u8; 32]);
    assert_eq!(pending.game.side, Side::Tails);
    assert_eq!(CoinflipContract::load_player_game(&store, &player), None);
}

#[test]
fn contract_random_is_sha256_of_big_endian_sequence() {
    let env = test_env();
    assert_eq!(u32_be_bytes(0x0102_0304), [1, 2, 3, 4]);
    assert_eq!(u32_be_bytes(258), [0, 0, 1, 2]);
    assert_eq!(
        contract_random(&env, 0),
        [
            223, 63, 97, 152, 4, 169, 47, 219, 64, 87, 25, 45, 196, 61, 215, 72, 234, 119, 138, 220,
            82, 188, 73, 140, 232, 5, 36, 192, 20, 184, 17, 25
        ]
    );
    assert_eq!(
        contract_random(&env, 258),
        [
            107, 2, 113, 248, 204, 151, 18, 28, 158, 37, 232, 199, 49, 244, 124, 148, 27, 72, 124,
            88, 63, 95, 225, 84, 152, 164, 198, 241, 153, 74, 242, 153
        ]
    );
    let store = funded_store();
    let pending =
        CoinflipContract::start_game(&store, &env, addr(b'P'), Side::Heads, 2_000_000, [0u8; 32], 258).unwrap();
    assert_eq!(pending.game.contract_random, contract_random(&env, 258));
}

#[test]
fn games_are_isolated_per_player() {
    let env = test_env();
    let mut store = funded_store();
    let p1 = addr(b'1');
    let p2 = addr(b'2');
    start(&mut store, &env, p1, 1_000_000).unwrap();
    let first = CoinflipContract::load_player_game(&store, &p1).unwrap();
    start(&mut store, &env, p2, 2_000_000).unwrap();
    assert_eq!(CoinflipContract::load_player_game(&store, &p1), Some(first));
    assert_eq!(CoinflipContract::load_player_game(&store, &p2).unwrap().wager, 2_000_000);
    assert_eq!(CoinflipContract::load_stats(&store).reserve_balance, 1_003_000_000);
}

#[test]
fn deleted_game_frees_the_player_slot() {
    let env = test_env();
    let mut store = funded_store();
    let player = addr(b'P');
    let other = addr(b'Q');
    start(&mut store, &env, player, 1_000_000).unwrap();
    start(&mut store, &env, other, 1_000_000).unwrap();
    assert!(store.has(&StorageKey::PlayerGame(player)));
    CoinflipContract::delete_player_game(&mut store, &player);
    assert!(!store.has(&StorageKey::PlayerGame(player)));
    assert!(store.has(&StorageKey::PlayerGame(other)));
    assert_eq!(start(&mut store, &env, player, 1_000_000), Ok(()));
}

#[test]
fn same_address_compares_by_strkey() {
    assert!(addr(b'X').same_as(&addr(b'X')));
    assert!(!addr(b'X').same_as(&addr(b'Y')));
}

#[test]
fn start_counts_the_game_and_its_volume() {
    let env = test_env();
    let mut store = funded_store();
    let before = CoinflipContract::load_stats(&store);
    start(&mut store, &env, addr(b'1'), 1_000_000).unwrap();
    start(&mut store, &env, addr(b'2'), 2_500_000).unwrap();
    let after = CoinflipContract::load_stats(&store);
    assert_eq!(after.total_games, before.total_games + 2);
    assert_eq!(after.total_volume, before.total_volume + 3_500_000);
    assert_eq!(after.total_fees, before.total_fees);
    assert_eq!(after.reserve_balance, before.reserve_balance + 3_500_000);
}

#[test]
fn volume_overflow_keeps_the_volume_and_starts_the_game() {
    let env = test_env();
    let mut store = funded_store();
    let mut stats = CoinflipContract::load_stats(&store);
    stats.total_volume = i128::MAX - 5;
    CoinflipContract::save_stats(&mut store, stats);
    let player = addr(b'P');
    assert_eq!(start(&mut store, &env, player, 1_000_000), Ok(()));
    let after = CoinflipContract::load_stats(&store);
    assert_eq!(after.total_volume, i128::MAX - 5);
    assert_eq!(after.reserve_balance, stats.reserve_balance + 1_000_000);
    assert_eq!(after.total_games, stats.total_games + 1);
    assert_eq!(CoinflipContract::load_player_game(&store, &player).unwrap().wager, 1_000_000);
}

#[test]
fn game_count_stays_at_its_maximum() {
    let env = test_env();
    let mut store = funded_store();
    let mut stats = CoinflipContract::load_stats(&store);
    stats.total_games = u64::MAX;
    CoinflipContract::save_stats(&mut store, stats);
    start(&mut store, &env, addr(b'P'), 1_000_000).unwrap();
    let after = CoinflipContract::load_stats(&store);
    assert_eq!(after.total_games, u64::MAX);
    assert_eq!(after.total_volume, 1_000_000);
}
