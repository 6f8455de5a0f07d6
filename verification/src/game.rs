//! The values the contract keeps: error codes, game state, configuration
//! and statistics.

use vstd::prelude::*;

verus! {

/// Number of bytes in the Stellar strkey of an account (`G...`) or
/// contract (`C...`) address.
pub const STRKEY_LEN: usize = 56;

/// A Stellar address, held as its 56-character strkey.
///
/// Two addresses are the same address exactly when their strkeys are equal.
#[derive(Clone, Copy, Debug, PartialEq, Eq)]
pub struct AccountId {
    pub strkey: [u8; 56],
}

impl AccountId {
    /// Wraps a strkey.
    pub fn from_strkey(strkey: [u8; 56]) -> (a: AccountId)
        ensures
            a.strkey == strkey,
    {
        AccountId { strkey }
    }

    /// Whether `self` and `other` are the same address.
    pub fn same_as(&self, other: &AccountId) -> (r: bool)
        ensures
            r == (*self == *other),
    {
        let mut i: usize = 0;
        while i < STRKEY_LEN
            invariant
                0 <= i <= STRKEY_LEN,
                forall|j: int| 0 <= j < i ==> self.strkey[j] == other.strkey[j],
            decreases STRKEY_LEN - i,
        {
            if self.strkey[i] != other.strkey[i] {
                assert(self.strkey@[i as int] != other.strkey@[i as int]);
                return false;
            }
            i = i + 1;
        }
        assert(self.strkey =~= other.strkey);
        true
    }
}

/// Error codes of the coinflip contract.
#[derive(Clone, Copy, Debug, PartialEq, Eq, Structural, PartialOrd, Ord)]
pub enum Error {
    WagerBelowMinimum,
    WagerAboveMaximum,
    ActiveGameExists,
    InsufficientReserves,
    ContractPaused,
    NoActiveGame,
    InvalidPhase,
    CommitmentMismatch,
    RevealTimeout,
    NoWinningsToClaimOrContinue,
    InvalidCommitment,
    Unauthorized,
    InvalidFeePercentage,
    InvalidWagerLimits,
    TransferFailed,
    /// admin and treasury must be distinct addresses
    AdminTreasuryConflict,
    /// contract has already been initialized
    AlreadyInitialized,
}

/// The stable numeric code of each error, as clients and indexers see it.
pub open spec fn error_code(e: Error) -> u32 {
    match e {
        Error::WagerBelowMinimum => 1,
        Error::WagerAboveMaximum => 2,
        Error::ActiveGameExists => 3,
        Error::InsufficientReserves => 4,
        Error::ContractPaused => 5,
        Error::NoActiveGame => 10,
        Error::InvalidPhase => 11,
        Error::CommitmentMismatch => 12,
        Error::RevealTimeout => 13,
        Error::NoWinningsToClaimOrContinue => 20,
        Error::InvalidCommitment => 21,
        Error::Unauthorized => 30,
        Error::InvalidFeePercentage => 31,
        Error::InvalidWagerLimits => 32,
        Error::TransferFailed => 40,
        Error::AdminTreasuryConflict => 50,
        Error::AlreadyInitialized => 51,
    }
}

impl Error {
    /// The stable numeric code of this error.
    pub fn code(&self) -> (c: u32)
        ensures
            c == error_code(*self),
    {
        match self {
            Error::WagerBelowMinimum => 1,
            Error::WagerAboveMaximum => 2,
            Error::ActiveGameExists => 3,
            Error::InsufficientReserves => 4,
            Error::ContractPaused => 5,
            Error::NoActiveGame => 10,
            Error::InvalidPhase => 11,
            Error::CommitmentMismatch => 12,
            Error::RevealTimeout => 13,
            Error::NoWinningsToClaimOrContinue => 20,
            Error::InvalidCommitment => 21,
            Error::Unauthorized => 30,
            Error::InvalidFeePercentage => 31,
            Error::InvalidWagerLimits => 32,
            Error::TransferFailed => 40,
            Error::AdminTreasuryConflict => 50,
            Error::AlreadyInitialized => 51,
        }
    }
}

/// Distinct errors have distinct codes, so a code identifies its error.
pub proof fn lemma_error_codes_distinct(e1: Error, e2: Error)
    ensures
        e1 != e2 ==> error_code(e1) != error_code(e2),
{
}

/// Side choice for the coinflip (`Heads` is 0, `Tails` is 1).
#[derive(Clone, Copy, Debug, PartialEq, Eq, Structural)]
pub enum Side {
    Heads,
    Tails,
}

/// Game phase: `Committed` (waiting for reveal), `Revealed` (outcome
/// determined, awaiting decision), `Completed` (game ended).
#[derive(Clone, Copy, Debug, PartialEq, Eq, Structural)]
pub enum GamePhase {
    Committed,
    Revealed,
    Completed,
}

/// Per-player game state, stored in `Committed` phase at game start.
///
/// - `wager`: the bet in stroops, locked for the duration of the game
/// - `side`: the player's chosen outcome
/// - `streak`: consecutive wins so far; 0 for a fresh game
/// - `commitment`: SHA-256 hash of the player's secret random value
/// - `contract_random`: SHA-256 of the big-endian ledger sequence at start
/// - `phase`: lifecycle position, `Committed` -> `Revealed` -> `Completed`
#[derive(Clone, Copy, Debug, PartialEq, Eq)]
pub struct GameState {
    pub wager: i128,
    pub side: Side,
    pub streak: u32,
    pub commitment: [u8; 32],
    pub contract_random: [u8; 32],
    pub phase: GamePhase,
}

/// Contract configuration.
#[derive(Clone, Copy, Debug, PartialEq, Eq)]
pub struct ContractConfig {
    /// Administrator address.
    pub admin: AccountId,
    /// Fee collection address.
    pub treasury: AccountId,
    /// Token contract that holds wagers in custody.
    pub token: AccountId,
    /// Fee in basis points (200..=500, that is 2% to 5%).
    pub fee_bps: u32,
    /// Minimum wager in stroops.
    pub min_wager: i128,
    /// Maximum wager in stroops.
    pub max_wager: i128,
    /// Emergency pause flag: blocks new games.
    pub paused: bool,
}

/// Contract statistics.
#[derive(Clone, Copy, Debug, PartialEq, Eq)]
pub struct ContractStats {
    /// Total games played.
    pub total_games: u64,
    /// Total amount wagered.
    pub total_volume: i128,
    /// Total fees collected.
    pub total_fees: i128,
    /// Current contract reserves.
    pub reserve_balance: i128,
}

/// Keys of the contract's persistent entries.
#[derive(Clone, Copy, Debug, PartialEq, Eq)]
pub enum StorageKey {
    /// Global configuration.
    Config,
    /// Global statistics.
    Stats,
    /// Per-player game state.
    PlayerGame(AccountId),
}

} // verus!
