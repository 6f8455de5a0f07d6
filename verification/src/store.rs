//! The contract's persistent entries as one value: the configuration, the
//! statistics and one game per player.

use crate::game::{AccountId, ContractConfig, ContractStats, GameState, StorageKey};
use vstd::prelude::*;

verus! {

/// No player occurs twice among the entries.
pub open spec fn keys_distinct(s: Seq<(AccountId, GameState)>) -> bool {
    forall|i: int, j: int|
        0 <= i < s.len() && 0 <= j < s.len() && i != j ==> (#[trigger] s[i]).0 != (#[trigger] s[j]).0
}

/// `player` has an entry in `s`.
pub open spec fn has_entry(s: Seq<(AccountId, GameState)>, player: AccountId) -> bool {
    exists|i: int| 0 <= i < s.len() && (#[trigger] s[i]).0 == player
}

/// The map from player to game that a list of entries stands for.
pub open spec fn entries_map(s: Seq<(AccountId, GameState)>) -> Map<AccountId, GameState> {
    Map::new(
        |k: AccountId| has_entry(s, k),
        |k: AccountId| s[choose|i: int| 0 <= i < s.len() && (#[trigger] s[i]).0 == k].1,
    )
}

/// With distinct keys, the entry at `i` is what the map holds for its key.
proof fn lemma_entry_in_map(s: Seq<(AccountId, GameState)>, i: int)
    requires
        keys_distinct(s),
        0 <= i < s.len(),
    ensures
        entries_map(s).contains_key(s[i].0),
        entries_map(s)[s[i].0] == s[i].1,
{
    let k = s[i].0;
    assert(has_entry(s, k));
    let j = choose|j: int| 0 <= j < s.len() && (#[trigger] s[j]).0 == k;
    assert(0 <= j < s.len() && s[j].0 == k);
    assert(j == i);
}

/// Every key of the map has an entry in the list.
proof fn lemma_map_key_has_entry(s: Seq<(AccountId, GameState)>, k: AccountId)
    requires
        keys_distinct(s),
        entries_map(s).contains_key(k),
    ensures
        exists|i: int| 0 <= i < s.len() && (#[trigger] s[i]).0 == k && entries_map(s)[k] == s[i].1,
{
    let i = choose|i: int| 0 <= i < s.len() && (#[trigger] s[i]).0 == k;
    lemma_entry_in_map(s, i);
}

/// The game stored for `player` in `games`, if any.
pub open spec fn lookup(games: Map<AccountId, GameState>, player: AccountId) -> Option<GameState> {
    if games.contains_key(player) {
        Some(games[player])
    } else {
        None
    }
}

/// One game per player, kept as a list of distinct `(player, game)` entries.
pub struct GameTable {
    entries: Vec<(AccountId, GameState)>,
}

impl View for GameTable {
    type V = Map<AccountId, GameState>;

    closed spec fn view(&self) -> Map<AccountId, GameState> {
        entries_map(self.entries@)
    }
}

impl GameTable {
    /// No player has two entries.
    pub closed spec fn wf(&self) -> bool {
        keys_distinct(self.entries@)
    }

    /// An empty table.
    pub fn new() -> (t: GameTable)
        ensures
            t.wf(),
            t@ == Map::<AccountId, GameState>::empty(),
    {
        let t = GameTable { entries: Vec::new() };
        assert(t@ =~= Map::<AccountId, GameState>::empty());
        t
    }

    /// The position of `player`'s entry, if there is one.
    fn find(&self, player: &AccountId) -> (r: Option<usize>)
        requires
            self.wf(),
        ensures
            match r {
                Some(i) => i < self.entries@.len() && self.entries@[i as int].0 == *player,
                None => !has_entry(self.entries@, *player),
            },
    {
        let mut i: usize = 0;
        while i < self.entries.len()
            invariant
                0 <= i <= self.entries@.len(),
                forall|j: int| 0 <= j < i ==> (#[trigger] self.entries@[j]).0 != *player,
            decreases self.entries@.len() - i,
        {
            if self.entries[i].0.same_as(player) {
                return Some(i);
            }
            i = i + 1;
        }
        None
    }

    /// The game of `player`, if it has one.
    pub fn get(&self, player: &AccountId) -> (r: Option<GameState>)
        requires
            self.wf(),
        ensures
            match r {
                Some(g) => self@.contains_key(*player) && self@[*player] == g,
                None => !self@.contains_key(*player),
            },
    {
        match self.find(player) {
            Some(i) => {
                proof {
                    lemma_entry_in_map(self.entries@, i as int);
                }
                Some(self.entries[i].1)
            },
            None => None,
        }
    }

    /// Stores `game` as the game of `player`, replacing any earlier one.
    pub fn insert(&mut self, player: AccountId, game: GameState)
        requires
            old(self).wf(),
        ensures
            final(self).wf(),
            final(self)@ == old(self)@.insert(player, game),
    {
        let ghost old_entries = self.entries@;
        match self.find(&player) {
            Some(i) => {
                self.entries.set(i, (player, game));
                let ghost s = self.entries@;
                assert(s == old_entries.update(i as int, (player, game)));
                assert(keys_distinct(s)) by {
                    assert forall|a: int, b: int|
                        0 <= a < s.len() && 0 <= b < s.len() && a != b implies (#[trigger] s[a]).0
                        != (#[trigger] s[b]).0 by {
                        if a != i && b != i {
                            assert(old_entries[a] == s[a] && old_entries[b] == s[b]);
                        } else if a == i {
                            assert(old_entries[b] == s[b]);
                            assert(old_entries[i as int].0 == player);
                        } else {
                            assert(old_entries[a] == s[a]);
                            assert(old_entries[i as int].0 == player);
                        }
                    }
                }
                assert(entries_map(s) =~= entries_map(old_entries).insert(player, game)) by {
                    assert forall|k: AccountId|
                        #[trigger] entries_map(s).contains_key(k) implies entries_map(
                        old_entries,
                    ).insert(player, game).contains_key(k) by {
                        let j = choose|j: int| 0 <= j < s.len() && (#[trigger] s[j]).0 == k;
                        if j != i {
                            assert(old_entries[j] == s[j]);
                            lemma_entry_in_map(old_entries, j);
                        }
                    }
                    assert forall|k: AccountId|
                        #[trigger] entries_map(old_entries).insert(player, game).contains_key(
                            k,
                        ) implies entries_map(s).contains_key(k) && entries_map(s)[k]
                        == entries_map(old_entries).insert(player, game)[k] by {
                        if k == player {
                            lemma_entry_in_map(s, i as int);
                        } else {
                            lemma_map_key_has_entry(old_entries, k);
                            let j = choose|j: int|
                                0 <= j < old_entries.len() && (#[trigger] old_entries[j]).0 == k
                                    && entries_map(old_entries)[k] == old_entries[j].1;
                            assert(j != i);
                            assert(s[j] == old_entries[j]);
                            lemma_entry_in_map(s, j);
                        }
                    }
                }
            },
            None => {
                self.entries.push((player, game));
                let ghost s = self.entries@;
                assert(s == old_entries.push((player, game)));
                assert(keys_distinct(s)) by {
                    assert forall|a: int, b: int|
                        0 <= a < s.len() && 0 <= b < s.len() && a != b implies (#[trigger] s[a]).0
                        != (#[trigger] s[b]).0 by {
                        let n = old_entries.len() as int;
                        if a < n && b < n {
                            assert(old_entries[a] == s[a] && old_entries[b] == s[b]);
                        } else if a == n {
                            assert(old_entries[b] == s[b]);
                        } else {
                            assert(old_entries[a] == s[a]);
                        }
                    }
                }
                assert(entries_map(s) =~= entries_map(old_entries).insert(player, game)) by {
                    let n = old_entries.len() as int;
                    assert forall|k: AccountId|
                        #[trigger] entries_map(s).contains_key(k) implies entries_map(
                        old_entries,
                    ).insert(player, game).contains_key(k) by {
                        let j = choose|j: int| 0 <= j < s.len() && (#[trigger] s[j]).0 == k;
                        if j != n {
                            assert(old_entries[j] == s[j]);
                            lemma_entry_in_map(old_entries, j);
                        }
                    }
                    assert forall|k: AccountId|
                        #[trigger] entries_map(old_entries).insert(player, game).contains_key(
                            k,
                        ) implies entries_map(s).contains_key(k) && entries_map(s)[k]
                        == entries_map(old_entries).insert(player, game)[k] by {
                        if k == player {
                            lemma_entry_in_map(s, n);
                        } else {
                            lemma_map_key_has_entry(old_entries, k);
                            let j = choose|j: int|
                                0 <= j < old_entries.len() && (#[trigger] old_entries[j]).0 == k
                                    && entries_map(old_entries)[k] == old_entries[j].1;
                            assert(s[j] == old_entries[j]);
                            lemma_entry_in_map(s, j);
                        }
                    }
                }
            },
        }
    }

    /// Removes the game of `player`, if it has one.
    pub fn remove(&mut self, player: &AccountId)
        requires
            old(self).wf(),
        ensures
            final(self).wf(),
            final(self)@ == old(self)@.remove(*player),
    {
        let ghost old_entries = self.entries@;
        match self.find(player) {
            Some(i) => {
                self.entries.remove(i);
                let ghost s = self.entries@;
                let ghost ii = i as int;
                assert(s == old_entries.remove(ii));
                assert(forall|j: int| 0 <= j < ii ==> s[j] == old_entries[j]);
                assert(forall|j: int| ii <= j < s.len() ==> s[j] == old_entries[j + 1]);
                assert(keys_distinct(s)) by {
                    assert forall|a: int, b: int|
                        0 <= a < s.len() && 0 <= b < s.len() && a != b implies (#[trigger] s[a]).0
                        != (#[trigger] s[b]).0 by {
                        let a2 = if a < ii { a } else { a + 1 };
                        let b2 = if b < ii { b } else { b + 1 };
                        assert(s[a] == old_entries[a2] && s[b] == old_entries[b2]);
                    }
                }
                assert(entries_map(s) =~= entries_map(old_entries).remove(*player)) by {
                    assert forall|k: AccountId|
                        #[trigger] entries_map(s).contains_key(k) implies entries_map(
                        old_entries,
                    ).remove(*player).contains_key(k) && entries_map(s)[k] == entries_map(
                        old_entries,
                    ).remove(*player)[k] by {
                        let j = choose|j: int| 0 <= j < s.len() && (#[trigger] s[j]).0 == k;
                        let j2 = if j < ii { j } else { j + 1 };
                        assert(s[j] == old_entries[j2]);
                        assert(j2 != ii);
                        lemma_entry_in_map(old_entries, j2);
                        lemma_entry_in_map(s, j);
                    }
                    assert forall|k: AccountId|
                        #[trigger] entries_map(old_entries).remove(*player).contains_key(
                            k,
                        ) implies entries_map(s).contains_key(k) by {
                        lemma_map_key_has_entry(old_entries, k);
                        let j = choose|j: int|
                            0 <= j < old_entries.len() && (#[trigger] old_entries[j]).0 == k
                                && entries_map(old_entries)[k] == old_entries[j].1;
                        assert(j != ii);
                        let j1 = if j < ii { j } else { j - 1 };
                        assert(s[j1] == old_entries[j]);
                        lemma_entry_in_map(s, j1);
                    }
                }
            },
            None => {
                assert(entries_map(old_entries) =~= entries_map(old_entries).remove(*player));
            },
        }
    }
}

/// The contract's persistent entries: the configuration and statistics,
/// present once the contract has been initialised, and one game per player.
pub struct ContractStore {
    pub config: Option<ContractConfig>,
    pub stats: Option<ContractStats>,
    pub games: GameTable,
}

impl ContractStore {
    /// The game table is well formed.
    pub open spec fn wf(&self) -> bool {
        self.games.wf()
    }

    /// The stored games, by player.
    pub open spec fn games(&self) -> Map<AccountId, GameState> {
        self.games@
    }

    /// The stored game of `player`, if any.
    pub open spec fn game_of(&self, player: AccountId) -> Option<GameState> {
        lookup(self.games(), player)
    }

    /// Whether an entry is stored under `key`.
    pub open spec fn holds(&self, key: StorageKey) -> bool {
        match key {
            StorageKey::Config => self.config is Some,
            StorageKey::Stats => self.stats is Some,
            StorageKey::PlayerGame(player) => self.games().contains_key(player),
        }
    }

    /// A store with no entries, as before initialisation.
    pub fn new() -> (s: ContractStore)
        ensures
            s.wf(),
            s.config is None,
            s.stats is None,
            s.games() == Map::<AccountId, GameState>::empty(),
    {
        ContractStore { config: None, stats: None, games: GameTable::new() }
    }

    /// Whether an entry is stored under `key`.
    pub fn has(&self, key: &StorageKey) -> (r: bool)
        requires
            self.wf(),
        ensures
            r == self.holds(*key),
    {
        match key {
            StorageKey::Config => self.config.is_some(),
            StorageKey::Stats => self.stats.is_some(),
            StorageKey::PlayerGame(player) => self.games.get(player).is_some(),
        }
    }

    /// The stored game of `player`, if any.
    pub fn player_game(&self, player: &AccountId) -> (r: Option<GameState>)
        requires
            self.wf(),
        ensures
            r == self.game_of(*player),
    {
        self.games.get(player)
    }

    /// Stores `game` as the game of `player`.
    pub fn set_player_game(&mut self, player: AccountId, game: GameState)
        requires
            old(self).wf(),
        ensures
            final(self).wf(),
            final(self).games() == old(self).games().insert(player, game),
            final(self).config == old(self).config,
            final(self).stats == old(self).stats,
    {
        self.games.insert(player, game);
    }

    /// Removes the game of `player`.
    pub fn remove_player_game(&mut self, player: &AccountId)
        requires
            old(self).wf(),
        ensures
            final(self).wf(),
            final(self).games() == old(self).games().remove(*player),
            final(self).config == old(self).config,
            final(self).stats == old(self).stats,
    {
        self.games.remove(player);
    }
}

} // verus!
