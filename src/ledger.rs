//! The wager records, keyed by the oracle's request identifier.

use crate::address::Address;
use crate::uint::Uint256;
use vstd::prelude::*;

verus! {

/// One wager.
#[derive(Clone, Copy, Debug, PartialEq, Eq, Structural)]
pub struct Game {
    /// The escrowed stake.
    pub bet: Uint256,
    /// Who opened the wager; the null identity marks a record that does not exist.
    pub player: Address,
    /// The oracle's value; zero until resolution.
    pub randomness: Uint256,
    pub resolved: bool,
    /// Meaningful only once `resolved` holds.
    pub won: bool,
}

impl Game {
    /// The all-zero record, read for an identifier that holds none.
    pub open spec fn spec_empty() -> Game {
        Game {
            bet: Uint256::spec_zero(),
            player: Address::spec_null(),
            randomness: Uint256::spec_zero(),
            resolved: false,
            won: false,
        }
    }

    /// The record of a freshly opened wager.
    pub open spec fn spec_pending(player: Address, bet: Uint256) -> Game {
        Game { bet, player, randomness: Uint256::spec_zero(), resolved: false, won: false }
    }

    pub fn empty() -> (r: Game)
        ensures
            r == Game::spec_empty(),
    {
        Game {
            bet: Uint256::zero(),
            player: Address::null(),
            randomness: Uint256::zero(),
            resolved: false,
            won: false,
        }
    }
}

/// A record with its key.
#[derive(Clone, Copy, Debug, PartialEq, Eq, Structural)]
pub struct Entry {
    pub nonce: Uint256,
    pub game: Game,
}

/// The map from request identifier to wager; records are never removed.
pub struct Games {
    entries: Vec<Entry>,
}

/// Some entry of `s` has key `k`.
pub open spec fn has_key(s: Seq<Entry>, k: Uint256) -> bool {
    exists|i: int| 0 <= i < s.len() && (#[trigger] s[i]).nonce == k
}

/// The map that a sequence of entries with distinct keys stands for.
pub open spec fn map_of(s: Seq<Entry>) -> Map<Uint256, Game> {
    Map::new(
        |k: Uint256| has_key(s, k),
        |k: Uint256| s[choose|i: int| 0 <= i < s.len() && (#[trigger] s[i]).nonce == k].game,
    )
}

/// No two entries share a key.
pub open spec fn keys_distinct(s: Seq<Entry>) -> bool {
    forall|i: int, j: int|
        0 <= i < s.len() && 0 <= j < s.len() && i != j ==> (#[trigger] s[i]).nonce != (
        #[trigger] s[j]).nonce
}

/// With distinct keys, the entry at `i` gives the map's value at its key.
proof fn lemma_entry_in_map(s: Seq<Entry>, i: int)
    requires
        keys_distinct(s),
        0 <= i < s.len(),
    ensures
        map_of(s).contains_key(s[i].nonce),
        map_of(s)[s[i].nonce] == s[i].game,
{
    let k = s[i].nonce;
    assert(has_key(s, k));
    let j = choose|j: int| 0 <= j < s.len() && (#[trigger] s[j]).nonce == k;
    assert(j == i);
}

impl Games {
    pub closed spec fn view(&self) -> Map<Uint256, Game> {
        map_of(self.entries@)
    }

    pub closed spec fn wf(&self) -> bool {
        keys_distinct(self.entries@)
    }

    /// The record under `k`, or the empty record where there is none.
    pub open spec fn spec_get(&self, k: Uint256) -> Game {
        if self@.contains_key(k) {
            self@[k]
        } else {
            Game::spec_empty()
        }
    }

    pub fn new() -> (r: Games)
        ensures
            r.wf(),
            r@ == Map::<Uint256, Game>::empty(),
    {
        let r = Games { entries: Vec::new() };
        assert(r@ =~= Map::<Uint256, Game>::empty());
        r
    }

    /// The position of the entry with key `k`.
    fn find(&self, k: &Uint256) -> (r: Option<usize>)
        ensures
            r matches Some(i) ==> i < self.entries@.len() && self.entries@[i as int].nonce == *k,
            r is None ==> !has_key(self.entries@, *k),
    {
        let mut i: usize = 0;
        while i < self.entries.len()
            invariant
                i <= self.entries@.len(),
                forall|j: int| 0 <= j < i ==> (#[trigger] self.entries@[j]).nonce != *k,
            decreases self.entries@.len() - i,
        {
            if self.entries[i].nonce == *k {
                return Some(i);
            }
            i = i + 1;
        }
        None
    }

    /// Reads the record under `k`; absent records read as the empty one.
    pub fn get(&self, k: &Uint256) -> (r: Game)
        requires
            self.wf(),
        ensures
            r == self.spec_get(*k),
    {
        match self.find(k) {
            Some(i) => {
                proof {
                    lemma_entry_in_map(self.entries@, i as int);
                }
                self.entries[i].game
            },
            None => Game::empty(),
        }
    }

    /// Stores `game` under `k`, in place of any record there.
    pub fn set(&mut self, k: Uint256, game: Game)
        requires
            old(self).wf(),
        ensures
            final(self).wf(),
            final(self)@ == old(self)@.insert(k, game),
    {
        let ghost s0 = self.entries@;
        let e = Entry { nonce: k, game };
        match self.find(&k) {
            Some(i) => {
                self.entries.set(i, e);
                proof {
                    let s1 = self.entries@;
                    assert(forall|j: int| 0 <= j < s1.len() ==> (#[trigger] s1[j]).nonce == s0[j].nonce);
                    assert(forall|j: int| 0 <= j < s1.len() && j != i ==> (#[trigger] s1[j]) == s0[j]);
                    assert(keys_distinct(s1));
                    assert forall|x: Uint256| #[trigger] has_key(s1, x) == (has_key(s0, x) || x == k) by {
                        if has_key(s0, x) {
                            let j = choose|j: int| 0 <= j < s0.len() && (#[trigger] s0[j]).nonce == x;
                            assert(s1[j].nonce == x);
                        }
                        if has_key(s1, x) {
                            let j = choose|j: int| 0 <= j < s1.len() && (#[trigger] s1[j]).nonce == x;
                            assert(s0[j].nonce == x);
                        }
                        if x == k {
                            assert(s1[i as int].nonce == x);
                        }
                    }
                }
            },
            None => {
                self.entries.push(e);
                proof {
                    let s1 = self.entries@;
                    assert(forall|j: int| 0 <= j < s0.len() ==> (#[trigger] s1[j]) == s0[j]);
                    assert(s1[s0.len() as int].nonce == k);
                    assert(keys_distinct(s1));
                    assert forall|x: Uint256| #[trigger] has_key(s1, x) == (has_key(s0, x) || x == k) by {
                        if has_key(s0, x) {
                            let j = choose|j: int| 0 <= j < s0.len() && (#[trigger] s0[j]).nonce == x;
                            assert(s1[j].nonce == x);
                        }
                        if has_key(s1, x) && x != k {
                            let j = choose|j: int| 0 <= j < s1.len() && (#[trigger] s1[j]).nonce == x;
                            assert(s0[j].nonce == x);
                        }
                        if x == k {
                            assert(s1[s0.len() as int].nonce == x);
                        }
                    }
                }
            },
        }
        let ghost s1 = self.entries@;
        assert forall|x: Uint256| #[trigger] has_key(s1, x) implies map_of(s1)[x] == map_of(
            s0,
        ).insert(k, game)[x] by {
            let j = choose|j: int| 0 <= j < s1.len() && (#[trigger] s1[j]).nonce == x;
            lemma_entry_in_map(s1, j);
            if x != k {
                assert(s0[j] == s1[j]);
                lemma_entry_in_map(s0, j);
            }
        }
        assert(self@ =~= old(self)@.insert(k, game));
    }
}

} // verus!
