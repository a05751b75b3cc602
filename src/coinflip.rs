//! The wager engine: opening wagers, resolving them from the oracle's
//! randomness, paying out and withdrawing.
//!
//! Each operation decides from the stored state and the facts the host
//! observed (caller, value sent, balance, outcome of an outside call), updates
//! the state, and returns what the host is to do next: issue a randomness
//! request, transfer funds, log an event.

use crate::access::{error_of, Ownable, OwnableError};
use crate::address::Address;
use crate::error::Error;
use crate::ledger::{Game, Games};
use crate::uint::{modulus, Uint256};
use vstd::prelude::*;

verus! {

/// The entry point the oracle calls back with the randomness.
pub const FULFILL_SIGNATURE: &'static str = "fulfillRandomness(uint256,uint256[])";

/// How many random values each wager asks for.
pub const RNG_COUNT: u8 = 1;

/// Block confirmations the oracle waits for before answering.
pub const NUM_CONFIRMATIONS: u64 = 1;

/// Payout numerator: a winner receives 19/10 of the stake.
pub const PAYOUT_NUMERATOR: u64 = 19;

pub const PAYOUT_DENOMINATOR: u64 = 10;

/// The payout for a winning stake: `stake * 19 / 10` in 256-bit arithmetic,
/// rounded down.
pub open spec fn winnings_of(bet: nat) -> nat {
    ((bet * 19) % modulus()) / 10
}

/// The parameters of the randomness request the host sends to the oracle;
/// the callback is `FULFILL_SIGNATURE`.
#[derive(Clone, Copy, Debug, PartialEq, Eq, Structural)]
pub struct RandomnessRequest {
    pub rng_count: u8,
    pub num_confirmations: Uint256,
    pub client_wallet: Address,
}

/// A native-currency transfer for the host to make.
#[derive(Clone, Copy, Debug, PartialEq, Eq, Structural)]
pub struct Payment {
    pub to: Address,
    pub amount: Uint256,
}

/// Notification: a wager was opened.
#[derive(Clone, Copy, Debug, PartialEq, Eq, Structural)]
pub struct GameCreated {
    pub nonce: Uint256,
    pub player: Address,
    pub bet: Uint256,
}

/// Notification: a wager was resolved.
#[derive(Clone, Copy, Debug, PartialEq, Eq, Structural)]
pub struct GameResolved {
    pub nonce: Uint256,
    pub player: Address,
    pub bet: Uint256,
    pub won: bool,
}

/// Notification: the administrator withdrew funds.
#[derive(Clone, Copy, Debug, PartialEq, Eq, Structural)]
pub struct Withdrawal {
    pub to: Address,
    pub amount: Uint256,
}

/// A wager just resolved: the event to log, and the payout to make first if
/// the player won.
#[derive(Clone, Copy, Debug, PartialEq, Eq, Structural)]
pub struct Resolution {
    pub event: GameResolved,
    pub payout: Option<Payment>,
}

/// Computes the payout for a winning stake.
pub fn winnings(bet: &Uint256) -> (r: Uint256)
    ensures
        r.value() == winnings_of(bet.value()),
{
    let numerator = Uint256::from_u64(PAYOUT_NUMERATOR);
    let denominator = Uint256::from_u64(PAYOUT_DENOMINATOR);
    bet.wrapping_mul(&numerator).div(&denominator)
}

impl Resolution {
    /// What a resolution ends in, once the host has tried the payout
    /// (`transferred` tells whether the transfer went through; it is not
    /// looked at when there is no payout).
    pub open spec fn spec_settle(self, transferred: bool) -> Result<GameResolved, Error> {
        if self.payout is Some && !transferred {
            Err(Error::TransferFailed)
        } else {
            Ok(self.event)
        }
    }

    /// Ends a resolution: the event to log, or `TransferFailed`. The wager
    /// stays resolved either way.
    pub fn settle(self, transferred: bool) -> (r: Result<GameResolved, Error>)
        ensures
            r == self.spec_settle(transferred),
    {
        if self.payout.is_some() && !transferred {
            Err(Error::TransferFailed)
        } else {
            Ok(self.event)
        }
    }
}

impl Payment {
    /// Ends a withdrawal once the host has tried the transfer.
    pub fn settle_withdrawal(self, transferred: bool) -> (r: Result<Withdrawal, Error>)
        ensures
            transferred ==> r == Ok::<Withdrawal, Error>(
                Withdrawal { to: self.to, amount: self.amount },
            ),
            !transferred ==> r == Err::<Withdrawal, Error>(Error::TransferFailed),
    {
        if !transferred {
            return Err(Error::TransferFailed);
        }
        Ok(Withdrawal { to: self.to, amount: self.amount })
    }
}

/// The whole state of the contract.
pub struct Coinflip {
    pub ownable: Ownable,
    /// The account whose oracle subscription pays for the requests.
    pub subscription_manager: Address,
    /// The oracle; the only caller allowed to deliver randomness.
    pub supra_router: Address,
    /// The smallest stake accepted.
    pub min_bet: Uint256,
    pub games: Games,
}

impl Coinflip {
    pub open spec fn wf(&self) -> bool {
        self.games.wf()
    }

    /// The outcome of a withdrawal of `amount` asked by `caller` while the
    /// contract holds `balance`.
    pub open spec fn withdraw_spec(&self, caller: Address, amount: Uint256, balance: Uint256) -> Result<
        Payment,
        Error,
    > {
        if !self.ownable.is_owner(caller) {
            Err(Error::UnauthorizedAccount { account: caller })
        } else if balance.value() < amount.value() {
            Err(Error::InsufficientBalance { balance, amount })
        } else {
            Ok(Payment { to: caller, amount })
        }
    }

    /// The record stored under `nonce`, or the empty record.
    pub open spec fn game_at(&self, nonce: Uint256) -> Game {
        self.games.spec_get(nonce)
    }

    /// `other` is `self` with the wager records replaced by `games`.
    pub open spec fn same_but_games(&self, other: &Coinflip, games: Map<Uint256, Game>) -> bool {
        &&& other.ownable == self.ownable
        &&& other.subscription_manager == self.subscription_manager
        &&& other.supra_router == self.supra_router
        &&& other.min_bet == self.min_bet
        &&& other.games@ == games
    }

    /// `other` is `self` with possibly another administrator.
    pub open spec fn same_but_owner(&self, other: &Coinflip) -> bool {
        &&& other.subscription_manager == self.subscription_manager
        &&& other.supra_router == self.supra_router
        &&& other.min_bet == self.min_bet
        &&& other.games@ == self.games@
    }

    /// `other` holds the same state as `self`.
    pub open spec fn unchanged(&self, other: &Coinflip) -> bool {
        self.same_but_games(other, self.games@)
    }

    /// The outcome of opening a wager of `bet` for `player`, where `requested`
    /// is the identifier the oracle returned, or `None` if the request failed.
    pub open spec fn new_game_spec(
        pre: &Coinflip,
        post: &Coinflip,
        player: Address,
        bet: Uint256,
        requested: Option<Uint256>,
        r: Result<GameCreated, Error>,
    ) -> bool {
        if bet.value() < pre.min_bet.value() {
            &&& r == Err::<GameCreated, Error>(
                Error::MinBetNotMet { min_bet: pre.min_bet, player_bet: bet },
            )
            &&& pre.unchanged(post)
        } else {
            match requested {
                None => {
                    &&& r == Err::<GameCreated, Error>(Error::RandomnessRequestFailed)
                    &&& pre.unchanged(post)
                },
                Some(nonce) => {
                    &&& r == Ok::<GameCreated, Error>(GameCreated { nonce, player, bet })
                    &&& pre.same_but_games(
                        post,
                        pre.games@.insert(nonce, Game::spec_pending(player, bet)),
                    )
                },
            }
        }
    }

    /// A fulfillment of `nonce` by `caller` passes every check and goes on to
    /// read the first random value.
    pub open spec fn fulfill_reads_values(pre: &Coinflip, caller: Address, nonce: Uint256) -> bool {
        &&& caller == pre.supra_router
        &&& !pre.game_at(nonce).player.is_null_spec()
        &&& !pre.game_at(nonce).resolved
    }

    /// The outcome of a fulfillment of `nonce` with `rng_list`, sent by `caller`.
    pub open spec fn fulfill_spec(
        pre: &Coinflip,
        post: &Coinflip,
        caller: Address,
        nonce: Uint256,
        rng_list: Seq<Uint256>,
        r: Result<Resolution, Error>,
    ) -> bool {
        let game = pre.game_at(nonce);
        if caller != pre.supra_router {
            r == Err::<Resolution, Error>(Error::OnlySupraRouter) && pre.unchanged(post)
        } else if game.player.is_null_spec() {
            r == Err::<Resolution, Error>(Error::GameNotFound) && pre.unchanged(post)
        } else if game.resolved {
            r == Err::<Resolution, Error>(Error::GameAlreadyResolved) && pre.unchanged(post)
        } else {
            let randomness = rng_list[0];
            let won = randomness.value() % 2 == 0;
            &&& pre.same_but_games(
                post,
                pre.games@.insert(nonce, Game { randomness, resolved: true, won, ..game }),
            )
            &&& r is Ok
            &&& r->Ok_0.event == (GameResolved { nonce, player: game.player, bet: game.bet, won })
            &&& won ==> r->Ok_0.payout is Some
            &&& won ==> r->Ok_0.payout->Some_0.to == game.player
            &&& won ==> r->Ok_0.payout->Some_0.amount.value() == winnings_of(game.bet.value())
            &&& !won ==> r->Ok_0.payout is None
        }
    }

    /// The storage of a contract not yet constructed: all zero.
    pub fn new() -> (r: Coinflip)
        ensures
            r.wf(),
            r.ownable.owner.is_null_spec(),
            r.subscription_manager.is_null_spec(),
            r.supra_router.is_null_spec(),
            r.min_bet.value() == 0,
            r.games@ == Map::<Uint256, Game>::empty(),
    {
        Coinflip {
            ownable: Ownable::vacant(),
            subscription_manager: Address::null(),
            supra_router: Address::null(),
            min_bet: Uint256::zero(),
            games: Games::new(),
        }
    }

    /// One-time set-up; `tx_origin`, the account that deployed the contract,
    /// becomes the administrator.
    pub fn constructor(
        &mut self,
        subscription_manager: Address,
        supra_router: Address,
        min_bet: Uint256,
        tx_origin: Address,
    ) -> (r: Result<(), Error>)
        requires
            old(self).wf(),
        ensures
            final(self).wf(),
            tx_origin.is_null_spec() ==> r == Err::<(), Error>(
                Error::InvalidOwner { owner: Address::spec_null() },
            ) && old(self).unchanged(final(self)),
            !tx_origin.is_null_spec() ==> r is Ok && final(self).ownable.owner == tx_origin
                && final(self).subscription_manager == subscription_manager
                && final(self).supra_router == supra_router && final(self).min_bet == min_bet
                && final(self).games@ == old(self).games@,
    {
        match self.ownable.constructor(tx_origin) {
            Ok(()) => {},
            Err(e) => {
                return Err(Error::from(e));
            },
        }
        self.subscription_manager = subscription_manager;
        self.supra_router = supra_router;
        self.min_bet = min_bet;
        Ok(())
    }

    /// The parameters of the randomness request for a new wager: one value,
    /// one confirmation, billed to the subscription account.
    pub fn request_randomness(&self) -> (r: RandomnessRequest)
        ensures
            r.rng_count == 1,
            r.num_confirmations.value() == 1,
            r.client_wallet == self.subscription_manager,
    {
        RandomnessRequest {
            rng_count: RNG_COUNT,
            num_confirmations: Uint256::from_u64(NUM_CONFIRMATIONS),
            client_wallet: self.subscription_manager,
        }
    }

    /// Whether a stake of `bet` may open a wager.
    pub fn check_bet(&self, bet: &Uint256) -> (r: Result<(), Error>)
        ensures
            bet.value() < self.min_bet.value() ==> r == Err::<(), Error>(
                Error::MinBetNotMet { min_bet: self.min_bet, player_bet: *bet },
            ),
            bet.value() >= self.min_bet.value() ==> r is Ok,
    {
        if bet.lt(&self.min_bet) {
            return Err(Error::MinBetNotMet { min_bet: self.min_bet, player_bet: *bet });
        }
        Ok(())
    }

    /// Opens a wager of `bet` for `player`. `requested` is what the oracle
    /// answered to `request_randomness`: the new identifier, or `None` if the
    /// request failed. The oracle's identifiers are fresh, so no record is
    /// stored under a returned one yet. Nothing is recorded unless the stake suffices and the
    /// request succeeded.
    pub fn new_game(&mut self, player: Address, bet: Uint256, requested: Option<Uint256>) -> (r:
        Result<GameCreated, Error>)
        requires
            old(self).wf(),
            requested matches Some(n) ==> old(self).game_at(n).player.is_null_spec(),
        ensures
            final(self).wf(),
            Coinflip::new_game_spec(old(self), final(self), player, bet, requested, r),
            r matches Ok(ev) ==> final(self).game_at(ev.nonce) == Game::spec_pending(player, bet),
    {
        self.check_bet(&bet)?;
        let nonce = match requested {
            Some(n) => n,
            None => {
                return Err(Error::RandomnessRequestFailed);
            },
        };
        let game = Game {
            bet,
            player,
            randomness: Uint256::zero(),
            resolved: false,
            won: false,
        };
        self.games.set(nonce, game);
        Ok(GameCreated { nonce, player, bet })
    }

    /// Reads the record of wager `nonce`; an unknown one reads as empty, with
    /// the null player.
    pub fn game(&self, nonce: &Uint256) -> (r: Game)
        requires
            self.wf(),
        ensures
            r == self.game_at(*nonce),
    {
        self.games.get(nonce)
    }

    /// Resolves wager `nonce` from the oracle's `rng_list`, whose first value
    /// decides: an even value wins. The record is marked resolved before any
    /// payout is handed back, so a second fulfillment is always rejected.
    pub fn fulfill_randomness(&mut self, caller: Address, nonce: Uint256, rng_list: &Vec<
        Uint256,
    >) -> (r: Result<Resolution, Error>)
        requires
            old(self).wf(),
            Coinflip::fulfill_reads_values(old(self), caller, nonce) ==> rng_list@.len() > 0,
        ensures
            final(self).wf(),
            Coinflip::fulfill_spec(old(self), final(self), caller, nonce, rng_list@, r),
    {
        if caller != self.supra_router {
            return Err(Error::OnlySupraRouter);
        }
        let game = self.games.get(&nonce);
        if game.player.is_null() {
            return Err(Error::GameNotFound);
        }
        if game.resolved {
            return Err(Error::GameAlreadyResolved);
        }
        let randomness = rng_list[0];
        let two = Uint256::from_u64(2);
        let won = randomness.rem(&two).is_zero();
        self.games.set(nonce, Game { randomness, resolved: true, won, ..game });
        let payout = if won {
            Some(Payment { to: game.player, amount: winnings(&game.bet) })
        } else {
            None
        };
        Ok(Resolution {
            event: GameResolved { nonce, player: game.player, bet: game.bet, won },
            payout,
        })
    }

    /// Lets the administrator take `amount` out of the contract's `balance`:
    /// the payment to make, to the caller.
    pub fn withdraw(&self, caller: Address, amount: Uint256, balance: Uint256) -> (r: Result<
        Payment,
        Error,
    >)
        ensures
            r == self.withdraw_spec(caller, amount, balance),
    {
        match self.ownable.only_owner(caller) {
            Ok(()) => {},
            Err(e) => {
                return Err(Error::from(e));
            },
        }
        if balance.lt(&amount) {
            return Err(Error::InsufficientBalance { balance, amount });
        }
        Ok(Payment { to: caller, amount })
    }

    /// Plain deposits are accepted and change nothing.
    pub fn receive(&mut self) -> (r: Result<(), Vec<u8>>)
        ensures
            r is Ok,
            old(self).unchanged(final(self)),
            final(self).wf() == old(self).wf(),
    {
        Ok(())
    }

    pub fn owner(&self) -> (r: Address)
        ensures
            r == self.ownable.owner,
    {
        self.ownable.owner()
    }

    /// Hands the administrator role from `caller` to `new_owner`.
    pub fn transfer_ownership(&mut self, caller: Address, new_owner: Address) -> (r: Result<
        (),
        Error,
    >)
        requires
            old(self).wf(),
        ensures
            final(self).wf(),
            !old(self).ownable.is_owner(caller) ==> r == Err::<(), Error>(
                Error::UnauthorizedAccount { account: caller },
            ),
            old(self).ownable.is_owner(caller) && new_owner.is_null_spec() ==> r == Err::<
                (),
                Error,
            >(Error::InvalidOwner { owner: Address::spec_null() }),
            r is Err ==> old(self).unchanged(final(self)),
            r is Ok ==> final(self).ownable.owner == new_owner && old(self).same_but_owner(
                final(self),
            ),
            old(self).ownable.is_owner(caller) && !new_owner.is_null_spec() ==> r is Ok,
    {
        match self.ownable.transfer_ownership(caller, new_owner) {
            Ok(()) => Ok(()),
            Err(e) => Err(Error::from(e)),
        }
    }

    /// Leaves the contract without an administrator, for good.
    pub fn renounce_ownership(&mut self, caller: Address) -> (r: Result<(), Error>)
        requires
            old(self).wf(),
        ensures
            final(self).wf(),
            !old(self).ownable.is_owner(caller) ==> r == Err::<(), Error>(
                Error::UnauthorizedAccount { account: caller },
            ) && old(self).unchanged(final(self)),
            old(self).ownable.is_owner(caller) ==> r is Ok && final(self).ownable.owner.is_null_spec()
                && old(self).same_but_owner(final(self)),
    {
        match self.ownable.renounce_ownership(caller) {
            Ok(()) => Ok(()),
            Err(e) => Err(Error::from(e)),
        }
    }
}

} // verus!
