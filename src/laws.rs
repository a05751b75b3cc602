//! Properties of the contract that relate several operations.

use crate::address::Address;
use crate::coinflip::{winnings_of, Coinflip, GameCreated, Payment, Resolution};
use crate::error::Error;
use crate::ledger::Game;
use crate::uint::{modulus, Uint256};
use vstd::prelude::*;

verus! {

/// A wager resolves once: after a fulfillment of `nonce` went through, a
/// second one from the oracle is rejected with `GameAlreadyResolved` and the
/// first resolution's record stays as it was. This holds whether or not the
/// payout of the first then succeeded, since settling a resolution touches no
/// state; it is also what a re-entrant fulfillment made during the payout meets.
pub proof fn lemma_fulfill_twice(
    s0: Coinflip,
    s1: Coinflip,
    s2: Coinflip,
    nonce: Uint256,
    first: Seq<Uint256>,
    second: Seq<Uint256>,
    c1: Address,
    c2: Address,
    r1: Result<Resolution, Error>,
    r2: Result<Resolution, Error>,
)
    requires
        Coinflip::fulfill_spec(&s0, &s1, c1, nonce, first, r1),
        r1 is Ok,
        Coinflip::fulfill_spec(&s1, &s2, c2, nonce, second, r2),
        c2 == s1.supra_router,
    ensures
        s1.game_at(nonce).resolved,
        s1.game_at(nonce).randomness == first[0],
        r2 == Err::<Resolution, Error>(Error::GameAlreadyResolved),
        s2.game_at(nonce) == s1.game_at(nonce),
        s2.games@ == s1.games@,
{
}

/// A wager opened with stake `bet` and then fulfilled by the oracle with a
/// first value `x` is won exactly when `x` is even, and a win pays
/// `winnings_of(bet)`.
pub proof fn lemma_open_then_fulfill(
    s0: Coinflip,
    s1: Coinflip,
    s2: Coinflip,
    player: Address,
    bet: Uint256,
    requested: Option<Uint256>,
    created: Result<GameCreated, Error>,
    rng_list: Seq<Uint256>,
    resolved: Result<Resolution, Error>,
)
    requires
        Coinflip::new_game_spec(&s0, &s1, player, bet, requested, created),
        created is Ok,
        !player.is_null_spec(),
        Coinflip::fulfill_spec(&s1, &s2, s1.supra_router, created->Ok_0.nonce, rng_list, resolved),
    ensures
        resolved is Ok,
        resolved->Ok_0.event.won == (rng_list[0].value() % 2 == 0),
        resolved->Ok_0.event.bet == bet,
        resolved->Ok_0.event.player == player,
        resolved->Ok_0.payout is Some <==> resolved->Ok_0.event.won,
        resolved->Ok_0.payout is Some ==> resolved->Ok_0.payout->Some_0.amount.value()
            == winnings_of(bet.value()),
        s2.game_at(created->Ok_0.nonce) == (Game {
            bet,
            player,
            randomness: rng_list[0],
            resolved: true,
            won: rng_list[0].value() % 2 == 0,
        }),
{
}

/// Withdrawal by the administrator (a real account, never the null identity):
/// an amount beyond the balance is refused with `InsufficientBalance`; any
/// other is paid to the administrator in full, so the contract's balance goes
/// down by exactly `amount`. Anyone else is refused with `UnauthorizedAccount`.
pub proof fn lemma_withdraw(c: Coinflip, caller: Address, amount: Uint256, balance: Uint256)
    ensures
        caller != c.ownable.owner ==> c.withdraw_spec(caller, amount, balance) == Err::<
            Payment,
            Error,
        >(Error::UnauthorizedAccount { account: caller }),
        caller == c.ownable.owner && !caller.is_null_spec() && balance.value() < amount.value()
            ==> c.withdraw_spec(caller, amount, balance) == Err::<Payment, Error>(
            Error::InsufficientBalance { balance, amount },
        ),
        caller == c.ownable.owner && !caller.is_null_spec() && amount.value() <= balance.value()
            ==> c.withdraw_spec(caller, amount, balance) == Ok::<Payment, Error>(
            Payment { to: caller, amount },
        ) && balance.value() - amount.value() >= 0,
{
}

/// Where `bet * 19` fits in 256 bits, the payout is exactly `floor(bet * 19 / 10)`.
pub proof fn lemma_winnings_exact(bet: nat)
    requires
        bet * 19 < modulus(),
    ensures
        winnings_of(bet) == bet * 19 / 10,
{
    vstd::arithmetic::div_mod::lemma_small_mod(bet * 19, modulus());
}

} // verus!
