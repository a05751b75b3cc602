use coinflip::access::{Ownable, OwnableError};
use coinflip::address::Address;
use coinflip::coinflip::{winnings, Coinflip, GameCreated, GameResolved, Payment, Withdrawal};
use coinflip::error::Error;
use coinflip::ledger::{Game, Games};
use coinflip::uint::Uint256;

fn addr(n: u64) -> Address {
    Address { head: 0, mid: 0, tail: n }
}

fn u(n: u64) -> Uint256 {
    Uint256::from_u64(n)
}

const OWNER: u64 = 1;
const ROUTER: u64 = 2;
const SUBSCRIPTION: u64 = 3;
const PLAYER: u64 = 4;

fn deployed(min_bet: u64) -> Coinflip {
    let mut c = Coinflip::new();
    c.constructor(addr(SUBSCRIPTION), addr(ROUTER), u(min_bet), addr(OWNER))
        .unwrap();
    c
}

#[test]
fn test_counter() {
    let _contract = Coinflip::new();
}

#[test]
fn constructor_installs_configuration() {
    let c = deployed(100);
    assert_eq!(c.owner(), addr(OWNER));
    assert_eq!(c.supra_router, addr(ROUTER));
    assert_eq!(c.subscription_manager, addr(SUBSCRIPTION));
    assert_eq!(c.min_bet, u(100));
}

#[test]
fn constructor_rejects_null_origin() {
    let mut c = Coinflip::new();
    let r = c.constructor(addr(SUBSCRIPTION), addr(ROUTER), u(100), Address::null());
    assert_eq!(r, Err(Error::InvalidOwner { owner: Address::null() }));
    assert!(c.owner().is_null());
    assert_eq!(c.min_bet, u(0));
}

#[test]
fn request_uses_subscription_account() {
    let c = deployed(100);
    let req = c.request_randomness();
    assert_eq!(req.rng_count, 1);
    assert_eq!(req.num_confirmations, u(1));
    assert_eq!(req.client_wallet, addr(SUBSCRIPTION));
}

#[test]
fn stake_below_minimum_is_rejected() {
    let mut c = deployed(100);
    for stake in [0u64, 1, 50, 99] {
        let r = c.new_game(addr(PLAYER), u(stake), Some(u(7)));
        assert_eq!(
            r,
            Err(Error::MinBetNotMet { min_bet: u(100), player_bet: u(stake) })
        );
        assert!(c.game(&u(7)).player.is_null());
    }
    assert_eq!(c.check_bet(&u(99)), Err(Error::MinBetNotMet { min_bet: u(100), player_bet: u(99) }));
    assert_eq!(c.check_bet(&u(100)), Ok(()));
}

#[test]
fn minimum_compares_all_limbs() {
    let mut c = Coinflip::new();
    let big = Uint256 { w0: 0, w1: 1, w2: 0, w3: 0 };
    c.constructor(addr(SUBSCRIPTION), addr(ROUTER), big, addr(OWNER)).unwrap();
    let below = Uint256 { w0: u64::MAX, w1: 0, w2: 0, w3: 0 };
    assert_eq!(
        c.new_game(addr(PLAYER), below, Some(u(1))),
        Err(Error::MinBetNotMet { min_bet: big, player_bet: below })
    );
    assert!(c.new_game(addr(PLAYER), big, Some(u(1))).is_ok());
}

#[test]
fn failed_request_records_nothing() {
    let mut c = deployed(100);
    let r = c.new_game(addr(PLAYER), u(100), None);
    assert_eq!(r, Err(Error::RandomnessRequestFailed));
    assert!(c.game(&u(0)).player.is_null());
}

#[test]
fn opened_wager_is_pending() {
    let mut c = deployed(100);
    let r = c.new_game(addr(PLAYER), u(250), Some(u(42)));
    assert_eq!(r, Ok(GameCreated { nonce: u(42), player: addr(PLAYER), bet: u(250) }));
    let g = c.game(&u(42));
    assert_eq!(g.bet, u(250));
    assert_eq!(g.player, addr(PLAYER));
    assert_eq!(g.randomness, u(0));
    assert!(!g.resolved);
    assert!(!g.won);
}

#[test]
fn fulfill_from_stranger_is_rejected() {
    let mut c = deployed(100);
    c.new_game(addr(PLAYER), u(100), Some(u(9))).unwrap();
    assert_eq!(c.fulfill_randomness(addr(PLAYER), u(9), &vec![u(4)]), Err(Error::OnlySupraRouter));
    assert_eq!(c.fulfill_randomness(addr(OWNER), u(77), &vec![u(4)]), Err(Error::OnlySupraRouter));
    assert!(!c.game(&u(9)).resolved);
    assert_eq!(c.game(&u(9)).randomness, u(0));
}

#[test]
fn fulfill_of_unknown_game_is_rejected() {
    let mut c = deployed(100);
    assert_eq!(c.fulfill_randomness(addr(ROUTER), u(5), &vec![u(4)]), Err(Error::GameNotFound));
}

#[test]
fn second_fulfillment_is_rejected() {
    let mut c = deployed(100);
    c.new_game(addr(PLAYER), u(100), Some(u(1))).unwrap();
    let first = c.fulfill_randomness(addr(ROUTER), u(1), &vec![u(4)]).unwrap();
    // A re-entrant call made while the payout is in flight.
    assert_eq!(
        c.fulfill_randomness(addr(ROUTER), u(1), &vec![u(7)]),
        Err(Error::GameAlreadyResolved)
    );
    assert_eq!(first.settle(false), Err(Error::TransferFailed));
    assert_eq!(
        c.fulfill_randomness(addr(ROUTER), u(1), &vec![u(8)]),
        Err(Error::GameAlreadyResolved)
    );
    let g = c.game(&u(1));
    assert!(g.resolved);
    assert!(g.won);
    assert_eq!(g.randomness, u(4));
}

#[test]
fn even_value_wins_odd_loses() {
    let mut c = deployed(1);
    for (nonce, value, won) in [(1u64, 0u64, true), (2, 1, false), (3, 2, true), (4, u64::MAX, false)] {
        c.new_game(addr(PLAYER), u(10), Some(u(nonce))).unwrap();
        let res = c.fulfill_randomness(addr(ROUTER), u(nonce), &vec![u(value), u(1)]).unwrap();
        assert_eq!(res.event.won, won);
        assert_eq!(res.payout.is_some(), won);
        assert_eq!(c.game(&u(nonce)).won, won);
    }
    let high_odd = Uint256 { w0: 3, w1: 0, w2: 0, w3: 8 };
    c.new_game(addr(PLAYER), u(10), Some(u(5))).unwrap();
    let res = c.fulfill_randomness(addr(ROUTER), u(5), &vec![high_odd]).unwrap();
    assert!(!res.event.won);
}

#[test]
fn payout_is_nineteen_tenths_rounded_down() {
    assert_eq!(winnings(&u(100)), u(190));
    assert_eq!(winnings(&u(105)), u(199));
    assert_eq!(winnings(&u(1)), u(1));
    assert_eq!(winnings(&u(0)), u(0));
    let big = Uint256 { w0: 0, w1: 10, w2: 0, w3: 0 };
    assert_eq!(winnings(&big), Uint256 { w0: 0, w1: 19, w2: 0, w3: 0 });
}

#[test]
fn payout_wraps_at_256_bits() {
    // 2^252 * 19 wraps to 2^252 * 3 modulo 2^256; a tenth of that, rounded down.
    let x = Uint256 { w0: 0, w1: 0, w2: 0, w3: 1u64 << 60 };
    let y = x.wrapping_mul(&u(19));
    assert_eq!(y, Uint256 { w0: 0, w1: 0, w2: 0, w3: 3u64 << 60 });
    assert_eq!(winnings(&x), y.div(&u(10)));
}

#[test]
fn integer_operations() {
    assert!(u(3).lt(&u(4)));
    assert!(!u(4).lt(&u(4)));
    assert!(u(u64::MAX).lt(&Uint256 { w0: 0, w1: 1, w2: 0, w3: 0 }));
    assert_eq!(u(17).rem(&u(5)), u(2));
    assert_eq!(u(17).div(&u(5)), u(3));
    assert_eq!(Uint256 { w0: 0, w1: 1, w2: 0, w3: 0 }.div(&u(2)), u(1u64 << 63));
    assert!(u(0).is_zero());
    assert!(!Uint256 { w0: 0, w1: 0, w2: 0, w3: 1 }.is_zero());
}

#[test]
fn withdraw_by_stranger_is_rejected() {
    let c = deployed(100);
    assert_eq!(
        c.withdraw(addr(PLAYER), u(10), u(1000)),
        Err(Error::UnauthorizedAccount { account: addr(PLAYER) })
    );
}

#[test]
fn withdraw_beyond_balance_is_rejected() {
    let c = deployed(100);
    assert_eq!(
        c.withdraw(addr(OWNER), u(1001), u(1000)),
        Err(Error::InsufficientBalance { balance: u(1000), amount: u(1001) })
    );
}

#[test]
fn withdraw_pays_exact_amount() {
    let c = deployed(100);
    let p = c.withdraw(addr(OWNER), u(1000), u(1000)).unwrap();
    assert_eq!(p, Payment { to: addr(OWNER), amount: u(1000) });
    assert_eq!(p.settle_withdrawal(true), Ok(Withdrawal { to: addr(OWNER), amount: u(1000) }));
    assert_eq!(p.settle_withdrawal(false), Err(Error::TransferFailed));
    let p = c.withdraw(addr(OWNER), u(300), u(1000)).unwrap();
    assert_eq!(p.amount, u(300));
}

#[test]
fn ownership_transfer_and_renounce() {
    let mut c = deployed(100);
    assert_eq!(
        c.transfer_ownership(addr(PLAYER), addr(PLAYER)),
        Err(Error::UnauthorizedAccount { account: addr(PLAYER) })
    );
    assert_eq!(
        c.transfer_ownership(addr(OWNER), Address::null()),
        Err(Error::InvalidOwner { owner: Address::null() })
    );
    assert_eq!(c.owner(), addr(OWNER));
    assert_eq!(c.transfer_ownership(addr(OWNER), addr(PLAYER)), Ok(()));
    assert_eq!(c.owner(), addr(PLAYER));
    assert_eq!(
        c.renounce_ownership(addr(OWNER)),
        Err(Error::UnauthorizedAccount { account: addr(OWNER) })
    );
    assert_eq!(c.renounce_ownership(addr(PLAYER)), Ok(()));
    assert!(c.owner().is_null());
    assert_eq!(
        c.withdraw(addr(PLAYER), u(1), u(10)),
        Err(Error::UnauthorizedAccount { account: addr(PLAYER) })
    );
    assert_eq!(
        c.withdraw(Address::null(), u(1), u(10)),
        Err(Error::UnauthorizedAccount { account: Address::null() })
    );
}

#[test]
fn ownable_errors_convert() {
    let mut o = Ownable::vacant();
    assert_eq!(o.constructor(Address::null()), Err(OwnableError::InvalidOwner { owner: Address::null() }));
    assert_eq!(o.constructor(addr(OWNER)), Ok(()));
    assert_eq!(o.only_owner(addr(PLAYER)), Err(OwnableError::UnauthorizedAccount { account: addr(PLAYER) }));
    let e: Error = OwnableError::UnauthorizedAccount { account: addr(PLAYER) }.into();
    assert_eq!(e, Error::UnauthorizedAccount { account: addr(PLAYER) });
    let e: Error = OwnableError::InvalidOwner { owner: Address::null() }.into();
    assert_eq!(e, Error::InvalidOwner { owner: Address::null() });
}

#[test]
fn receive_changes_nothing() {
    let mut c = deployed(100);
    assert_eq!(c.receive(), Ok(()));
    assert_eq!(c.owner(), addr(OWNER));
    assert_eq!(c.min_bet, u(100));
}

#[test]
fn ledger_overwrites_and_keeps_others() {
    let mut g = Games::new();
    assert_eq!(g.get(&u(1)), Game::empty());
    let a = Game { bet: u(5), player: addr(PLAYER), randomness: u(0), resolved: false, won: false };
    let b = Game { bet: u(6), player: addr(OWNER), randomness: u(0), resolved: false, won: false };
    g.set(u(1), a);
    g.set(u(2), b);
    assert_eq!(g.get(&u(1)), a);
    assert_eq!(g.get(&u(2)), b);
    g.set(u(1), b);
    assert_eq!(g.get(&u(1)), b);
    assert_eq!(g.get(&u(3)), Game::empty());
}

#[test]
fn scenario_win_then_duplicate() {
    let mut c = deployed(100);
    let r1 = Uint256 { w0: 11, w1: 22, w2: 33, w3: 44 };
    let created = c.new_game(addr(PLAYER), u(100), Some(r1)).unwrap();
    assert_eq!(created, GameCreated { nonce: r1, player: addr(PLAYER), bet: u(100) });
    let res = c.fulfill_randomness(addr(ROUTER), r1, &vec![u(4)]).unwrap();
    assert_eq!(res.payout, Some(Payment { to: addr(PLAYER), amount: u(190) }));
    assert_eq!(
        res.settle(true),
        Ok(GameResolved { nonce: r1, player: addr(PLAYER), bet: u(100), won: true })
    );
    let g = c.game(&r1);
    assert_eq!(g.randomness, u(4));
    assert!(g.won);
    assert!(g.resolved);
    assert_eq!(c.fulfill_randomness(addr(ROUTER), r1, &vec![u(7)]), Err(Error::GameAlreadyResolved));
}

#[test]
fn scenario_loss_keeps_stake() {
    let mut c = deployed(100);
    c.new_game(addr(PLAYER), u(100), Some(u(8))).unwrap();
    let res = c.fulfill_randomness(addr(ROUTER), u(8), &vec![u(5)]).unwrap();
    assert_eq!(res.payout, None);
    assert_eq!(
        res.settle(false),
        Ok(GameResolved { nonce: u(8), player: addr(PLAYER), bet: u(100), won: false })
    );
    let g = c.game(&u(8));
    assert!(g.resolved);
    assert!(!g.won);
    assert_eq!(g.bet, u(100));
    assert_eq!(g.randomness, u(5));
}

#[test]
fn rejections_come_before_the_values_are_read() {
    let mut c = deployed(100);
    c.new_game(addr(PLAYER), u(100), Some(u(3))).unwrap();
    assert_eq!(c.fulfill_randomness(addr(PLAYER), u(3), &vec![]), Err(Error::OnlySupraRouter));
    assert_eq!(c.fulfill_randomness(addr(ROUTER), u(4), &vec![]), Err(Error::GameNotFound));
    assert!(!c.game(&u(3)).resolved);
    c.fulfill_randomness(addr(ROUTER), u(3), &vec![u(5)]).unwrap();
    assert_eq!(c.fulfill_randomness(addr(ROUTER), u(3), &vec![]), Err(Error::GameAlreadyResolved));
    let g = c.game(&u(3));
    assert_eq!(g.randomness, u(5));
    assert!(!g.won);
}
