use gumball_machine::assets::Bucket;
use gumball_machine::assets::GUMBALL_KIND;
use gumball_machine::assets::OWNER_BADGE_KIND;
use gumball_machine::assets::PAYMENT_KIND;
use gumball_machine::machine::AuthError;
use gumball_machine::machine::BuyError;
use gumball_machine::machine::GumballMachine;
use gumball_machine::machine::Status;
use gumball_machine::machine::INITIAL_SUPPLY;

#[test]
fn scenario_buy_set_price_withdraw() {
    let (mut machine, badge) = GumballMachine::instantiate_gumball_machine(10);
    let payment = Bucket::new(PAYMENT_KIND, 12);
    let (gumball, change) = machine.buy_gumball(payment).unwrap();
    assert_eq!(gumball.asset_kind(), GUMBALL_KIND);
    assert_eq!(gumball.amount(), 1);
    assert_eq!(change.asset_kind(), PAYMENT_KIND);
    assert_eq!(change.amount(), 2);
    assert_eq!(machine.get_status(), Status { price: 10, amount: 99 });

    let auth = badge.create_proof();
    machine.set_price(&auth, 15).unwrap();
    assert_eq!(machine.get_price(), 15);

    let earnings = machine.withdraw_earnings(&auth).unwrap();
    assert_eq!(earnings.asset_kind(), PAYMENT_KIND);
    assert_eq!(earnings.amount(), 10);
    assert_eq!(machine.get_status(), Status { price: 15, amount: 99 });
}

#[test]
fn exact_change_on_overpayment() {
    let (mut machine, _badge) = GumballMachine::instantiate_gumball_machine(10);
    let (_gumball, change) = machine.buy_gumball(Bucket::new(PAYMENT_KIND, 25)).unwrap();
    assert_eq!(change.amount(), 15);
    let (_gumball, change) = machine.buy_gumball(Bucket::new(PAYMENT_KIND, 10)).unwrap();
    assert_eq!(change.amount(), 0);
}

#[test]
fn zero_price_purchase() {
    let (mut machine, badge) = GumballMachine::instantiate_gumball_machine(0);
    let (gumball, change) = machine.buy_gumball(Bucket::new(PAYMENT_KIND, 0)).unwrap();
    assert_eq!(gumball.amount(), 1);
    assert_eq!(change.amount(), 0);
    let earnings = machine.withdraw_earnings(&badge.create_proof()).unwrap();
    assert_eq!(earnings.amount(), 0);
}

#[test]
fn underpayment_rejected() {
    let (mut machine, badge) = GumballMachine::instantiate_gumball_machine(10);
    match machine.buy_gumball(Bucket::new(PAYMENT_KIND, 5)) {
        Err((BuyError::InsufficientPayment { required, received }, refund)) => {
            assert_eq!(required, 10);
            assert_eq!(received, 5);
            assert_eq!(refund.asset_kind(), PAYMENT_KIND);
            assert_eq!(refund.amount(), 5);
        }
        other => panic!("expected an insufficient-payment rejection, got {:?}", other),
    }
    assert_eq!(machine.get_status(), Status { price: 10, amount: 100 });
    let earnings = machine.withdraw_earnings(&badge.create_proof()).unwrap();
    assert_eq!(earnings.amount(), 0);
}

#[test]
fn wrong_asset_kind_rejected() {
    let (mut machine, _badge) = GumballMachine::instantiate_gumball_machine(10);
    let (reason, refund) = machine.buy_gumball(Bucket::new(GUMBALL_KIND, 20)).unwrap_err();
    assert_eq!(reason, BuyError::WrongAssetKind);
    assert_eq!(refund.asset_kind(), GUMBALL_KIND);
    assert_eq!(refund.amount(), 20);
    assert_eq!(machine.get_status(), Status { price: 10, amount: 100 });
}

#[test]
fn exhaustion_after_initial_supply() {
    let (mut machine, badge) = GumballMachine::instantiate_gumball_machine(3);
    let mut bought: u128 = 0;
    while bought < INITIAL_SUPPLY {
        let (gumball, change) = machine.buy_gumball(Bucket::new(PAYMENT_KIND, 3)).unwrap();
        assert_eq!(gumball.amount(), 1);
        assert_eq!(change.amount(), 0);
        bought += 1;
    }
    assert_eq!(machine.get_status(), Status { price: 3, amount: 0 });
    let (reason, refund) = machine.buy_gumball(Bucket::new(PAYMENT_KIND, 3)).unwrap_err();
    assert_eq!(reason, BuyError::InventoryEmpty);
    assert_eq!(refund.asset_kind(), PAYMENT_KIND);
    assert_eq!(refund.amount(), 3);
    assert_eq!(machine.get_status(), Status { price: 3, amount: 0 });
    let earnings = machine.withdraw_earnings(&badge.create_proof()).unwrap();
    assert_eq!(earnings.amount(), 3 * INITIAL_SUPPLY);
}

#[test]
fn set_price_requires_owner_badge() {
    let (mut machine, badge) = GumballMachine::instantiate_gumball_machine(10);
    let intruder = Bucket::new(PAYMENT_KIND, 1000).create_proof();
    let r = machine.set_price(&intruder, 1);
    assert_eq!(r.unwrap_err(), AuthError::MissingOwnerBadge);
    assert_eq!(machine.get_price(), 10);
    machine.set_price(&badge.create_proof(), 1).unwrap();
    assert_eq!(machine.get_price(), 1);
}

#[test]
fn withdraw_requires_owner_badge() {
    let (mut machine, badge) = GumballMachine::instantiate_gumball_machine(10);
    machine.buy_gumball(Bucket::new(PAYMENT_KIND, 10)).unwrap();
    let intruder = Bucket::new(PAYMENT_KIND, 1000).create_proof();
    let r = machine.withdraw_earnings(&intruder);
    assert_eq!(r.unwrap_err(), AuthError::MissingOwnerBadge);
    let earnings = machine.withdraw_earnings(&badge.create_proof()).unwrap();
    assert_eq!(earnings.amount(), 10);
}

#[test]
fn empty_badge_proof_rejected() {
    let (mut machine, _badge) = GumballMachine::instantiate_gumball_machine(10);
    let empty = Bucket::new(OWNER_BADGE_KIND, 0).create_proof();
    let r = machine.set_price(&empty, 1);
    assert_eq!(r.unwrap_err(), AuthError::MissingOwnerBadge);
    assert_eq!(machine.get_price(), 10);
}

#[test]
fn withdraw_twice_returns_all_then_nothing() {
    let (mut machine, badge) = GumballMachine::instantiate_gumball_machine(10);
    machine.buy_gumball(Bucket::new(PAYMENT_KIND, 10)).unwrap();
    let auth = badge.create_proof();
    let first = machine.withdraw_earnings(&auth).unwrap();
    assert_eq!(first.amount(), 10);
    let second = machine.withdraw_earnings(&auth).unwrap();
    assert_eq!(second.amount(), 0);
    assert_eq!(machine.get_status(), Status { price: 10, amount: 99 });
}

#[test]
fn proceeds_sum_over_purchases() {
    let (mut machine, badge) = GumballMachine::instantiate_gumball_machine(7);
    let (_gumball, change) = machine.buy_gumball(Bucket::new(PAYMENT_KIND, 7)).unwrap();
    assert_eq!(change.amount(), 0);
    let (_gumball, change) = machine.buy_gumball(Bucket::new(PAYMENT_KIND, 9)).unwrap();
    assert_eq!(change.amount(), 2);
    let (_gumball, change) = machine.buy_gumball(Bucket::new(PAYMENT_KIND, 30)).unwrap();
    assert_eq!(change.amount(), 23);
    assert_eq!(machine.get_status(), Status { price: 7, amount: 97 });
    let earnings = machine.withdraw_earnings(&badge.create_proof()).unwrap();
    assert_eq!(earnings.amount(), 21);
}

#[test]
fn proceeds_overflow_rejected() {
    let (mut machine, _badge) = GumballMachine::instantiate_gumball_machine(u128::MAX);
    machine.buy_gumball(Bucket::new(PAYMENT_KIND, u128::MAX)).unwrap();
    let (reason, refund) = machine.buy_gumball(Bucket::new(PAYMENT_KIND, u128::MAX)).unwrap_err();
    assert_eq!(reason, BuyError::ProceedsOverflow);
    assert_eq!(refund.amount(), u128::MAX);
    assert_eq!(machine.get_status(), Status { price: u128::MAX, amount: 99 });
}
