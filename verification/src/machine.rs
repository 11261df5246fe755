//! The vending-machine component: its state, its five operations, and the
//! model-level transition functions their contracts are stated over.
//!
//! A machine custodies an inventory vault of gumballs and a proceeds vault of
//! the payment token, and posts a price. Anyone may buy; changing the price
//! and withdrawing the proceeds are gated on a proof of possession of the
//! owner badge minted at instantiation.

use vstd::prelude::*;

use crate::assets::AssetModel;
use crate::assets::Bucket;
use crate::assets::Proof;
use crate::assets::Vault;
use crate::assets::GUMBALL_KIND;
use crate::assets::OWNER_BADGE_KIND;
use crate::assets::PAYMENT_KIND;

verus! {

/// The number of gumballs minted into a fresh machine's inventory.
pub const INITIAL_SUPPLY: u128 = 100;

/// Mathematical state of a machine: gumballs left, payment units accumulated,
/// posted price, and the asset kind whose possession marks the owner.
pub ghost struct MachineModel {
    pub inventory: int,
    pub proceeds: int,
    pub price: int,
    pub owner_badge: int,
}

/// Snapshot returned by [`GumballMachine::get_status`].
#[derive(Clone, Copy, Debug, PartialEq, Eq, Structural)]
pub struct Status {
    pub price: u128,
    pub amount: u128,
}

/// Why a purchase was rejected; a rejected purchase has no effect, and the
/// payment is handed back to the caller in full.
#[derive(Clone, Copy, Debug, PartialEq, Eq, Structural)]
pub enum BuyError {
    /// The payment held less than the posted price.
    InsufficientPayment { required: u128, received: u128 },
    /// The payment held some asset other than the payment token.
    WrongAssetKind,
    /// Depositing the price would push the proceeds past the balance bound.
    ProceedsOverflow,
    /// No gumballs remain.
    InventoryEmpty,
}

/// Why a privileged operation was rejected; a rejected call has no effect.
#[derive(Clone, Copy, Debug, PartialEq, Eq, Structural)]
pub enum AuthError {
    /// The presented proof does not attest possession of the owner badge.
    MissingOwnerBadge,
}

/// Whether a proof of possession authorizes the privileged operations of a
/// machine in state `m`: it must attest at least one unit of the owner badge.
pub open spec fn authorized(m: MachineModel, presented: AssetModel) -> bool {
    presented.kind == m.owner_badge && presented.amount >= 1
}

/// Whether a purchase with payment `p` succeeds against state `m`.
pub open spec fn buy_accepted(m: MachineModel, p: AssetModel) -> bool {
    &&& p.amount >= m.price
    &&& p.kind == PAYMENT_KIND as int
    &&& m.proceeds + m.price <= u128::MAX as int
    &&& m.inventory >= 1
}

/// The rejection reported for payment `p` against state `m`, when
/// `buy_accepted(m, p)` does not hold. The conditions are reported in the
/// order the purchase checks them.
pub open spec fn buy_error(m: MachineModel, p: AssetModel) -> BuyError {
    if p.amount < m.price {
        BuyError::InsufficientPayment { required: m.price as u128, received: p.amount as u128 }
    } else if p.kind != PAYMENT_KIND as int {
        BuyError::WrongAssetKind
    } else if m.proceeds + m.price > u128::MAX as int {
        BuyError::ProceedsOverflow
    } else {
        BuyError::InventoryEmpty
    }
}

/// State after offering payment `p` to a machine in state `m`: an accepted
/// purchase moves one gumball out and the price in; a rejected one changes
/// nothing.
pub open spec fn buy_next(m: MachineModel, p: AssetModel) -> MachineModel {
    if buy_accepted(m, p) {
        MachineModel { inventory: m.inventory - 1, proceeds: m.proceeds + m.price, ..m }
    } else {
        m
    }
}

/// State after a successful withdrawal: the proceeds vault is emptied.
pub open spec fn withdrawn(m: MachineModel) -> MachineModel {
    MachineModel { proceeds: 0, ..m }
}

/// What a successful withdrawal pays out: the full proceeds balance.
pub open spec fn withdrawn_amount(m: MachineModel) -> int {
    m.proceeds
}

/// The vending-machine component.
#[derive(Debug)]
pub struct GumballMachine {
    gumballs: Vault,
    proceeds: Vault,
    price: u128,
    owner_badge: u64,
}

impl View for GumballMachine {
    type V = MachineModel;

    closed spec fn view(&self) -> MachineModel {
        MachineModel {
            inventory: self.gumballs@.amount,
            proceeds: self.proceeds@.amount,
            price: self.price as int,
            owner_badge: self.owner_badge as int,
        }
    }
}

impl GumballMachine {
    /// Well-formedness: the two vaults are typed to their asset kinds, and
    /// the inventory never exceeds the initial mint (it only ever shrinks).
    pub closed spec fn wf(&self) -> bool {
        &&& self.gumballs@.kind == GUMBALL_KIND as int
        &&& self.proceeds@.kind == PAYMENT_KIND as int
        &&& self.gumballs@.amount <= INITIAL_SUPPLY as int
    }

    /// Creates a machine holding the full initial supply of a freshly issued
    /// gumball token and an empty proceeds vault, posts `price`, and hands
    /// back the one-of-a-kind owner badge that gates the privileged
    /// operations.
    pub fn instantiate_gumball_machine(price: u128) -> (r: (GumballMachine, Bucket))
        ensures
            r.0.wf(),
            r.0@ == (MachineModel {
                inventory: INITIAL_SUPPLY as int,
                proceeds: 0,
                price: price as int,
                owner_badge: OWNER_BADGE_KIND as int,
            }),
            r.1@ == (AssetModel { kind: OWNER_BADGE_KIND as int, amount: 1 }),
    {
        let owner_badge: Bucket = Bucket::new(OWNER_BADGE_KIND, 1);
        let bucket_of_gumballs: Bucket = Bucket::new(GUMBALL_KIND, INITIAL_SUPPLY);
        let machine = GumballMachine {
            gumballs: Vault::with_bucket(bucket_of_gumballs),
            proceeds: Vault::new(PAYMENT_KIND),
            price,
            owner_badge: OWNER_BADGE_KIND,
        };
        (machine, owner_badge)
    }

    /// The counts of a well-formed machine are nonnegative, and its
    /// inventory never exceeds the initial mint; so the snapshots that
    /// [`GumballMachine::get_status`] and [`GumballMachine::get_price`]
    /// return are within these bounds.
    pub proof fn lemma_model_bounds(&self)
        requires
            self.wf(),
        ensures
            0 <= self@.inventory <= INITIAL_SUPPLY as int,
            0 <= self@.proceeds <= u128::MAX as int,
            0 <= self@.price <= u128::MAX as int,
            0 <= self@.owner_badge <= u64::MAX as int,
    {
        self.gumballs.lemma_model_bounds();
        self.proceeds.lemma_model_bounds();
    }

    /// The posted price. No side effects.
    pub fn get_price(&self) -> (price: u128)
        ensures
            price as int == self@.price,
    {
        self.price
    }

    /// A snapshot of the posted price and the gumballs left. No side effects.
    pub fn get_status(&self) -> (status: Status)
        ensures
            status.price as int == self@.price,
            status.amount as int == self@.inventory,
    {
        Status { price: self.price, amount: self.gumballs.amount() }
    }

    /// Posts a new price. Succeeds exactly when `auth` attests possession of
    /// the owner badge; a rejected call changes nothing.
    pub fn set_price(&mut self, auth: &Proof, price: u128) -> (r: Result<(), AuthError>)
        requires
            old(self).wf(),
        ensures
            final(self).wf(),
            authorized(old(self)@, auth@) ==> {
                &&& r is Ok
                &&& final(self)@ == (MachineModel { price: price as int, ..old(self)@ })
            },
            !authorized(old(self)@, auth@) ==> {
                &&& r matches Err(e) && e == AuthError::MissingOwnerBadge
                &&& final(self)@ == old(self)@
            },
    {
        if auth.asset_kind() == self.owner_badge && auth.amount() >= 1 {
            self.price = price;
            Ok(())
        } else {
            Err(AuthError::MissingOwnerBadge)
        }
    }

    /// Sells one gumball. Exactly when the payment is of the payment token,
    /// covers the posted price, a gumball remains, and the proceeds balance
    /// can absorb the price, the machine keeps the price, hands out one
    /// gumball, and returns the rest of the payment as change; otherwise it
    /// changes nothing and returns the reason together with the whole
    /// payment, rolled back to the caller untouched.
    pub fn buy_gumball(&mut self, payment: Bucket) -> (r: Result<
        (Bucket, Bucket),
        (BuyError, Bucket),
    >)
        requires
            old(self).wf(),
        ensures
            final(self).wf(),
            final(self)@ == buy_next(old(self)@, payment@),
            buy_accepted(old(self)@, payment@) ==> {
                &&& r matches Ok(out)
                &&& out.0@ == (AssetModel { kind: GUMBALL_KIND as int, amount: 1 })
                &&& out.1@ == (AssetModel {
                    kind: payment@.kind,
                    amount: payment@.amount - old(self)@.price,
                })
            },
            !buy_accepted(old(self)@, payment@) ==> {
                &&& r matches Err(rejected)
                &&& rejected.0 == buy_error(old(self)@, payment@)
                &&& rejected.1@ == payment@
            },
    {
        let mut payment = payment;
        if payment.amount() < self.price {
            let reason = BuyError::InsufficientPayment {
                required: self.price,
                received: payment.amount(),
            };
            return Err((reason, payment));
        }
        if payment.asset_kind() != PAYMENT_KIND {
            return Err((BuyError::WrongAssetKind, payment));
        }
        if self.proceeds.amount() > u128::MAX - self.price {
            return Err((BuyError::ProceedsOverflow, payment));
        }
        if self.gumballs.amount() == 0 {
            return Err((BuyError::InventoryEmpty, payment));
        }
        let our_share = payment.take(self.price);
        self.proceeds.put(our_share);
        Ok((self.gumballs.take(1), payment))
    }

    /// Empties the proceeds vault and returns its full prior contents; a
    /// second consecutive call returns an empty bucket. Succeeds exactly when
    /// `auth` attests possession of the owner badge; a rejected call changes
    /// nothing.
    pub fn withdraw_earnings(&mut self, auth: &Proof) -> (r: Result<Bucket, AuthError>)
        requires
            old(self).wf(),
        ensures
            final(self).wf(),
            authorized(old(self)@, auth@) ==> {
                &&& r matches Ok(earnings) && earnings@ == (AssetModel {
                    kind: PAYMENT_KIND as int,
                    amount: withdrawn_amount(old(self)@),
                })
                &&& final(self)@ == withdrawn(old(self)@)
            },
            !authorized(old(self)@, auth@) ==> {
                &&& r matches Err(e) && e == AuthError::MissingOwnerBadge
                &&& final(self)@ == old(self)@
            },
    {
        if auth.asset_kind() == self.owner_badge && auth.amount() >= 1 {
            Ok(self.proceeds.take_all())
        } else {
            Err(AuthError::MissingOwnerBadge)
        }
    }
}

} // verus!
