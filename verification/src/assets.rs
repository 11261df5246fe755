//! Plain models of the ledger's asset primitives.
//!
//! An asset kind is identified by a small integer id, and an amount is a count
//! of that kind's indivisible atomic units (a fixed-point decimal balance
//! reduces to such a count). A [`Bucket`] is a transient container that moves
//! assets between callers and components, a [`Vault`] is a container owned by
//! a component, and a [`Proof`] attests possession of some amount of a kind.
//! Issuing new assets is the ledger's concern, not checked here; everything a
//! component does with these containers is verified.

use vstd::prelude::*;

verus! {

/// The designated payment token: the kind a machine's proceeds vault accepts.
pub const PAYMENT_KIND: u64 = 0;

/// The gumball token: the kind held by a machine's inventory vault.
pub const GUMBALL_KIND: u64 = 1;

/// The owner badge: the one-of-a-kind credential minted at instantiation.
pub const OWNER_BADGE_KIND: u64 = 2;

/// Mathematical view of a container or proof: its asset kind and amount.
pub ghost struct AssetModel {
    pub kind: int,
    pub amount: int,
}

/// A transient container holding `amount` atomic units of one asset kind.
///
/// Extraction ([`Bucket::take`]) is the only mutating operation; the fields
/// are never visible to callers except through the view.
#[derive(Debug)]
pub struct Bucket {
    kind: u64,
    amount: u128,
}

impl View for Bucket {
    type V = AssetModel;

    closed spec fn view(&self) -> AssetModel {
        AssetModel { kind: self.kind as int, amount: self.amount as int }
    }
}

impl Bucket {
    /// Issues a fresh bucket of the given kind and amount. On the ledger only
    /// the issuance facility can do this; here it stands in for minting.
    pub fn new(kind: u64, amount: u128) -> (bucket: Bucket)
        ensures
            bucket@ == (AssetModel { kind: kind as int, amount: amount as int }),
    {
        Bucket { kind, amount }
    }

    /// The amount of atomic units this bucket holds.
    pub fn amount(&self) -> (amount: u128)
        ensures
            amount as int == self@.amount,
    {
        self.amount
    }

    /// The asset kind this bucket holds.
    pub fn asset_kind(&self) -> (kind: u64)
        ensures
            kind as int == self@.kind,
    {
        self.kind
    }

    /// Extracts exactly `amount` units; the remainder stays behind.
    pub fn take(&mut self, amount: u128) -> (taken: Bucket)
        requires
            amount as int <= old(self)@.amount,
        ensures
            taken@ == (AssetModel { kind: old(self)@.kind, amount: amount as int }),
            final(self)@ == (AssetModel {
                kind: old(self)@.kind,
                amount: old(self)@.amount - amount,
            }),
    {
        self.amount = self.amount - amount;
        Bucket { kind: self.kind, amount }
    }

    /// A bucket's model is bounded by its machine representation: the kind
    /// is a 64-bit id and the amount a nonnegative 128-bit count.
    pub proof fn lemma_model_bounds(&self)
        ensures
            0 <= self@.kind <= u64::MAX as int,
            0 <= self@.amount <= u128::MAX as int,
    {
    }

    /// Attests possession of this bucket's contents without moving them.
    pub fn create_proof(&self) -> (proof_of: Proof)
        ensures
            proof_of@ == self@,
    {
        Proof { kind: self.kind, amount: self.amount }
    }
}

/// A container owned by a component; unlike a [`Bucket`] it is typed at
/// creation to accept exactly one asset kind for its whole lifetime.
#[derive(Debug)]
pub struct Vault {
    kind: u64,
    amount: u128,
}

impl View for Vault {
    type V = AssetModel;

    closed spec fn view(&self) -> AssetModel {
        AssetModel { kind: self.kind as int, amount: self.amount as int }
    }
}

impl Vault {
    /// An empty vault typed to the given asset kind.
    pub fn new(kind: u64) -> (vault: Vault)
        ensures
            vault@ == (AssetModel { kind: kind as int, amount: 0 }),
    {
        Vault { kind, amount: 0 }
    }

    /// A vault typed to the bucket's kind, holding the bucket's contents.
    pub fn with_bucket(bucket: Bucket) -> (vault: Vault)
        ensures
            vault@ == bucket@,
    {
        Vault { kind: bucket.kind, amount: bucket.amount }
    }

    /// The amount of atomic units this vault holds.
    pub fn amount(&self) -> (amount: u128)
        ensures
            amount as int == self@.amount,
    {
        self.amount
    }

    /// A vault's model is bounded by its machine representation: the kind
    /// is a 64-bit id and the amount a nonnegative 128-bit count.
    pub proof fn lemma_model_bounds(&self)
        ensures
            0 <= self@.kind <= u64::MAX as int,
            0 <= self@.amount <= u128::MAX as int,
    {
    }

    /// Deposits a bucket of the vault's own kind. The balance is bounded by
    /// the amount type; a deposit that would exceed it is left out, as the
    /// ledger aborts such a deposit.
    pub fn put(&mut self, bucket: Bucket)
        requires
            bucket@.kind == old(self)@.kind,
            old(self)@.amount + bucket@.amount <= u128::MAX as int,
        ensures
            final(self)@ == (AssetModel {
                kind: old(self)@.kind,
                amount: old(self)@.amount + bucket@.amount,
            }),
    {
        self.amount = self.amount + bucket.amount;
    }

    /// Extracts exactly `amount` units into a fresh bucket.
    pub fn take(&mut self, amount: u128) -> (taken: Bucket)
        requires
            amount as int <= old(self)@.amount,
        ensures
            taken@ == (AssetModel { kind: old(self)@.kind, amount: amount as int }),
            final(self)@ == (AssetModel {
                kind: old(self)@.kind,
                amount: old(self)@.amount - amount,
            }),
    {
        self.amount = self.amount - amount;
        Bucket { kind: self.kind, amount }
    }

    /// Empties the vault, returning its full contents.
    pub fn take_all(&mut self) -> (taken: Bucket)
        ensures
            taken@ == old(self)@,
            final(self)@ == (AssetModel { kind: old(self)@.kind, amount: 0 }),
    {
        let taken = Bucket { kind: self.kind, amount: self.amount };
        self.amount = 0;
        taken
    }
}

/// Evidence that a caller possesses `amount` units of `kind`; presented to
/// privileged operations in place of the assets themselves.
#[derive(Debug)]
pub struct Proof {
    kind: u64,
    amount: u128,
}

impl View for Proof {
    type V = AssetModel;

    closed spec fn view(&self) -> AssetModel {
        AssetModel { kind: self.kind as int, amount: self.amount as int }
    }
}

impl Proof {
    /// The asset kind whose possession this proof attests.
    pub fn asset_kind(&self) -> (kind: u64)
        ensures
            kind as int == self@.kind,
    {
        self.kind
    }

    /// The amount whose possession this proof attests.
    pub fn amount(&self) -> (amount: u128)
        ensures
            amount as int == self@.amount,
    {
        self.amount
    }
}

} // verus!
