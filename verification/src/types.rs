//! The plain values the registry speaks in: identities, genomes, failures,
//! notifications and payment requests.

use vstd::prelude::*;

verus! {

/// An account of the host ledger.
pub type AccountId = u64;

/// The identifier of a kitty: its place in the sequence of births.
pub type KittyIndex = u64;

/// An amount of the host currency.
pub type Balance = u64;

/// A kitty: nothing but its sixteen-byte genome, fixed at birth.
#[derive(Clone, Copy, PartialEq, Eq, Debug)]
pub struct Kitty(pub [u8; 16]);

impl View for Kitty {
    type V = Seq<u8>;

    open spec fn view(&self) -> Seq<u8> {
        self.0@
    }
}

/// What the randomness beacon hands out: a seed, and the number of the
/// block since which the seed could be known.
#[derive(Clone, Copy, PartialEq, Eq, Debug)]
pub struct RandomSeed {
    /// The seed.
    pub hash: [u8; 32],
    /// The block since which the seed could be known.
    pub block_number: u64,
}

/// Why an operation was refused. A refused operation changes nothing.
#[derive(Clone, Copy, PartialEq, Eq, Debug)]
pub enum Error {
    /// The counter of kitties is at its maximum and cannot issue another id.
    KittiesCountOverflow,
    /// No kitty was ever born under this id.
    KittyNotExist,
    /// The caller is not the owner of the kitty.
    NotKittyOwner,
    /// Both parents of a breeding are the same kitty.
    SameParentIndex,
    /// A parent has an owner but no recorded genome.
    InvalidKittyIndex,
    /// The kitty has no listing with a positive price.
    KittyNotForSale,
    /// The host could not move the payment.
    PayFeeError,
}

/// What a successful operation tells the outside world.
#[derive(Clone, Copy, PartialEq, Eq, Debug)]
pub enum Event {
    /// A kitty was born: its owner and its id.
    KittyCreate(AccountId, KittyIndex),
    /// A kitty changed hands: the previous owner, the new owner, the id.
    KittyTransfer(AccountId, AccountId, KittyIndex),
    /// A kitty was bought: the buyer, the id, the price paid.
    KittyBuy(AccountId, KittyIndex, Balance),
    /// A listing changed: the owner, the id, the new price (zero delists).
    KittyForSale(AccountId, KittyIndex, Balance),
}

/// A transfer the host currency is asked to perform. Every payment is
/// keep-alive: it must fail rather than bring the payer below the balance
/// the currency requires an account to keep.
#[derive(Clone, Copy, PartialEq, Eq, Debug)]
pub struct Payment {
    /// The account that pays.
    pub from: AccountId,
    /// The account that is paid.
    pub to: AccountId,
    /// The amount that moves.
    pub amount: Balance,
}

/// The fee charged for creating a kitty when none has been configured.
pub struct KittyCreateFeeDefault;

impl KittyCreateFeeDefault {
    /// The default creation fee, in balance units.
    pub fn get() -> (fee: Balance)
        ensures
            fee == 5,
    {
        5
    }
}

} // verus!
