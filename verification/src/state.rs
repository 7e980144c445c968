//! The registry as a mathematical value, and each operation as a function
//! from one such value to the next.
//!
//! Every operation is described twice: by its outcome (the event it reports
//! or the error it is refused with) and by the state it leaves behind. A
//! refused operation leaves the state it found.

use crate::genome::crossover;
use crate::types::{AccountId, Balance, Error, Event, KittyIndex, Payment};
use vstd::prelude::*;

verus! {

/// What a registry holds.
pub struct State {
    /// The value the counter had when the registry was set up.
    pub genesis_count: u64,
    /// The number of the last kitty born; the next birth takes the next number.
    pub kitties_count: u64,
    /// The fee charged for each creation.
    pub kitty_create_fee: Balance,
    /// The account that collects creation fees.
    pub account_id: AccountId,
    /// The genome of each kitty.
    pub kitties: Map<KittyIndex, Seq<u8>>,
    /// The owner of each kitty.
    pub owner: Map<KittyIndex, AccountId>,
    /// The asking price of each kitty that is for sale.
    pub price_of: Map<KittyIndex, Balance>,
}

impl State {
    /// The state of a registry in which no kitty has been born yet.
    pub open spec fn genesis(account_id: AccountId, kitties_count: u64, kitty_create_fee: Balance)
        -> State {
        State {
            genesis_count: kitties_count,
            kitties_count,
            kitty_create_fee,
            account_id,
            kitties: Map::empty(),
            owner: Map::empty(),
            price_of: Map::empty(),
        }
    }

    /// The invariant of a registry: every kitty bears an id that the counter
    /// has issued since genesis, each has one owner and nothing else has, and
    /// only kitties are listed, each at a positive price.
    pub open spec fn wf(self) -> bool {
        &&& self.genesis_count <= self.kitties_count
        &&& forall|id: KittyIndex|
            self.kitties.contains_key(id) ==> self.genesis_count < id <= self.kitties_count
        &&& forall|id: KittyIndex| self.owner.contains_key(id) <==> self.kitties.contains_key(id)
        &&& forall|id: KittyIndex|
            self.price_of.contains_key(id) ==> self.kitties.contains_key(id) && self.price_of[id]
                > 0
    }

    /// Whether every id that the counter has issued since genesis belongs to
    /// a kitty. This holds as long as each id is allocated for a birth; an id
    /// allocated and left unused ends it.
    pub open spec fn every_id_used(self) -> bool {
        forall|id: KittyIndex|
            self.genesis_count < id <= self.kitties_count ==> self.kitties.contains_key(id)
    }

    /// Whether `who` is recorded as the owner of `id`. Nobody owns a kitty
    /// that does not exist.
    pub open spec fn is_owner(self, id: KittyIndex, who: AccountId) -> bool {
        self.owner.contains_key(id) && self.owner[id] == who
    }

    /// Whether `id` is listed at a positive price.
    pub open spec fn is_for_sale(self, id: KittyIndex) -> bool {
        self.price_of.contains_key(id) && self.price_of[id] != 0
    }

    /// The id that an allocation issues: the count after this one, or the
    /// refusal when the counter is exhausted.
    pub open spec fn new_kitty_id(self) -> Result<KittyIndex, Error> {
        if self.kitties_count == u64::MAX {
            Err(Error::KittiesCountOverflow)
        } else {
            Ok((self.kitties_count + 1) as u64)
        }
    }

    /// The state after an allocation: the counter has moved on by one, or,
    /// where the allocation is refused, stays.
    pub open spec fn new_kitty_id_state(self) -> State {
        if self.new_kitty_id() is Ok {
            State { kitties_count: (self.kitties_count + 1) as u64, ..self }
        } else {
            self
        }
    }

    /// The state after a birth: an id is allocated, so the counter moves on
    /// by one, and the new kitty is recorded under it, with its genome and
    /// its owner.
    pub open spec fn with_birth(self, who: AccountId, dna: Seq<u8>) -> State {
        let id = (self.kitties_count + 1) as u64;
        State {
            kitties_count: id,
            kitties: self.kitties.insert(id, dna),
            owner: self.owner.insert(id, who),
            ..self
        }
    }

    /// The payment on which a creation by `who` depends: the fee, to the
    /// collecting account.
    pub open spec fn create_payment(self, who: AccountId) -> Payment {
        Payment { from: who, to: self.account_id, amount: self.kitty_create_fee }
    }

    /// The outcome of a creation by `who`, the fee having been paid or not.
    pub open spec fn create_outcome(self, who: AccountId, paid: bool) -> Result<Event, Error> {
        if !paid {
            Err(Error::PayFeeError)
        } else {
            match self.new_kitty_id() {
                Err(e) => Err(e),
                Ok(id) => Ok(Event::KittyCreate(who, id)),
            }
        }
    }

    /// The state after a creation by `who` of a kitty with genome `dna`.
    pub open spec fn create_state(self, who: AccountId, paid: bool, dna: Seq<u8>) -> State {
        if self.create_outcome(who, paid) is Ok {
            self.with_birth(who, dna)
        } else {
            self
        }
    }

    /// The outcome of `who` handing kitty `id` to `new_owner`.
    pub open spec fn transfer_outcome(self, who: AccountId, new_owner: AccountId, id: KittyIndex)
        -> Result<Event, Error> {
        if !self.owner.contains_key(id) {
            Err(Error::KittyNotExist)
        } else if self.owner[id] != who {
            Err(Error::NotKittyOwner)
        } else {
            Ok(Event::KittyTransfer(who, new_owner, id))
        }
    }

    /// The state after `who` hands kitty `id` to `new_owner`. A listing of
    /// the kitty stays as it is.
    pub open spec fn transfer_state(self, who: AccountId, new_owner: AccountId, id: KittyIndex)
        -> State {
        if self.transfer_outcome(who, new_owner, id) is Ok {
            State { owner: self.owner.insert(id, new_owner), ..self }
        } else {
            self
        }
    }

    /// The outcome of `who` breeding kitties `id_1` and `id_2`.
    pub open spec fn breed_outcome(self, who: AccountId, id_1: KittyIndex, id_2: KittyIndex)
        -> Result<Event, Error> {
        if id_1 == id_2 {
            Err(Error::SameParentIndex)
        } else if !self.is_owner(id_1, who) || !self.is_owner(id_2, who) {
            Err(Error::NotKittyOwner)
        } else if !self.kitties.contains_key(id_1) || !self.kitties.contains_key(id_2) {
            Err(Error::InvalidKittyIndex)
        } else {
            match self.new_kitty_id() {
                Err(e) => Err(e),
                Ok(id) => Ok(Event::KittyCreate(who, id)),
            }
        }
    }

    /// The state after `who` breeds kitties `id_1` and `id_2` under
    /// `selector`: the child is born to `who` with the crossover of its
    /// parents' genomes.
    pub open spec fn breed_state(
        self,
        who: AccountId,
        id_1: KittyIndex,
        id_2: KittyIndex,
        selector: Seq<u8>,
    ) -> State {
        if self.breed_outcome(who, id_1, id_2) is Ok {
            self.with_birth(who, crossover(self.kitties[id_1], self.kitties[id_2], selector))
        } else {
            self
        }
    }

    /// The outcome of `who` listing kitty `id` at `price`; a price of zero
    /// takes the kitty off the market.
    pub open spec fn for_sale_outcome(self, who: AccountId, id: KittyIndex, price: Balance)
        -> Result<Event, Error> {
        if !self.is_owner(id, who) {
            Err(Error::NotKittyOwner)
        } else {
            Ok(Event::KittyForSale(who, id, price))
        }
    }

    /// The state after `who` lists kitty `id` at `price`.
    pub open spec fn for_sale_state(self, who: AccountId, id: KittyIndex, price: Balance) -> State {
        if self.for_sale_outcome(who, id, price) is Err {
            self
        } else if price == 0 {
            State { price_of: self.price_of.remove(id), ..self }
        } else {
            State { price_of: self.price_of.insert(id, price), ..self }
        }
    }

    /// The payment on which the purchase of kitty `id` by `who` depends: the
    /// asking price, to the current owner.
    pub open spec fn buy_kitty_payment(self, who: AccountId, id: KittyIndex) -> Result<
        Payment,
        Error,
    > {
        if !self.is_for_sale(id) {
            Err(Error::KittyNotForSale)
        } else if !self.owner.contains_key(id) {
            Err(Error::NotKittyOwner)
        } else {
            Ok(Payment { from: who, to: self.owner[id], amount: self.price_of[id] })
        }
    }

    /// The outcome of `who` buying kitty `id`, the price having been paid or
    /// not: on success the change of hands and the purchase.
    pub open spec fn buy_kitty_outcome(self, who: AccountId, id: KittyIndex, paid: bool) -> Result<
        (Event, Event),
        Error,
    > {
        match self.buy_kitty_payment(who, id) {
            Err(e) => Err(e),
            Ok(payment) => if !paid {
                Err(Error::PayFeeError)
            } else {
                Ok(
                    (
                        Event::KittyTransfer(payment.to, who, id),
                        Event::KittyBuy(who, id, payment.amount),
                    ),
                )
            },
        }
    }

    /// The state after `who` buys kitty `id`: the buyer owns it and it is no
    /// longer listed.
    pub open spec fn buy_kitty_state(self, who: AccountId, id: KittyIndex, paid: bool) -> State {
        if self.buy_kitty_outcome(who, id, paid) is Ok {
            State { owner: self.owner.insert(id, who), price_of: self.price_of.remove(id), ..self }
        } else {
            self
        }
    }
}

} // verus!
