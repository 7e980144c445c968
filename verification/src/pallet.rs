//! The registry itself: the store of kitties, owners and listings, and the
//! operations that change it.
//!
//! Two operations depend on a payment that only the host currency can make.
//! For each the registry first names the payment ([`Pallet::create_payment`],
//! [`Pallet::buy_kitty_payment`]); the host attempts it and hands the result
//! to the operation, which commits only if the payment went through.

use crate::entropy;
use crate::genome::derive_child_genome;
use crate::state::State;
use crate::treasury;
use crate::types::{
    AccountId, Balance, Error, Event, Kitty, KittyCreateFeeDefault, KittyIndex, Payment,
    RandomSeed,
};
use std::collections::HashMap;
use vstd::prelude::*;

verus! {

broadcast use vstd::std_specs::hash::group_hash_axioms;

/// The registry of kitties.
#[derive(Clone, Debug, PartialEq, Eq)]
pub struct Pallet {
    genesis_count: u64,
    kitties_count: u64,
    kitty_create_fee: Balance,
    account_id: AccountId,
    kitties: HashMap<KittyIndex, Kitty>,
    owner: HashMap<KittyIndex, AccountId>,
    price_of: HashMap<KittyIndex, Balance>,
}

impl View for Pallet {
    type V = State;

    closed spec fn view(&self) -> State {
        State {
            genesis_count: self.genesis_count,
            kitties_count: self.kitties_count,
            kitty_create_fee: self.kitty_create_fee,
            account_id: self.account_id,
            kitties: Map::new(
                |id: KittyIndex| self.kitties@.contains_key(id),
                |id: KittyIndex| self.kitties@[id]@,
            ),
            owner: self.owner@,
            price_of: self.price_of@,
        }
    }
}

impl Pallet {
    /// Whether the registry satisfies its invariant. Every registry built
    /// and changed through this interface does, whatever is called.
    pub open spec fn wf(&self) -> bool {
        self@.wf()
    }

    /// An empty registry for the pallet named `pallet_id`, counting from
    /// zero and charging the default fee.
    pub fn new(pallet_id: [u8; 8]) -> (pallet: Pallet)
        ensures
            pallet@ == State::genesis(treasury::pallet_account(pallet_id@), 0, 5),
            pallet.wf(),
            pallet@.every_id_used(),
    {
        Pallet::genesis(pallet_id, 0, KittyCreateFeeDefault::get())
    }

    /// An empty registry for the pallet named `pallet_id`, whose counter
    /// starts at `kitties_count` and which charges `kitty_create_fee`.
    pub fn genesis(pallet_id: [u8; 8], kitties_count: u64, kitty_create_fee: Balance) -> (pallet:
        Pallet)
        ensures
            pallet@ == State::genesis(
                treasury::pallet_account(pallet_id@),
                kitties_count,
                kitty_create_fee,
            ),
            pallet.wf(),
            pallet@.every_id_used(),
    {
        let pallet = Pallet {
            genesis_count: kitties_count,
            kitties_count,
            kitty_create_fee,
            account_id: treasury::into_account(&pallet_id),
            kitties: HashMap::new(),
            owner: HashMap::new(),
            price_of: HashMap::new(),
        };
        assert(pallet@.kitties =~= Map::empty());
        pallet
    }

    /// The number of the last kitty born.
    pub fn kitties_count(&self) -> (count: u64)
        ensures
            count == self@.kitties_count,
    {
        self.kitties_count
    }

    /// The fee charged for each creation.
    pub fn kitty_create_fee(&self) -> (fee: Balance)
        ensures
            fee == self@.kitty_create_fee,
    {
        self.kitty_create_fee
    }

    /// The account that collects creation fees.
    pub fn account_id(&self) -> (account: AccountId)
        ensures
            account == self@.account_id,
    {
        self.account_id
    }

    /// The kitty born under `id`, if there is one.
    pub fn kitties(&self, id: KittyIndex) -> (kitty: Option<Kitty>)
        ensures
            match kitty {
                Some(k) => self@.kitties.contains_key(id) && k@ == self@.kitties[id],
                None => !self@.kitties.contains_key(id),
            },
    {
        match self.kitties.get(&id) {
            Some(kitty) => Some(*kitty),
            None => None,
        }
    }

    /// The owner of kitty `id`, or `None` if no such kitty was ever born.
    pub fn owner(&self, id: KittyIndex) -> (owner: Option<AccountId>)
        ensures
            match owner {
                Some(who) => self@.owner.contains_key(id) && who == self@.owner[id],
                None => !self@.owner.contains_key(id),
            },
    {
        match self.owner.get(&id) {
            Some(who) => Some(*who),
            None => None,
        }
    }

    /// The asking price of kitty `id`, or `None` if it is not listed.
    pub fn price_of(&self, id: KittyIndex) -> (price: Option<Balance>)
        ensures
            match price {
                Some(p) => self@.price_of.contains_key(id) && p == self@.price_of[id],
                None => !self@.price_of.contains_key(id),
            },
    {
        match self.price_of.get(&id) {
            Some(price) => Some(*price),
            None => None,
        }
    }

    /// Whether `who` owns kitty `id`. Nobody owns a kitty that does not exist.
    pub fn is_owner(&self, id: KittyIndex, who: AccountId) -> (yes: bool)
        ensures
            yes == self@.is_owner(id, who),
    {
        match self.owner.get(&id) {
            Some(owner) => *owner == who,
            None => false,
        }
    }

    /// Allocates the next id: moves the counter on by one and returns the
    /// new count. At the counter's maximum the allocation is refused and
    /// nothing changes. The id issued belongs to no kitty until a birth is
    /// recorded under it; `create` and `breed` allocate exactly once for each
    /// kitty they bring about.
    pub fn new_kitty_id(&mut self) -> (id: Result<KittyIndex, Error>)
        ensures
            id == old(self)@.new_kitty_id(),
            final(self)@ == old(self)@.new_kitty_id_state(),
            id is Err ==> final(self)@ == old(self)@,
            id is Ok ==> final(self)@ == (State {
                kitties_count: (old(self)@.kitties_count + 1) as u64,
                ..old(self)@
            }),
            id is Ok ==> id == Ok::<KittyIndex, Error>(final(self)@.kitties_count),
            old(self).wf() ==> final(self).wf(),
    {
        match self.kitties_count.checked_add(1) {
            Some(id) => {
                self.kitties_count = id;
                Ok(id)
            },
            None => Err(Error::KittiesCountOverflow),
        }
    }

    /// Sixteen pseudo-random bytes for `sender`: the 128-bit BLAKE2 digest
    /// of what the beacon handed out, the sender and the index of the
    /// extrinsic being executed.
    pub fn random_value(
        seed: &RandomSeed,
        sender: AccountId,
        extrinsic_index: Option<u32>,
    ) -> (value: [u8; 16])
        ensures
            value@ == entropy::random_value(*seed, sender, extrinsic_index),
    {
        let bytes = entropy::encode_payload(seed, sender, extrinsic_index);
        entropy::blake2_128(bytes.as_slice())
    }

    /// Records the birth of a kitty with genome `dna`, owned by `who`, under
    /// the id `id`, which the caller has just allocated.
    fn insert_kitty(&mut self, id: KittyIndex, who: AccountId, dna: [u8; 16])
        ensures
            final(self)@ == (State {
                kitties: old(self)@.kitties.insert(id, dna@),
                owner: old(self)@.owner.insert(id, who),
                ..old(self)@
            }),
    {
        self.kitties.insert(id, Kitty(dna));
        self.owner.insert(id, who);
        assert(self@.kitties =~= old(self)@.kitties.insert(id, dna@));
    }

    /// The payment that a creation by `who` depends on: the creation fee,
    /// from `who` to the collecting account.
    pub fn create_payment(&self, who: AccountId) -> (payment: Payment)
        ensures
            payment == self@.create_payment(who),
    {
        Payment { from: who, to: self.account_id, amount: self.kitty_create_fee }
    }

    /// Creates a kitty for `who` with the given genome. `paid` tells whether
    /// the payment named by `create_payment` went through. An unpaid creation
    /// is refused before an id is looked for.
    pub fn create_with_dna(&mut self, who: AccountId, paid: bool, dna: [u8; 16]) -> (outcome:
        Result<Event, Error>)
        ensures
            outcome == old(self)@.create_outcome(who, paid),
            final(self)@ == old(self)@.create_state(who, paid, dna@),
            old(self).wf() ==> final(self).wf(),
            old(self)@.every_id_used() ==> final(self)@.every_id_used(),
            !paid ==> outcome == Err::<Event, Error>(Error::PayFeeError),
            paid && old(self)@.kitties_count == u64::MAX ==> outcome == Err::<Event, Error>(
                Error::KittiesCountOverflow,
            ),
            outcome is Err ==> final(self)@ == old(self)@,
            outcome is Ok ==> ({
                let id = final(self)@.kitties_count;
                &&& id == old(self)@.kitties_count + 1
                &&& outcome == Ok::<Event, Error>(Event::KittyCreate(who, id))
                &&& final(self)@.is_owner(id, who)
                &&& final(self)@.kitties.contains_key(id) && final(self)@.kitties[id] == dna@
                &&& old(self).wf() ==> !final(self)@.price_of.contains_key(id)
            }),
    {
        if !paid {
            return Err(Error::PayFeeError);
        }
        let id: KittyIndex = match self.new_kitty_id() {
            Ok(id) => id,
            Err(e) => {
                return Err(e);
            },
        };
        self.insert_kitty(id, who, dna);
        Ok(Event::KittyCreate(who, id))
    }

    /// Creates a kitty for `who`, with a genome drawn from the beacon's
    /// `seed`, the caller and the index of the extrinsic being executed.
    /// `paid` tells whether the payment named by `create_payment` went
    /// through.
    pub fn create(
        &mut self,
        who: AccountId,
        paid: bool,
        seed: &RandomSeed,
        extrinsic_index: Option<u32>,
    ) -> (outcome: Result<Event, Error>)
        ensures
            outcome == old(self)@.create_outcome(who, paid),
            final(self)@ == old(self)@.create_state(
                who,
                paid,
                entropy::random_value(*seed, who, extrinsic_index),
            ),
            old(self).wf() ==> final(self).wf(),
            old(self)@.every_id_used() ==> final(self)@.every_id_used(),
            !paid ==> outcome == Err::<Event, Error>(Error::PayFeeError),
            paid && old(self)@.kitties_count == u64::MAX ==> outcome == Err::<Event, Error>(
                Error::KittiesCountOverflow,
            ),
            outcome is Err ==> final(self)@ == old(self)@,
            outcome is Ok ==> ({
                let id = final(self)@.kitties_count;
                &&& id == old(self)@.kitties_count + 1
                &&& outcome == Ok::<Event, Error>(Event::KittyCreate(who, id))
                &&& final(self)@.is_owner(id, who)
                &&& final(self)@.kitties.contains_key(id)
                &&& old(self).wf() ==> !final(self)@.price_of.contains_key(id)
            }),
    {
        let dna = Pallet::random_value(seed, who, extrinsic_index);
        self.create_with_dna(who, paid, dna)
    }

    /// Hands kitty `id` from `who` to `new_owner`.
    pub fn transfer(&mut self, who: AccountId, new_owner: AccountId, id: KittyIndex) -> (outcome:
        Result<Event, Error>)
        ensures
            outcome == old(self)@.transfer_outcome(who, new_owner, id),
            final(self)@ == old(self)@.transfer_state(who, new_owner, id),
            old(self).wf() ==> final(self).wf(),
            old(self)@.every_id_used() ==> final(self)@.every_id_used(),
            outcome is Ok <==> old(self)@.is_owner(id, who),
            outcome is Ok ==> final(self)@.is_owner(id, new_owner),
            outcome is Err ==> final(self)@ == old(self)@,
            !old(self)@.owner.contains_key(id) ==> outcome == Err::<Event, Error>(
                Error::KittyNotExist,
            ),
            old(self)@.owner.contains_key(id) && !old(self)@.is_owner(id, who) ==> outcome == Err::<
                Event,
                Error,
            >(Error::NotKittyOwner),
    {
        match self.owner(id) {
            None => Err(Error::KittyNotExist),
            Some(owner) => {
                if owner != who {
                    return Err(Error::NotKittyOwner);
                }
                self.owner.insert(id, new_owner);
                Ok(Event::KittyTransfer(who, new_owner, id))
            },
        }
    }

    /// Breeds kitties `id_1` and `id_2` of `who` under the given selector:
    /// the child takes each bit from the first parent where the selector bit
    /// is one and from the second where it is zero.
    pub fn breed_with_selector(
        &mut self,
        who: AccountId,
        id_1: KittyIndex,
        id_2: KittyIndex,
        selector: &[u8; 16],
    ) -> (outcome: Result<Event, Error>)
        ensures
            outcome == old(self)@.breed_outcome(who, id_1, id_2),
            final(self)@ == old(self)@.breed_state(who, id_1, id_2, selector@),
            old(self).wf() ==> final(self).wf(),
            old(self)@.every_id_used() ==> final(self)@.every_id_used(),
            id_1 == id_2 ==> outcome == Err::<Event, Error>(Error::SameParentIndex),
            id_1 != id_2 && !(old(self)@.is_owner(id_1, who) && old(self)@.is_owner(id_2, who))
                ==> outcome == Err::<Event, Error>(Error::NotKittyOwner),
            outcome is Err ==> final(self)@ == old(self)@,
            outcome is Ok ==> ({
                let id = final(self)@.kitties_count;
                let child = final(self)@.kitties[id];
                let a = old(self)@.kitties[id_1];
                let b = old(self)@.kitties[id_2];
                &&& id == old(self)@.kitties_count + 1
                &&& outcome == Ok::<Event, Error>(Event::KittyCreate(who, id))
                &&& final(self)@.is_owner(id, who)
                &&& final(self)@.kitties.contains_key(id)
                &&& forall|i: int|
                    0 <= i < 16 ==> #[trigger] child[i] == (selector[i] & a[i]) | (!selector[i]
                        & b[i])
            }),
    {
        if id_1 == id_2 {
            return Err(Error::SameParentIndex);
        }
        if !self.is_owner(id_1, who) {
            return Err(Error::NotKittyOwner);
        }
        if !self.is_owner(id_2, who) {
            return Err(Error::NotKittyOwner);
        }
        let kitty_1 = match self.kitties(id_1) {
            Some(kitty) => kitty,
            None => {
                return Err(Error::InvalidKittyIndex);
            },
        };
        let kitty_2 = match self.kitties(id_2) {
            Some(kitty) => kitty,
            None => {
                return Err(Error::InvalidKittyIndex);
            },
        };
        let id: KittyIndex = match self.new_kitty_id() {
            Ok(id) => id,
            Err(e) => {
                return Err(e);
            },
        };
        let new_dna = derive_child_genome(&kitty_1.0, &kitty_2.0, selector);
        self.insert_kitty(id, who, new_dna);
        Ok(Event::KittyCreate(who, id))
    }

    /// Breeds kitties `id_1` and `id_2` of `who`, under a selector drawn
    /// from the beacon's `seed`, the caller and the index of the extrinsic
    /// being executed.
    pub fn breed(
        &mut self,
        who: AccountId,
        id_1: KittyIndex,
        id_2: KittyIndex,
        seed: &RandomSeed,
        extrinsic_index: Option<u32>,
    ) -> (outcome: Result<Event, Error>)
        ensures
            outcome == old(self)@.breed_outcome(who, id_1, id_2),
            final(self)@ == old(self)@.breed_state(
                who,
                id_1,
                id_2,
                entropy::random_value(*seed, who, extrinsic_index),
            ),
            old(self).wf() ==> final(self).wf(),
            old(self)@.every_id_used() ==> final(self)@.every_id_used(),
            id_1 == id_2 ==> outcome == Err::<Event, Error>(Error::SameParentIndex),
            id_1 != id_2 && !(old(self)@.is_owner(id_1, who) && old(self)@.is_owner(id_2, who))
                ==> outcome == Err::<Event, Error>(Error::NotKittyOwner),
            outcome is Err ==> final(self)@ == old(self)@,
            outcome is Ok ==> ({
                let id = final(self)@.kitties_count;
                &&& id == old(self)@.kitties_count + 1
                &&& outcome == Ok::<Event, Error>(Event::KittyCreate(who, id))
                &&& final(self)@.is_owner(id, who)
                &&& final(self)@.kitties.contains_key(id)
            }),
    {
        let selector = Pallet::random_value(seed, who, extrinsic_index);
        self.breed_with_selector(who, id_1, id_2, &selector)
    }

    /// Lists kitty `id` of `who` at `price`, or takes it off the market if
    /// `price` is zero.
    pub fn for_sale(&mut self, who: AccountId, id: KittyIndex, price: Balance) -> (outcome: Result<
        Event,
        Error,
    >)
        ensures
            outcome == old(self)@.for_sale_outcome(who, id, price),
            final(self)@ == old(self)@.for_sale_state(who, id, price),
            old(self).wf() ==> final(self).wf(),
            old(self)@.every_id_used() ==> final(self)@.every_id_used(),
            outcome is Ok <==> old(self)@.is_owner(id, who),
            outcome is Err ==> outcome == Err::<Event, Error>(Error::NotKittyOwner) && final(self)@
                == old(self)@,
            outcome is Ok && price > 0 ==> final(self)@.is_for_sale(id) && final(self)@.price_of[id]
                == price,
            outcome is Ok && price == 0 ==> !final(self)@.price_of.contains_key(id),
    {
        if !self.is_owner(id, who) {
            return Err(Error::NotKittyOwner);
        }
        if price == 0 {
            self.price_of.remove(&id);
        } else {
            self.price_of.insert(id, price);
        }
        Ok(Event::KittyForSale(who, id, price))
    }

    /// The payment that the purchase of kitty `id` by `who` depends on: the
    /// asking price, from `who` to the owner. Refused if the kitty is not
    /// for sale.
    pub fn buy_kitty_payment(&self, who: AccountId, id: KittyIndex) -> (payment: Result<
        Payment,
        Error,
    >)
        ensures
            payment == self@.buy_kitty_payment(who, id),
    {
        let price: Balance = match self.price_of(id) {
            Some(price) => price,
            None => {
                return Err(Error::KittyNotForSale);
            },
        };
        if price == 0 {
            return Err(Error::KittyNotForSale);
        }
        match self.owner(id) {
            Some(old_owner) => Ok(Payment { from: who, to: old_owner, amount: price }),
            None => Err(Error::NotKittyOwner),
        }
    }

    /// Sells kitty `id` to `who`. `paid` tells whether the payment named by
    /// `buy_kitty_payment` went through; only then does the kitty change
    /// hands and leave the market.
    pub fn buy_kitty(&mut self, who: AccountId, id: KittyIndex, paid: bool) -> (outcome: Result<
        (Event, Event),
        Error,
    >)
        ensures
            outcome == old(self)@.buy_kitty_outcome(who, id, paid),
            final(self)@ == old(self)@.buy_kitty_state(who, id, paid),
            old(self).wf() ==> final(self).wf(),
            old(self)@.every_id_used() ==> final(self)@.every_id_used(),
            !old(self)@.is_for_sale(id) ==> outcome == Err::<(Event, Event), Error>(
                Error::KittyNotForSale,
            ),
            old(self).wf() && old(self)@.is_for_sale(id) && !paid ==> outcome == Err::<
                (Event, Event),
                Error,
            >(Error::PayFeeError),
            outcome is Err ==> final(self)@ == old(self)@,
            outcome is Ok ==> final(self)@.is_owner(id, who) && !final(self)@.price_of.contains_key(
                id,
            ),
    {
        let payment = match self.buy_kitty_payment(who, id) {
            Ok(payment) => payment,
            Err(e) => {
                return Err(e);
            },
        };
        if !paid {
            return Err(Error::PayFeeError);
        }
        self.owner.insert(id, who);
        self.price_of.remove(&id);
        Ok((Event::KittyTransfer(payment.to, who, id), Event::KittyBuy(who, id, payment.amount)))
    }
}

} // verus!
