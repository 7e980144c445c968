//! What holds of the registry whatever is done to it, stated over the
//! transition functions of [`State`] and proved from them.

use crate::genome::{crossover, mix_byte};
use crate::state::State;
use crate::types::{AccountId, Balance, Error, Event, KittyIndex, Payment};
use vstd::prelude::*;

verus! {

impl State {
    /// What no operation undoes: the configuration stays, the counter does
    /// not go back, a kitty keeps its genome and an owned kitty stays owned.
    pub open spec fn evolves_to(self, next: State) -> bool {
        &&& next.genesis_count == self.genesis_count
        &&& next.kitty_create_fee == self.kitty_create_fee
        &&& next.account_id == self.account_id
        &&& next.kitties_count >= self.kitties_count
        &&& forall|id: KittyIndex| #[trigger]
            self.kitties.contains_key(id) ==> next.kitties.contains_key(id) && next.kitties[id]
                == self.kitties[id]
        &&& forall|id: KittyIndex| #[trigger]
            self.owner.contains_key(id) ==> next.owner.contains_key(id)
    }
}

/// The ids `lo + 1, ..., hi`.
pub open spec fn ids_between(lo: u64, hi: u64) -> Set<KittyIndex> {
    Set::new(|id: KittyIndex| lo < id <= hi)
}

/// There are `hi - lo` ids above `lo` and up to `hi`.
pub proof fn lemma_ids_between_len(lo: u64, hi: u64)
    requires
        lo <= hi,
    ensures
        ids_between(lo, hi).finite(),
        ids_between(lo, hi).len() == hi - lo,
    decreases hi - lo,
{
    if lo == hi {
        assert(ids_between(lo, hi) =~= Set::empty());
    } else {
        let below = (hi - 1) as u64;
        lemma_ids_between_len(lo, below);
        assert(ids_between(lo, hi) =~= ids_between(lo, below).insert(hi));
    }
}

/// A registry at genesis satisfies the invariant, and has used every id
/// issued, there being none.
pub proof fn lemma_genesis_wf(account_id: AccountId, kitties_count: u64, kitty_create_fee: Balance)
    ensures
        State::genesis(account_id, kitties_count, kitty_create_fee).wf(),
        State::genesis(account_id, kitties_count, kitty_create_fee).every_id_used(),
{
}

/// The counter bounds the kitties: in a registry that satisfies the
/// invariant there are at most as many kitties, and exactly as many owned
/// ids as kitties, as the counter has moved since genesis.
pub proof fn lemma_count_bounds_population(s: State)
    requires
        s.wf(),
    ensures
        s.kitties.dom().finite(),
        s.kitties.dom().len() <= s.kitties_count - s.genesis_count,
        s.owner.dom() == s.kitties.dom(),
{
    lemma_ids_between_len(s.genesis_count, s.kitties_count);
    vstd::set_lib::lemma_len_subset(
        s.kitties.dom(),
        ids_between(s.genesis_count, s.kitties_count),
    );
    assert(s.owner.dom() =~= s.kitties.dom());
}

/// The counter counts the kitties: in a registry that satisfies the
/// invariant and in which every id issued was used for a birth, there are
/// exactly as many kitties as the counter has moved since genesis.
pub proof fn lemma_count_is_population(s: State)
    requires
        s.wf(),
        s.every_id_used(),
    ensures
        s.kitties.dom().finite(),
        s.kitties.dom().len() == s.kitties_count - s.genesis_count,
{
    lemma_ids_between_len(s.genesis_count, s.kitties_count);
    assert(s.kitties.dom() =~= ids_between(s.genesis_count, s.kitties_count));
}

/// An allocation keeps the invariant and undoes nothing. Where it succeeds
/// it moves the counter on by exactly one and changes nothing else, and the
/// id it issues is fresh: it belongs to no kitty, has no owner and no
/// listing. Left without a birth, that id is one the counter has issued and
/// no kitty bears.
pub proof fn lemma_new_kitty_id_keeps_invariant(s: State)
    requires
        s.wf(),
    ensures
        s.new_kitty_id_state().wf(),
        s.evolves_to(s.new_kitty_id_state()),
        s.new_kitty_id() is Err <==> s.kitties_count == u64::MAX,
        s.new_kitty_id() is Err ==> s.new_kitty_id_state() == s,
        s.new_kitty_id() is Ok ==> ({
            let next = s.new_kitty_id_state();
            let id = next.kitties_count;
            &&& s.new_kitty_id() == Ok::<KittyIndex, Error>(id)
            &&& id == s.kitties_count + 1
            &&& next == (State { kitties_count: id, ..s })
            &&& !next.kitties.contains_key(id)
            &&& !next.owner.contains_key(id)
            &&& !next.price_of.contains_key(id)
            &&& !next.every_id_used()
        }),
{
}

/// A birth is one allocation followed by the record of the kitty under the
/// id issued.
pub proof fn lemma_birth_allocates_once(s: State, who: AccountId, dna: Seq<u8>)
    requires
        s.new_kitty_id() is Ok,
    ensures
        ({
            let allocated = s.new_kitty_id_state();
            let id = allocated.kitties_count;
            s.with_birth(who, dna) == (State {
                kitties: allocated.kitties.insert(id, dna),
                owner: allocated.owner.insert(id, who),
                ..allocated
            })
        }),
{
}

/// A creation keeps the invariant, leaves no id unused and undoes nothing.
pub proof fn lemma_create_keeps_invariant(s: State, who: AccountId, paid: bool, dna: Seq<u8>)
    requires
        s.wf(),
    ensures
        s.create_state(who, paid, dna).wf(),
        s.every_id_used() ==> s.create_state(who, paid, dna).every_id_used(),
        s.evolves_to(s.create_state(who, paid, dna)),
{
}

/// A transfer keeps the invariant, leaves no id unused and undoes nothing.
pub proof fn lemma_transfer_keeps_invariant(
    s: State,
    who: AccountId,
    new_owner: AccountId,
    id: KittyIndex,
)
    requires
        s.wf(),
    ensures
        s.transfer_state(who, new_owner, id).wf(),
        s.every_id_used() ==> s.transfer_state(who, new_owner, id).every_id_used(),
        s.evolves_to(s.transfer_state(who, new_owner, id)),
{
}

/// A breeding keeps the invariant, leaves no id unused and undoes nothing.
pub proof fn lemma_breed_keeps_invariant(
    s: State,
    who: AccountId,
    id_1: KittyIndex,
    id_2: KittyIndex,
    selector: Seq<u8>,
)
    requires
        s.wf(),
    ensures
        s.breed_state(who, id_1, id_2, selector).wf(),
        s.every_id_used() ==> s.breed_state(who, id_1, id_2, selector).every_id_used(),
        s.evolves_to(s.breed_state(who, id_1, id_2, selector)),
{
}

/// A listing keeps the invariant, leaves no id unused and undoes nothing.
pub proof fn lemma_for_sale_keeps_invariant(
    s: State,
    who: AccountId,
    id: KittyIndex,
    price: Balance,
)
    requires
        s.wf(),
    ensures
        s.for_sale_state(who, id, price).wf(),
        s.every_id_used() ==> s.for_sale_state(who, id, price).every_id_used(),
        s.evolves_to(s.for_sale_state(who, id, price)),
{
}

/// A purchase keeps the invariant, leaves no id unused and undoes nothing.
pub proof fn lemma_buy_kitty_keeps_invariant(s: State, who: AccountId, id: KittyIndex, paid: bool)
    requires
        s.wf(),
    ensures
        s.buy_kitty_state(who, id, paid).wf(),
        s.every_id_used() ==> s.buy_kitty_state(who, id, paid).every_id_used(),
        s.evolves_to(s.buy_kitty_state(who, id, paid)),
{
}

/// An operation that is refused leaves the registry as it found it.
pub proof fn lemma_refused_changes_nothing(
    s: State,
    who: AccountId,
    other: AccountId,
    id_1: KittyIndex,
    id_2: KittyIndex,
    price: Balance,
    paid: bool,
    dna: Seq<u8>,
)
    ensures
        s.create_outcome(who, paid) is Err ==> s.create_state(who, paid, dna) == s,
        s.transfer_outcome(who, other, id_1) is Err ==> s.transfer_state(who, other, id_1) == s,
        s.breed_outcome(who, id_1, id_2) is Err ==> s.breed_state(who, id_1, id_2, dna) == s,
        s.for_sale_outcome(who, id_1, price) is Err ==> s.for_sale_state(who, id_1, price) == s,
        s.buy_kitty_outcome(who, id_1, paid) is Err ==> s.buy_kitty_state(who, id_1, paid) == s,
{
}

/// In a registry that satisfies the invariant the defensive refusals never
/// occur: a breeding is never refused for a missing genome, nor a purchase
/// for a missing owner.
pub proof fn lemma_defensive_errors_unreachable(
    s: State,
    who: AccountId,
    id_1: KittyIndex,
    id_2: KittyIndex,
    paid: bool,
)
    requires
        s.wf(),
    ensures
        s.breed_outcome(who, id_1, id_2) != Err::<Event, Error>(Error::InvalidKittyIndex),
        s.buy_kitty_outcome(who, id_1, paid) != Err::<(Event, Event), Error>(Error::NotKittyOwner),
{
}

/// A creation that succeeds moves the counter on by exactly one, gives the
/// new kitty the new count as its id, the caller as its owner and the given
/// genome, and leaves it unlisted. The payment it depended on is the fee,
/// from the caller to the collecting account.
pub proof fn lemma_create_success(s: State, who: AccountId, paid: bool, dna: Seq<u8>)
    requires
        s.wf(),
        s.create_outcome(who, paid) is Ok,
    ensures
        ({
            let next = s.create_state(who, paid, dna);
            let id = next.kitties_count;
            &&& paid
            &&& next.kitties_count == s.kitties_count + 1
            &&& s.create_outcome(who, paid) == Ok::<Event, Error>(Event::KittyCreate(who, id))
            &&& !s.kitties.contains_key(id)
            &&& next.kitties.contains_key(id) && next.kitties[id] == dna
            &&& next.is_owner(id, who)
            &&& !next.price_of.contains_key(id)
            &&& next.price_of == s.price_of
            &&& s.create_payment(who) == (Payment {
                from: who,
                to: s.account_id,
                amount: s.kitty_create_fee,
            })
        }),
{
}

/// A creation whose fee was not paid is refused as unpaid, whatever the
/// counter, and changes nothing.
pub proof fn lemma_create_unpaid(s: State, who: AccountId, dna: Seq<u8>)
    ensures
        s.create_outcome(who, false) == Err::<Event, Error>(Error::PayFeeError),
        s.create_state(who, false, dna) == s,
{
}

/// A paid creation with the counter at its maximum is refused for overflow
/// and changes nothing.
pub proof fn lemma_create_overflow(s: State, who: AccountId, dna: Seq<u8>)
    requires
        s.kitties_count == u64::MAX,
    ensures
        s.create_outcome(who, true) == Err::<Event, Error>(Error::KittiesCountOverflow),
        s.create_state(who, true, dna) == s,
{
}

/// A breeding of two different kitties of the caller, with room left in the
/// counter, succeeds: the child gets the next id and the caller as owner,
/// the counter moves on by one, and each byte of the child's genome is the
/// selector's choice between the parents' bytes.
pub proof fn lemma_breed_success(
    s: State,
    who: AccountId,
    id_1: KittyIndex,
    id_2: KittyIndex,
    selector: Seq<u8>,
)
    requires
        s.wf(),
        id_1 != id_2,
        s.is_owner(id_1, who),
        s.is_owner(id_2, who),
        s.kitties_count < u64::MAX,
    ensures
        ({
            let next = s.breed_state(who, id_1, id_2, selector);
            let id = next.kitties_count;
            &&& next.kitties_count == s.kitties_count + 1
            &&& s.breed_outcome(who, id_1, id_2) == Ok::<Event, Error>(Event::KittyCreate(who, id))
            &&& next.is_owner(id, who)
            &&& !s.kitties.contains_key(id)
            &&& next.kitties.contains_key(id)
            &&& next.kitties[id].len() == 16
            &&& forall|i: int|
                0 <= i < 16 ==> #[trigger] next.kitties[id][i] == (selector[i] & s.kitties[id_1][i])
                    | (!selector[i] & s.kitties[id_2][i])
            &&& !next.price_of.contains_key(id)
        }),
{
    let next = s.breed_state(who, id_1, id_2, selector);
    let id = next.kitties_count;
    assert(s.kitties.contains_key(id_1) && s.kitties.contains_key(id_2));
    assert(next.kitties[id] == crossover(s.kitties[id_1], s.kitties[id_2], selector));
    assert forall|i: int| 0 <= i < 16 implies #[trigger] next.kitties[id][i] == (selector[i]
        & s.kitties[id_1][i]) | (!selector[i] & s.kitties[id_2][i]) by {
        assert(next.kitties[id][i] == mix_byte(
            selector[i],
            s.kitties[id_1][i],
            s.kitties[id_2][i],
        ));
    }
}

/// Breeding a kitty with itself is refused as such, whoever asks and
/// whoever owns it, and changes nothing.
pub proof fn lemma_breed_same_parent(s: State, who: AccountId, id: KittyIndex, selector: Seq<u8>)
    ensures
        s.breed_outcome(who, id, id) == Err::<Event, Error>(Error::SameParentIndex),
        s.breed_state(who, id, id, selector) == s,
{
}

/// Who does not own a kitty can neither hand it on, nor breed it, nor list
/// it: a transfer is refused because the kitty does not exist or because
/// the caller is not its owner, a breeding with another kitty and a listing
/// because the caller is not its owner. Nothing changes.
pub proof fn lemma_not_owner_refused(
    s: State,
    who: AccountId,
    id: KittyIndex,
    new_owner: AccountId,
    other: KittyIndex,
    selector: Seq<u8>,
    price: Balance,
)
    requires
        !s.is_owner(id, who),
    ensures
        s.transfer_outcome(who, new_owner, id) == Err::<Event, Error>(
            if s.owner.contains_key(id) {
                Error::NotKittyOwner
            } else {
                Error::KittyNotExist
            },
        ),
        s.transfer_state(who, new_owner, id) == s,
        other != id ==> s.breed_outcome(who, id, other) == Err::<Event, Error>(
            Error::NotKittyOwner,
        ),
        other != id ==> s.breed_outcome(who, other, id) == Err::<Event, Error>(
            Error::NotKittyOwner,
        ),
        s.breed_state(who, id, other, selector) == s,
        s.breed_state(who, other, id, selector) == s,
        s.for_sale_outcome(who, id, price) == Err::<Event, Error>(Error::NotKittyOwner),
        s.for_sale_state(who, id, price) == s,
{
}

/// Listing, then buying: once its owner has listed a kitty at a positive
/// price, a purchase depends on the payment of exactly that price from the
/// buyer to the seller, and a paid purchase makes the buyer the owner and
/// removes the listing.
pub proof fn lemma_list_then_buy(
    s: State,
    seller: AccountId,
    buyer: AccountId,
    id: KittyIndex,
    price: Balance,
)
    requires
        s.is_owner(id, seller),
        price > 0,
    ensures
        ({
            let listed = s.for_sale_state(seller, id, price);
            let sold = listed.buy_kitty_state(buyer, id, true);
            &&& s.for_sale_outcome(seller, id, price) == Ok::<Event, Error>(
                Event::KittyForSale(seller, id, price),
            )
            &&& listed.price_of.contains_key(id) && listed.price_of[id] == price
            &&& listed.buy_kitty_payment(buyer, id) == Ok::<Payment, Error>(
                Payment { from: buyer, to: seller, amount: price },
            )
            &&& listed.buy_kitty_outcome(buyer, id, true) == Ok::<(Event, Event), Error>(
                (Event::KittyTransfer(seller, buyer, id), Event::KittyBuy(buyer, id, price)),
            )
            &&& sold.is_owner(id, buyer)
            &&& !sold.price_of.contains_key(id)
        }),
{
}

/// A kitty without a listing at a positive price cannot be bought: the
/// purchase is refused as not for sale, paid or not, and changes nothing.
pub proof fn lemma_buy_unlisted(s: State, who: AccountId, id: KittyIndex, paid: bool)
    requires
        !s.is_for_sale(id),
    ensures
        s.buy_kitty_payment(who, id) == Err::<Payment, Error>(Error::KittyNotForSale),
        s.buy_kitty_outcome(who, id, paid) == Err::<(Event, Event), Error>(Error::KittyNotForSale),
        s.buy_kitty_state(who, id, paid) == s,
{
}

/// Listing, then delisting: once its owner has set the price of a kitty to
/// zero, whatever it was listed at before, the kitty has no listing and a
/// purchase is refused as not for sale, paid or not, and changes nothing.
pub proof fn lemma_buy_after_delisting(
    s: State,
    owner: AccountId,
    who: AccountId,
    id: KittyIndex,
    price: Balance,
    paid: bool,
)
    requires
        s.is_owner(id, owner),
    ensures
        ({
            let delisted = s.for_sale_state(owner, id, price).for_sale_state(owner, id, 0);
            &&& !delisted.price_of.contains_key(id)
            &&& delisted.buy_kitty_outcome(who, id, paid) == Err::<(Event, Event), Error>(
                Error::KittyNotForSale,
            )
            &&& delisted.buy_kitty_state(who, id, paid) == delisted
        }),
{
}

/// A purchase of a listed kitty whose price was not paid is refused as
/// unpaid; owner and listing stay as they were.
pub proof fn lemma_buy_unpaid(s: State, who: AccountId, id: KittyIndex)
    requires
        s.wf(),
        s.is_for_sale(id),
    ensures
        s.buy_kitty_outcome(who, id, false) == Err::<(Event, Event), Error>(Error::PayFeeError),
        s.buy_kitty_state(who, id, false) == s,
{
}

} // verus!
