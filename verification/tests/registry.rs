//! The registry called directly, with the outcome of each payment given.

use kitties::{
    derive_child_genome, Error, Event, Kitty, KittyCreateFeeDefault, Pallet, Payment, RandomSeed,
};

const PALLET_ID: [u8; 8] = *b"py/kitty";

/// The account derived from `py/kitty`: the bytes `modl` and `py/k`, read as
/// a little-endian number.
const TREASURY: u64 = 0x6b2f_7970_6c64_6f6d;

const SEED: RandomSeed = RandomSeed {
    hash: [
        0, 1, 2, 3, 4, 5, 6, 7, 8, 9, 10, 11, 12, 13, 14, 15, 16, 17, 18, 19, 20, 21, 22, 23, 24,
        25, 26, 27, 28, 29, 30, 31,
    ],
    block_number: 3,
};

/// The digest drawn from `SEED` for account 1 at extrinsic 0.
const DNA_1: [u8; 16] = [
    0x55, 0x17, 0x0a, 0x26, 0x3e, 0x49, 0x57, 0x06, 0x80, 0x2b, 0x28, 0x4c, 0x46, 0x73, 0x5f, 0xf0,
];

/// The digest drawn from `SEED` for account 1 at extrinsic 1.
const DNA_2: [u8; 16] = [
    0xba, 0x39, 0x94, 0xbd, 0xbf, 0xf5, 0x5a, 0xe3, 0x46, 0xcd, 0x5f, 0x85, 0xf3, 0x0b, 0xba, 0x0f,
];

/// The digest drawn from `SEED` for account 1 at extrinsic 2.
const SELECTOR: [u8; 16] = [
    0x51, 0x99, 0xc9, 0xc1, 0x6d, 0xc6, 0x31, 0xa5, 0x8a, 0xa0, 0x2e, 0xc5, 0xc2, 0x5c, 0x8f, 0xfd,
];

/// The crossover of `DNA_1` and `DNA_2` under `SELECTOR`.
const CHILD: [u8; 16] = [
    0xfb, 0x31, 0x1c, 0x3c, 0xbe, 0x71, 0x5b, 0x46, 0xc4, 0x6d, 0x79, 0x44, 0x73, 0x53, 0x3f, 0xf2,
];

#[test]
fn default_fee_is_five() {
    assert_eq!(KittyCreateFeeDefault::get(), 5);
    assert_eq!(Pallet::new(PALLET_ID).kitty_create_fee(), 5);
}

#[test]
fn new_registry_is_empty() {
    let kitties = Pallet::new(PALLET_ID);
    assert_eq!(kitties.kitties_count(), 0);
    assert_eq!(kitties.kitties(0), None);
    assert_eq!(kitties.kitties(1), None);
    assert_eq!(kitties.owner(1), None);
    assert_eq!(kitties.price_of(1), None);
    assert!(!kitties.is_owner(1, 0));
}

#[test]
fn genesis_sets_counter_and_fee() {
    let kitties = Pallet::genesis(PALLET_ID, 41, 7);
    assert_eq!(kitties.kitties_count(), 41);
    assert_eq!(kitties.kitty_create_fee(), 7);
    assert_eq!(kitties.kitties(41), None);
    assert_eq!(kitties.create_payment(9), Payment { from: 9, to: TREASURY, amount: 7 });
}

#[test]
fn account_id_is_derived_from_the_pallet_id() {
    assert_eq!(Pallet::new(PALLET_ID).account_id(), TREASURY);
    assert_eq!(Pallet::new([0; 8]).account_id(), 0x6c64_6f6d);
    assert_eq!(
        Pallet::new([0xff, 0xff, 0xff, 0xff, 1, 2, 3, 4]).account_id(),
        0xffff_ffff_6c64_6f6d
    );
    assert_eq!(
        Pallet::new([0x01, 0x02, 0x03, 0x04, 9, 9, 9, 9]).account_id(),
        0x0403_0201_6c64_6f6d
    );
}

#[test]
fn new_kitty_id_moves_the_counter_and_returns_it() {
    let mut kitties = Pallet::genesis(PALLET_ID, 3, 5);
    assert_eq!(kitties.new_kitty_id(), Ok(4));
    assert_eq!(kitties.kitties_count(), 4);
    assert_eq!(kitties.new_kitty_id(), Ok(5));
    assert_eq!(kitties.kitties_count(), 5);

    let mut first = Pallet::new(PALLET_ID);
    assert_eq!(first.new_kitty_id(), Ok(1));
    assert_eq!(first.kitties_count(), 1);
}

#[test]
fn new_kitty_id_changes_nothing_but_the_counter() {
    let mut kitties = Pallet::new(PALLET_ID);
    assert_eq!(kitties.create(1, true, &SEED, Some(0)), Ok(Event::KittyCreate(1, 1)));
    assert_eq!(kitties.for_sale(1, 1, 10), Ok(Event::KittyForSale(1, 1, 10)));
    assert_eq!(kitties.new_kitty_id(), Ok(2));
    assert_eq!(kitties.kitties(2), None);
    assert_eq!(kitties.owner(2), None);
    assert_eq!(kitties.price_of(2), None);
    assert_eq!(kitties.kitties(1), Some(Kitty(DNA_1)));
    assert_eq!(kitties.owner(1), Some(1));
    assert_eq!(kitties.price_of(1), Some(10));
    assert_eq!(kitties.kitty_create_fee(), 5);
    assert_eq!(kitties.account_id(), TREASURY);
}

#[test]
fn an_id_allocated_alone_is_never_issued_again() {
    let mut kitties = Pallet::new(PALLET_ID);
    assert_eq!(kitties.new_kitty_id(), Ok(1));
    assert_eq!(kitties.create(1, true, &SEED, Some(0)), Ok(Event::KittyCreate(1, 2)));
    assert_eq!(kitties.kitties(1), None);
    assert_eq!(kitties.owner(1), None);
    assert_eq!(kitties.kitties(2), Some(Kitty(DNA_1)));
    assert_eq!(kitties.kitties_count(), 2);
    assert_eq!(kitties.transfer(1, 2, 1), Err(Error::KittyNotExist));
}

#[test]
fn new_kitty_id_fails_at_the_maximum() {
    let mut last = Pallet::genesis(PALLET_ID, u64::MAX - 1, 5);
    assert_eq!(last.new_kitty_id(), Ok(u64::MAX));
    assert_eq!(last.kitties_count(), u64::MAX);
    let exhausted = last.clone();
    assert_eq!(last.new_kitty_id(), Err(Error::KittiesCountOverflow));
    assert_eq!(last, exhausted);

    let mut kitties = Pallet::genesis(PALLET_ID, u64::MAX, 5);
    let before = kitties.clone();
    assert_eq!(kitties.new_kitty_id(), Err(Error::KittiesCountOverflow));
    assert_eq!(kitties, before);
}

#[test]
fn random_value_is_the_blake2_digest_of_the_encoded_payload() {
    assert_eq!(Pallet::random_value(&SEED, 1, Some(0)), DNA_1);
    assert_eq!(Pallet::random_value(&SEED, 1, Some(1)), DNA_2);
    assert_eq!(Pallet::random_value(&SEED, 1, Some(2)), SELECTOR);
    assert_eq!(
        Pallet::random_value(&SEED, 1, None),
        [
            0xe1, 0xa4, 0x9a, 0x86, 0x74, 0xcc, 0x94, 0x4e, 0x82, 0xdc, 0xa4, 0x69, 0x33, 0x12,
            0xe5, 0x59
        ]
    );
}

#[test]
fn random_value_encodes_integers_little_endian() {
    assert_eq!(
        Pallet::random_value(
            &RandomSeed { hash: [7; 32], block_number: 0x1112_1314_1516_1718 },
            0x0102_0304_0506_0708,
            Some(0x0a0b_0c0d)
        ),
        [
            0xde, 0xf7, 0xe9, 0x3f, 0xa8, 0x0c, 0x37, 0xc8, 0x9d, 0x14, 0xfc, 0x08, 0x15, 0xf4,
            0xc6, 0x40
        ]
    );
}

#[test]
fn random_value_depends_on_each_input() {
    let value = Pallet::random_value(&SEED, 1, Some(0));
    let mut other_seed = SEED;
    other_seed.hash[31] = 0;
    assert_ne!(Pallet::random_value(&other_seed, 1, Some(0)), value);
    let later_seed = RandomSeed { block_number: 4, ..SEED };
    assert_ne!(Pallet::random_value(&later_seed, 1, Some(0)), value);
    assert_ne!(Pallet::random_value(&SEED, 2, Some(0)), value);
    assert_ne!(Pallet::random_value(&SEED, 1, Some(1)), value);
    assert_ne!(Pallet::random_value(&SEED, 1, None), value);
    assert_eq!(Pallet::random_value(&SEED, 1, Some(0)), value);
}

#[test]
fn child_genome_takes_each_bit_from_the_selected_parent() {
    let a = [0xf0; 16];
    let b = [0x0f; 16];
    assert_eq!(derive_child_genome(&a, &b, &[0xff; 16]), a);
    assert_eq!(derive_child_genome(&a, &b, &[0x00; 16]), b);
    assert_eq!(derive_child_genome(&a, &b, &[0xaa; 16]), [0xa5; 16]);
    assert_eq!(derive_child_genome(&a, &b, &[0x3c; 16]), [0x33; 16]);
    assert_eq!(derive_child_genome(&DNA_1, &DNA_2, &SELECTOR), CHILD);
}

#[test]
fn child_genome_mixes_byte_by_byte() {
    let a = [1, 2, 3, 4, 5, 6, 7, 8, 9, 10, 11, 12, 13, 14, 15, 16];
    let b = [0; 16];
    let mut selector = [0; 16];
    selector[0] = 0xff;
    selector[15] = 0xff;
    assert_eq!(
        derive_child_genome(&a, &b, &selector),
        [1, 0, 0, 0, 0, 0, 0, 0, 0, 0, 0, 0, 0, 0, 0, 16]
    );
}

#[test]
fn create_reports_the_birth_and_records_it() {
    let mut kitties = Pallet::new(PALLET_ID);
    assert_eq!(kitties.create_payment(1), Payment { from: 1, to: TREASURY, amount: 5 });
    assert_eq!(kitties.create(1, true, &SEED, Some(0)), Ok(Event::KittyCreate(1, 1)));
    assert_eq!(kitties.kitties_count(), 1);
    assert_eq!(kitties.kitties(1), Some(Kitty(DNA_1)));
    assert_eq!(kitties.owner(1), Some(1));
    assert!(kitties.is_owner(1, 1));
    assert!(!kitties.is_owner(1, 2));
    assert_eq!(kitties.price_of(1), None);
    assert_eq!(kitties.kitties(2), None);
}

#[test]
fn create_with_dna_stores_the_genome_given() {
    let mut kitties = Pallet::genesis(PALLET_ID, 10, 5);
    assert_eq!(kitties.create_with_dna(4, true, [9; 16]), Ok(Event::KittyCreate(4, 11)));
    assert_eq!(kitties.kitties(11), Some(Kitty([9; 16])));
    assert_eq!(kitties.owner(11), Some(4));
    assert_eq!(kitties.kitties(10), None);
    assert_eq!(kitties.kitties_count(), 11);
}

#[test]
fn unpaid_create_changes_nothing() {
    let mut kitties = Pallet::new(PALLET_ID);
    assert_eq!(kitties.create(1, true, &SEED, Some(0)), Ok(Event::KittyCreate(1, 1)));
    let before = kitties.clone();
    assert_eq!(kitties.create(1, false, &SEED, Some(1)), Err(Error::PayFeeError));
    assert_eq!(kitties, before);
    assert_eq!(kitties.create(1, true, &SEED, Some(2)), Ok(Event::KittyCreate(1, 2)));
}

#[test]
fn create_at_the_maximum_changes_nothing() {
    let mut kitties = Pallet::genesis(PALLET_ID, u64::MAX - 1, 5);
    assert_eq!(kitties.create(1, true, &SEED, Some(0)), Ok(Event::KittyCreate(1, u64::MAX)));
    let before = kitties.clone();
    assert_eq!(kitties.create(1, true, &SEED, Some(1)), Err(Error::KittiesCountOverflow));
    assert_eq!(kitties, before);
    assert_eq!(kitties.kitties_count(), u64::MAX);
}

#[test]
fn unpaid_create_at_the_maximum_is_refused_as_unpaid() {
    let mut kitties = Pallet::genesis(PALLET_ID, u64::MAX, 5);
    let before = kitties.clone();
    assert_eq!(kitties.create(1, false, &SEED, Some(0)), Err(Error::PayFeeError));
    assert_eq!(kitties, before);
}

#[test]
fn transfer_moves_ownership_and_keeps_the_listing() {
    let mut kitties = Pallet::new(PALLET_ID);
    assert_eq!(kitties.create(1, true, &SEED, Some(0)), Ok(Event::KittyCreate(1, 1)));
    assert_eq!(kitties.for_sale(1, 1, 10), Ok(Event::KittyForSale(1, 1, 10)));
    assert_eq!(kitties.transfer(1, 2, 1), Ok(Event::KittyTransfer(1, 2, 1)));
    assert_eq!(kitties.owner(1), Some(2));
    assert_eq!(kitties.price_of(1), Some(10));
    assert_eq!(kitties.kitties(1), Some(Kitty(DNA_1)));
    assert_eq!(kitties.transfer(1, 3, 1), Err(Error::NotKittyOwner));
    assert_eq!(kitties.transfer(2, 2, 1), Ok(Event::KittyTransfer(2, 2, 1)));
    assert_eq!(kitties.owner(1), Some(2));
}

#[test]
fn transfer_tells_absent_from_not_owned() {
    let mut kitties = Pallet::new(PALLET_ID);
    assert_eq!(kitties.create(1, true, &SEED, Some(0)), Ok(Event::KittyCreate(1, 1)));
    let before = kitties.clone();
    assert_eq!(kitties.transfer(2, 3, 1), Err(Error::NotKittyOwner));
    assert_eq!(kitties.transfer(1, 3, 2), Err(Error::KittyNotExist));
    assert_eq!(kitties.transfer(1, 3, 0), Err(Error::KittyNotExist));
    assert_eq!(kitties, before);
}

#[test]
fn breed_crosses_the_parents_under_the_drawn_selector() {
    let mut kitties = Pallet::new(PALLET_ID);
    assert_eq!(kitties.create(1, true, &SEED, Some(0)), Ok(Event::KittyCreate(1, 1)));
    assert_eq!(kitties.create(1, true, &SEED, Some(1)), Ok(Event::KittyCreate(1, 2)));
    assert_eq!(kitties.kitties(1), Some(Kitty(DNA_1)));
    assert_eq!(kitties.kitties(2), Some(Kitty(DNA_2)));
    assert_eq!(kitties.breed(1, 1, 2, &SEED, Some(2)), Ok(Event::KittyCreate(1, 3)));
    assert_eq!(kitties.kitties(3), Some(Kitty(CHILD)));
    assert_eq!(kitties.owner(3), Some(1));
    assert_eq!(kitties.price_of(3), None);
    assert_eq!(kitties.kitties_count(), 3);
    assert_eq!(kitties.kitties(1), Some(Kitty(DNA_1)));
    assert_eq!(kitties.kitties(2), Some(Kitty(DNA_2)));
}

#[test]
fn breed_with_selector_follows_the_mask() {
    let mut kitties = Pallet::new(PALLET_ID);
    assert_eq!(kitties.create_with_dna(1, true, [0xf0; 16]), Ok(Event::KittyCreate(1, 1)));
    assert_eq!(kitties.create_with_dna(1, true, [0x0f; 16]), Ok(Event::KittyCreate(1, 2)));
    assert_eq!(kitties.breed_with_selector(1, 1, 2, &[0xff; 16]), Ok(Event::KittyCreate(1, 3)));
    assert_eq!(kitties.breed_with_selector(1, 2, 1, &[0xff; 16]), Ok(Event::KittyCreate(1, 4)));
    assert_eq!(kitties.breed_with_selector(1, 1, 2, &[0xaa; 16]), Ok(Event::KittyCreate(1, 5)));
    assert_eq!(kitties.kitties(3), Some(Kitty([0xf0; 16])));
    assert_eq!(kitties.kitties(4), Some(Kitty([0x0f; 16])));
    assert_eq!(kitties.kitties(5), Some(Kitty([0xa5; 16])));
}

#[test]
fn breed_with_itself_is_refused_whoever_asks() {
    let mut kitties = Pallet::new(PALLET_ID);
    assert_eq!(kitties.create(1, true, &SEED, Some(0)), Ok(Event::KittyCreate(1, 1)));
    let before = kitties.clone();
    assert_eq!(kitties.breed(1, 1, 1, &SEED, Some(1)), Err(Error::SameParentIndex));
    assert_eq!(kitties.breed(2, 1, 1, &SEED, Some(1)), Err(Error::SameParentIndex));
    assert_eq!(kitties.breed(1, 7, 7, &SEED, Some(1)), Err(Error::SameParentIndex));
    assert_eq!(kitties, before);
}

#[test]
fn breed_needs_both_parents_owned() {
    let mut kitties = Pallet::new(PALLET_ID);
    assert_eq!(kitties.create(1, true, &SEED, Some(0)), Ok(Event::KittyCreate(1, 1)));
    assert_eq!(kitties.create(2, true, &SEED, Some(1)), Ok(Event::KittyCreate(2, 2)));
    let before = kitties.clone();
    assert_eq!(kitties.breed(1, 1, 2, &SEED, Some(2)), Err(Error::NotKittyOwner));
    assert_eq!(kitties.breed(1, 2, 1, &SEED, Some(2)), Err(Error::NotKittyOwner));
    assert_eq!(kitties.breed(1, 1, 3, &SEED, Some(2)), Err(Error::NotKittyOwner));
    assert_eq!(kitties.breed(3, 1, 2, &SEED, Some(2)), Err(Error::NotKittyOwner));
    assert_eq!(kitties, before);
}

#[test]
fn breed_at_the_maximum_changes_nothing() {
    let mut kitties = Pallet::genesis(PALLET_ID, u64::MAX - 2, 5);
    assert_eq!(kitties.create(1, true, &SEED, Some(0)), Ok(Event::KittyCreate(1, u64::MAX - 1)));
    assert_eq!(kitties.create(1, true, &SEED, Some(1)), Ok(Event::KittyCreate(1, u64::MAX)));
    let before = kitties.clone();
    assert_eq!(
        kitties.breed(1, u64::MAX - 1, u64::MAX, &SEED, Some(2)),
        Err(Error::KittiesCountOverflow)
    );
    assert_eq!(kitties, before);
}

#[test]
fn for_sale_lists_relists_and_delists() {
    let mut kitties = Pallet::new(PALLET_ID);
    assert_eq!(kitties.create(1, true, &SEED, Some(0)), Ok(Event::KittyCreate(1, 1)));
    assert_eq!(kitties.for_sale(1, 1, 10), Ok(Event::KittyForSale(1, 1, 10)));
    assert_eq!(kitties.price_of(1), Some(10));
    assert_eq!(kitties.for_sale(1, 1, u64::MAX), Ok(Event::KittyForSale(1, 1, u64::MAX)));
    assert_eq!(kitties.price_of(1), Some(u64::MAX));
    assert_eq!(kitties.for_sale(1, 1, 0), Ok(Event::KittyForSale(1, 1, 0)));
    assert_eq!(kitties.price_of(1), None);
    assert_eq!(kitties.for_sale(1, 1, 0), Ok(Event::KittyForSale(1, 1, 0)));
    assert_eq!(kitties.price_of(1), None);
    assert_eq!(kitties.owner(1), Some(1));
}

#[test]
fn for_sale_by_a_stranger_changes_nothing() {
    let mut kitties = Pallet::new(PALLET_ID);
    assert_eq!(kitties.create(1, true, &SEED, Some(0)), Ok(Event::KittyCreate(1, 1)));
    assert_eq!(kitties.for_sale(1, 1, 10), Ok(Event::KittyForSale(1, 1, 10)));
    let before = kitties.clone();
    assert_eq!(kitties.for_sale(2, 1, 20), Err(Error::NotKittyOwner));
    assert_eq!(kitties.for_sale(2, 1, 0), Err(Error::NotKittyOwner));
    assert_eq!(kitties.for_sale(1, 2, 20), Err(Error::NotKittyOwner));
    assert_eq!(kitties, before);
}

#[test]
fn buy_kitty_names_the_payment_then_moves_the_kitty() {
    let mut kitties = Pallet::new(PALLET_ID);
    assert_eq!(kitties.create(2, true, &SEED, Some(0)), Ok(Event::KittyCreate(2, 1)));
    assert_eq!(kitties.for_sale(2, 1, 10), Ok(Event::KittyForSale(2, 1, 10)));
    assert_eq!(kitties.buy_kitty_payment(1, 1), Ok(Payment { from: 1, to: 2, amount: 10 }));
    assert_eq!(
        kitties.buy_kitty(1, 1, true),
        Ok((Event::KittyTransfer(2, 1, 1), Event::KittyBuy(1, 1, 10)))
    );
    assert_eq!(kitties.owner(1), Some(1));
    assert_eq!(kitties.price_of(1), None);
    let dna_of_account_2 = [
        0x06, 0xd3, 0x13, 0xff, 0x0e, 0xd3, 0xa5, 0x32,
        0x72, 0xd0, 0x4a, 0x52, 0x1f, 0x7d, 0xab, 0x4f,
    ];
    assert_eq!(kitties.kitties(1), Some(Kitty(dna_of_account_2)));
    assert_eq!(kitties.kitties_count(), 1);
    assert_eq!(kitties.buy_kitty(3, 1, true), Err(Error::KittyNotForSale));
}

#[test]
fn buy_kitty_without_a_listing_is_refused() {
    let mut kitties = Pallet::new(PALLET_ID);
    assert_eq!(kitties.create(2, true, &SEED, Some(0)), Ok(Event::KittyCreate(2, 1)));
    let never_listed = kitties.clone();
    assert_eq!(kitties.buy_kitty_payment(1, 1), Err(Error::KittyNotForSale));
    assert_eq!(kitties.buy_kitty(1, 1, true), Err(Error::KittyNotForSale));
    assert_eq!(kitties.buy_kitty(1, 1, false), Err(Error::KittyNotForSale));
    assert_eq!(kitties.buy_kitty(1, 2, true), Err(Error::KittyNotForSale));
    assert_eq!(kitties, never_listed);

    assert_eq!(kitties.for_sale(2, 1, 10), Ok(Event::KittyForSale(2, 1, 10)));
    assert_eq!(kitties.for_sale(2, 1, 0), Ok(Event::KittyForSale(2, 1, 0)));
    let delisted = kitties.clone();
    assert_eq!(kitties.buy_kitty_payment(1, 1), Err(Error::KittyNotForSale));
    assert_eq!(kitties.buy_kitty(1, 1, true), Err(Error::KittyNotForSale));
    assert_eq!(kitties, delisted);
    assert_eq!(kitties, never_listed);
}

#[test]
fn unpaid_buy_changes_nothing() {
    let mut kitties = Pallet::new(PALLET_ID);
    assert_eq!(kitties.create(2, true, &SEED, Some(0)), Ok(Event::KittyCreate(2, 1)));
    assert_eq!(kitties.for_sale(2, 1, 10), Ok(Event::KittyForSale(2, 1, 10)));
    let before = kitties.clone();
    assert_eq!(kitties.buy_kitty(1, 1, false), Err(Error::PayFeeError));
    assert_eq!(kitties, before);
    assert_eq!(kitties.owner(1), Some(2));
    assert_eq!(kitties.price_of(1), Some(10));
}

#[test]
fn owner_may_buy_back_a_listed_kitty() {
    let mut kitties = Pallet::new(PALLET_ID);
    assert_eq!(kitties.create(2, true, &SEED, Some(0)), Ok(Event::KittyCreate(2, 1)));
    assert_eq!(kitties.for_sale(2, 1, 10), Ok(Event::KittyForSale(2, 1, 10)));
    assert_eq!(kitties.buy_kitty_payment(2, 1), Ok(Payment { from: 2, to: 2, amount: 10 }));
    assert_eq!(
        kitties.buy_kitty(2, 1, true),
        Ok((Event::KittyTransfer(2, 2, 1), Event::KittyBuy(2, 1, 10)))
    );
    assert_eq!(kitties.owner(1), Some(2));
    assert_eq!(kitties.price_of(1), None);
}

#[test]
fn listing_survives_a_transfer_and_pays_the_new_owner() {
    let mut kitties = Pallet::new(PALLET_ID);
    assert_eq!(kitties.create(1, true, &SEED, Some(0)), Ok(Event::KittyCreate(1, 1)));
    assert_eq!(kitties.for_sale(1, 1, 10), Ok(Event::KittyForSale(1, 1, 10)));
    assert_eq!(kitties.transfer(1, 2, 1), Ok(Event::KittyTransfer(1, 2, 1)));
    assert_eq!(kitties.buy_kitty_payment(3, 1), Ok(Payment { from: 3, to: 2, amount: 10 }));
    assert_eq!(
        kitties.buy_kitty(3, 1, true),
        Ok((Event::KittyTransfer(2, 3, 1), Event::KittyBuy(3, 1, 10)))
    );
}

#[test]
fn ids_follow_the_counter_and_are_never_reused() {
    let mut kitties = Pallet::new(PALLET_ID);
    for n in 1..=20u64 {
        assert_eq!(kitties.kitties_count(), n - 1);
        assert_eq!(
            kitties.create(n % 3, true, &SEED, Some(n as u32)),
            Ok(Event::KittyCreate(n % 3, n))
        );
        assert_eq!(kitties.kitties_count(), n);
        assert_eq!(kitties.owner(n), Some(n % 3));
        assert_eq!(kitties.owner(n + 1), None);
    }
    for n in 1..=20u64 {
        assert_eq!(
            kitties.kitties(n),
            Some(Kitty(Pallet::random_value(&SEED, n % 3, Some(n as u32))))
        );
    }
}
