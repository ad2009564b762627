use outpost::amount::Amount;
use outpost::resource::{FungibleBucket, NonFungibleBucket};
use outpost::address::{NonFungibleGlobalId, ResourceAddress};

const UNIT: u128 = 1_000_000_000_000_000_000;

#[test]
fn whole_units_scale_by_ten_to_the_eighteenth() {
    assert_eq!(Amount::from_units(3).attos(), 3 * UNIT);
    assert_eq!(Amount::one().attos(), UNIT);
    assert_eq!(Amount::zero().attos(), 0);
    assert_eq!(Amount::from_attos(7).attos(), 7);
}

#[test]
fn parts_combine_units_and_fraction() {
    assert_eq!(
        Amount::from_parts(100, 238_927_293_700_000_000),
        Some(Amount::from_attos(100 * UNIT + 238_927_293_700_000_000))
    );
    assert_eq!(Amount::from_parts(1, 1_000_000_000_000_000_000), None);
    assert_eq!(Amount::from_parts(0, 999_999_999_999_999_999).unwrap().attos(), UNIT - 1);
}

#[test]
fn sums_and_differences_are_checked() {
    let a = Amount::from_units(5);
    let b = Amount::from_units(7);
    assert_eq!(a.checked_add(b), Some(Amount::from_units(12)));
    assert_eq!(b.checked_sub(a), Some(Amount::from_units(2)));
    assert_eq!(a.checked_sub(b), None);
    assert_eq!(Amount::from_attos(u128::MAX).checked_add(Amount::from_attos(1)), None);
    assert_eq!(
        Amount::from_attos(u128::MAX - 1).checked_add(Amount::from_attos(1)),
        Some(Amount::from_attos(u128::MAX))
    );
}

#[test]
fn product_is_the_fixed_point_product() {
    let price = Amount::from_units(100);
    let tenth = Amount::from_attos(UNIT / 10);
    assert_eq!(price.checked_mul(tenth), Some(Amount::from_units(10)));
    assert_eq!(price.checked_mul(Amount::one()), Some(price));
    assert_eq!(price.checked_mul(Amount::zero()), Some(Amount::zero()));
    // 0.000000000000000003 * 0.5 = 0.0000000000000000015, which rounds toward zero
    assert_eq!(
        Amount::from_attos(3).checked_mul(Amount::from_attos(UNIT / 2)),
        Some(Amount::from_attos(1))
    );
    // one atto times one atto is below one atto
    assert_eq!(Amount::from_attos(1).checked_mul(Amount::from_attos(1)), Some(Amount::zero()));
}

#[test]
fn product_needs_the_wide_intermediate() {
    // the raw product of the attos is about 2^187, far beyond 128 bits
    let big = Amount::from_attos(u128::MAX);
    assert_eq!(big.checked_mul(Amount::from_attos(UNIT / 2)), Some(Amount::from_attos(u128::MAX / 2)));
    assert_eq!(big.checked_mul(Amount::one()), Some(big));
}

#[test]
fn product_beyond_the_range_is_refused() {
    let big = Amount::from_attos(u128::MAX);
    assert_eq!(big.checked_mul(Amount::from_units(2)), None);
    assert_eq!(big.checked_mul(big), None);
}

#[test]
fn rounding_goes_toward_zero_at_the_given_place() {
    let x = Amount::from_attos(12 * UNIT + 345_678_912_345_678_912);
    assert_eq!(x.round_down(18), x);
    assert_eq!(x.round_down(0), Amount::from_units(12));
    assert_eq!(x.round_down(2), Amount::from_attos(12 * UNIT + 340_000_000_000_000_000));
    assert_eq!(x.round_down(17), Amount::from_attos(12 * UNIT + 345_678_912_345_678_910));
    assert_eq!(Amount::from_attos(UNIT - 1).round_down(0), Amount::zero());
    // more than eighteen places count as eighteen
    assert_eq!(x.round_down(200), x);
}

#[test]
fn share_rounds_to_the_precision_of_the_currency() {
    let price = Amount::from_units(7);
    let third = Amount::from_attos(333_333_333_333_333_333);
    // 7 * 0.333333333333333333 = 2.333333333333333331
    assert_eq!(price.share(third, 18), Some(Amount::from_attos(2 * UNIT + 333_333_333_333_333_331)));
    assert_eq!(price.share(third, 0), Some(Amount::from_units(2)));
    assert_eq!(price.share(third, 1), Some(Amount::from_attos(2 * UNIT + 300_000_000_000_000_000)));
    assert_eq!(Amount::from_attos(u128::MAX).share(Amount::from_units(3), 18), None);
}

#[test]
fn bucket_gives_what_it_holds() {
    let xrd = ResourceAddress::from_u64(1);
    let mut bucket = FungibleBucket::new(xrd, Amount::from_units(30));
    assert_eq!(bucket.take(Amount::from_units(31)), None);
    assert_eq!(bucket.amount(), Amount::from_units(30));
    let part = bucket.take(Amount::from_units(10)).unwrap();
    assert_eq!(part, FungibleBucket::new(xrd, Amount::from_units(10)));
    assert_eq!(bucket.amount(), Amount::from_units(20));
    assert!(!bucket.is_empty());
    let rest = bucket.take(Amount::from_units(20)).unwrap();
    assert_eq!(rest.amount(), Amount::from_units(20));
    assert!(bucket.is_empty());
}

#[test]
fn bucket_rounds_a_withdrawal_to_its_precision() {
    let coin = ResourceAddress::from_u64(2);
    let mut bucket = FungibleBucket::with_divisibility(coin, 0, Amount::from_units(10));
    let taken = bucket.take_advanced(Amount::from_attos(2 * UNIT + 999_999_999_999_999_999)).unwrap();
    assert_eq!(taken.amount(), Amount::from_units(2));
    assert_eq!(taken.divisibility, 0);
    assert_eq!(bucket.amount(), Amount::from_units(8));
    assert_eq!(bucket.take_advanced(Amount::from_attos(8 * UNIT + 1)).unwrap().amount(), Amount::from_units(8));
    assert_eq!(bucket.take_advanced(Amount::from_units(1)), None);
}

#[test]
fn item_bucket_keeps_each_item_once_in_order() {
    let nft = ResourceAddress::from_u64(9);
    let bucket = NonFungibleBucket::new(nft, &vec![5, 3, 5, 8, 3, 1]);
    assert_eq!(bucket.non_fungible_local_ids(), vec![5, 3, 8, 1]);
    assert_eq!(bucket.len(), 4);
    assert!(!bucket.is_empty());
    assert!(bucket.contains(8));
    assert!(!bucket.contains(2));
    assert_eq!(bucket.local_id_at(0), Some(5));
    assert_eq!(bucket.local_id_at(3), Some(1));
    assert_eq!(bucket.local_id_at(4), None);
    assert_eq!(bucket.non_fungible_local_id(), None);
    assert_eq!(bucket.resource_address(), nft);
    assert_eq!(bucket.id_set().len(), 4);
}

#[test]
fn item_bucket_grows_by_new_items_only() {
    let nft = ResourceAddress::from_u64(9);
    let mut bucket = NonFungibleBucket::new(nft, &vec![]);
    assert!(bucket.is_empty());
    assert_eq!(bucket.non_fungible_local_id(), None);
    bucket.insert(4);
    assert_eq!(bucket.non_fungible_local_id(), Some(4));
    bucket.insert(4);
    assert_eq!(bucket.len(), 1);
    bucket.insert(6);
    assert_eq!(bucket.non_fungible_local_ids(), vec![4, 6]);
    let single = NonFungibleBucket::single(NonFungibleGlobalId::new(nft, 77));
    assert_eq!(single.non_fungible_local_ids(), vec![77]);
    assert_eq!(single.non_fungible_local_id(), Some(77));
}
