use outpost::account::Account;
use outpost::address::{ComponentAddress, NonFungibleGlobalId, ResourceAddress, TransactionHash};
use outpost::amount::Amount;
use outpost::error::{Error, ErrorKind};
use outpost::generic_marketplace::{Bucket, GenericMarketplace};
use outpost::outpost_account::OpenTrader;
use outpost::resource::{FungibleBucket, NonFungibleBucket, Proof};
use outpost::routing::{group_orders, plan_route};
use outpost::royalty::{RoyalNFTs, RoyaltyConfigInput};
use outpost::table::Table;

const UNIT: u128 = 1_000_000_000_000_000_000;

fn xrd() -> ResourceAddress {
    ResourceAddress::from_u64(1)
}

fn nft() -> ResourceAddress {
    ResourceAddress::from_u64(100)
}

fn creator() -> Proof {
    Proof::new(ResourceAddress::from_u64(200))
}

fn depositer() -> ResourceAddress {
    ResourceAddress::from_u64(300)
}

fn admin() -> Proof {
    Proof::new(ResourceAddress::from_u64(450))
}

fn marketplace_key() -> ResourceAddress {
    ResourceAddress::from_u64(400)
}

fn buyer_account() -> ComponentAddress {
    ComponentAddress::from_u64(900)
}

fn percent(n: u128) -> Amount {
    Amount::from_attos(n * UNIT / 100)
}

fn trader_address(n: u64) -> ComponentAddress {
    ComponentAddress::from_u64(800 + n)
}

fn token(n: u64) -> FungibleBucket {
    FungibleBucket::with_divisibility(ResourceAddress::from_u64(600 + n), 0, Amount::one())
}

fn policy() -> RoyalNFTs {
    RoyalNFTs::start_royalty_nft(
        nft(),
        RoyaltyConfigInput {
            depositer_admin: depositer(),
            royalties_enabled: true,
            royalty_percent: percent(10),
            maximum_royalty_percent: Amount::one(),
            honoured: false,
        },
        ComponentAddress::from_u64(500),
        creator().resource_address,
        ResourceAddress::from_u64(301),
        ResourceAddress::from_u64(302),
    )
    .unwrap()
}

fn trader(n: u64) -> OpenTrader {
    OpenTrader::create_trader(
        NonFungibleGlobalId::new(ResourceAddress::from_u64(650), n),
        ComponentAddress::from_u64(700 + n),
        depositer(),
        token(n),
        trader_address(n),
    )
    .unwrap()
}

fn marketplace() -> GenericMarketplace {
    GenericMarketplace::start_marketplace(percent(2), percent(1), admin().resource_address, marketplace_key()).unwrap()
}

fn item(id: u64) -> NonFungibleGlobalId {
    NonFungibleGlobalId::new(nft(), id)
}

fn one(id: u64) -> NonFungibleBucket {
    NonFungibleBucket::single(item(id))
}

fn pay(units: u64) -> FungibleBucket {
    FungibleBucket::new(xrd(), Amount::from_units(units))
}

fn tx(n: u64) -> TransactionHash {
    TransactionHash::from_u64(n)
}

fn ids_of(bucket: &Bucket) -> Vec<u64> {
    match bucket {
        Bucket::NonFungible(items) => items.non_fungible_local_ids(),
        Bucket::Fungible(_) => panic!("items expected"),
    }
}

fn amount_of(bucket: &Bucket) -> FungibleBucket {
    match bucket {
        Bucket::Fungible(b) => FungibleBucket::with_divisibility(b.resource_address, b.divisibility, b.amount),
        Bucket::NonFungible(_) => panic!("an amount expected"),
    }
}

#[test]
fn fee_rates_above_one_are_refused_at_the_start() {
    let start = |fee: Amount, mint: Amount| {
        GenericMarketplace::start_marketplace(fee, mint, admin().resource_address, marketplace_key()).err()
    };
    assert_eq!(start(percent(101), percent(1)), Some(Error::FeeRateOutOfRange));
    assert_eq!(start(percent(1), percent(101)), Some(Error::FeeRateOutOfRange));
    assert_eq!(start(percent(100), percent(100)), None);
    assert_eq!(Error::FeeRateOutOfRange.kind(), ErrorKind::PolicyViolation);
    let m = marketplace();
    assert_eq!(m.get_marketplace_key_address(), marketplace_key());
    assert_eq!(m.permission(), Some(Proof::with_marketplace_fee(marketplace_key(), percent(2))));
}

#[test]
fn the_marketplace_keeps_its_fee_and_the_admin_withdraws_it() {
    let mut m = marketplace();
    let mut t = trader(0);
    let mut p = policy();
    t.royal_list(one(1), Amount::from_units(100), xrd(), vec![marketplace_key()], tx(1)).unwrap();
    let out = m.purchase_royal_listing(item(1), pay(100), &mut t, buyer_account(), &mut p, tx(2)).unwrap();
    assert_eq!(out.nft.non_fungible_local_ids(), vec![1]);
    assert_eq!(out.transient_token, token(0));
    assert_eq!(out.marketplace_fee, None);
    assert_eq!(out.seller_revenue, pay(88));
    assert_eq!(m.fee_balance(xrd()), Amount::from_units(2));
    assert_eq!(p.royalty_balance(xrd()), Amount::from_units(10));
    assert_eq!(m.withdraw_fees(xrd(), &creator()), Err(Error::NotAuthorized));
    assert_eq!(m.withdraw_fees(ResourceAddress::from_u64(2), &admin()), Err(Error::VaultNotFound));
    assert_eq!(m.withdraw_fees(xrd(), &admin()), Ok(pay(2)));
    assert_eq!(m.fee_balance(xrd()), Amount::zero());
    assert_eq!(m.withdraw_fees(xrd(), &admin()), Ok(pay(0)));
}

#[test]
fn a_refused_purchase_leaves_the_marketplace_as_it_was() {
    let mut m = marketplace();
    let mut t = trader(0);
    let mut p = policy();
    t.royal_list(one(1), Amount::from_units(100), xrd(), vec![marketplace_key()], tx(1)).unwrap();
    let r = m.purchase_royal_listing(item(1), pay(99), &mut t, buyer_account(), &mut p, tx(2));
    assert_eq!(r.err(), Some(Error::PaymentMismatch));
    let r = m.purchase_royal_listing(item(1), pay(100), &mut t, buyer_account(), &mut p, tx(1));
    assert_eq!(r.err(), Some(Error::SameTransactionReplay));
    assert_eq!(m.fee_balance(xrd()), Amount::zero());
    assert_eq!(t.listing_count(), 1);
    assert_eq!(p.royalty_balance(xrd()), Amount::zero());
}

#[test]
fn a_plain_purchase_through_the_marketplace() {
    let mut m = marketplace();
    let mut t = trader(0);
    t.list(one(1), xrd(), Amount::from_units(100), vec![marketplace_key()]).unwrap();
    assert_eq!(m.purchase_listing(item(2), pay(100), &mut t).err(), Some(Error::ListingNotFound));
    let out = m.purchase_listing(item(1), pay(100), &mut t).unwrap();
    assert_eq!(out.nft.non_fungible_local_ids(), vec![1]);
    assert_eq!(out.seller_revenue, pay(98));
    assert_eq!(m.fee_balance(xrd()), Amount::from_units(2));
}

#[test]
fn a_marketplace_without_its_key_cannot_buy() {
    let mut m = marketplace();
    let mut t = trader(0);
    let mut p = policy();
    t.royal_list(one(1), Amount::from_units(100), xrd(), vec![marketplace_key()], tx(1)).unwrap();
    assert_eq!(m.retrieve_internal_market_key(&creator()).err(), Some(Error::NotAuthorized));
    let key = m.retrieve_internal_market_key(&admin()).unwrap();
    assert_eq!(key.resource_address(), marketplace_key());
    assert_eq!(key.non_fungible_local_ids(), vec![1]);
    assert_eq!(m.permission(), None);
    let r = m.purchase_royal_listing(item(1), pay(100), &mut t, buyer_account(), &mut p, tx(2));
    assert_eq!(r.err(), Some(Error::NotAuthorized));
    assert!(m.retrieve_internal_market_key(&admin()).unwrap().is_empty());
}

#[test]
fn a_full_fee_vault_refuses_the_purchase() {
    let mut m = marketplace();
    m.collect_fee(FungibleBucket::new(xrd(), Amount::from_attos(u128::MAX))).unwrap();
    assert_eq!(m.collect_fee(FungibleBucket::new(xrd(), Amount::from_attos(1))), Err(Error::Overflow));
    let mut t = trader(0);
    let mut p = policy();
    t.royal_list(one(1), Amount::from_units(100), xrd(), vec![marketplace_key()], tx(1)).unwrap();
    let r = m.purchase_royal_listing(item(1), pay(100), &mut t, buyer_account(), &mut p, tx(2));
    assert_eq!(r.err(), Some(Error::Overflow));
    assert_eq!(t.listing_count(), 1);
}

#[test]
fn orders_are_grouped_by_seller_in_order_of_appearance() {
    let a = trader_address(1);
    let b = trader_address(2);
    let c = trader_address(3);
    let ten = Amount::from_units(10);
    let orders = vec![(b, item(1), ten), (a, item(2), ten), (b, item(3), Amount::from_units(5)), (c, item(4), ten), (b, item(5), ten)];
    let groups = group_orders(&orders).unwrap();
    assert_eq!(groups.len(), 3);
    assert_eq!(groups[0].trader, b);
    assert_eq!(groups[0].nfgids, vec![item(1), item(3), item(5)]);
    assert_eq!(groups[0].total, Amount::from_units(25));
    assert_eq!(groups[1].trader, a);
    assert_eq!(groups[1].nfgids, vec![item(2)]);
    assert_eq!(groups[1].total, ten);
    assert_eq!(groups[2].trader, c);
    assert_eq!(groups[2].nfgids, vec![item(4)]);
    assert!(group_orders(&vec![]).unwrap().is_empty());
    let huge = vec![(a, item(1), Amount::from_attos(u128::MAX)), (b, item(2), ten), (a, item(3), Amount::from_attos(1))];
    assert_eq!(group_orders(&huge).err(), Some(Error::Overflow));
}

#[test]
fn the_payment_is_cut_up_without_loss() {
    let a = trader_address(1);
    let b = trader_address(2);
    let ten = Amount::from_units(10);
    let orders = vec![(a, item(1), ten), (b, item(2), ten), (a, item(3), ten)];
    let plan = plan_route(&orders, pay(35)).unwrap();
    assert_eq!(plan.calls.len(), 2);
    assert_eq!(plan.calls[0].trader, a);
    assert_eq!(plan.calls[0].nfgids, vec![item(1), item(3)]);
    assert_eq!(plan.calls[0].payment, pay(20));
    assert_eq!(plan.calls[1].trader, b);
    assert_eq!(plan.calls[1].payment, pay(10));
    assert_eq!(plan.residue, pay(5));
    assert_eq!(plan_route(&orders, pay(29)).err(), Some(Error::InsufficientPayment));
    assert_eq!(Error::InsufficientPayment.kind(), ErrorKind::PaymentMismatch);
    let exact = plan_route(&orders, pay(30)).unwrap();
    assert_eq!(exact.residue, pay(0));
}

#[test]
fn three_items_from_one_seller_are_one_bulk_sale() {
    let mut m = marketplace();
    let mut p = policy();
    let mut t = trader(1);
    let ten = Amount::from_units(10);
    let batch = vec![(item(1), ten), (item(2), ten), (item(3), ten)];
    t.royal_multi_list(batch, xrd(), vec![marketplace_key()], NonFungibleBucket::new(nft(), &vec![1, 2, 3]), tx(1)).unwrap();
    let mut traders: Table<ComponentAddress, OpenTrader> = Table::new();
    traders.insert(trader_address(1), t);
    let a = trader_address(1);
    let orders = vec![(a, item(1), ten), (a, item(2), ten), (a, item(3), ten)];
    let out = m.purchase_multi_royal_listing(orders, pay(30), buyer_account(), &mut traders, &mut p, tx(2)).unwrap();
    // one call: the items, one transient token, the residue
    assert_eq!(out.buckets.len(), 3);
    assert_eq!(ids_of(&out.buckets[0]), vec![1, 2, 3]);
    assert_eq!(amount_of(&out.buckets[1]), token(1));
    assert_eq!(amount_of(&out.buckets[2]), pay(0));
    assert_eq!(out.seller_revenues.len(), 1);
    assert_eq!(out.seller_revenues[0].0, ComponentAddress::from_u64(701));
    assert_eq!(out.seller_revenues[0].1.amount(), Amount::from_attos(264 * UNIT / 10));
    assert_eq!(p.royalty_balance(xrd()), Amount::from_units(3));
    assert_eq!(m.fee_balance(xrd()), Amount::from_attos(6 * UNIT / 10));
    // one pending transfer covers the three items
    let mut t = traders.remove(&a).unwrap();
    assert_eq!(t.latest_bulk_transaction, Some((buyer_account(), vec![item(1), item(2), item(3)])));
    assert_eq!(t.latest_transaction, None);
    assert!(p.is_transfer_open());
    // and one bulk clearing closes it
    let mut buyer = Account::new(buyer_account());
    buyer.try_deposit_or_abort(NonFungibleBucket::new(nft(), &vec![1, 2, 3]), &p.depositable, None).unwrap();
    assert_eq!(t.cleared(token(1), &buyer, &mut p), Err(Error::NoPendingTransfer));
    assert!(p.is_transfer_open());
    assert_eq!(t.multi_cleared(token(1), &buyer, &mut p), Ok(()));
    assert!(!p.is_transfer_open());
}

#[test]
fn a_lone_order_is_a_single_sale() {
    let mut m = marketplace();
    let mut p = policy();
    let mut t1 = trader(1);
    let mut t2 = trader(2);
    let ten = Amount::from_units(10);
    t1.royal_list(one(1), ten, xrd(), vec![marketplace_key()], tx(1)).unwrap();
    t2.royal_list(one(2), ten, xrd(), vec![marketplace_key()], tx(1)).unwrap();
    t2.royal_list(one(3), ten, xrd(), vec![marketplace_key()], tx(1)).unwrap();
    let mut traders: Table<ComponentAddress, OpenTrader> = Table::new();
    traders.insert(trader_address(1), t1);
    traders.insert(trader_address(2), t2);
    let orders = vec![
        (trader_address(2), item(2), ten),
        (trader_address(1), item(1), ten),
        (trader_address(2), item(3), ten),
    ];
    let out = m.purchase_multi_royal_listing(orders, pay(50), buyer_account(), &mut traders, &mut p, tx(2)).unwrap();
    assert_eq!(out.buckets.len(), 5);
    assert_eq!(ids_of(&out.buckets[0]), vec![2, 3]);
    assert_eq!(amount_of(&out.buckets[1]), token(2));
    assert_eq!(ids_of(&out.buckets[2]), vec![1]);
    assert_eq!(amount_of(&out.buckets[3]), token(1));
    assert_eq!(amount_of(&out.buckets[4]), pay(20));
    assert_eq!(out.seller_revenues.len(), 2);
    assert_eq!(out.seller_revenues[0].0, ComponentAddress::from_u64(702));
    assert_eq!(out.seller_revenues[1].0, ComponentAddress::from_u64(701));
    assert_eq!(p.royalty_balance(xrd()), Amount::from_units(3));
    assert_eq!(m.fee_balance(xrd()), Amount::from_attos(6 * UNIT / 10));
    let t1 = traders.get(&trader_address(1)).unwrap();
    assert_eq!(t1.latest_transaction, Some((nft(), 1, buyer_account())));
    assert_eq!(t1.latest_bulk_transaction, None);
    let t2 = traders.get(&trader_address(2)).unwrap();
    assert_eq!(t2.latest_transaction, None);
    assert_eq!(t2.latest_bulk_transaction, Some((buyer_account(), vec![item(2), item(3)])));
}

#[test]
fn a_bulk_order_is_served_as_a_whole_or_not_at_all() {
    let mut m = marketplace();
    let mut p = policy();
    let mut t1 = trader(1);
    let mut t2 = trader(2);
    let ten = Amount::from_units(10);
    t1.royal_list(one(1), ten, xrd(), vec![marketplace_key()], tx(1)).unwrap();
    t2.royal_list(one(2), ten, xrd(), vec![], tx(1)).unwrap();
    let mut traders: Table<ComponentAddress, OpenTrader> = Table::new();
    traders.insert(trader_address(1), t1);
    traders.insert(trader_address(2), t2);
    let orders = || vec![(trader_address(1), item(1), ten), (trader_address(2), item(2), ten)];
    // the second seller does not admit the marketplace: the first is not served either
    let r = m.purchase_multi_royal_listing(orders(), pay(20), buyer_account(), &mut traders, &mut p, tx(2));
    assert_eq!(r.err(), Some(Error::PermissionDenied));
    assert_eq!(traders.get(&trader_address(1)).unwrap().listing_count(), 1);
    assert!(!traders.get(&trader_address(1)).unwrap().is_settlement_pending());
    assert_eq!(p.royalty_balance(xrd()), Amount::zero());
    assert_eq!(m.fee_balance(xrd()), Amount::zero());
    assert!(!p.is_transfer_open());
    let r = m.purchase_multi_royal_listing(orders(), pay(19), buyer_account(), &mut traders, &mut p, tx(2));
    assert_eq!(r.err(), Some(Error::InsufficientPayment));
    let r = m.purchase_multi_royal_listing(vec![], pay(19), buyer_account(), &mut traders, &mut p, tx(2));
    assert_eq!(r.err(), Some(Error::NothingToTrade));
    let unknown = vec![(trader_address(9), item(1), ten)];
    let r = m.purchase_multi_royal_listing(unknown, pay(10), buyer_account(), &mut traders, &mut p, tx(2));
    assert_eq!(r.err(), Some(Error::ListingNotFound));
    let wrong_price = vec![(trader_address(1), item(1), Amount::from_units(9))];
    let r = m.purchase_multi_royal_listing(wrong_price, pay(10), buyer_account(), &mut traders, &mut p, tx(2));
    assert_eq!(r.err(), Some(Error::PaymentMismatch));
    let replay = vec![(trader_address(1), item(1), ten)];
    let r = m.purchase_multi_royal_listing(replay, pay(10), buyer_account(), &mut traders, &mut p, tx(1));
    assert_eq!(r.err(), Some(Error::SameTransactionReplay));
    assert_eq!(traders.len(), 2);
}

#[test]
fn a_plain_bulk_order_across_sellers() {
    let mut m = marketplace();
    let mut t1 = trader(1);
    let mut t2 = trader(2);
    let hundred = Amount::from_units(100);
    t1.list(one(1), xrd(), hundred, vec![marketplace_key()]).unwrap();
    t1.list(one(2), xrd(), hundred, vec![marketplace_key()]).unwrap();
    t2.list(one(3), xrd(), hundred, vec![marketplace_key()]).unwrap();
    let mut traders: Table<ComponentAddress, OpenTrader> = Table::new();
    traders.insert(trader_address(1), t1);
    traders.insert(trader_address(2), t2);
    let orders = vec![
        (trader_address(1), item(1), hundred),
        (trader_address(2), item(3), hundred),
        (trader_address(1), item(2), hundred),
    ];
    let out = m.multi_listing_purchase(orders, pay(301), &mut traders).unwrap();
    assert_eq!(out.buckets.len(), 4);
    assert_eq!(ids_of(&out.buckets[0]), vec![1]);
    assert_eq!(ids_of(&out.buckets[1]), vec![2]);
    assert_eq!(ids_of(&out.buckets[2]), vec![3]);
    assert_eq!(amount_of(&out.buckets[3]), pay(1));
    assert_eq!(out.seller_revenues.len(), 2);
    assert_eq!(out.seller_revenues[0], (ComponentAddress::from_u64(701), pay(196)));
    assert_eq!(out.seller_revenues[1], (ComponentAddress::from_u64(702), pay(98)));
    assert_eq!(m.fee_balance(xrd()), Amount::from_units(6));
    assert_eq!(traders.get(&trader_address(1)).unwrap().listing_count(), 0);
    assert!(!traders.get(&trader_address(2)).unwrap().is_settlement_pending());
}

#[test]
fn a_plain_bulk_order_that_fails_changes_nothing() {
    let mut m = marketplace();
    let mut t1 = trader(1);
    let hundred = Amount::from_units(100);
    t1.list(one(1), xrd(), hundred, vec![marketplace_key()]).unwrap();
    let mut traders: Table<ComponentAddress, OpenTrader> = Table::new();
    traders.insert(trader_address(1), t1);
    let twice = vec![(trader_address(1), item(1), hundred), (trader_address(1), item(1), hundred)];
    assert_eq!(m.multi_listing_purchase(twice, pay(200), &mut traders).err(), Some(Error::ItemMismatch));
    let missing = vec![(trader_address(1), item(1), hundred), (trader_address(1), item(2), hundred)];
    assert_eq!(m.multi_listing_honour_purchase(missing, pay(200), &mut traders).err(), Some(Error::ListingNotFound));
    assert_eq!(traders.get(&trader_address(1)).unwrap().listing_count(), 1);
    assert_eq!(m.fee_balance(xrd()), Amount::zero());
}

#[test]
fn list_and_purchase_royalty_nft() {
    let mut marketplace = marketplace();
    let mut royalty_nft_component = policy();
    let mut trader_component = trader(0);
    let global_id = item(0);
    trader_component
        .royal_list(one(0), Amount::from_units(100), xrd(), vec![marketplace_key()], tx(1))
        .unwrap();
    let transient_token_address = trader_component.transient_token_address();
    let bought = marketplace
        .purchase_royal_listing(global_id, pay(100), &mut trader_component, buyer_account(), &mut royalty_nft_component, tx(2))
        .unwrap();
    assert_eq!(bought.transient_token.resource_address, transient_token_address);
    let mut user = Account::new(buyer_account());
    user.try_deposit_or_abort(bought.nft, &royalty_nft_component.depositable, None).unwrap();
    assert!(user.has_non_fungible(nft(), 0));
    assert_eq!(trader_component.cleared(bought.transient_token, &user, &mut royalty_nft_component), Ok(()));
    assert_eq!(bought.seller_revenue, pay(88));
    assert_eq!(marketplace.fee_balance(xrd()), Amount::from_units(2));
    assert_eq!(royalty_nft_component.royalty_balance(xrd()), Amount::from_units(10));
    assert!(!royalty_nft_component.is_transfer_open());
}

#[test]
fn list_and_purchase_bulk_royalty_nft() {
    let mut marketplace = marketplace();
    let mut royalty_nft_component = policy();
    let mut trader_component = trader(0);
    let mut listings = Vec::new();
    let mut minted = Vec::new();
    for i in 0..=79 {
        listings.push((item(i), Amount::from_units(10)));
        minted.push(i);
    }
    trader_component
        .royal_multi_list(listings, xrd(), vec![marketplace_key()], NonFungibleBucket::new(nft(), &minted), tx(1))
        .unwrap();
    assert_eq!(trader_component.listing_count(), 80);
    let mut traders: Table<ComponentAddress, OpenTrader> = Table::new();
    traders.insert(trader_address(0), trader_component);
    let mut orders = vec![];
    for i in 0..70 {
        orders.push((trader_address(0), item(i), Amount::from_units(10)));
    }
    let out = marketplace
        .purchase_multi_royal_listing(orders, pay(700), buyer_account(), &mut traders, &mut royalty_nft_component, tx(2))
        .unwrap();
    assert_eq!(out.buckets.len(), 3);
    let bought = ids_of(&out.buckets[0]);
    assert_eq!(bought, (0..70).collect::<Vec<u64>>());
    assert_eq!(amount_of(&out.buckets[2]), pay(0));
    assert_eq!(royalty_nft_component.royalty_balance(xrd()), Amount::from_units(70));
    assert_eq!(marketplace.fee_balance(xrd()), Amount::from_units(14));
    assert_eq!(out.seller_revenues[0].1, pay(616));
    let mut trader_component = traders.remove(&trader_address(0)).unwrap();
    assert_eq!(trader_component.listing_count(), 10);
    let mut new_user = Account::new(buyer_account());
    new_user.try_deposit_or_abort(NonFungibleBucket::new(nft(), &bought), &royalty_nft_component.depositable, None).unwrap();
    assert_eq!(trader_component.multi_cleared(amount_of(&out.buckets[1]), &new_user, &mut royalty_nft_component), Ok(()));
    assert!(!royalty_nft_component.is_transfer_open());
}

#[test]
fn list_and_purchase_multi_nft() {
    let mut marketplace = marketplace();
    let mut trader_component = trader(0);
    let mut listings = Vec::new();
    let mut minted = Vec::new();
    for i in 0..=123 {
        listings.push((item(i), Amount::from_units(10)));
        minted.push(i);
    }
    trader_component.multi_list(listings, xrd(), vec![marketplace_key()], NonFungibleBucket::new(nft(), &minted)).unwrap();
    let mut traders: Table<ComponentAddress, OpenTrader> = Table::new();
    traders.insert(trader_address(0), trader_component);
    let mut orders = vec![];
    for i in 0..123 {
        orders.push((trader_address(0), item(i), Amount::from_units(10)));
    }
    let amount = pay(1230);
    let out = marketplace.multi_listing_purchase(orders, amount, &mut traders).unwrap();
    assert_eq!(out.buckets.len(), 124);
    for i in 0..123 {
        assert_eq!(ids_of(&out.buckets[i]), vec![i as u64]);
    }
    assert_eq!(amount_of(&out.buckets[123]), pay(0));
    assert_eq!(marketplace.fee_balance(xrd()), Amount::from_attos(246 * UNIT / 10));
    assert_eq!(out.seller_revenues[0].1.amount(), Amount::from_attos(12054 * UNIT / 10));
    assert_eq!(traders.get(&trader_address(0)).unwrap().listing_count(), 1);
}

#[test]
fn list_and_purchase_multi_nft_across_multi_accounts() {
    let mut marketplace = marketplace();
    let hundred = Amount::from_units(100);
    let mut traders: Table<ComponentAddress, OpenTrader> = Table::new();
    for i in 0..20 {
        traders.insert(trader_address(i), trader(i));
    }
    // the first user lists all 70 items
    let mut first = traders.remove(&trader_address(0)).unwrap();
    for i in 0..70 {
        first.list(one(i), xrd(), hundred, vec![marketplace_key()]).unwrap();
    }
    traders.insert(trader_address(0), first);
    // each of the 20 users buys one of them
    for i in 0..20 {
        let orders = vec![(trader_address(0), item(i), hundred)];
        let out = marketplace.multi_listing_purchase(orders, pay(100), &mut traders).unwrap();
        assert_eq!(ids_of(&out.buckets[0]), vec![i]);
    }
    let order = vec![(trader_address(0), item(30), hundred)];
    marketplace.multi_listing_purchase(order, pay(100), &mut traders).unwrap();
    assert_eq!(traders.get(&trader_address(0)).unwrap().listing_count(), 49);
    // each user lists their item
    for i in 0..20 {
        let mut t = traders.remove(&trader_address(i)).unwrap();
        t.list(one(i), xrd(), hundred, vec![marketplace_key()]).unwrap();
        traders.insert(trader_address(i), t);
    }
    let mut third = traders.remove(&trader_address(2)).unwrap();
    third.list(one(30), xrd(), hundred, vec![marketplace_key()]).unwrap();
    traders.insert(trader_address(2), third);
    // the final multi-buy across six accounts
    let mut final_orders = Vec::new();
    for i in 0..6 {
        final_orders.push((trader_address(i), item(i), hundred));
    }
    let out = marketplace.multi_listing_honour_purchase(final_orders, pay(600), &mut traders).unwrap();
    assert_eq!(out.buckets.len(), 7);
    for i in 0..6 {
        assert_eq!(ids_of(&out.buckets[i]), vec![i as u64]);
        assert_eq!(out.seller_revenues[i], (ComponentAddress::from_u64(700 + i as u64), pay(98)));
    }
    assert_eq!(amount_of(&out.buckets[6]), pay(0));
    // 27 purchases of 100 at a fee of 2%
    assert_eq!(marketplace.fee_balance(xrd()), Amount::from_units(54));
    assert_eq!(traders.get(&trader_address(2)).unwrap().listing_count(), 1);
    assert_eq!(traders.get(&trader_address(0)).unwrap().listing_count(), 49);
}
