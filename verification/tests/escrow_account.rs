use outpost::account::Account;
use outpost::address::{ComponentAddress, NonFungibleGlobalId, ResourceAddress, TransactionHash};
use outpost::amount::Amount;
use outpost::error::{Error, ErrorKind};
use outpost::outpost_account::OpenTrader;
use outpost::resource::{FungibleBucket, NonFungibleBucket, Proof};
use outpost::royalty::{RoyalNFTs, RoyaltyConfigInput};

const UNIT: u128 = 1_000_000_000_000_000_000;

fn xrd() -> ResourceAddress {
    ResourceAddress::from_u64(1)
}

fn nft() -> ResourceAddress {
    ResourceAddress::from_u64(100)
}

fn creator() -> Proof {
    Proof::new(ResourceAddress::from_u64(200))
}

fn depositer() -> ResourceAddress {
    ResourceAddress::from_u64(300)
}

fn marketplace_key() -> ResourceAddress {
    ResourceAddress::from_u64(400)
}

fn transient() -> ResourceAddress {
    ResourceAddress::from_u64(600)
}

fn seller_account() -> ComponentAddress {
    ComponentAddress::from_u64(700)
}

fn buyer_account() -> ComponentAddress {
    ComponentAddress::from_u64(900)
}

fn percent(n: u128) -> Amount {
    Amount::from_attos(n * UNIT / 100)
}

fn token() -> FungibleBucket {
    FungibleBucket::with_divisibility(transient(), 0, Amount::one())
}

fn policy(rate: Amount) -> RoyalNFTs {
    RoyalNFTs::start_royalty_nft(
        nft(),
        RoyaltyConfigInput {
            depositer_admin: depositer(),
            royalties_enabled: true,
            royalty_percent: rate,
            maximum_royalty_percent: Amount::one(),
            honoured: false,
        },
        ComponentAddress::from_u64(500),
        creator().resource_address,
        ResourceAddress::from_u64(301),
        ResourceAddress::from_u64(302),
    )
    .unwrap()
}

fn trader() -> OpenTrader {
    OpenTrader::create_trader(
        NonFungibleGlobalId::new(ResourceAddress::from_u64(650), 1),
        seller_account(),
        depositer(),
        token(),
        ComponentAddress::from_u64(800),
    )
    .unwrap()
}

fn item(id: u64) -> NonFungibleGlobalId {
    NonFungibleGlobalId::new(nft(), id)
}

fn one(id: u64) -> NonFungibleBucket {
    NonFungibleBucket::single(item(id))
}

fn pay(units: u64) -> FungibleBucket {
    FungibleBucket::new(xrd(), Amount::from_units(units))
}

fn with_fee() -> Proof {
    Proof::with_marketplace_fee(marketplace_key(), percent(2))
}

fn tx(n: u64) -> TransactionHash {
    TransactionHash::from_u64(n)
}

#[test]
fn opening_an_account_needs_exactly_one_token() {
    let open = |amount: Amount| {
        OpenTrader::create_trader(
            NonFungibleGlobalId::new(ResourceAddress::from_u64(650), 1),
            seller_account(),
            depositer(),
            FungibleBucket::with_divisibility(transient(), 0, amount),
            ComponentAddress::from_u64(800),
        )
        .err()
    };
    assert_eq!(open(Amount::zero()), Some(Error::WrongToken));
    assert_eq!(open(Amount::from_units(2)), Some(Error::WrongToken));
    assert_eq!(open(Amount::one()), None);
    let t = trader();
    assert_eq!(t.fetch_auth_key(), (ResourceAddress::from_u64(650), 1));
    assert_eq!(t.transient_token_address(), transient());
    assert_eq!(t.listing_count(), 0);
    assert!(!t.is_settlement_pending());
}

#[test]
fn listing_then_cancelling_returns_the_item() {
    let mut t = trader();
    assert_eq!(t.list(one(7), xrd(), Amount::from_units(100), vec![marketplace_key()]), Ok(()));
    assert_eq!(t.listing_count(), 1);
    let listing = t.listing(&item(7)).unwrap();
    assert_eq!(listing.price, Amount::from_units(100));
    assert_eq!(listing.currency, xrd());
    assert_eq!(listing.nfgid, item(7));
    assert_eq!(listing.secondary_seller_permissions, vec![marketplace_key()]);
    assert_eq!(listing.outpost_account, ComponentAddress::from_u64(800));
    let back = t.cancel_listing(item(7)).unwrap();
    assert_eq!(back.resource_address(), nft());
    assert_eq!(back.non_fungible_local_ids(), vec![7]);
    assert!(t.listing(&item(7)).is_none());
    assert_eq!(t.listing_count(), 0);
    assert_eq!(t.cancel_listing(item(7)).err(), Some(Error::ListingNotFound));
    // the item can be listed again
    assert_eq!(t.list(one(7), xrd(), Amount::from_units(5), vec![]), Ok(()));
}

#[test]
fn listing_checks_what_is_handed_in() {
    let mut t = trader();
    let empty = NonFungibleBucket::new(nft(), &vec![]);
    assert_eq!(t.list(empty, xrd(), Amount::from_units(1), vec![]), Err(Error::NothingToTrade));
    assert_eq!(t.list(one(1), xrd(), Amount::zero(), vec![]), Err(Error::InvalidPrice));
    let two = NonFungibleBucket::new(nft(), &vec![1, 2]);
    assert_eq!(t.list(two, xrd(), Amount::from_units(1), vec![]), Err(Error::ItemMismatch));
    assert_eq!(t.list(one(1), xrd(), Amount::from_attos(1), vec![]), Ok(()));
    assert_eq!(t.list(one(1), xrd(), Amount::from_units(1), vec![]), Err(Error::AlreadyListed));
    assert_eq!(t.royal_list(one(2), Amount::zero(), xrd(), vec![], tx(1)), Err(Error::InvalidPrice));
    let none = NonFungibleBucket::new(nft(), &vec![]);
    assert_eq!(t.royal_list(none, Amount::from_units(1), xrd(), vec![], tx(1)), Err(Error::ItemMismatch));
    assert_eq!(t.royal_list(one(1), Amount::from_units(1), xrd(), vec![], tx(1)), Err(Error::AlreadyListed));
    assert_eq!(t.listing_count(), 1);
    for e in [Error::NothingToTrade, Error::InvalidPrice, Error::ItemMismatch, Error::AlreadyListed] {
        assert_eq!(e.kind(), ErrorKind::PolicyViolation);
    }
}

#[test]
fn a_listing_can_be_changed() {
    let mut t = trader();
    let other = ResourceAddress::from_u64(401);
    t.list(one(1), xrd(), Amount::from_units(10), vec![marketplace_key(), other, marketplace_key()]).unwrap();
    assert_eq!(t.change_price(item(1), Amount::from_units(12)), Ok(()));
    assert_eq!(t.listing(&item(1)).unwrap().price, Amount::from_units(12));
    assert_eq!(t.change_price(item(1), Amount::zero()), Err(Error::InvalidPrice));
    assert_eq!(t.change_price(item(2), Amount::from_units(1)), Err(Error::ListingNotFound));
    assert_eq!(t.revoke_market_permission(item(1), marketplace_key()), Ok(()));
    assert_eq!(t.listing(&item(1)).unwrap().secondary_seller_permissions, vec![other]);
    assert_eq!(t.add_buyer_permission(item(1), marketplace_key()), Ok(()));
    assert_eq!(t.listing(&item(1)).unwrap().secondary_seller_permissions, vec![other, marketplace_key()]);
    assert_eq!(t.revoke_market_permission(item(2), other), Err(Error::ListingNotFound));
    assert_eq!(t.add_buyer_permission(item(2), other), Err(Error::ListingNotFound));
    assert_eq!(t.listing(&item(1)).unwrap().price, Amount::from_units(12));
    assert_eq!(t.listing_count(), 1);
}

#[test]
fn a_revoked_credential_cannot_buy() {
    let mut t = trader();
    t.list(one(1), xrd(), Amount::from_units(10), vec![marketplace_key()]).unwrap();
    t.revoke_market_permission(item(1), marketplace_key()).unwrap();
    assert_eq!(t.purchase_listing(item(1), pay(10), &with_fee()).err(), Some(Error::PermissionDenied));
    assert_eq!(Error::PermissionDenied.kind(), ErrorKind::PermissionDenied);
}

#[test]
fn a_hundred_at_a_tenth_royalty_and_two_percent_fee() {
    let mut t = trader();
    let mut p = policy(percent(10));
    t.royal_list(one(1), Amount::from_units(100), xrd(), vec![marketplace_key()], tx(1)).unwrap();
    let quote = t.quote_royal_purchase(&p, &item(1), &pay(100), &with_fee(), &tx(2)).unwrap();
    assert_eq!(quote.royalty, Amount::from_units(10));
    assert_eq!(quote.marketplace_fee, Amount::from_units(2));
    assert_eq!(quote.seller_revenue, Amount::from_units(88));
    let out = t.purchase_royal_listing(item(1), pay(100), &with_fee(), buyer_account(), &mut p, tx(2)).unwrap();
    assert_eq!(p.royalty_balance(xrd()), Amount::from_units(10));
    assert_eq!(out.marketplace_fee, Some(pay(2)));
    assert_eq!(out.seller_revenue, pay(88));
    assert_eq!(out.transient_token, token());
    assert_eq!(out.nft.resource_address(), nft());
    assert_eq!(out.nft.non_fungible_local_ids(), vec![1]);
    assert!(t.listing(&item(1)).is_none());
    assert!(t.is_settlement_pending());
    assert_eq!(t.latest_transaction, Some((nft(), 1, buyer_account())));
    assert_eq!(t.transient_tokens, Amount::zero());
    assert!(p.is_transfer_open());
}

#[test]
fn the_fee_is_computed_on_the_full_payment() {
    let mut t = trader();
    let mut p = policy(percent(50));
    t.royal_list(one(1), Amount::from_units(100), xrd(), vec![marketplace_key()], tx(1)).unwrap();
    let forty = Proof::with_marketplace_fee(marketplace_key(), percent(40));
    let out = t.purchase_royal_listing(item(1), pay(100), &forty, buyer_account(), &mut p, tx(2)).unwrap();
    // 40% of 100, not 40% of the 50 the royalty leaves
    assert_eq!(out.marketplace_fee, Some(pay(40)));
    assert_eq!(out.seller_revenue, pay(10));
}

#[test]
fn a_credential_without_a_fee_rate_pays_no_fee() {
    let mut t = trader();
    let mut p = policy(percent(10));
    t.royal_list(one(1), Amount::from_units(100), xrd(), vec![marketplace_key()], tx(1)).unwrap();
    let plain = Proof::new(marketplace_key());
    let out = t.purchase_royal_listing(item(1), pay(100), &plain, buyer_account(), &mut p, tx(2)).unwrap();
    assert_eq!(out.marketplace_fee, None);
    assert_eq!(out.seller_revenue, pay(90));
}

#[test]
fn a_purchase_is_refused_step_by_step() {
    let mut t = trader();
    let mut p = policy(percent(60));
    t.royal_list(one(1), Amount::from_units(100), xrd(), vec![marketplace_key()], tx(1)).unwrap();
    let mut buy = |t: &mut OpenTrader, p: &mut RoyalNFTs, id: u64, payment: FungibleBucket, proof: Proof, n: u64| {
        t.purchase_royal_listing(item(id), payment, &proof, buyer_account(), p, tx(n)).err()
    };
    assert_eq!(buy(&mut t, &mut p, 2, pay(100), with_fee(), 2), Some(Error::ListingNotFound));
    let unknown = Proof::new(ResourceAddress::from_u64(401));
    assert_eq!(buy(&mut t, &mut p, 1, pay(100), unknown, 2), Some(Error::PermissionDenied));
    assert_eq!(buy(&mut t, &mut p, 1, pay(99), with_fee(), 2), Some(Error::PaymentMismatch));
    assert_eq!(buy(&mut t, &mut p, 1, pay(101), with_fee(), 2), Some(Error::PaymentMismatch));
    let other_currency = FungibleBucket::new(ResourceAddress::from_u64(2), Amount::from_units(100));
    assert_eq!(buy(&mut t, &mut p, 1, other_currency, with_fee(), 2), Some(Error::PaymentMismatch));
    assert_eq!(Error::PaymentMismatch.kind(), ErrorKind::PaymentMismatch);
    assert_eq!(buy(&mut t, &mut p, 1, pay(100), with_fee(), 1), Some(Error::SameTransactionReplay));
    let greedy = Proof::with_marketplace_fee(marketplace_key(), percent(101));
    assert_eq!(buy(&mut t, &mut p, 1, pay(100), greedy, 2), Some(Error::FeeRateOutOfRange));
    let half = Proof::with_marketplace_fee(marketplace_key(), percent(50));
    assert_eq!(buy(&mut t, &mut p, 1, pay(100), half, 2), Some(Error::FeeExceedsRemainder));
    assert_eq!(Error::FeeExceedsRemainder.kind(), ErrorKind::PaymentMismatch);
    // nothing has changed
    assert_eq!(t.listing_count(), 1);
    assert!(!t.is_settlement_pending());
    assert_eq!(p.royalty_balance(xrd()), Amount::zero());
    assert!(!p.is_transfer_open());
    // the royalty component's own refusals come through
    p.deny_all_buyers(&creator()).unwrap();
    assert_eq!(buy(&mut t, &mut p, 1, pay(100), with_fee(), 2), Some(Error::BuyerNotPermitted));
    p.allow_all_buyers(&creator()).unwrap();
    let mut elsewhere = RoyalNFTs::start_royalty_nft(
        ResourceAddress::from_u64(101),
        RoyaltyConfigInput {
            depositer_admin: depositer(),
            royalties_enabled: true,
            royalty_percent: percent(10),
            maximum_royalty_percent: Amount::one(),
            honoured: false,
        },
        ComponentAddress::from_u64(501),
        creator().resource_address,
        ResourceAddress::from_u64(301),
        ResourceAddress::from_u64(302),
    )
    .unwrap();
    assert_eq!(buy(&mut t, &mut elsewhere, 1, pay(100), with_fee(), 2), Some(Error::PolicyMismatch));
    let forty = Proof::with_marketplace_fee(marketplace_key(), percent(40));
    assert_eq!(buy(&mut t, &mut p, 1, pay(100), forty, 2), None);
}

#[test]
fn an_account_without_authority_over_the_deposit_rule_cannot_sell() {
    let mut t = OpenTrader::create_trader(
        NonFungibleGlobalId::new(ResourceAddress::from_u64(650), 1),
        seller_account(),
        ResourceAddress::from_u64(399),
        token(),
        ComponentAddress::from_u64(800),
    )
    .unwrap();
    let mut p = policy(percent(10));
    t.royal_list(one(1), Amount::from_units(100), xrd(), vec![marketplace_key()], tx(1)).unwrap();
    let r = t.purchase_royal_listing(item(1), pay(100), &with_fee(), buyer_account(), &mut p, tx(2));
    assert_eq!(r.err(), Some(Error::NotAuthorized));
    assert_eq!(t.listing_count(), 1);
}

#[test]
fn a_second_purchase_finds_no_listing() {
    let mut t = trader();
    let mut p = policy(percent(10));
    t.royal_list(one(1), Amount::from_units(100), xrd(), vec![marketplace_key()], tx(1)).unwrap();
    t.purchase_royal_listing(item(1), pay(100), &with_fee(), buyer_account(), &mut p, tx(2)).unwrap();
    let again = t.purchase_royal_listing(item(1), pay(100), &with_fee(), buyer_account(), &mut p, tx(3)).err();
    assert_eq!(again, Some(Error::ListingNotFound));
    assert_eq!(again.unwrap().kind(), ErrorKind::NotFound);
    assert_eq!(t.purchase_listing(item(1), pay(100), &with_fee()).err(), Some(Error::ListingNotFound));
}

#[test]
fn an_item_cannot_be_bought_in_the_transaction_that_lists_it() {
    let mut t = trader();
    let mut p = policy(percent(10));
    t.royal_list(one(1), Amount::from_units(100), xrd(), vec![marketplace_key()], tx(5)).unwrap();
    let same = t.purchase_royal_listing(item(1), pay(100), &with_fee(), buyer_account(), &mut p, tx(5)).err();
    assert_eq!(same, Some(Error::SameTransactionReplay));
    assert_eq!(same.unwrap().kind(), ErrorKind::ReplayDetected);
    let bulk = t
        .purchase_multi_royal_listings(vec![item(1)], pay(100), buyer_account(), &with_fee(), &mut p, tx(5))
        .err();
    assert_eq!(bulk, Some(Error::SameTransactionReplay));
    assert_eq!(t.listing_count(), 1);
    // an item without enforced royalties can
    t.list(one(2), xrd(), Amount::from_units(100), vec![marketplace_key()]).unwrap();
    assert!(t.purchase_listing(item(2), pay(100), &with_fee()).is_ok());
    // and in another transaction the royalty item can too
    assert!(t.purchase_royal_listing(item(1), pay(100), &with_fee(), buyer_account(), &mut p, tx(6)).is_ok());
}

#[test]
fn a_bulk_listing_is_guarded_against_replay_too() {
    let mut t = trader();
    let mut p = policy(percent(10));
    let batch = vec![(item(1), Amount::from_units(10)), (item(2), Amount::from_units(10))];
    t.royal_multi_list(batch, xrd(), vec![marketplace_key()], NonFungibleBucket::new(nft(), &vec![1, 2]), tx(9)).unwrap();
    let r = t.purchase_royal_listing(item(2), pay(10), &with_fee(), buyer_account(), &mut p, tx(9)).err();
    assert_eq!(r, Some(Error::SameTransactionReplay));
}

#[test]
fn clearing_needs_a_pending_sale() {
    let mut t = trader();
    let mut p = policy(percent(10));
    let buyer = Account::new(buyer_account());
    let r = t.cleared(token(), &buyer, &mut p);
    assert_eq!(r, Err(Error::NoPendingTransfer));
    assert_eq!(Error::NoPendingTransfer.kind(), ErrorKind::NotFound);
    assert_eq!(t.multi_cleared(token(), &buyer, &mut p), Err(Error::NoPendingTransfer));
}

#[test]
fn clearing_needs_the_right_token() {
    let mut t = trader();
    let mut p = policy(percent(10));
    t.royal_list(one(1), Amount::from_units(100), xrd(), vec![marketplace_key()], tx(1)).unwrap();
    let out = t.purchase_royal_listing(item(1), pay(100), &with_fee(), buyer_account(), &mut p, tx(2)).unwrap();
    let mut buyer = Account::new(buyer_account());
    buyer.try_deposit_or_abort(out.nft, &p.depositable, None).unwrap();
    let forged = FungibleBucket::with_divisibility(ResourceAddress::from_u64(601), 0, Amount::one());
    assert_eq!(t.cleared(forged, &buyer, &mut p), Err(Error::WrongToken));
    let none = FungibleBucket::with_divisibility(transient(), 0, Amount::zero());
    assert_eq!(t.cleared(none, &buyer, &mut p), Err(Error::WrongToken));
    let two = FungibleBucket::with_divisibility(transient(), 0, Amount::from_units(2));
    assert_eq!(t.cleared(two, &buyer, &mut p), Err(Error::WrongToken));
    assert_eq!(Error::WrongToken.kind(), ErrorKind::ProtocolViolation);
    assert!(t.is_settlement_pending());
    assert!(p.is_transfer_open());
    assert_eq!(t.cleared(out.transient_token, &buyer, &mut p), Ok(()));
}

#[test]
fn clearing_needs_the_item_at_the_declared_recipient() {
    let mut t = trader();
    let mut p = policy(percent(10));
    t.royal_list(one(1), Amount::from_units(100), xrd(), vec![marketplace_key()], tx(1)).unwrap();
    let out = t.purchase_royal_listing(item(1), pay(100), &with_fee(), buyer_account(), &mut p, tx(2)).unwrap();
    // the declared recipient has not received the item
    let empty_handed = Account::new(buyer_account());
    let r = t.cleared(token(), &empty_handed, &mut p);
    assert_eq!(r, Err(Error::TransferNotObserved));
    assert_eq!(r.unwrap_err().kind(), ErrorKind::ProtocolViolation);
    // someone else has it
    let mut interceptor = Account::new(ComponentAddress::from_u64(901));
    interceptor.try_deposit_or_abort(out.nft, &p.depositable, None).unwrap();
    assert_eq!(t.cleared(token(), &interceptor, &mut p), Err(Error::TransferNotObserved));
    // the wrong kind of clearing finds nothing
    assert_eq!(t.multi_cleared(token(), &interceptor, &mut p), Err(Error::NoPendingTransfer));
    assert!(t.is_settlement_pending());
    assert!(p.is_transfer_open());
}

#[test]
fn clearing_closes_the_transfer_window() {
    let mut t = trader();
    let mut p = policy(percent(10));
    t.royal_list(one(1), Amount::from_units(100), xrd(), vec![marketplace_key()], tx(1)).unwrap();
    t.royal_list(one(2), Amount::from_units(100), xrd(), vec![marketplace_key()], tx(1)).unwrap();
    let out = t.purchase_royal_listing(item(1), pay(100), &with_fee(), buyer_account(), &mut p, tx(2)).unwrap();
    // while the sale is open no other can start
    let second = t.purchase_royal_listing(item(2), pay(100), &with_fee(), buyer_account(), &mut p, tx(3)).err();
    assert_eq!(second, Some(Error::SettlementPending));
    assert_eq!(second.unwrap().kind(), ErrorKind::ProtocolViolation);
    let mut buyer = Account::new(buyer_account());
    assert_eq!(buyer.try_deposit_or_abort(out.nft, &p.depositable, None), Ok(()));
    assert_eq!(t.cleared(out.transient_token, &buyer, &mut p), Ok(()));
    assert!(!t.is_settlement_pending());
    assert_eq!(t.latest_transaction, None);
    assert_eq!(t.transient_tokens, Amount::one());
    assert!(!p.is_transfer_open());
    assert!(!p.can_deposit(None));
    // the window being closed, the item cannot wander on without a badge
    let mut next = Account::new(ComponentAddress::from_u64(902));
    assert_eq!(next.try_deposit_or_abort(one(1), &p.depositable, None), Err(Error::NotAuthorized));
    // and the next sale can start
    assert!(t.purchase_royal_listing(item(2), pay(100), &with_fee(), buyer_account(), &mut p, tx(3)).is_ok());
    // a sale cannot be cleared twice
    assert_eq!(t.multi_cleared(token(), &buyer, &mut p), Err(Error::NoPendingTransfer));
}

#[test]
fn clearing_needs_the_policy_of_the_collection() {
    let mut t = trader();
    let mut p = policy(percent(10));
    t.royal_list(one(1), Amount::from_units(100), xrd(), vec![marketplace_key()], tx(1)).unwrap();
    let out = t.purchase_royal_listing(item(1), pay(100), &with_fee(), buyer_account(), &mut p, tx(2)).unwrap();
    let mut buyer = Account::new(buyer_account());
    buyer.try_deposit_or_abort(out.nft, &p.depositable, None).unwrap();
    let mut elsewhere = RoyalNFTs::start_royalty_nft(
        ResourceAddress::from_u64(101),
        RoyaltyConfigInput {
            depositer_admin: depositer(),
            royalties_enabled: true,
            royalty_percent: percent(10),
            maximum_royalty_percent: Amount::one(),
            honoured: false,
        },
        ComponentAddress::from_u64(501),
        creator().resource_address,
        ResourceAddress::from_u64(301),
        ResourceAddress::from_u64(302),
    )
    .unwrap();
    assert_eq!(t.cleared(token(), &buyer, &mut elsewhere), Err(Error::PolicyMismatch));
    assert!(t.is_settlement_pending());
}

#[test]
fn three_items_of_one_seller_make_one_sale() {
    let mut t = trader();
    let mut p = policy(percent(10));
    let batch = vec![
        (item(1), Amount::from_units(10)),
        (item(2), Amount::from_units(10)),
        (item(3), Amount::from_units(10)),
    ];
    let items = NonFungibleBucket::new(nft(), &vec![1, 2, 3]);
    assert_eq!(t.royal_multi_list(batch, xrd(), vec![marketplace_key()], items, tx(1)), Ok(()));
    assert_eq!(t.listing_count(), 3);
    let order = vec![item(1), item(2), item(3)];
    let quote = t.quote_royal_multi_purchase(&p, &order, &pay(30), &with_fee(), &tx(2)).unwrap();
    assert_eq!(quote.royalty, Amount::from_units(3));
    assert_eq!(quote.marketplace_fee, Amount::from_attos(6 * UNIT / 10));
    assert_eq!(quote.seller_revenue, Amount::from_attos(264 * UNIT / 10));
    let out = t
        .purchase_multi_royal_listings(order, pay(30), buyer_account(), &with_fee(), &mut p, tx(2))
        .unwrap();
    assert_eq!(out.nft.non_fungible_local_ids(), vec![1, 2, 3]);
    assert_eq!(out.transient_token, token());
    assert_eq!(out.marketplace_fee.unwrap().amount(), Amount::from_attos(6 * UNIT / 10));
    assert_eq!(out.seller_revenue.amount(), Amount::from_attos(264 * UNIT / 10));
    assert_eq!(p.royalty_balance(xrd()), Amount::from_units(3));
    assert_eq!(t.listing_count(), 0);
    // one pending transfer covers the three items
    assert_eq!(t.latest_bulk_transaction, Some((buyer_account(), vec![item(1), item(2), item(3)])));
    assert_eq!(t.latest_transaction, None);
    assert!(p.is_transfer_open());
    // the single clearing does not close a bulk sale
    let mut buyer = Account::new(buyer_account());
    buyer.try_deposit_or_abort(NonFungibleBucket::new(nft(), &vec![1, 2]), &p.depositable, None).unwrap();
    assert_eq!(t.cleared(token(), &buyer, &mut p), Err(Error::NoPendingTransfer));
    // nor does a bulk clearing while an item is missing
    assert_eq!(t.multi_cleared(token(), &buyer, &mut p), Err(Error::TransferNotObserved));
    assert!(p.is_transfer_open());
    buyer.try_deposit_or_abort(one(3), &p.depositable, None).unwrap();
    assert_eq!(t.multi_cleared(token(), &buyer, &mut p), Ok(()));
    assert!(!p.is_transfer_open());
    assert!(!t.is_settlement_pending());
}

#[test]
fn a_bulk_order_is_checked_as_a_whole() {
    let mut t = trader();
    let mut p = policy(percent(10));
    let coin = ResourceAddress::from_u64(2);
    t.royal_list(one(1), Amount::from_units(10), xrd(), vec![marketplace_key()], tx(1)).unwrap();
    t.royal_list(one(2), Amount::from_units(20), xrd(), vec![marketplace_key()], tx(1)).unwrap();
    t.royal_list(one(3), Amount::from_units(30), coin, vec![marketplace_key()], tx(1)).unwrap();
    t.royal_list(one(4), Amount::from_units(40), xrd(), vec![], tx(1)).unwrap();
    let other = NonFungibleGlobalId::new(ResourceAddress::from_u64(101), 1);
    t.royal_list(NonFungibleBucket::single(other), Amount::from_units(5), xrd(), vec![marketplace_key()], tx(1))
        .unwrap();
    let mut buy = |t: &mut OpenTrader, p: &mut RoyalNFTs, order: Vec<NonFungibleGlobalId>, payment: FungibleBucket| {
        t.purchase_multi_royal_listings(order, payment, buyer_account(), &with_fee(), p, tx(2)).err()
    };
    assert_eq!(buy(&mut t, &mut p, vec![], pay(0)), Some(Error::NothingToTrade));
    assert_eq!(buy(&mut t, &mut p, vec![item(1), item(9)], pay(10)), Some(Error::ListingNotFound));
    assert_eq!(buy(&mut t, &mut p, vec![item(1), item(4)], pay(50)), Some(Error::PermissionDenied));
    // the first faulty item decides
    assert_eq!(buy(&mut t, &mut p, vec![item(4), item(9)], pay(50)), Some(Error::PermissionDenied));
    assert_eq!(buy(&mut t, &mut p, vec![item(1), item(3)], pay(40)), Some(Error::MixedCurrencies));
    assert_eq!(Error::MixedCurrencies.kind(), ErrorKind::PaymentMismatch);
    assert_eq!(buy(&mut t, &mut p, vec![item(1), item(2)], pay(29)), Some(Error::PaymentMismatch));
    assert_eq!(buy(&mut t, &mut p, vec![item(1), other], pay(15)), Some(Error::ItemMismatch));
    assert_eq!(t.listing_count(), 5);
    // an item named twice counts twice
    assert_eq!(buy(&mut t, &mut p, vec![item(1), item(1)], pay(10)), Some(Error::PaymentMismatch));
    let out = t
        .purchase_multi_royal_listings(vec![item(1), item(2), item(1)], pay(40), buyer_account(), &with_fee(), &mut p, tx(2))
        .unwrap();
    assert_eq!(out.nft.non_fungible_local_ids(), vec![1, 2]);
    assert_eq!(p.royalty_balance(xrd()), Amount::from_units(4));
    assert_eq!(t.listing_count(), 3);
}

#[test]
fn a_batch_must_name_exactly_the_items_handed_in() {
    let mut t = trader();
    let ten = Amount::from_units(10);
    let bucket = |ids: Vec<u64>| NonFungibleBucket::new(nft(), &ids);
    assert_eq!(t.multi_list(vec![], xrd(), vec![], bucket(vec![])), Err(Error::NothingToTrade));
    assert_eq!(t.multi_list(vec![(item(1), ten)], xrd(), vec![], bucket(vec![])), Err(Error::NothingToTrade));
    let foreign = NonFungibleGlobalId::new(ResourceAddress::from_u64(101), 1);
    assert_eq!(t.multi_list(vec![(foreign, ten)], xrd(), vec![], bucket(vec![1])), Err(Error::ItemMismatch));
    assert_eq!(
        t.multi_list(vec![(item(1), Amount::zero())], xrd(), vec![], bucket(vec![1])),
        Err(Error::InvalidPrice)
    );
    // the first faulty entry decides
    assert_eq!(
        t.multi_list(vec![(item(1), Amount::zero()), (foreign, ten)], xrd(), vec![], bucket(vec![1])),
        Err(Error::InvalidPrice)
    );
    // an item listed but not handed in
    assert_eq!(
        t.multi_list(vec![(item(1), ten), (item(2), ten)], xrd(), vec![], bucket(vec![1])),
        Err(Error::ItemMismatch)
    );
    // an item handed in but not listed
    assert_eq!(t.multi_list(vec![(item(1), ten)], xrd(), vec![], bucket(vec![1, 2])), Err(Error::ItemMismatch));
    assert_eq!(t.multi_list(vec![], xrd(), vec![], bucket(vec![1])), Err(Error::ItemMismatch));
    assert_eq!(t.listing_count(), 0);
    assert_eq!(t.multi_list(vec![(item(1), ten), (item(2), ten)], xrd(), vec![], bucket(vec![2, 1])), Ok(()));
    assert_eq!(t.multi_list(vec![(item(2), ten), (item(3), ten)], xrd(), vec![], bucket(vec![2, 3])), Err(Error::AlreadyListed));
    assert_eq!(t.listing_count(), 2);
    assert!(t.listing(&item(3)).is_none());
}

#[test]
fn the_later_price_holds_where_a_batch_names_an_item_twice() {
    let mut t = trader();
    let batch = vec![
        (item(1), Amount::from_units(10)),
        (item(2), Amount::from_units(20)),
        (item(1), Amount::from_units(30)),
    ];
    assert_eq!(t.multi_list(batch, xrd(), vec![marketplace_key()], NonFungibleBucket::new(nft(), &vec![1, 2])), Ok(()));
    assert_eq!(t.listing_count(), 2);
    assert_eq!(t.listing(&item(1)).unwrap().price, Amount::from_units(30));
    assert_eq!(t.listing(&item(2)).unwrap().price, Amount::from_units(20));
    assert_eq!(t.listing(&item(2)).unwrap().secondary_seller_permissions, vec![marketplace_key()]);
}

#[test]
fn a_plain_purchase_splits_off_the_fee_only() {
    let mut t = trader();
    t.list(one(1), xrd(), Amount::from_units(100), vec![marketplace_key()]).unwrap();
    t.list(one(2), xrd(), Amount::from_units(100), vec![marketplace_key()]).unwrap();
    assert_eq!(t.quote_purchase(&item(1), &pay(100), &with_fee()).unwrap().seller_revenue, Amount::from_units(98));
    let out = t.purchase_listing(item(1), pay(100), &with_fee()).unwrap();
    assert_eq!(out.nft.non_fungible_local_ids(), vec![1]);
    assert_eq!(out.marketplace_fee, Some(pay(2)));
    assert_eq!(out.seller_revenue, pay(98));
    assert!(!t.is_settlement_pending());
    // no fee bucket when the fee is zero
    let out = t.purchase_listing(item(2), pay(100), &Proof::new(marketplace_key())).unwrap();
    assert_eq!(out.marketplace_fee, None);
    assert_eq!(out.seller_revenue, pay(100));
    assert_eq!(t.listing_count(), 0);
}

#[test]
fn a_plain_bulk_purchase_hands_out_one_bucket_for_each_item() {
    let mut t = trader();
    let other = NonFungibleGlobalId::new(ResourceAddress::from_u64(101), 1);
    t.list(one(1), xrd(), Amount::from_units(10), vec![marketplace_key()]).unwrap();
    t.list(one(2), xrd(), Amount::from_units(20), vec![marketplace_key()]).unwrap();
    t.list(NonFungibleBucket::single(other), xrd(), Amount::from_units(70), vec![marketplace_key()]).unwrap();
    assert_eq!(
        t.multi_purchase_listing(vec![item(1), item(1)], pay(20), &with_fee()).err(),
        Some(Error::ItemMismatch)
    );
    assert_eq!(t.multi_purchase_listing(vec![item(1), item(2)], pay(31), &with_fee()).err(), Some(Error::PaymentMismatch));
    let greedy = Proof::with_marketplace_fee(marketplace_key(), percent(200));
    assert_eq!(
        t.multi_purchase_listing(vec![item(1), item(2)], pay(30), &greedy).err(),
        Some(Error::FeeRateOutOfRange)
    );
    assert_eq!(
        t.quote_multi_purchase(&vec![item(2), other, item(1)], &pay(100), &with_fee()).unwrap().marketplace_fee,
        Amount::from_units(2)
    );
    let out = t.multi_purchase_listing(vec![item(2), other, item(1)], pay(100), &with_fee()).unwrap();
    assert_eq!(out.nfts.len(), 3);
    assert_eq!(out.nfts[0].non_fungible_local_ids(), vec![2]);
    assert_eq!(out.nfts[1].resource_address(), ResourceAddress::from_u64(101));
    assert_eq!(out.nfts[2].non_fungible_local_ids(), vec![1]);
    assert_eq!(out.marketplace_fee, Some(pay(2)));
    assert_eq!(out.seller_revenue, pay(98));
    assert_eq!(t.listing_count(), 0);
}

#[test]
fn cancelling_a_royalty_listing_returns_the_item_to_the_owner() {
    let mut t = trader();
    let mut p = policy(percent(10));
    t.royal_list(one(1), Amount::from_units(100), xrd(), vec![marketplace_key()], tx(1)).unwrap();
    let mut stranger = Account::new(ComponentAddress::from_u64(901));
    assert_eq!(t.cancel_royal_listing(item(1), &mut stranger, &p), Err(Error::NotAuthorized));
    let mut owner = Account::new(seller_account());
    assert_eq!(t.cancel_royal_listing(item(2), &mut owner, &p), Err(Error::ListingNotFound));
    p.set_depositable(outpost::resource::AccessRule::deny_all(), Some(depositer())).unwrap();
    assert_eq!(t.cancel_royal_listing(item(1), &mut owner, &p), Err(Error::NotAuthorized));
    assert_eq!(t.listing_count(), 1);
    p.restore_transfers(Some(depositer())).unwrap();
    assert_eq!(t.cancel_royal_listing(item(1), &mut owner, &p), Ok(()));
    assert!(owner.has_non_fungible(nft(), 1));
    assert_eq!(t.listing_count(), 0);
}
