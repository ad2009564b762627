use outpost::account::Account;
use outpost::address::{ComponentAddress, Key, NonFungibleGlobalId, ResourceAddress, TransactionHash};
use outpost::bulk_purchase::{has_duplicates, local_ids_of};
use outpost::delivery::check_holds_all;
use outpost::error::{Error, ErrorKind};
use outpost::listing::remove_address;
use outpost::resource::{contains_address, copy_addresses, AccessRule, NonFungibleBucket, Proof};
use outpost::table::Table;

fn r(n: u64) -> ResourceAddress {
    ResourceAddress::from_u64(n)
}

#[test]
fn identifiers_are_equal_when_all_their_bits_are() {
    assert!(r(5).same(&r(5)));
    assert!(!r(5).same(&r(6)));
    assert!(!ResourceAddress { hi: 1, lo: 5 }.same(&ResourceAddress { hi: 0, lo: 5 }));
    assert!(ComponentAddress::from_u64(7).same(&ComponentAddress { hi: 0, lo: 7 }));
    assert!(!ComponentAddress::from_u64(7).same(&ComponentAddress { hi: 7, lo: 0 }));
    assert!(TransactionHash::from_u64(9).same(&TransactionHash::from_u64(9)));
    assert!(!TransactionHash::from_u64(9).same(&TransactionHash { hi: 9, lo: 9 }));
    let item = NonFungibleGlobalId::new(r(1), 2);
    assert!(item.same(&NonFungibleGlobalId::new(r(1), 2)));
    assert!(!item.same(&NonFungibleGlobalId::new(r(1), 3)));
    assert!(!item.same(&NonFungibleGlobalId::new(r(2), 2)));
    assert_eq!(item.resource_address(), r(1));
    assert_eq!(item.local_id(), 2);
    assert_eq!(item.into_parts(), (r(1), 2));
}

#[test]
fn a_table_is_a_map() {
    let mut t: Table<ResourceAddress, u32> = Table::new();
    assert_eq!(t.len(), 0);
    assert_eq!(t.get(&r(1)), None);
    assert!(!t.contains_key(&r(1)));
    t.insert(r(1), 10);
    t.insert(r(2), 20);
    t.insert(r(3), 30);
    assert_eq!(t.len(), 3);
    assert_eq!(t.get(&r(2)), Some(&20));
    // a second value for a key replaces the first and keeps its place
    t.insert(r(1), 11);
    assert_eq!(t.len(), 3);
    assert_eq!(t.get(&r(1)), Some(&11));
    assert_eq!(t.keys(), vec![r(1), r(2), r(3)]);
    assert_eq!(t.remove(&r(2)), Some(20));
    assert_eq!(t.remove(&r(2)), None);
    assert_eq!(t.keys(), vec![r(1), r(3)]);
    assert!(t.contains_key(&r(3)));
    assert!(!t.contains_key(&r(2)));
    t.insert(r(2), 21);
    assert_eq!(t.keys(), vec![r(1), r(3), r(2)]);
    assert_eq!(t.get(&r(2)), Some(&21));
}

#[test]
fn a_rule_admits_everyone_no_one_or_the_holders_of_its_badges() {
    let everyone = AccessRule::allow_all();
    assert!(everyone.is_allow_all());
    assert!(everyone.check(None));
    assert!(everyone.check(Some(r(1))));
    let no_one = AccessRule::deny_all();
    assert!(!no_one.is_allow_all());
    assert!(!no_one.check(None));
    assert!(!no_one.check(Some(r(1))));
    let some = AccessRule::require_any_of(vec![r(1), r(2)]);
    assert!(some.check(Some(r(1))));
    assert!(some.check(Some(r(2))));
    assert!(!some.check(Some(r(3))));
    assert!(!some.check(None));
    let copy = some.duplicate();
    assert_eq!(copy.badges, vec![r(1), r(2)]);
    assert!(!copy.allow_all);
    assert!(everyone.duplicate().check(None));
}

#[test]
fn lists_of_addresses() {
    let list = vec![r(1), r(2), r(1), r(3)];
    assert!(contains_address(&list, &r(3)));
    assert!(!contains_address(&list, &r(4)));
    assert!(!contains_address(&vec![], &r(1)));
    assert_eq!(copy_addresses(&list), list);
    assert_eq!(remove_address(&list, &r(1)), vec![r(2), r(3)]);
    assert_eq!(remove_address(&list, &r(4)), list);
    assert_eq!(remove_address(&vec![r(1)], &r(1)), vec![]);
}

#[test]
fn orders_of_items() {
    let a = NonFungibleGlobalId::new(r(1), 1);
    let b = NonFungibleGlobalId::new(r(1), 2);
    let c = NonFungibleGlobalId::new(r(2), 1);
    assert!(!has_duplicates(&vec![a, b, c]));
    assert!(has_duplicates(&vec![a, b, a]));
    assert!(has_duplicates(&vec![c, c]));
    assert!(!has_duplicates(&vec![]));
    assert_eq!(local_ids_of(&vec![a, b, c, b]), vec![1, 2, 1, 2]);
}

#[test]
fn an_account_knows_what_it_holds() {
    let mut account = Account::new(ComponentAddress::from_u64(1));
    let everyone = AccessRule::allow_all();
    account.try_deposit_or_abort(NonFungibleBucket::new(r(1), &vec![1, 2, 3]), &everyone, None).unwrap();
    assert!(check_holds_all(&account, r(1), &vec![3, 1]));
    assert!(check_holds_all(&account, r(1), &vec![]));
    assert!(!check_holds_all(&account, r(1), &vec![1, 4]));
    assert!(!check_holds_all(&account, r(2), &vec![1]));
}

#[test]
fn a_proof_shows_a_badge_and_the_fee_it_declares() {
    let plain = Proof::new(r(1));
    assert_eq!(plain.resource_address(), r(1));
    assert_eq!(plain.marketplace_fee, None);
    let rate = outpost::amount::Amount::from_attos(20_000_000_000_000_000);
    let with_fee = Proof::with_marketplace_fee(r(1), rate);
    assert_eq!(with_fee.marketplace_fee, Some(rate));
    assert_ne!(plain, with_fee);
}

#[test]
fn every_refusal_belongs_to_one_family() {
    let not_found = [Error::ListingNotFound, Error::NoPendingTransfer, Error::VaultNotFound];
    let denied = [
        Error::BuyerNotPermitted,
        Error::CurrencyNotPermitted,
        Error::DappNotPermitted,
        Error::NotAuthorized,
        Error::PermissionDenied,
    ];
    let mismatch = [
        Error::PaymentMismatch,
        Error::MixedCurrencies,
        Error::FeeExceedsRemainder,
        Error::InsufficientPayment,
    ];
    let policy = [
        Error::PolicyMismatch,
        Error::BelowMinimumRoyalty,
        Error::ConfigurationLocked,
        Error::RateAboveOne,
        Error::RateAboveMaximum,
        Error::MaximumBelowRate,
        Error::MaximumRaised,
        Error::CurrencyRestrictionOff,
        Error::Overflow,
        Error::InvalidPrice,
        Error::NothingToTrade,
        Error::ItemMismatch,
        Error::AlreadyListed,
        Error::FeeRateOutOfRange,
        Error::MintNotEnabled,
        Error::SaleCapReached,
        Error::MintLimitExceeded,
        Error::AlreadyRegistered,
    ];
    let protocol = [Error::WrongToken, Error::TransferNotObserved, Error::SettlementPending];
    for e in not_found {
        assert_eq!(e.kind(), ErrorKind::NotFound);
    }
    for e in denied {
        assert_eq!(e.kind(), ErrorKind::PermissionDenied);
    }
    for e in mismatch {
        assert_eq!(e.kind(), ErrorKind::PaymentMismatch);
    }
    for e in policy {
        assert_eq!(e.kind(), ErrorKind::PolicyViolation);
    }
    for e in protocol {
        assert_eq!(e.kind(), ErrorKind::ProtocolViolation);
    }
    assert_eq!(Error::SameTransactionReplay.kind(), ErrorKind::ReplayDetected);
}
