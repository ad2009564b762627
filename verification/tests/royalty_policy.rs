use outpost::account::Account;
use outpost::address::{ComponentAddress, ResourceAddress};
use outpost::amount::Amount;
use outpost::error::{Error, ErrorKind};
use outpost::resource::{FungibleBucket, NonFungibleBucket, Proof};
use outpost::royalty::{RoyalNFTs, RoyaltyConfigInput, RoyaltyLimits};

const UNIT: u128 = 1_000_000_000_000_000_000;

fn xrd() -> ResourceAddress {
    ResourceAddress::from_u64(1)
}

fn nft() -> ResourceAddress {
    ResourceAddress::from_u64(100)
}

fn creator() -> Proof {
    Proof::new(ResourceAddress::from_u64(200))
}

fn stranger() -> Proof {
    Proof::new(ResourceAddress::from_u64(201))
}

fn depositer() -> ResourceAddress {
    ResourceAddress::from_u64(300)
}

fn internal() -> ResourceAddress {
    ResourceAddress::from_u64(301)
}

fn marketplace() -> ResourceAddress {
    ResourceAddress::from_u64(400)
}

fn percent(n: u128) -> Amount {
    Amount::from_attos(n * UNIT / 100)
}

fn policy(rate: Amount, maximum: Amount) -> RoyalNFTs {
    RoyalNFTs::start_royalty_nft(
        nft(),
        RoyaltyConfigInput {
            depositer_admin: depositer(),
            royalties_enabled: true,
            royalty_percent: rate,
            maximum_royalty_percent: maximum,
            honoured: false,
        },
        ComponentAddress::from_u64(500),
        creator().resource_address,
        internal(),
        ResourceAddress::from_u64(302),
    )
    .unwrap()
}

#[test]
fn royalty_is_a_tenth_of_a_hundred() {
    let mut p = policy(percent(10), percent(50));
    let rest = p
        .pay_royalty_basic(nft(), FungibleBucket::new(xrd(), Amount::from_units(100)), marketplace())
        .unwrap();
    assert_eq!(rest, FungibleBucket::new(xrd(), Amount::from_units(90)));
    assert_eq!(p.royalty_balance(xrd()), Amount::from_units(10));
}

#[test]
fn royalty_and_remainder_add_up_to_the_payment() {
    let mut p = policy(Amount::from_attos(333_333_333_333_333_333), Amount::one());
    let payment = Amount::from_attos(7 * UNIT + 1);
    let rest = p.pay_royalty_basic(nft(), FungibleBucket::new(xrd(), payment), marketplace()).unwrap();
    let royalty = p.royalty_balance(xrd());
    assert_eq!(royalty, Amount::from_attos(2 * UNIT + 333_333_333_333_333_331));
    assert_eq!(rest.amount().attos() + royalty.attos(), payment.attos());
}

#[test]
fn royalty_is_rounded_down_to_the_currency_precision() {
    let mut p = policy(percent(10), percent(50));
    let coin = ResourceAddress::from_u64(2);
    let rest = p
        .pay_royalty_basic(nft(), FungibleBucket::with_divisibility(coin, 0, Amount::from_units(19)), marketplace())
        .unwrap();
    // a tenth of 19 is 1.9, and the coin has no decimal places
    assert_eq!(p.royalty_balance(coin), Amount::from_units(1));
    assert_eq!(rest.amount(), Amount::from_units(18));
    assert_eq!(rest.divisibility, 0);
}

#[test]
fn royalties_pile_up_per_currency() {
    let mut p = policy(percent(10), percent(50));
    let coin = ResourceAddress::from_u64(2);
    p.pay_royalty_basic(nft(), FungibleBucket::new(xrd(), Amount::from_units(100)), marketplace()).unwrap();
    p.pay_royalty_basic(nft(), FungibleBucket::new(xrd(), Amount::from_units(50)), marketplace()).unwrap();
    p.pay_royalty_basic(nft(), FungibleBucket::new(coin, Amount::from_units(30)), marketplace()).unwrap();
    assert_eq!(p.royalty_balance(xrd()), Amount::from_units(15));
    assert_eq!(p.royalty_balance(coin), Amount::from_units(3));
    assert_eq!(p.royalty_balance(ResourceAddress::from_u64(3)), Amount::zero());
}

#[test]
fn pay_royalty_with_items_and_account_is_the_same_payment() {
    let mut p = policy(percent(10), percent(50));
    let items = NonFungibleBucket::new(nft(), &vec![1, 2, 3]);
    let rest = p
        .pay_royalty(
            nft(),
            items.id_set(),
            FungibleBucket::new(xrd(), Amount::from_units(30)),
            marketplace(),
            ComponentAddress::from_u64(900),
        )
        .unwrap();
    assert_eq!(rest.amount(), Amount::from_units(27));
    assert_eq!(p.royalty_balance(xrd()), Amount::from_units(3));
}

#[test]
fn quote_collects_nothing() {
    let p = policy(percent(10), percent(50));
    let due = p.royalty_due(nft(), &FungibleBucket::new(xrd(), Amount::from_units(100)), marketplace());
    assert_eq!(due, Ok(Amount::from_units(10)));
    assert_eq!(p.royalty_balance(xrd()), Amount::zero());
}

#[test]
fn payment_for_another_collection_is_refused() {
    let mut p = policy(percent(10), percent(50));
    let r = p.pay_royalty_basic(
        ResourceAddress::from_u64(101),
        FungibleBucket::new(xrd(), Amount::from_units(100)),
        marketplace(),
    );
    assert_eq!(r, Err(Error::PolicyMismatch));
    assert_eq!(Error::PolicyMismatch.kind(), ErrorKind::PolicyViolation);
    assert_eq!(p.royalty_balance(xrd()), Amount::zero());
}

#[test]
fn limited_buyers_must_be_permissioned() {
    let mut p = policy(percent(10), percent(50));
    assert_eq!(p.deny_all_buyers(&creator()), Ok(()));
    let pay = || FungibleBucket::new(xrd(), Amount::from_units(100));
    assert_eq!(p.pay_royalty_basic(nft(), pay(), marketplace()), Err(Error::BuyerNotPermitted));
    assert_eq!(Error::BuyerNotPermitted.kind(), ErrorKind::PermissionDenied);
    assert_eq!(p.add_permissioned_buyer(&creator(), marketplace()), Ok(()));
    assert!(p.pay_royalty_basic(nft(), pay(), marketplace()).is_ok());
    assert_eq!(p.remove_permissioned_buyer(&creator(), marketplace()), Ok(()));
    assert_eq!(p.pay_royalty_basic(nft(), pay(), marketplace()), Err(Error::BuyerNotPermitted));
    assert_eq!(p.allow_all_buyers(&creator()), Ok(()));
    assert!(p.pay_royalty_basic(nft(), pay(), marketplace()).is_ok());
}

#[test]
fn limited_currencies_must_be_permitted() {
    let mut p = policy(percent(10), percent(50));
    assert_eq!(p.add_permitted_currency(&creator(), xrd()), Err(Error::CurrencyRestrictionOff));
    assert_eq!(p.remove_permitted_currency(&creator(), xrd()), Err(Error::CurrencyRestrictionOff));
    assert_eq!(p.restrict_currencies_true(&creator()), Ok(()));
    let pay = || FungibleBucket::new(xrd(), Amount::from_units(100));
    assert_eq!(p.pay_royalty_basic(nft(), pay(), marketplace()), Err(Error::CurrencyNotPermitted));
    assert_eq!(Error::CurrencyNotPermitted.kind(), ErrorKind::PermissionDenied);
    assert_eq!(p.add_permitted_currency(&creator(), xrd()), Ok(()));
    assert!(p.pay_royalty_basic(nft(), pay(), marketplace()).is_ok());
    assert_eq!(p.remove_permitted_currency(&creator(), xrd()), Ok(()));
    assert_eq!(p.pay_royalty_basic(nft(), pay(), marketplace()), Err(Error::CurrencyNotPermitted));
    assert_eq!(p.restrict_currencies_false(&creator()), Ok(()));
    assert!(p.pay_royalty_basic(nft(), pay(), marketplace()).is_ok());
}

#[test]
fn minimum_royalty_is_enforced_when_switched_on() {
    let mut p = policy(percent(10), percent(50));
    assert_eq!(p.enable_minimum_royalties(&creator()), Err(Error::CurrencyRestrictionOff));
    assert_eq!(
        p.set_minimum_royalty_amount(&creator(), xrd(), Amount::from_units(5)),
        Err(Error::CurrencyRestrictionOff)
    );
    assert_eq!(p.remove_minimum_royalty_amount(&creator(), xrd()), Err(Error::CurrencyRestrictionOff));
    p.restrict_currencies_true(&creator()).unwrap();
    p.add_permitted_currency(&creator(), xrd()).unwrap();
    p.set_minimum_royalty_amount(&creator(), xrd(), Amount::from_units(5)).unwrap();
    // not enforced yet
    assert!(p.pay_royalty_basic(nft(), FungibleBucket::new(xrd(), Amount::from_units(10)), marketplace()).is_ok());
    p.enable_minimum_royalties(&creator()).unwrap();
    assert_eq!(
        p.pay_royalty_basic(nft(), FungibleBucket::new(xrd(), Amount::from_units(49)), marketplace()),
        Err(Error::BelowMinimumRoyalty)
    );
    assert_eq!(Error::BelowMinimumRoyalty.kind(), ErrorKind::PolicyViolation);
    // a royalty of exactly the minimum passes
    assert!(p.pay_royalty_basic(nft(), FungibleBucket::new(xrd(), Amount::from_units(50)), marketplace()).is_ok());
    p.remove_minimum_royalty_amount(&creator(), xrd()).unwrap();
    assert!(p.pay_royalty_basic(nft(), FungibleBucket::new(xrd(), Amount::from_units(1)), marketplace()).is_ok());
    p.set_minimum_royalty_amount(&creator(), xrd(), Amount::from_units(5)).unwrap();
    p.disable_minimum_royalties(&creator()).unwrap();
    assert!(p.pay_royalty_basic(nft(), FungibleBucket::new(xrd(), Amount::from_units(1)), marketplace()).is_ok());
}

#[test]
fn vault_that_cannot_hold_the_royalty_refuses_it() {
    let mut p = policy(Amount::one(), Amount::one());
    p.pay_royalty_basic(nft(), FungibleBucket::new(xrd(), Amount::from_attos(u128::MAX)), marketplace()).unwrap();
    let r = p.pay_royalty_basic(nft(), FungibleBucket::new(xrd(), Amount::from_attos(1)), marketplace());
    assert_eq!(r, Err(Error::Overflow));
    assert_eq!(p.royalty_balance(xrd()), Amount::from_attos(u128::MAX));
}

#[test]
fn rates_must_be_ordered_at_the_start() {
    let start = |rate: Amount, maximum: Amount| {
        RoyalNFTs::start_royalty_nft(
            nft(),
            RoyaltyConfigInput {
                depositer_admin: depositer(),
                royalties_enabled: true,
                royalty_percent: rate,
                maximum_royalty_percent: maximum,
                honoured: false,
            },
            ComponentAddress::from_u64(500),
            creator().resource_address,
            internal(),
            ResourceAddress::from_u64(302),
        )
        .err()
    };
    assert_eq!(start(percent(101), percent(200)), Some(Error::RateAboveOne));
    assert_eq!(start(percent(20), percent(10)), Some(Error::RateAboveMaximum));
    assert_eq!(start(percent(20), percent(101)), Some(Error::RateAboveOne));
    assert_eq!(start(percent(100), percent(100)), None);
    assert_eq!(start(Amount::zero(), Amount::zero()), None);
}

#[test]
fn only_the_creator_changes_the_configuration() {
    let mut p = policy(percent(10), percent(50));
    let s = stranger();
    assert_eq!(p.change_royalty_percentage_fee(&s, percent(5)), Err(Error::NotAuthorized));
    assert_eq!(p.lower_maximum_royalty_percentage(&s, percent(40)), Err(Error::NotAuthorized));
    assert_eq!(p.restrict_currencies_true(&s), Err(Error::NotAuthorized));
    assert_eq!(p.restrict_currencies_false(&s), Err(Error::NotAuthorized));
    assert_eq!(p.add_permitted_currency(&s, xrd()), Err(Error::NotAuthorized));
    assert_eq!(p.remove_permitted_currency(&s, xrd()), Err(Error::NotAuthorized));
    assert_eq!(p.enable_minimum_royalties(&s), Err(Error::NotAuthorized));
    assert_eq!(p.disable_minimum_royalties(&s), Err(Error::NotAuthorized));
    assert_eq!(p.set_minimum_royalty_amount(&s, xrd(), Amount::one()), Err(Error::NotAuthorized));
    assert_eq!(p.remove_minimum_royalty_amount(&s, xrd()), Err(Error::NotAuthorized));
    assert_eq!(p.limit_dapps_true(&s), Err(Error::NotAuthorized));
    assert_eq!(p.limit_dapps_false(&s), Err(Error::NotAuthorized));
    assert_eq!(p.add_permissioned_dapp(&s, ComponentAddress::from_u64(7), xrd()), Err(Error::NotAuthorized));
    assert_eq!(p.remove_permissioned_dapp(&s, ComponentAddress::from_u64(7)), Err(Error::NotAuthorized));
    assert_eq!(p.add_permissioned_buyer(&s, marketplace()), Err(Error::NotAuthorized));
    assert_eq!(p.remove_permissioned_buyer(&s, marketplace()), Err(Error::NotAuthorized));
    assert_eq!(p.deny_all_buyers(&s), Err(Error::NotAuthorized));
    assert_eq!(p.allow_all_buyers(&s), Err(Error::NotAuthorized));
    assert_eq!(p.lock_royalty_configuration(&s), Err(Error::NotAuthorized));
    assert_eq!(p.remove_royalty_config(&s), Err(Error::NotAuthorized));
    assert_eq!(p.withdraw_from_royalty_vault(&s, xrd()), Err(Error::NotAuthorized));
    assert_eq!(Error::NotAuthorized.kind(), ErrorKind::PermissionDenied);
    assert_eq!(p.royalty_config.royalty_percent, percent(10));
    assert!(!p.royalty_config.royalty_configuration_locked);
    assert_eq!(p.creator_admin(), creator().resource_address);
    assert_eq!(p.resource_address(), nft());
}

#[test]
fn rate_moves_within_the_maximum() {
    let mut p = policy(percent(10), percent(50));
    assert_eq!(p.change_royalty_percentage_fee(&creator(), percent(51)), Err(Error::RateAboveMaximum));
    assert_eq!(p.change_royalty_percentage_fee(&creator(), percent(50)), Ok(()));
    assert_eq!(p.royalty_config.royalty_percent, percent(50));
    assert_eq!(p.lower_maximum_royalty_percentage(&creator(), percent(49)), Err(Error::MaximumBelowRate));
    assert_eq!(p.lower_maximum_royalty_percentage(&creator(), percent(60)), Err(Error::MaximumRaised));
    assert_eq!(p.change_royalty_percentage_fee(&creator(), percent(20)), Ok(()));
    assert_eq!(p.lower_maximum_royalty_percentage(&creator(), percent(20)), Ok(()));
    assert_eq!(p.royalty_config.maximum_royalty_percent, percent(20));
}

#[test]
fn locked_configuration_refuses_a_higher_rate_and_accepts_a_lower_maximum() {
    let mut p = policy(percent(10), percent(50));
    assert_eq!(p.lock_royalty_configuration(&creator()), Ok(()));
    let raised = p.change_royalty_percentage_fee(&creator(), percent(11));
    assert_eq!(raised, Err(Error::ConfigurationLocked));
    assert_eq!(raised.unwrap_err().kind(), ErrorKind::PolicyViolation);
    assert_eq!(p.royalty_config.royalty_percent, percent(10));
    assert_eq!(p.lower_maximum_royalty_percentage(&creator(), percent(30)), Ok(()));
    assert_eq!(p.royalty_config.maximum_royalty_percent, percent(30));
    // lowering the rate loosens the policy
    assert_eq!(p.change_royalty_percentage_fee(&creator(), percent(9)), Ok(()));
    assert_eq!(p.royalty_config.royalty_percent, percent(9));
}

#[test]
fn locked_configuration_can_only_be_loosened() {
    let mut p = policy(percent(10), percent(50));
    let c = creator();
    let dapp = ComponentAddress::from_u64(7);
    p.restrict_currencies_true(&c).unwrap();
    p.enable_minimum_royalties(&c).unwrap();
    p.deny_all_buyers(&c).unwrap();
    p.limit_dapps_true(&c).unwrap();
    p.add_permitted_currency(&c, xrd()).unwrap();
    p.set_minimum_royalty_amount(&c, xrd(), Amount::from_units(1)).unwrap();
    p.lock_royalty_configuration(&c).unwrap();
    // tightening is refused
    assert_eq!(p.remove_permitted_currency(&c, xrd()), Err(Error::ConfigurationLocked));
    assert_eq!(p.set_minimum_royalty_amount(&c, xrd(), Amount::from_units(2)), Err(Error::ConfigurationLocked));
    assert_eq!(p.remove_permissioned_buyer(&c, marketplace()), Err(Error::ConfigurationLocked));
    assert_eq!(p.remove_permissioned_dapp(&c, dapp), Err(Error::ConfigurationLocked));
    // loosening is accepted
    assert_eq!(p.add_permitted_currency(&c, ResourceAddress::from_u64(2)), Ok(()));
    assert_eq!(p.add_permissioned_buyer(&c, marketplace()), Ok(()));
    assert_eq!(p.add_permissioned_dapp(&c, dapp, ResourceAddress::from_u64(8)), Ok(()));
    assert_eq!(p.remove_minimum_royalty_amount(&c, xrd()), Ok(()));
    assert_eq!(p.disable_minimum_royalties(&c), Ok(()));
    assert_eq!(p.allow_all_buyers(&c), Ok(()));
    assert_eq!(p.limit_dapps_false(&c), Ok(()));
    assert_eq!(p.restrict_currencies_false(&c), Ok(()));
    // and a restriction once off stays off
    assert_eq!(p.restrict_currencies_true(&c), Err(Error::ConfigurationLocked));
    assert_eq!(p.deny_all_buyers(&c), Err(Error::ConfigurationLocked));
    assert_eq!(p.limit_dapps_true(&c), Err(Error::ConfigurationLocked));
    assert_eq!(
        p.limits(),
        RoyaltyLimits {
            limit_buyers: false,
            limit_currencies: false,
            limit_dapps: false,
            limit_private_trade: false,
            minimum_royalties: false,
        }
    );
    assert_eq!(p.lock_royalty_configuration(&c), Ok(()));
    assert!(p.royalty_config.royalty_configuration_locked);
}

#[test]
fn minimum_royalties_cannot_be_switched_on_once_locked() {
    let mut p = policy(percent(10), percent(50));
    p.restrict_currencies_true(&creator()).unwrap();
    p.lock_royalty_configuration(&creator()).unwrap();
    assert_eq!(p.enable_minimum_royalties(&creator()), Err(Error::ConfigurationLocked));
}

#[test]
fn creator_withdraws_what_was_collected() {
    let mut p = policy(percent(10), percent(50));
    assert_eq!(p.withdraw_from_royalty_vault(&creator(), xrd()), Err(Error::VaultNotFound));
    assert_eq!(Error::VaultNotFound.kind(), ErrorKind::NotFound);
    p.pay_royalty_basic(nft(), FungibleBucket::new(xrd(), Amount::from_units(100)), marketplace()).unwrap();
    assert_eq!(
        p.withdraw_from_royalty_vault(&creator(), xrd()),
        Ok(FungibleBucket::new(xrd(), Amount::from_units(10)))
    );
    assert_eq!(p.royalty_balance(xrd()), Amount::zero());
    assert_eq!(p.withdraw_from_royalty_vault(&creator(), xrd()), Ok(FungibleBucket::new(xrd(), Amount::zero())));
}

#[test]
fn deposit_rule_admits_the_three_badges_when_royalties_are_enforced() {
    let p = policy(percent(10), percent(50));
    assert!(!p.is_transfer_open());
    assert!(p.can_deposit(Some(depositer())));
    assert!(p.can_deposit(Some(internal())));
    assert!(p.can_deposit(Some(creator().resource_address)));
    assert!(!p.can_deposit(Some(marketplace())));
    assert!(!p.can_deposit(None));
}

#[test]
fn deposit_rule_admits_everyone_when_royalties_are_honoured() {
    let p = RoyalNFTs::start_royalty_nft(
        nft(),
        RoyaltyConfigInput {
            depositer_admin: depositer(),
            royalties_enabled: true,
            royalty_percent: percent(10),
            maximum_royalty_percent: percent(50),
            honoured: true,
        },
        ComponentAddress::from_u64(500),
        creator().resource_address,
        internal(),
        ResourceAddress::from_u64(302),
    )
    .unwrap();
    assert!(p.is_transfer_open());
    assert!(p.can_deposit(None));
}

#[test]
fn deposit_rule_changes_on_authority_only() {
    let mut p = policy(percent(10), percent(50));
    assert_eq!(p.open_transfers(Some(marketplace())), Err(Error::NotAuthorized));
    assert_eq!(p.open_transfers(None), Err(Error::NotAuthorized));
    assert!(!p.is_transfer_open());
    assert_eq!(p.open_transfers(Some(depositer())), Ok(()));
    assert!(p.is_transfer_open());
    assert!(p.can_deposit(None));
    assert_eq!(p.restore_transfers(Some(marketplace())), Err(Error::NotAuthorized));
    assert_eq!(p.restore_transfers(Some(internal())), Ok(()));
    assert!(!p.is_transfer_open());
    assert!(!p.can_deposit(None));
    assert!(p.can_deposit(Some(depositer())));
}

#[test]
fn giving_up_the_royalties_opens_the_collection() {
    let mut p = policy(percent(10), percent(50));
    assert_eq!(p.remove_royalty_config(&creator()), Ok(()));
    assert!(p.is_transfer_open());
    assert_eq!(p.royalty_config.royalty_percent, Amount::zero());
    assert!(!p.royalty_config.restricted_movement);
    let rest = p
        .pay_royalty_basic(nft(), FungibleBucket::new(xrd(), Amount::from_units(100)), marketplace())
        .unwrap();
    assert_eq!(rest.amount(), Amount::from_units(100));
}

#[test]
fn limited_destinations_must_be_permissioned() {
    let mut p = policy(percent(10), percent(50));
    let dapp = ComponentAddress::from_u64(7);
    let item = || NonFungibleBucket::new(nft(), &vec![1]);
    assert!(p.transfer_royalty_nft_to_dapp(item(), dapp).is_ok());
    p.limit_dapps_true(&creator()).unwrap();
    assert_eq!(p.transfer_royalty_nft_to_dapp(item(), dapp).err(), Some(Error::DappNotPermitted));
    assert_eq!(Error::DappNotPermitted.kind(), ErrorKind::PermissionDenied);
    p.add_permissioned_dapp(&creator(), dapp, ResourceAddress::from_u64(8)).unwrap();
    let released = p.transfer_royalty_nft_to_dapp(item(), dapp).unwrap();
    assert_eq!(released.non_fungible_local_ids(), vec![1]);
    assert!(!p.is_transfer_open());
    p.remove_permissioned_dapp(&creator(), dapp).unwrap();
    assert_eq!(p.transfer_royalty_nft_to_dapp(item(), dapp).err(), Some(Error::DappNotPermitted));
    p.limit_dapps_false(&creator()).unwrap();
    assert!(p.transfer_royalty_nft_to_dapp(item(), dapp).is_ok());
}

#[test]
fn router_deposit_reaches_the_account() {
    let mut p = policy(percent(10), percent(50));
    let dapp = ComponentAddress::from_u64(7);
    let badge = ResourceAddress::from_u64(8);
    let mut account = Account::new(ComponentAddress::from_u64(900));
    let item = || NonFungibleBucket::new(nft(), &vec![1, 2]);
    assert_eq!(p.deposit_via_router(item(), &Proof::new(badge), dapp, &mut account), Ok(()));
    assert!(account.has_non_fungible(nft(), 1));
    assert!(account.has_non_fungible(nft(), 2));
    assert!(!account.has_non_fungible(nft(), 3));
    assert!(!account.has_non_fungible(xrd(), 1));
    assert_eq!(account.address(), ComponentAddress::from_u64(900));
    // the royalty component deposits on its own badge; a rule that does not admit it refuses
    p.set_depositable(outpost::resource::AccessRule::deny_all(), Some(depositer())).unwrap();
    let mut other = Account::new(ComponentAddress::from_u64(901));
    assert_eq!(p.deposit_via_router(item(), &Proof::new(badge), dapp, &mut other), Err(Error::NotAuthorized));
    assert!(!other.has_non_fungible(nft(), 1));
}

#[test]
fn account_refuses_a_deposit_the_rule_does_not_admit() {
    let p = policy(percent(10), percent(50));
    let mut account = Account::new(ComponentAddress::from_u64(900));
    let item = || NonFungibleBucket::new(nft(), &vec![4]);
    assert_eq!(account.try_deposit_or_abort(item(), &p.depositable, None), Err(Error::NotAuthorized));
    assert_eq!(
        account.try_deposit_or_abort(item(), &p.depositable, Some(marketplace())),
        Err(Error::NotAuthorized)
    );
    assert!(!account.has_non_fungible(nft(), 4));
    assert_eq!(account.try_deposit_or_abort(item(), &p.depositable, Some(depositer())), Ok(()));
    assert!(account.has_non_fungible(nft(), 4));
}
