//! What holds of the protocol as a whole.
//!
//! Each law relates the outcomes of several operations.  The operations'
//! own contracts say what one call does; the laws say what follows for a
//! sequence of calls.

use crate::account::Account;
use crate::address::ComponentAddress;
use crate::address::NonFungibleGlobalId;
use crate::address::ResourceAddress;
use crate::address::TransactionHash;
use crate::amount::lemma_mul_floor_bounded;
use crate::amount::lemma_round_down_bounds;
use crate::amount::mul_floor;
use crate::bulk_purchase::one_collection;
use crate::error::Error;
use crate::error::ErrorKind;
use crate::amount::Amount;
use crate::minter::edition_ids;
use crate::minter::MintingSettings;
use crate::outpost_account::Listing;
use crate::outpost_account::OpenTrader;
use crate::purchase::Settlement;
use crate::resource::FungibleBucket;
use crate::resource::Proof;
use crate::routing::calls_match;
use crate::routing::items_for;
use crate::routing::total_for;
use crate::routing::lemma_totals_add_up;
use crate::routing::orders_total;
use crate::routing::sum_totals;
use crate::routing::traders_of;
use crate::routing::Order;
use crate::routing::RoutedCall;
use crate::royalty::RoyalNFTs;
use crate::royalty::RoyaltyConfig;
use vstd::prelude::*;

verus! {

/// A royalty never exceeds the payment times the rate, nor the payment
/// itself: the rate is at most one and every rounding is toward zero.
pub proof fn law_royalty_bounded(
    policy: RoyalNFTs,
    nft: ResourceAddress,
    payment: FungibleBucket,
    buyer: ResourceAddress,
)
    requires
        policy.wf(),
        policy.quote(nft, payment, buyer) is Ok,
    ensures
        policy.quote(nft, payment, buyer)->Ok_0@ <= mul_floor(
            payment.amount@,
            policy.royalty_config.royalty_percent@,
        ),
        mul_floor(payment.amount@, policy.royalty_config.royalty_percent@) <= payment.amount@,
{
    lemma_mul_floor_bounded(payment.amount@, policy.royalty_config.royalty_percent@);
    lemma_round_down_bounds(
        mul_floor(payment.amount@, policy.royalty_config.royalty_percent@),
        payment.divisibility as nat,
    );
}

/// A settlement splits the payment without remainder: royalty, marketplace
/// fee and seller's proceeds add up to the payment.
pub proof fn law_settlement_adds_up(
    trader: OpenTrader,
    policy: RoyalNFTs,
    nft: ResourceAddress,
    payment: FungibleBucket,
    permission: Proof,
    tx: TransactionHash,
)
    requires
        policy.wf(),
        trader.settle_check(&policy, nft, payment, permission, tx) is Ok,
    ensures
        ({
            let split = trader.settle_check(&policy, nft, payment, permission, tx)->Ok_0;
            split.royalty@ + split.marketplace_fee@ + split.seller_revenue@ == payment.amount@
        }),
{
    law_royalty_bounded(policy, nft, payment, permission.resource_address);
}

/// Listing an item and cancelling the listing leaves the account as it was:
/// the cancellation finds the listing, and afterwards the item is neither
/// listed nor in escrow and every other listing is untouched.
pub proof fn law_list_then_cancel(
    before: OpenTrader,
    listed: OpenTrader,
    after: OpenTrader,
    listing: Listing,
)
    requires
        before.wf(),
        !before.in_escrow(listing.nfgid),
        before.listed(&listed, listing),
        listed.unlisted(&after, listing.nfgid),
    ensures
        listed.has_listing(listing.nfgid),
        listed.in_escrow(listing.nfgid),
        listed.listings@[listing.nfgid] == listing,
        !after.has_listing(listing.nfgid),
        !after.in_escrow(listing.nfgid),
        after.listings@ == before.listings@,
        after.nft_vaults@ == before.nft_vaults@,
{
    assert(!before.listings@.dom().contains(listing.nfgid));
    assert(after.listings@ =~= before.listings@);
    assert(after.nft_vaults@ =~= before.nft_vaults@);
}

/// An item can be bought once: after its sale, every further attempt to buy
/// it, with or without enforced royalties, finds no listing.
pub proof fn law_sold_item_is_gone(
    before: OpenTrader,
    after: OpenTrader,
    nfgid: NonFungibleGlobalId,
    recipient: ComponentAddress,
    policy: RoyalNFTs,
    payment: FungibleBucket,
    permission: Proof,
    tx: TransactionHash,
)
    requires
        before.sold_one(&after, nfgid, recipient) || before.unlisted(&after, nfgid),
    ensures
        !after.has_listing(nfgid),
        !after.in_escrow(nfgid),
        after.royal_purchase_check(&policy, nfgid, payment, permission, tx) == Err::<
            Settlement,
            Error,
        >(Error::ListingNotFound),
        after.purchase_check(nfgid, payment, permission) == Err::<Settlement, Error>(
            Error::ListingNotFound,
        ),
        Error::ListingNotFound.spec_kind() == ErrorKind::NotFound,
{
}

/// After a bulk sale, each of its items is gone: every further order that
/// names one of them finds no listing.
pub proof fn law_sold_items_are_gone(
    before: OpenTrader,
    after: OpenTrader,
    nfgids: Seq<NonFungibleGlobalId>,
    recipient: ComponentAddress,
    i: int,
    policy: RoyalNFTs,
    payment: FungibleBucket,
    permission: Proof,
    tx: TransactionHash,
)
    requires
        before.sold_many(&after, nfgids, recipient) || before.unlisted_many(&after, nfgids),
        0 <= i < nfgids.len(),
    ensures
        !after.has_listing(nfgids[i]),
        !after.in_escrow(nfgids[i]),
        after.royal_purchase_check(&policy, nfgids[i], payment, permission, tx) == Err::<
            Settlement,
            Error,
        >(Error::ListingNotFound),
        after.purchase_check(nfgids[i], payment, permission) == Err::<Settlement, Error>(
            Error::ListingNotFound,
        ),
{
    assert(nfgids.to_set().contains(nfgids[i])) by {
        assert(nfgids.contains(nfgids[i]));
    }
}

/// A sale cannot be cleared unless it is pending and has arrived.
///
/// When no single sale awaits clearing, clearing fails.  When one does and
/// the token is right but the account shown is not the declared recipient,
/// or does not hold the item, clearing fails with `TransferNotObserved`, a
/// violation of the protocol.  A wrong token is a violation of the protocol
/// too.
pub proof fn law_clearing_needs_a_delivered_sale(
    trader: OpenTrader,
    transient_token: FungibleBucket,
    recipient: Account,
    policy: RoyalNFTs,
)
    ensures
        trader.latest_transaction is None ==> trader.cleared_check(
            transient_token,
            &recipient,
            &policy,
        ) is Err,
        trader.latest_transaction is None && trader.is_transient_token(transient_token)
            ==> trader.cleared_check(transient_token, &recipient, &policy) == Err::<(), Error>(
            Error::NoPendingTransfer,
        ),
        !trader.is_transient_token(transient_token) ==> trader.cleared_check(
            transient_token,
            &recipient,
            &policy,
        ) == Err::<(), Error>(Error::WrongToken),
        trader.is_transient_token(transient_token) && trader.latest_transaction is Some && (
        recipient.spec_address() != trader.latest_transaction->Some_0.2
            || !recipient.holdings().contains(
            NonFungibleGlobalId {
                resource_address: trader.latest_transaction->Some_0.0,
                local_id: trader.latest_transaction->Some_0.1,
            },
        )) ==> trader.cleared_check(transient_token, &recipient, &policy) == Err::<(), Error>(
            Error::TransferNotObserved,
        ),
        Error::TransferNotObserved.spec_kind() == ErrorKind::ProtocolViolation,
        Error::WrongToken.spec_kind() == ErrorKind::ProtocolViolation,
{
    if trader.is_transient_token(transient_token) && trader.latest_transaction is Some {
        let pending = trader.latest_transaction->Some_0;
        let item = NonFungibleGlobalId { resource_address: pending.0, local_id: pending.1 };
        assert(seq![item][0] == item);
    }
}

/// The same holds of a bulk sale: clearing fails when none is pending, and
/// fails with `TransferNotObserved` when the token is right but the account
/// shown is not the declared recipient or lacks one of the items.
pub proof fn law_bulk_clearing_needs_a_delivered_sale(
    trader: OpenTrader,
    transient_token: FungibleBucket,
    recipient: Account,
    policy: RoyalNFTs,
    i: int,
)
    ensures
        trader.latest_bulk_transaction is None ==> trader.multi_cleared_check(
            transient_token,
            &recipient,
            &policy,
        ) is Err,
        trader.is_transient_token(transient_token) && trader.latest_bulk_transaction is Some && (
        recipient.spec_address() != trader.latest_bulk_transaction->Some_0.0 || (0 <= i
            < trader.latest_bulk_transaction->Some_0.1@.len() && !recipient.holdings().contains(
            trader.latest_bulk_transaction->Some_0.1@[i],
        ))) ==> trader.multi_cleared_check(transient_token, &recipient, &policy) == Err::<
            (),
            Error,
        >(Error::TransferNotObserved),
{
}

/// An item whose royalties are enforced cannot be bought in the transaction
/// that lists it.
///
/// After a listing recorded under transaction `tx`, no purchase made in `tx`
/// goes through at this account; one that names a listed item, shows an
/// admitted credential and brings the right payment fails with
/// `SameTransactionReplay`.
pub proof fn law_no_purchase_in_listing_transaction(
    before: OpenTrader,
    listed: OpenTrader,
    listing: Listing,
    tx: TransactionHash,
    policy: RoyalNFTs,
    nfgid: NonFungibleGlobalId,
    payment: FungibleBucket,
    permission: Proof,
)
    requires
        before.listed(&listed, listing),
        listed.transactions@ == before.transactions@.insert(tx, ()),
    ensures
        listed.royal_purchase_check(&policy, nfgid, payment, permission, tx) is Err,
        listed.listing_check(nfgid, payment, permission) is Ok ==> listed.royal_purchase_check(
            &policy,
            nfgid,
            payment,
            permission,
            tx,
        ) == Err::<Settlement, Error>(Error::SameTransactionReplay),
        Error::SameTransactionReplay.spec_kind() == ErrorKind::ReplayDetected,
{
}

/// The same holds of a bulk purchase, after a single or a bulk listing
/// recorded under `tx`: it fails, and with `SameTransactionReplay` when the
/// order itself is in order.
pub proof fn law_no_bulk_purchase_in_listing_transaction(
    listed: OpenTrader,
    tx: TransactionHash,
    policy: RoyalNFTs,
    nfgids: Seq<NonFungibleGlobalId>,
    payment: FungibleBucket,
    permission: Proof,
)
    requires
        listed.transactions@.contains_key(tx),
    ensures
        listed.royal_multi_purchase_check(&policy, nfgids, payment, permission, tx) is Err,
        listed.order_check(nfgids, payment, permission) is Ok && one_collection(nfgids)
            ==> listed.royal_multi_purchase_check(&policy, nfgids, payment, permission, tx)
            == Err::<Settlement, Error>(Error::SameTransactionReplay),
{
}

/// While a sale awaits clearing, the account starts no other sale of items
/// whose royalties are enforced.
pub proof fn law_one_sale_at_a_time(
    trader: OpenTrader,
    policy: RoyalNFTs,
    nft: ResourceAddress,
    payment: FungibleBucket,
    permission: Proof,
    tx: TransactionHash,
)
    requires
        trader.wf(),
        trader.settlement_pending(),
    ensures
        trader.settle_check(&policy, nft, payment, permission, tx) is Err,
        !trader.transactions@.contains_key(tx) ==> trader.settle_check(
            &policy,
            nft,
            payment,
            permission,
            tx,
        ) == Err::<Settlement, Error>(Error::SettlementPending),
{
}

/// An item is listed exactly as long as it sits in escrow.
pub proof fn law_listed_iff_in_escrow(trader: OpenTrader, nfgid: NonFungibleGlobalId)
    requires
        trader.wf(),
    ensures
        trader.has_listing(nfgid) <==> trader.in_escrow(nfgid),
{
    assert(trader.nft_vaults@.dom().contains(nfgid) <==> trader.listings@.dom().contains(nfgid));
}

/// Loosening composes: a configuration loosened step by step is a loosening
/// of the configuration the steps started from.  So whatever the creator does
/// after locking, no rate is ever above, no restriction ever on that was off,
/// and no permission ever missing that was there, at the moment of locking.
pub proof fn law_loosening_composes(first: RoyaltyConfig, second: RoyaltyConfig, third: RoyaltyConfig)
    requires
        first.loosened_to(&second),
        second.loosened_to(&third),
    ensures
        first.loosened_to(&third),
{
    assert forall|c: ResourceAddress|
        first.permitted_currencies@.dom().contains(c) implies third.permitted_currencies@.dom().contains(
        c,
    ) by {
        assert(second.permitted_currencies@.dom().contains(c));
    }
    assert forall|b: ResourceAddress|
        first.permissioned_buyers@.dom().contains(b) implies third.permissioned_buyers@.dom().contains(
        b,
    ) by {
        assert(second.permissioned_buyers@.dom().contains(b));
    }
    assert forall|d: ComponentAddress|
        first.permissioned_dapps@.dom().contains(d) implies third.permissioned_dapps@.dom().contains(
        d,
    ) by {
        assert(second.permissioned_dapps@.dom().contains(d));
    }
    assert forall|c: ResourceAddress| #[trigger]
        third.minimum_royalty_amounts@.dom().contains(c) implies first.minimum_royalty_amounts@.dom().contains(
        c,
    ) && third.minimum_royalty_amounts@[c] == first.minimum_royalty_amounts@[c] by {
        assert(second.minimum_royalty_amounts@.dom().contains(c));
    }
}

/// The sum of the payments of the calls of a routed order.
pub open spec fn calls_total(calls: Seq<RoutedCall>) -> nat
    decreases calls.len(),
{
    if calls.len() == 0 {
        0
    } else {
        calls_total(calls.drop_last()) + calls.last().payment.amount@
    }
}

/// Routing neither makes nor loses value: the payments cut out for the
/// sellers and the residue add up to the buyer's payment.
pub proof fn law_route_conserves_value(
    calls: Seq<RoutedCall>,
    orders: Seq<Order>,
    payment: FungibleBucket,
    residue: FungibleBucket,
)
    requires
        calls_match(calls, orders, payment),
        residue.amount@ + orders_total(orders) == payment.amount@,
    ensures
        calls_total(calls) + residue.amount@ == payment.amount@,
{
    lemma_totals_add_up(orders);
    lemma_calls_total(calls, orders, payment, calls.len() as int);
    assert(calls.take(calls.len() as int) =~= calls);
    assert(traders_of(orders).take(calls.len() as int) =~= traders_of(orders));
}

/// The payments of the first `n` calls add up to the totals ordered from the
/// first `n` sellers.
pub proof fn lemma_calls_total(calls: Seq<RoutedCall>, orders: Seq<Order>, payment: FungibleBucket, n: int)
    requires
        calls_match(calls, orders, payment),
        0 <= n <= calls.len(),
    ensures
        calls_total(calls.take(n)) == sum_totals(orders, traders_of(orders).take(n)),
    decreases n,
{
    if n > 0 {
        lemma_calls_total(calls, orders, payment, n - 1);
        assert(calls.take(n).drop_last() =~= calls.take(n - 1));
        assert(calls.take(n).last() == calls[n - 1]);
        assert(traders_of(orders).take(n).drop_last() =~= traders_of(orders).take(n - 1));
        assert(traders_of(orders).take(n).last() == traders_of(orders)[n - 1]);
    } else {
        assert(calls.take(0) =~= Seq::<RoutedCall>::empty());
        assert(traders_of(orders).take(0) =~= Seq::<ComponentAddress>::empty());
    }
}

/// The items of a bulk order, in order.
pub open spec fn ordered_items(orders: Seq<Order>) -> Seq<NonFungibleGlobalId> {
    Seq::new(orders.len(), |i: int| orders[i].1)
}

/// A bulk order for one seller makes one call: the seller is asked once, for
/// all the items in the order of the bulk order, against the sum of the
/// prices.
pub proof fn law_one_seller_one_call(orders: Seq<Order>, seller: ComponentAddress)
    requires
        orders.len() > 0,
        forall|i: int| 0 <= i < orders.len() ==> (#[trigger] orders[i]).0 == seller,
    ensures
        traders_of(orders) == seq![seller],
        items_for(orders, seller) == ordered_items(orders),
        total_for(orders, seller) == orders_total(orders),
    decreases orders.len(),
{
    let prev = orders.drop_last();
    assert(orders[orders.len() - 1] == orders.last());
    if prev.len() == 0 {
        assert(traders_of(prev) =~= Seq::<ComponentAddress>::empty());
        assert(items_for(prev, seller) =~= Seq::<NonFungibleGlobalId>::empty());
        assert(total_for(prev, seller) == 0);
        assert(orders_total(prev) == 0);
        assert(traders_of(orders) =~= seq![seller]);
        assert(items_for(orders, seller) =~= ordered_items(orders));
    } else {
        assert forall|i: int| 0 <= i < prev.len() implies (#[trigger] prev[i]).0 == seller by {
            assert(prev[i] == orders[i]);
        }
        law_one_seller_one_call(prev, seller);
        assert(traders_of(prev)[0] == seller);
        assert(traders_of(prev).contains(seller));
        assert(items_for(orders, seller) =~= ordered_items(orders));
    }
}

/// No edition number is given twice: the editions of a mint are numbered
/// after those of every earlier mint.
pub proof fn law_editions_never_repeat(
    before: MintingSettings,
    after: MintingSettings,
    first: u64,
    second: u64,
    account: Option<ComponentAddress>,
    price: Amount,
    i: int,
    j: int,
)
    requires
        before.minted(&after, first, account, price),
        before.mint_id + first <= u64::MAX,
        after.mint_id + second <= u64::MAX,
        0 <= i < first,
        0 <= j < second,
    ensures
        edition_ids(before.mint_id, first)[i] < edition_ids(after.mint_id, second)[j],
        edition_ids(before.mint_id, first)[i] == before.mint_id + i,
        edition_ids(after.mint_id, second)[j] == before.mint_id + first + j,
{
}

} // verus!
