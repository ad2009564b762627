//! Serving a bulk order across sellers.
//!
//! The marketplace cuts the order up by seller, buys from each seller's
//! escrow account with its own key, keeps the fees, and hands the buyer the
//! items, one transient token for each seller, and whatever the payment held
//! beyond the prices.  A seller from whom one item is ordered is asked for a
//! single sale, any other for a bulk sale.
//!
//! The order is served as a whole or not at all.  Before the first purchase
//! the marketplace makes sure that every purchase will go through; a refusal
//! changes nothing.

use crate::address::ComponentAddress;
use crate::address::NonFungibleGlobalId;
use crate::address::ResourceAddress;
use crate::address::TransactionHash;
use crate::amount::lemma_mul_floor_bounded;
use crate::amount::lemma_round_down_bounds;
use crate::amount::mul_floor;
use crate::amount::Amount;
use crate::bulk_purchase::order_ids;
use crate::error::Error;
use crate::generic_marketplace::Bucket;
use crate::generic_marketplace::GenericMarketplace;
use crate::id_set::distinct_ids;
use crate::outpost_account::OpenTrader;
use crate::purchase::part_of;
use crate::purchase::Settlement;
use crate::resource::FungibleBucket;
use crate::resource::Proof;
use crate::routing::calls_match;
use crate::routing::items_for;
use crate::routing::lemma_sum_totals_grows;
use crate::routing::lemma_totals_add_up;
use crate::routing::lemma_traders_of;
use crate::routing::orders_total;
use crate::routing::plan_route;
use crate::routing::some_total_overflows;
use crate::routing::sum_totals;
use crate::routing::total_for;
use crate::routing::traders_of;
use crate::routing::Order;
use crate::routing::RoutedCall;
use crate::royalty::RoyalNFTs;
use crate::table::Table;
use vstd::prelude::*;

verus! {

/// What a served bulk order yields.
pub struct Routed {
    /// For each seller, in the order of first appearance, the items bought
    /// and the seller's transient token; at the end, what the payment held
    /// beyond the prices.
    pub buckets: Vec<Bucket>,
    /// For each seller, the seller's own account and the proceeds to store
    /// for it.
    pub seller_revenues: Vec<(ComponentAddress, FungibleBucket)>,
}

/// The payment cut out of `full` for the seller `t`.
pub open spec fn call_payment(orders: Seq<Order>, full: FungibleBucket, t: ComponentAddress) -> FungibleBucket {
    part_of(full, Amount { attos: total_for(orders, t) as u128 })
}

/// Whether every escrow account of the registry is in order and filed under
/// its own address.
pub open spec fn registry_wf(traders: &Table<ComponentAddress, OpenTrader>) -> bool {
    &&& traders.wf()
    &&& forall|a: ComponentAddress| #[trigger]
        traders@.contains_key(a) ==> traders@[a].wf()
            && traders@[a].trader_account_component_address == a
}

/// Whether the seller `t` would serve its part of the order, and how the
/// payment for it would be split.
pub open spec fn royal_call_check(
    traders: Map<ComponentAddress, OpenTrader>,
    royalty: &RoyalNFTs,
    orders: Seq<Order>,
    full: FungibleBucket,
    key: Proof,
    tx: TransactionHash,
    t: ComponentAddress,
) -> Result<Settlement, Error> {
    let items = items_for(orders, t);
    let payment = call_payment(orders, full, t);
    if !traders.contains_key(t) {
        Err(Error::ListingNotFound)
    } else if items.len() == 1 {
        traders[t].royal_purchase_check(royalty, items[0], payment, key, tx)
    } else {
        traders[t].royal_multi_purchase_check(royalty, items, payment, key, tx)
    }
}

/// The refusal of the first of `sellers` that would refuse, if any would.
pub open spec fn royal_calls_fault(
    traders: Map<ComponentAddress, OpenTrader>,
    royalty: &RoyalNFTs,
    orders: Seq<Order>,
    full: FungibleBucket,
    key: Proof,
    tx: TransactionHash,
    sellers: Seq<ComponentAddress>,
) -> Option<Error>
    decreases sellers.len(),
{
    if sellers.len() == 0 {
        None
    } else {
        match royal_calls_fault(traders, royalty, orders, full, key, tx, sellers.drop_last()) {
            Some(e) => Some(e),
            None => match royal_call_check(traders, royalty, orders, full, key, tx, sellers.last()) {
                Err(e) => Some(e),
                Ok(_) => None,
            },
        }
    }
}

/// The royalties of the purchases from `sellers`, added up.
pub open spec fn royalties_total(
    traders: Map<ComponentAddress, OpenTrader>,
    royalty: &RoyalNFTs,
    orders: Seq<Order>,
    full: FungibleBucket,
    key: Proof,
    tx: TransactionHash,
    sellers: Seq<ComponentAddress>,
) -> nat
    decreases sellers.len(),
{
    if sellers.len() == 0 {
        0
    } else {
        royalties_total(traders, royalty, orders, full, key, tx, sellers.drop_last())
            + royal_call_check(traders, royalty, orders, full, key, tx, sellers.last())->Ok_0.royalty@
    }
}

/// The marketplace fees of the purchases from `sellers`, added up.
pub open spec fn fees_total(
    traders: Map<ComponentAddress, OpenTrader>,
    royalty: &RoyalNFTs,
    orders: Seq<Order>,
    full: FungibleBucket,
    key: Proof,
    tx: TransactionHash,
    sellers: Seq<ComponentAddress>,
) -> nat
    decreases sellers.len(),
{
    if sellers.len() == 0 {
        0
    } else {
        fees_total(traders, royalty, orders, full, key, tx, sellers.drop_last()) + royal_call_check(
            traders,
            royalty,
            orders,
            full,
            key,
            tx,
            sellers.last(),
        )->Ok_0.marketplace_fee@
    }
}

/// The state of a seller's account after it served its part of the order:
/// a single sale for one item, a bulk sale for any other number.
pub open spec fn served(
    before: &OpenTrader,
    after: &OpenTrader,
    items: Seq<NonFungibleGlobalId>,
    recipient: ComponentAddress,
) -> bool {
    if items.len() == 1 {
        before.sold_one(after, items[0], recipient)
    } else {
        before.sold_many(after, items, recipient)
    }
}

/// A refusal among the first `n` sellers is the refusal of the whole order.
pub proof fn lemma_calls_fault_extends(
    traders: Map<ComponentAddress, OpenTrader>,
    royalty: &RoyalNFTs,
    orders: Seq<Order>,
    full: FungibleBucket,
    key: Proof,
    tx: TransactionHash,
    sellers: Seq<ComponentAddress>,
    n: int,
)
    requires
        0 <= n <= sellers.len(),
        royal_calls_fault(traders, royalty, orders, full, key, tx, sellers.take(n)) is Some,
    ensures
        royal_calls_fault(traders, royalty, orders, full, key, tx, sellers) == royal_calls_fault(
            traders,
            royalty,
            orders,
            full,
            key,
            tx,
            sellers.take(n),
        ),
    decreases sellers.len() - n,
{
    if n < sellers.len() {
        assert(sellers.take(n + 1).drop_last() =~= sellers.take(n));
        lemma_calls_fault_extends(traders, royalty, orders, full, key, tx, sellers, n + 1);
    } else {
        assert(sellers.take(n) =~= sellers);
    }
}

/// When no seller refuses, each seller's check is passed, and royalties and
/// fees together stay within the payments.
pub proof fn lemma_calls_pass(
    traders: Map<ComponentAddress, OpenTrader>,
    royalty: &RoyalNFTs,
    orders: Seq<Order>,
    full: FungibleBucket,
    key: Proof,
    tx: TransactionHash,
    sellers: Seq<ComponentAddress>,
)
    requires
        royalty.wf(),
        !some_total_overflows(orders),
        royal_calls_fault(traders, royalty, orders, full, key, tx, sellers) is None,
    ensures
        forall|j: int|
            0 <= j < sellers.len() ==> royal_call_check(
                traders,
                royalty,
                orders,
                full,
                key,
                tx,
                #[trigger] sellers[j],
            ) is Ok,
        royalties_total(traders, royalty, orders, full, key, tx, sellers) + fees_total(
            traders,
            royalty,
            orders,
            full,
            key,
            tx,
            sellers,
        ) <= sum_totals(orders, sellers),
    decreases sellers.len(),
{
    if sellers.len() > 0 {
        let init = sellers.drop_last();
        let t = sellers.last();
        lemma_calls_pass(traders, royalty, orders, full, key, tx, init);
        assert forall|j: int| 0 <= j < sellers.len() implies royal_call_check(
            traders,
            royalty,
            orders,
            full,
            key,
            tx,
            #[trigger] sellers[j],
        ) is Ok by {
            if j < sellers.len() - 1 {
                assert(init[j] == sellers[j]);
            }
        }
        lemma_call_split(traders, royalty, orders, full, key, tx, t);
    }
}

/// The split of a seller's part adds up to the payment for it.
pub proof fn lemma_call_split(
    traders: Map<ComponentAddress, OpenTrader>,
    royalty: &RoyalNFTs,
    orders: Seq<Order>,
    full: FungibleBucket,
    key: Proof,
    tx: TransactionHash,
    t: ComponentAddress,
)
    requires
        royalty.wf(),
        !some_total_overflows(orders),
        royal_call_check(traders, royalty, orders, full, key, tx, t) is Ok,
    ensures
        ({
            let split = royal_call_check(traders, royalty, orders, full, key, tx, t)->Ok_0;
            split.royalty@ + split.marketplace_fee@ + split.seller_revenue@ == total_for(orders, t)
        }),
{
    let payment = call_payment(orders, full, t);
    assert(total_for(orders, t) <= u128::MAX);
    assert(payment.amount@ == total_for(orders, t));
    let items = items_for(orders, t);
    let nft = items[0].resource_address;
    lemma_mul_floor_bounded(payment.amount@, royalty.royalty_config.royalty_percent@);
    lemma_round_down_bounds(
        mul_floor(payment.amount@, royalty.royalty_config.royalty_percent@),
        payment.divisibility as nat,
    );
}

/// Whether `later` is `earlier` but for the balances it holds and the
/// deposit rule.
pub open spec fn same_policy(earlier: &RoyalNFTs, later: &RoyalNFTs) -> bool {
    &&& later.royalty_config == earlier.royalty_config
    &&& later.nft_manager == earlier.nft_manager
    &&& later.depositable_updater == earlier.depositable_updater
}

/// A seller answers a purchase the same way under two states of the royalty
/// component that differ only in balances and deposit rule, as long as
/// neither balance can overflow with the payment.
pub proof fn lemma_same_policy_same_check(
    trader: &OpenTrader,
    earlier: &RoyalNFTs,
    later: &RoyalNFTs,
    items: Seq<NonFungibleGlobalId>,
    payment: FungibleBucket,
    key: Proof,
    tx: TransactionHash,
)
    requires
        earlier.wf(),
        same_policy(earlier, later),
        earlier.balance(payment.resource_address) + payment.amount@ <= u128::MAX,
        later.balance(payment.resource_address) + payment.amount@ <= u128::MAX,
    ensures
        items.len() > 0 ==> trader.royal_purchase_check(later, items[0], payment, key, tx)
            == trader.royal_purchase_check(earlier, items[0], payment, key, tx),
        trader.royal_multi_purchase_check(later, items, payment, key, tx)
            == trader.royal_multi_purchase_check(earlier, items, payment, key, tx),
{
    lemma_mul_floor_bounded(payment.amount@, earlier.royalty_config.royalty_percent@);
    lemma_round_down_bounds(
        mul_floor(payment.amount@, earlier.royalty_config.royalty_percent@),
        payment.divisibility as nat,
    );
    if items.len() > 0 {
        let nft = items[0].resource_address;
        assert(later.quote(nft, payment, key.resource_address) == earlier.quote(
            nft,
            payment,
            key.resource_address,
        ));
        assert(trader.settle_check(later, nft, payment, key, tx) == trader.settle_check(
            earlier,
            nft,
            payment,
            key,
            tx,
        ));
    }
}

impl GenericMarketplace {
    /// Whether a bulk order of items whose royalties are enforced can be
    /// served: the marketplace holds its key; the order is not empty; no
    /// seller's total is beyond the range of amounts; the payment covers the
    /// prices; neither the marketplace's nor the creator's vault could
    /// overflow with the payment; and no seller refuses its part.
    pub open spec fn royal_route_check(
        &self,
        traders: Map<ComponentAddress, OpenTrader>,
        royalty: &RoyalNFTs,
        orders: Seq<Order>,
        full: FungibleBucket,
        tx: TransactionHash,
    ) -> Result<(), Error> {
        if !self.marketplace_listing_key_held {
            Err(Error::NotAuthorized)
        } else if orders.len() == 0 {
            Err(Error::NothingToTrade)
        } else if some_total_overflows(orders) {
            Err(Error::Overflow)
        } else if orders_total(orders) > full.amount@ {
            Err(Error::InsufficientPayment)
        } else if self.balance(full.resource_address) + full.amount@ > u128::MAX
            || royalty.balance(full.resource_address) + full.amount@ > u128::MAX {
            Err(Error::Overflow)
        } else {
            match royal_calls_fault(
                traders,
                royalty,
                orders,
                full,
                self.key(),
                tx,
                traders_of(orders),
            ) {
                Some(e) => Err(e),
                None => Ok(()),
            }
        }
    }

    /// Asks the seller of `call` whether it would serve the call.
    fn quote_call(
        traders: &Table<ComponentAddress, OpenTrader>,
        royalty: &RoyalNFTs,
        call: &RoutedCall,
        key: &Proof,
        transaction_hash: &TransactionHash,
    ) -> (r: Result<Settlement, Error>)
        requires
            registry_wf(traders),
            royalty.wf(),
        ensures
            r == (if !traders@.contains_key(call.trader) {
                Err::<Settlement, Error>(Error::ListingNotFound)
            } else if call.nfgids@.len() == 1 {
                traders@[call.trader].royal_purchase_check(
                    royalty,
                    call.nfgids@[0],
                    call.payment,
                    *key,
                    *transaction_hash,
                )
            } else {
                traders@[call.trader].royal_multi_purchase_check(
                    royalty,
                    call.nfgids@,
                    call.payment,
                    *key,
                    *transaction_hash,
                )
            }),
    {
        let trader = match traders.get(&call.trader) {
            Some(trader) => trader,
            None => {
                return Err(Error::ListingNotFound);
            },
        };
        if call.nfgids.len() == 1 {
            trader.quote_royal_purchase(
                royalty,
                &call.nfgids[0],
                &call.payment,
                key,
                transaction_hash,
            )
        } else {
            trader.quote_royal_multi_purchase(
                royalty,
                &call.nfgids,
                &call.payment,
                key,
                transaction_hash,
            )
        }
    }
}


/// When no seller refuses, none of the first `n` sellers refuses.
pub proof fn lemma_calls_fault_prefix(
    traders: Map<ComponentAddress, OpenTrader>,
    royalty: &RoyalNFTs,
    orders: Seq<Order>,
    full: FungibleBucket,
    key: Proof,
    tx: TransactionHash,
    sellers: Seq<ComponentAddress>,
    n: int,
)
    requires
        0 <= n <= sellers.len(),
        royal_calls_fault(traders, royalty, orders, full, key, tx, sellers) is None,
    ensures
        royal_calls_fault(traders, royalty, orders, full, key, tx, sellers.take(n)) is None,
{
    if royal_calls_fault(traders, royalty, orders, full, key, tx, sellers.take(n)) is Some {
        lemma_calls_fault_extends(traders, royalty, orders, full, key, tx, sellers, n);
    }
}

/// The one item of an order of one item, taken once, is that item.
pub proof fn lemma_single_item_ids(items: Seq<NonFungibleGlobalId>)
    requires
        items.len() == 1,
    ensures
        distinct_ids(order_ids(items)) == seq![items[0].local_id],
{
    reveal_with_fuel(distinct_ids, 3);
    let ids = order_ids(items);
    assert(ids.drop_last() =~= Seq::<u64>::empty());
    assert(distinct_ids(ids) =~= seq![items[0].local_id]);
}

/// Two sales in a row leave the royalty component as one sale with the sum
/// of the royalties would.
pub proof fn lemma_sold_twice(
    first: &RoyalNFTs,
    second: &RoyalNFTs,
    third: &RoyalNFTs,
    currency: ResourceAddress,
    divisibility: u8,
    a: Amount,
    b: Amount,
)
    requires
        first.sold(second, currency, divisibility, a),
        second.sold(third, currency, divisibility, b),
        first.balance(currency) + a@ + b@ <= u128::MAX,
    ensures
        first.sold(third, currency, divisibility, Amount { attos: (a@ + b@) as u128 }),
{
    assert(second.balance(currency) == first.balance(currency) + a@);
    assert(third.royalty_vaults@ =~= first.royalty_vaults@.insert(
        currency,
        crate::royalty::Vault {
            divisibility,
            amount: Amount { attos: (first.balance(currency) + a@ + b@) as u128 },
        },
    ));
}

/// Two fees collected in a row leave the marketplace as one fee of their sum
/// would.
pub proof fn lemma_collected_twice(
    first: &GenericMarketplace,
    second: &GenericMarketplace,
    third: &GenericMarketplace,
    payment: FungibleBucket,
    a: Amount,
    b: Amount,
)
    requires
        first.collected(second, part_of(payment, a)),
        second.collected(third, part_of(payment, b)),
        first.balance(payment.resource_address) + a@ + b@ <= u128::MAX,
    ensures
        first.collected(third, part_of(payment, Amount { attos: (a@ + b@) as u128 })),
{
    let currency = payment.resource_address;
    assert(second.balance(currency) == first.balance(currency) + a@);
    assert(third.fee_vaults@ =~= first.fee_vaults@.insert(
        currency,
        crate::royalty::Vault {
            divisibility: payment.divisibility,
            amount: Amount { attos: (first.balance(currency) + a@ + b@) as u128 },
        },
    ));
}

/// Whether `bucket` holds exactly the items `local_ids` of collection
/// `resource`.
pub open spec fn holds_items(bucket: Bucket, resource: ResourceAddress, local_ids: Seq<u64>) -> bool {
    match bucket {
        Bucket::NonFungible(items) => items.wf() && items.resource() == resource
            && items.local_ids() == local_ids,
        Bucket::Fungible(_) => false,
    }
}

/// Whether a seller's account in state `trader` would serve `items` against
/// `payment`, and how the payment would be split: a single sale for one item,
/// a bulk sale for any other number.
pub open spec fn part_check(
    trader: &OpenTrader,
    royalty: &RoyalNFTs,
    items: Seq<NonFungibleGlobalId>,
    payment: FungibleBucket,
    key: Proof,
    tx: TransactionHash,
) -> Result<Settlement, Error> {
    if items.len() == 1 {
        trader.royal_purchase_check(royalty, items[0], payment, key, tx)
    } else {
        trader.royal_multi_purchase_check(royalty, items, payment, key, tx)
    }
}

/// What one seller's part of an order yields: the items, the seller's
/// transient token, and the seller's account with the proceeds for it.
pub struct ServedPart {
    pub nft: Bucket,
    pub transient_token: Bucket,
    pub seller_revenue: (ComponentAddress, FungibleBucket),
}

impl GenericMarketplace {
    /// The state of everything after the first `n` sellers of the order were
    /// served: each of their accounts has sold its part and every other is
    /// untouched; the creator's vault holds their royalties and the
    /// marketplace's vault their fees; and the buyer's buckets and the
    /// sellers' proceeds are lined up seller by seller.
    pub open spec fn routed(
        &self,
        next: &GenericMarketplace,
        traders: Map<ComponentAddress, OpenTrader>,
        next_traders: Map<ComponentAddress, OpenTrader>,
        royalty: &RoyalNFTs,
        next_royalty: &RoyalNFTs,
        orders: Seq<Order>,
        full: FungibleBucket,
        recipient: ComponentAddress,
        tx: TransactionHash,
        n: int,
        buckets: Seq<Bucket>,
        revenues: Seq<(ComponentAddress, FungibleBucket)>,
    ) -> bool {
        let sellers = traders_of(orders).take(n);
        let key = self.key();
        &&& next_traders.dom() =~= traders.dom()
        &&& forall|a: ComponentAddress| #[trigger]
            traders.contains_key(a) ==> (if sellers.contains(a) {
                served(&traders[a], &next_traders[a], items_for(orders, a), recipient)
            } else {
                next_traders[a] == traders[a]
            })
        &&& n == 0 ==> *next_royalty == *royalty && *next == *self
        &&& n > 0 ==> royalty.sold(
            next_royalty,
            full.resource_address,
            full.divisibility,
            Amount {
                attos: royalties_total(traders, royalty, orders, full, key, tx, sellers) as u128,
            },
        ) && self.collected(
            next,
            part_of(
                full,
                Amount { attos: fees_total(traders, royalty, orders, full, key, tx, sellers) as u128 },
            ),
        )
        &&& buckets.len() == 2 * n
        &&& revenues.len() == n
        &&& forall|j: int|
            0 <= j < n ==> {
                let t = (#[trigger] sellers[j]);
                let items = items_for(orders, t);
                let split = royal_call_check(traders, royalty, orders, full, key, tx, t)->Ok_0;
                &&& holds_items(
                    buckets[2 * j],
                    items[0].resource_address,
                    distinct_ids(order_ids(items)),
                )
                &&& buckets[2 * j + 1] == Bucket::Fungible(traders[t].transient_token())
                &&& revenues[j] == (traders[t].my_account, part_of(full, split.seller_revenue))
            }
    }

    /// Serving one more seller extends what [`GenericMarketplace::routed`]
    /// describes by that seller.
    pub proof fn lemma_routed_step(
        &self,
        mid: &GenericMarketplace,
        next: &GenericMarketplace,
        traders: Map<ComponentAddress, OpenTrader>,
        mid_traders: Map<ComponentAddress, OpenTrader>,
        next_traders: Map<ComponentAddress, OpenTrader>,
        royalty: &RoyalNFTs,
        mid_royalty: &RoyalNFTs,
        next_royalty: &RoyalNFTs,
        orders: Seq<Order>,
        full: FungibleBucket,
        recipient: ComponentAddress,
        tx: TransactionHash,
        k: int,
        buckets: Seq<Bucket>,
        revenues: Seq<(ComponentAddress, FungibleBucket)>,
        part: ServedPart,
    )
        requires
            0 <= k < traders_of(orders).len(),
            traders_of(orders).no_duplicates(),
            self.routed(
                mid,
                traders,
                mid_traders,
                royalty,
                mid_royalty,
                orders,
                full,
                recipient,
                tx,
                k,
                buckets,
                revenues,
            ),
            traders.contains_key(traders_of(orders)[k]),
            royal_call_check(traders, royalty, orders, full, self.key(), tx, traders_of(orders)[k])
                is Ok,
            self.balance(full.resource_address) + full.amount@ <= u128::MAX,
            royalty.balance(full.resource_address) + full.amount@ <= u128::MAX,
            royalties_total(
                traders,
                royalty,
                orders,
                full,
                self.key(),
                tx,
                traders_of(orders).take(k + 1),
            ) + fees_total(
                traders,
                royalty,
                orders,
                full,
                self.key(),
                tx,
                traders_of(orders).take(k + 1),
            ) <= full.amount@,
            ({
                let t = traders_of(orders)[k];
                let split = royal_call_check(traders, royalty, orders, full, self.key(), tx, t)->Ok_0;
                let items = items_for(orders, t);
                &&& next_traders == mid_traders.insert(t, next_traders[t])
                &&& served(&traders[t], &next_traders[t], items, recipient)
                &&& mid_royalty.sold(
                    next_royalty,
                    full.resource_address,
                    full.divisibility,
                    split.royalty,
                )
                &&& mid.collected(next, part_of(full, split.marketplace_fee))
                &&& holds_items(
                    part.nft,
                    items[0].resource_address,
                    distinct_ids(order_ids(items)),
                )
                &&& part.transient_token == Bucket::Fungible(traders[t].transient_token())
                &&& part.seller_revenue == (traders[t].my_account, part_of(
                    full,
                    split.seller_revenue,
                ))
            }),
        ensures
            self.routed(
                next,
                traders,
                next_traders,
                royalty,
                next_royalty,
                orders,
                full,
                recipient,
                tx,
                k + 1,
                buckets.push(part.nft).push(part.transient_token),
                revenues.push(part.seller_revenue),
            ),
    {
        let all = traders_of(orders);
        let done = all.take(k);
        let next_done = all.take(k + 1);
        let seller = all[k];
        let key = self.key();
        let split = royal_call_check(traders, royalty, orders, full, key, tx, seller)->Ok_0;
        let new_buckets = buckets.push(part.nft).push(part.transient_token);
        let new_revenues = revenues.push(part.seller_revenue);
        assert(next_done.drop_last() =~= done);
        assert(next_done.last() == seller);
        assert(!done.contains(seller)) by {
            if done.contains(seller) {
                let q = choose|q: int| 0 <= q < done.len() && done[q] == seller;
                assert(all[q] == all[k]);
            }
        }
        if k > 0 {
            lemma_sold_twice(
                royalty,
                mid_royalty,
                next_royalty,
                full.resource_address,
                full.divisibility,
                Amount {
                    attos: royalties_total(traders, royalty, orders, full, key, tx, done) as u128,
                },
                split.royalty,
            );
            lemma_collected_twice(
                self,
                mid,
                next,
                full,
                Amount { attos: fees_total(traders, royalty, orders, full, key, tx, done) as u128 },
                split.marketplace_fee,
            );
        } else {
            assert(done =~= Seq::<ComponentAddress>::empty());
        }
        assert(next_traders.dom() =~= traders.dom());
        assert forall|a: ComponentAddress| #[trigger] traders.contains_key(a) implies (
        if next_done.contains(a) {
            served(&traders[a], &next_traders[a], items_for(orders, a), recipient)
        } else {
            next_traders[a] == traders[a]
        }) by {
            if a != seller {
                assert(next_traders[a] == mid_traders[a]);
                if next_done.contains(a) {
                    let q = choose|q: int| 0 <= q < next_done.len() && next_done[q] == a;
                    assert(done[q] == a);
                    assert(done.contains(a));
                }
                if done.contains(a) {
                    let q = choose|q: int| 0 <= q < done.len() && done[q] == a;
                    assert(next_done[q] == a);
                }
            } else {
                assert(next_done[k] == a);
            }
        }
        assert forall|q: int| 0 <= q < k + 1 implies ({
            let t = (#[trigger] next_done[q]);
            let its = items_for(orders, t);
            let sp = royal_call_check(traders, royalty, orders, full, key, tx, t)->Ok_0;
            &&& holds_items(
                new_buckets[2 * q],
                its[0].resource_address,
                distinct_ids(order_ids(its)),
            )
            &&& new_buckets[2 * q + 1] == Bucket::Fungible(traders[t].transient_token())
            &&& new_revenues[q] == (traders[t].my_account, part_of(full, sp.seller_revenue))
        }) by {
            if q < k {
                assert(next_done[q] == done[q]);
                assert(new_buckets[2 * q] == buckets[2 * q]);
                assert(new_buckets[2 * q + 1] == buckets[2 * q + 1]);
                assert(new_revenues[q] == revenues[q]);
            }
        }
    }

    /// Buys one seller's part of an order that was found to go through.
    fn serve_call(
        &mut self,
        call: RoutedCall,
        key: &Proof,
        account_recipient: ComponentAddress,
        traders: &mut Table<ComponentAddress, OpenTrader>,
        royalty: &mut RoyalNFTs,
        transaction_hash: TransactionHash,
    ) -> (r: Result<ServedPart, Error>)
        requires
            old(self).wf(),
            registry_wf(old(traders)),
            old(royalty).wf(),
            *key == old(self).key(),
            old(traders)@.contains_key(call.trader),
            part_check(
                &old(traders)@[call.trader],
                old(royalty),
                call.nfgids@,
                call.payment,
                *key,
                transaction_hash,
            ) is Ok,
            old(self).balance(call.payment.resource_address) + call.payment.amount@ <= u128::MAX,
        ensures
            r is Ok,
            final(self).wf(),
            registry_wf(final(traders)),
            final(royalty).wf(),
            ({
                let t = call.trader;
                let before = old(traders)@[t];
                let split = part_check(
                    &before,
                    old(royalty),
                    call.nfgids@,
                    call.payment,
                    *key,
                    transaction_hash,
                )->Ok_0;
                let part = r->Ok_0;
                &&& final(traders)@ == old(traders)@.insert(t, final(traders)@[t])
                &&& served(&before, &final(traders)@[t], call.nfgids@, account_recipient)
                &&& old(royalty).sold(
                    final(royalty),
                    call.payment.resource_address,
                    call.payment.divisibility,
                    split.royalty,
                )
                &&& old(self).collected(final(self), part_of(call.payment, split.marketplace_fee))
                &&& holds_items(
                    part.nft,
                    call.nfgids@[0].resource_address,
                    distinct_ids(order_ids(call.nfgids@)),
                )
                &&& part.transient_token == Bucket::Fungible(before.transient_token())
                &&& part.seller_revenue == (before.my_account, part_of(
                    call.payment,
                    split.seller_revenue,
                ))
            }),
    {
        let seller = call.trader;
        let ghost items = call.nfgids@;
        let mut trader = match traders.remove(&seller) {
            Some(trader) => trader,
            None => {
                return Err(Error::ListingNotFound);
            },
        };
        let my_account = trader.my_account;
        let bought = if call.nfgids.len() == 1 {
            proof {
                lemma_single_item_ids(items);
            }
            trader.purchase_royal_listing(
                call.nfgids[0],
                call.payment,
                key,
                account_recipient,
                royalty,
                transaction_hash,
            )
        } else {
            trader.purchase_multi_royal_listings(
                call.nfgids,
                call.payment,
                account_recipient,
                key,
                royalty,
                transaction_hash,
            )
        };
        let out = match bought {
            Ok(out) => out,
            Err(e) => {
                return Err(e);
            },
        };
        traders.insert(seller, trader);
        proof {
            assert(traders@ =~= old(traders)@.insert(seller, traders@[seller]));
        }
        match out.marketplace_fee {
            Some(fee) => {
                match self.collect_fee(fee) {
                    Ok(()) => {},
                    Err(e) => {
                        return Err(e);
                    },
                }
            },
            None => {},
        }
        Ok(
            ServedPart {
                nft: Bucket::NonFungible(out.nft),
                transient_token: Bucket::Fungible(out.transient_token),
                seller_revenue: (my_account, out.seller_revenue),
            },
        )
    }

    /// Serves a bulk order of items whose royalties are enforced, for
    /// delivery to `account_recipient`.
    ///
    /// `traders` are the escrow accounts by address, `royalty` is the policy
    /// of the items' collection.  The order is served as
    /// [`GenericMarketplace::royal_route_check`] allows and
    /// [`GenericMarketplace::routed`] describes; the last bucket handed back
    /// holds what the payment held beyond the prices.  A refusal changes
    /// nothing.
    pub fn purchase_multi_royal_listing(
        &mut self,
        orders: Vec<Order>,
        full_payment: FungibleBucket,
        account_recipient: ComponentAddress,
        traders: &mut Table<ComponentAddress, OpenTrader>,
        royalty: &mut RoyalNFTs,
        transaction_hash: TransactionHash,
    ) -> (r: Result<Routed, Error>)
        requires
            old(self).wf(),
            registry_wf(old(traders)),
            old(royalty).wf(),
        ensures
            final(self).wf(),
            registry_wf(final(traders)),
            final(royalty).wf(),
            match r {
                Ok(out) => {
                    let n = traders_of(orders@).len() as int;
                    &&& old(self).royal_route_check(
                        old(traders)@,
                        old(royalty),
                        orders@,
                        full_payment,
                        transaction_hash,
                    ) is Ok
                    &&& n > 0
                    &&& old(self).routed(
                        final(self),
                        old(traders)@,
                        final(traders)@,
                        old(royalty),
                        final(royalty),
                        orders@,
                        full_payment,
                        account_recipient,
                        transaction_hash,
                        n,
                        out.buckets@.take(2 * n),
                        out.seller_revenues@,
                    )
                    &&& out.buckets@.len() == 2 * n + 1
                    &&& out.buckets@[2 * n] == Bucket::Fungible(
                        part_of(
                            full_payment,
                            Amount { attos: (full_payment.amount@ - orders_total(orders@)) as u128 },
                        ),
                    )
                },
                Err(e) => {
                    &&& old(self).royal_route_check(
                        old(traders)@,
                        old(royalty),
                        orders@,
                        full_payment,
                        transaction_hash,
                    ) == Err::<(), Error>(e)
                    &&& *final(self) == *old(self)
                    &&& *final(traders) == *old(traders)
                    &&& *final(royalty) == *old(royalty)
                },
            },
    {
        let key = match self.permission() {
            Some(key) => key,
            None => {
                return Err(Error::NotAuthorized);
            },
        };
        if orders.len() == 0 {
            return Err(Error::NothingToTrade);
        }
        let currency = full_payment.resource_address;
        let divisibility = full_payment.divisibility;
        let full_amount = full_payment.amount;
        let ghost full = full_payment;
        let ghost sellers = traders_of(orders@);
        let ghost traders_before = traders@;
        let ghost royalty_before = *royalty;
        let ghost this_before = *self;
        let plan = match plan_route(&orders, full_payment) {
            Ok(plan) => plan,
            Err(e) => {
                return Err(e);
            },
        };
        match self.fee_balance(currency).checked_add(full_amount) {
            Some(_) => {},
            None => {
                return Err(Error::Overflow);
            },
        }
        match royalty.royalty_balance(currency).checked_add(full_amount) {
            Some(_) => {},
            None => {
                return Err(Error::Overflow);
            },
        }
        proof {
            lemma_traders_of(orders@);
            lemma_totals_add_up(orders@);
            assert(sellers.contains(orders@[0].0));
            assert(sellers.take(0) =~= Seq::<ComponentAddress>::empty());
        }
        let mut j: usize = 0;
        while j < plan.calls.len()
            invariant
                j <= plan.calls@.len(),
                full == full_payment,
                plan.calls@.len() == sellers.len(),
                sellers == traders_of(orders@),
                calls_match(plan.calls@, orders@, full),
                !some_total_overflows(orders@),
                orders@.len() > 0,
                orders_total(orders@) <= full.amount@,
                this_before.marketplace_listing_key_held,
                this_before.balance(full.resource_address) + full.amount@ <= u128::MAX,
                royalty_before.balance(full.resource_address) + full.amount@ <= u128::MAX,
                this_before.wf(),
                registry_wf(traders),
                royalty.wf(),
                *self == this_before,
                *traders == *old(traders),
                traders@ == traders_before,
                *royalty == royalty_before,
                *old(royalty) == royalty_before,
                *old(self) == this_before,
                old(traders)@ == traders_before,
                key == this_before.key(),
                royal_calls_fault(
                    traders_before,
                    &royalty_before,
                    orders@,
                    full,
                    key,
                    transaction_hash,
                    sellers.take(j as int),
                ) is None,
            decreases plan.calls@.len() - j,
        {
            proof {
                assert(sellers.take(j as int + 1).drop_last() =~= sellers.take(j as int));
                assert(sellers.take(j as int + 1).last() == sellers[j as int]);
                let call = plan.calls@[j as int];
                assert(call.trader == sellers[j as int]);
                assert(total_for(orders@, call.trader) <= u128::MAX);
                assert(call.payment == call_payment(orders@, full, call.trader));
            }
            match Self::quote_call(traders, royalty, &plan.calls[j], &key, &transaction_hash) {
                Ok(_) => {},
                Err(e) => {
                    proof {
                        let call = plan.calls@[j as int];
                        assert(call.nfgids@ == items_for(orders@, call.trader));
                        assert(royal_call_check(
                            traders_before,
                            &royalty_before,
                            orders@,
                            full,
                            key,
                            transaction_hash,
                            sellers[j as int],
                        ) == Err::<Settlement, Error>(e));
                        assert(royal_calls_fault(
                            traders_before,
                            &royalty_before,
                            orders@,
                            full,
                            key,
                            transaction_hash,
                            sellers.take(j as int + 1),
                        ) == Some(e));
                        lemma_calls_fault_extends(
                            traders_before,
                            &royalty_before,
                            orders@,
                            full,
                            key,
                            transaction_hash,
                            sellers,
                            j as int + 1,
                        );
                        assert(royal_calls_fault(
                            traders_before,
                            &royalty_before,
                            orders@,
                            full,
                            this_before.key(),
                            transaction_hash,
                            traders_of(orders@),
                        ) == Some(e));
                    }
                    return Err(e);
                },
            }
            j += 1;
        }
        proof {
            assert(sellers.take(sellers.len() as int) =~= sellers);
            lemma_calls_pass(traders_before, &royalty_before, orders@, full, key, transaction_hash, sellers);
        }
        let mut calls = plan.calls;
        let residue = plan.residue;
        let ghost all_calls = calls@;
        let n = calls.len();
        let mut buckets: Vec<Bucket> = Vec::new();
        let mut seller_revenues: Vec<(ComponentAddress, FungibleBucket)> = Vec::new();
        let mut k: usize = 0;
        while calls.len() > 0
            invariant
                k + calls@.len() == n,
                n == sellers.len(),
                n > 0,
                all_calls.len() == n,
                calls@ == all_calls.skip(k as int),
                sellers == traders_of(orders@),
                sellers.no_duplicates(),
                calls_match(all_calls, orders@, full),
                !some_total_overflows(orders@),
                orders_total(orders@) <= full.amount@,
                sum_totals(orders@, sellers) == orders_total(orders@),
                this_before.wf(),
                royalty_before.wf(),
                this_before.balance(full.resource_address) + full.amount@ <= u128::MAX,
                royalty_before.balance(full.resource_address) + full.amount@ <= u128::MAX,
                key == this_before.key(),
                royal_calls_fault(
                    traders_before,
                    &royalty_before,
                    orders@,
                    full,
                    key,
                    transaction_hash,
                    sellers,
                ) is None,
                forall|q: int|
                    0 <= q < sellers.len() ==> royal_call_check(
                        traders_before,
                        &royalty_before,
                        orders@,
                        full,
                        key,
                        transaction_hash,
                        #[trigger] sellers[q],
                    ) is Ok,
                self.wf(),
                registry_wf(traders),
                royalty.wf(),
                this_before.routed(
                    self,
                    traders_before,
                    traders@,
                    &royalty_before,
                    royalty,
                    orders@,
                    full,
                    account_recipient,
                    transaction_hash,
                    k as int,
                    buckets@,
                    seller_revenues@,
                ),
            decreases calls@.len(),
        {
            let ghost before_self = *self;
            let ghost before_royalty = *royalty;
            let ghost before_traders = traders@;
            let ghost before_buckets = buckets@;
            let ghost before_revenues = seller_revenues@;
            let call = calls.remove(0);
            let ghost seller = call.trader;
            proof {
                assert(call == all_calls[k as int]);
                assert(calls@ =~= all_calls.skip(k as int + 1));
                lemma_route_step_ready(
                    &this_before,
                    &before_self,
                    traders_before,
                    before_traders,
                    &royalty_before,
                    &before_royalty,
                    orders@,
                    full,
                    account_recipient,
                    transaction_hash,
                    k as int,
                    before_buckets,
                    before_revenues,
                );
                assert(seller == sellers[k as int]);
                assert(total_for(orders@, seller) <= u128::MAX);
                assert(call.payment == call_payment(orders@, full, seller));
                assert(call.nfgids@ == items_for(orders@, seller));
            }
            let part = match self.serve_call(
                call,
                &key,
                account_recipient,
                traders,
                royalty,
                transaction_hash,
            ) {
                Ok(part) => part,
                Err(e) => {
                    return Err(e);
                },
            };
            proof {
                let split = royal_call_check(
                    traders_before,
                    &royalty_before,
                    orders@,
                    full,
                    key,
                    transaction_hash,
                    seller,
                )->Ok_0;
                assert(part_of(call_payment(orders@, full, seller), split.marketplace_fee)
                    == part_of(full, split.marketplace_fee));
                assert(part_of(call_payment(orders@, full, seller), split.seller_revenue)
                    == part_of(full, split.seller_revenue));
                this_before.lemma_routed_step(
                    &before_self,
                    self,
                    traders_before,
                    before_traders,
                    traders@,
                    &royalty_before,
                    &before_royalty,
                    royalty,
                    orders@,
                    full,
                    account_recipient,
                    transaction_hash,
                    k as int,
                    before_buckets,
                    before_revenues,
                    part,
                );
            }
            buckets.push(part.nft);
            buckets.push(part.transient_token);
            seller_revenues.push(part.seller_revenue);
            k += 1;
        }
        proof {
            assert(sellers.take(n as int) =~= sellers);
            assert(buckets@.push(Bucket::Fungible(residue)).take(2 * n) =~= buckets@);
        }
        buckets.push(Bucket::Fungible(residue));
        Ok(Routed { buckets, seller_revenues })
    }
}

/// Before the seller at place `k` is served, its account is as the order
/// found it, it answers the purchase as it did when the order was checked,
/// and neither vault can overflow.
pub proof fn lemma_route_step_ready(
    start: &GenericMarketplace,
    now: &GenericMarketplace,
    traders: Map<ComponentAddress, OpenTrader>,
    now_traders: Map<ComponentAddress, OpenTrader>,
    royalty: &RoyalNFTs,
    now_royalty: &RoyalNFTs,
    orders: Seq<Order>,
    full: FungibleBucket,
    recipient: ComponentAddress,
    tx: TransactionHash,
    k: int,
    buckets: Seq<Bucket>,
    revenues: Seq<(ComponentAddress, FungibleBucket)>,
)
    requires
        0 <= k < traders_of(orders).len(),
        traders_of(orders).no_duplicates(),
        start.wf(),
        royalty.wf(),
        !some_total_overflows(orders),
        orders_total(orders) <= full.amount@,
        sum_totals(orders, traders_of(orders)) == orders_total(orders),
        start.balance(full.resource_address) + full.amount@ <= u128::MAX,
        royalty.balance(full.resource_address) + full.amount@ <= u128::MAX,
        royal_calls_fault(traders, royalty, orders, full, start.key(), tx, traders_of(orders))
            is None,
        start.routed(
            now,
            traders,
            now_traders,
            royalty,
            now_royalty,
            orders,
            full,
            recipient,
            tx,
            k,
            buckets,
            revenues,
        ),
    ensures
        ({
            let t = traders_of(orders)[k];
            let payment = call_payment(orders, full, t);
            let items = items_for(orders, t);
            &&& traders.contains_key(t)
            &&& now_traders.contains_key(t)
            &&& now_traders[t] == traders[t]
            &&& now.key() == start.key()
            &&& royal_call_check(traders, royalty, orders, full, start.key(), tx, t) is Ok
            &&& part_check(&now_traders[t], now_royalty, items, payment, start.key(), tx)
                == royal_call_check(traders, royalty, orders, full, start.key(), tx, t)
            &&& now.balance(full.resource_address) + payment.amount@ <= u128::MAX
            &&& royalties_total(
                traders,
                royalty,
                orders,
                full,
                start.key(),
                tx,
                traders_of(orders).take(k + 1),
            ) + fees_total(
                traders,
                royalty,
                orders,
                full,
                start.key(),
                tx,
                traders_of(orders).take(k + 1),
            ) <= full.amount@
        }),
{
    let sellers = traders_of(orders);
    let key = start.key();
    let done = sellers.take(k);
    let next_done = sellers.take(k + 1);
    let t = sellers[k];
    let payment = call_payment(orders, full, t);
    let items = items_for(orders, t);
    lemma_calls_pass(traders, royalty, orders, full, key, tx, sellers);
    lemma_calls_fault_prefix(traders, royalty, orders, full, key, tx, sellers, k);
    lemma_calls_fault_prefix(traders, royalty, orders, full, key, tx, sellers, k + 1);
    lemma_calls_pass(traders, royalty, orders, full, key, tx, done);
    lemma_calls_pass(traders, royalty, orders, full, key, tx, next_done);
    lemma_sum_totals_grows(orders, sellers, k);
    lemma_sum_totals_grows(orders, sellers, k + 1);
    assert(next_done.drop_last() =~= done);
    assert(next_done.last() == t);
    assert(royal_call_check(traders, royalty, orders, full, key, tx, sellers[k]) is Ok);
    assert(!done.contains(t)) by {
        if done.contains(t) {
            let q = choose|q: int| 0 <= q < done.len() && done[q] == t;
            assert(sellers[q] == sellers[k]);
        }
    }
    assert(traders.contains_key(t));
    assert(now_traders.dom().contains(t));
    assert(total_for(orders, t) <= u128::MAX);
    assert(payment.amount@ == total_for(orders, t));
    assert(sum_totals(orders, next_done) == sum_totals(orders, done) + total_for(orders, t));
    if k == 0 {
        assert(done =~= Seq::<ComponentAddress>::empty());
    }
    lemma_same_policy_same_check(&traders[t], royalty, now_royalty, items, payment, key, tx);
}

} // verus!
