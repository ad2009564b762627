//! Serving a bulk order of items without enforced royalties.
//!
//! As for items with enforced royalties, the marketplace cuts the order up by
//! seller and buys from each seller's escrow account with its own key.  No
//! royalty is due and no transfer window is opened, so the buyer gets the
//! items and the residue of the payment and owes no clearing.  The order is
//! served as a whole or not at all.

use crate::address::ComponentAddress;
use crate::address::NonFungibleGlobalId;
use crate::amount::Amount;
use crate::error::Error;
use crate::generic_marketplace::Bucket;
use crate::generic_marketplace::GenericMarketplace;
use crate::outpost_account::OpenTrader;
use crate::purchase::part_of;
use crate::purchase::Settlement;
use crate::resource::FungibleBucket;
use crate::resource::NonFungibleBucket;
use crate::resource::Proof;
use crate::bulk_order::call_payment;
use crate::bulk_order::holds_items;
use crate::bulk_order::lemma_collected_twice;
use crate::bulk_order::registry_wf;
use crate::bulk_order::Routed;
use crate::routing::calls_match;
use crate::routing::items_for;
use crate::routing::lemma_sum_totals_grows;
use crate::routing::lemma_totals_add_up;
use crate::routing::lemma_traders_of;
use crate::routing::orders_total;
use crate::routing::plan_route;
use crate::routing::some_total_overflows;
use crate::routing::sum_totals;
use crate::routing::total_for;
use crate::routing::traders_of;
use crate::routing::Order;
use crate::routing::RoutedCall;
use crate::table::Table;
use vstd::prelude::*;

verus! {

/// Whether the seller `t` would serve its part of the order, and how the
/// payment for it would be split.
pub open spec fn plain_call_check(
    traders: Map<ComponentAddress, OpenTrader>,
    orders: Seq<Order>,
    full: FungibleBucket,
    key: Proof,
    t: ComponentAddress,
) -> Result<Settlement, Error> {
    if !traders.contains_key(t) {
        Err(Error::ListingNotFound)
    } else {
        traders[t].multi_purchase_check(items_for(orders, t), call_payment(orders, full, t), key)
    }
}

/// The refusal of the first of `sellers` that would refuse, if any would.
pub open spec fn plain_calls_fault(
    traders: Map<ComponentAddress, OpenTrader>,
    orders: Seq<Order>,
    full: FungibleBucket,
    key: Proof,
    sellers: Seq<ComponentAddress>,
) -> Option<Error>
    decreases sellers.len(),
{
    if sellers.len() == 0 {
        None
    } else {
        match plain_calls_fault(traders, orders, full, key, sellers.drop_last()) {
            Some(e) => Some(e),
            None => match plain_call_check(traders, orders, full, key, sellers.last()) {
                Err(e) => Some(e),
                Ok(_) => None,
            },
        }
    }
}

/// The marketplace fees of the purchases from `sellers`, added up.
pub open spec fn plain_fees_total(
    traders: Map<ComponentAddress, OpenTrader>,
    orders: Seq<Order>,
    full: FungibleBucket,
    key: Proof,
    sellers: Seq<ComponentAddress>,
) -> nat
    decreases sellers.len(),
{
    if sellers.len() == 0 {
        0
    } else {
        plain_fees_total(traders, orders, full, key, sellers.drop_last()) + plain_call_check(
            traders,
            orders,
            full,
            key,
            sellers.last(),
        )->Ok_0.marketplace_fee@
    }
}

/// The items ordered from `sellers`, seller by seller.
pub open spec fn routed_items(orders: Seq<Order>, sellers: Seq<ComponentAddress>) -> Seq<
    NonFungibleGlobalId,
>
    decreases sellers.len(),
{
    if sellers.len() == 0 {
        Seq::empty()
    } else {
        routed_items(orders, sellers.drop_last()) + items_for(orders, sellers.last())
    }
}

/// Whether the buckets hold the items `items`, one item each, in order.
pub open spec fn hold_one_each(buckets: Seq<Bucket>, items: Seq<NonFungibleGlobalId>) -> bool {
    &&& buckets.len() == items.len()
    &&& forall|i: int|
        0 <= i < items.len() ==> holds_items(
            #[trigger] buckets[i],
            items[i].resource_address,
            seq![items[i].local_id],
        )
}

/// A refusal among the first `n` sellers is the refusal of the whole order.
pub proof fn lemma_plain_fault_extends(
    traders: Map<ComponentAddress, OpenTrader>,
    orders: Seq<Order>,
    full: FungibleBucket,
    key: Proof,
    sellers: Seq<ComponentAddress>,
    n: int,
)
    requires
        0 <= n <= sellers.len(),
        plain_calls_fault(traders, orders, full, key, sellers.take(n)) is Some,
    ensures
        plain_calls_fault(traders, orders, full, key, sellers) == plain_calls_fault(
            traders,
            orders,
            full,
            key,
            sellers.take(n),
        ),
    decreases sellers.len() - n,
{
    if n < sellers.len() {
        assert(sellers.take(n + 1).drop_last() =~= sellers.take(n));
        lemma_plain_fault_extends(traders, orders, full, key, sellers, n + 1);
    } else {
        assert(sellers.take(n) =~= sellers);
    }
}

/// When no seller refuses, each seller's check is passed, and the fees stay
/// within the payments.
pub proof fn lemma_plain_calls_pass(
    traders: Map<ComponentAddress, OpenTrader>,
    orders: Seq<Order>,
    full: FungibleBucket,
    key: Proof,
    sellers: Seq<ComponentAddress>,
)
    requires
        !some_total_overflows(orders),
        plain_calls_fault(traders, orders, full, key, sellers) is None,
    ensures
        forall|j: int|
            0 <= j < sellers.len() ==> plain_call_check(
                traders,
                orders,
                full,
                key,
                #[trigger] sellers[j],
            ) is Ok,
        plain_fees_total(traders, orders, full, key, sellers) <= sum_totals(orders, sellers),
    decreases sellers.len(),
{
    if sellers.len() > 0 {
        let init = sellers.drop_last();
        let t = sellers.last();
        lemma_plain_calls_pass(traders, orders, full, key, init);
        assert forall|j: int| 0 <= j < sellers.len() implies plain_call_check(
            traders,
            orders,
            full,
            key,
            #[trigger] sellers[j],
        ) is Ok by {
            if j < sellers.len() - 1 {
                assert(init[j] == sellers[j]);
            }
        }
        assert(total_for(orders, t) <= u128::MAX);
        lemma_plain_fee_bounded(traders, orders, full, key, t);
    }
}

/// The fee on a seller's part is at most the payment for it.
pub proof fn lemma_plain_fee_bounded(
    traders: Map<ComponentAddress, OpenTrader>,
    orders: Seq<Order>,
    full: FungibleBucket,
    key: Proof,
    t: ComponentAddress,
)
    requires
        !some_total_overflows(orders),
        plain_call_check(traders, orders, full, key, t) is Ok,
    ensures
        plain_call_check(traders, orders, full, key, t)->Ok_0.marketplace_fee@ <= total_for(
            orders,
            t,
        ),
{
    let payment = call_payment(orders, full, t);
    assert(total_for(orders, t) <= u128::MAX);
    assert(payment.amount@ == total_for(orders, t));
    if key.marketplace_fee is Some {
        let rate = key.marketplace_fee->Some_0;
        crate::amount::lemma_mul_floor_bounded(payment.amount@, rate@);
        crate::amount::lemma_round_down_bounds(
            crate::amount::mul_floor(payment.amount@, rate@),
            payment.divisibility as nat,
        );
    }
}

/// When no seller refuses, none of the first `n` sellers refuses.
pub proof fn lemma_plain_fault_prefix(
    traders: Map<ComponentAddress, OpenTrader>,
    orders: Seq<Order>,
    full: FungibleBucket,
    key: Proof,
    sellers: Seq<ComponentAddress>,
    n: int,
)
    requires
        0 <= n <= sellers.len(),
        plain_calls_fault(traders, orders, full, key, sellers) is None,
    ensures
        plain_calls_fault(traders, orders, full, key, sellers.take(n)) is None,
{
    if plain_calls_fault(traders, orders, full, key, sellers.take(n)) is Some {
        lemma_plain_fault_extends(traders, orders, full, key, sellers, n);
    }
}

/// What one seller's part of an order of items without enforced royalties
/// yields: the items, one bucket each, and the seller's account with the
/// proceeds for it.
pub struct ServedItems {
    pub nfts: Vec<Bucket>,
    pub seller_revenue: (ComponentAddress, FungibleBucket),
}

/// Wraps each bucket of items as a bucket for the buyer.
fn wrap_items(nfts: Vec<NonFungibleBucket>, Ghost(items): Ghost<Seq<NonFungibleGlobalId>>) -> (r: Vec<
    Bucket,
>)
    requires
        nfts@.len() == items.len(),
        forall|i: int|
            0 <= i < items.len() ==> {
                &&& (#[trigger] nfts@[i]).wf()
                &&& nfts@[i].resource() == items[i].resource_address
                &&& nfts@[i].local_ids() == seq![items[i].local_id]
            },
    ensures
        hold_one_each(r@, items),
{
    let mut nfts = nfts;
    let ghost all = nfts@;
    let total = nfts.len();
    let mut out: Vec<Bucket> = Vec::new();
    let mut i: usize = 0;
    while nfts.len() > 0
        invariant
            i + nfts@.len() == all.len(),
            all.len() == total,
            all.len() == items.len(),
            nfts@ == all.skip(i as int),
            out@.len() == i,
            forall|q: int|
                0 <= q < items.len() ==> {
                    &&& (#[trigger] all[q]).wf()
                    &&& all[q].resource() == items[q].resource_address
                    &&& all[q].local_ids() == seq![items[q].local_id]
                },
            forall|q: int|
                0 <= q < i ==> holds_items(
                    #[trigger] out@[q],
                    items[q].resource_address,
                    seq![items[q].local_id],
                ),
        decreases nfts@.len(),
    {
        let bucket = nfts.remove(0);
        proof {
            assert(bucket == all[i as int]);
            assert(nfts@ =~= all.skip(i as int + 1));
        }
        out.push(Bucket::NonFungible(bucket));
        i += 1;
    }
    out
}

impl GenericMarketplace {
    /// Whether a bulk order of items without enforced royalties can be
    /// served: the marketplace holds its key; the order is not empty; no
    /// seller's total is beyond the range of amounts; the payment covers the
    /// prices; the marketplace's vault could not overflow with the payment;
    /// and no seller refuses its part.
    pub open spec fn plain_route_check(
        &self,
        traders: Map<ComponentAddress, OpenTrader>,
        orders: Seq<Order>,
        full: FungibleBucket,
    ) -> Result<(), Error> {
        if !self.marketplace_listing_key_held {
            Err(Error::NotAuthorized)
        } else if orders.len() == 0 {
            Err(Error::NothingToTrade)
        } else if some_total_overflows(orders) {
            Err(Error::Overflow)
        } else if orders_total(orders) > full.amount@ {
            Err(Error::InsufficientPayment)
        } else if self.balance(full.resource_address) + full.amount@ > u128::MAX {
            Err(Error::Overflow)
        } else {
            match plain_calls_fault(traders, orders, full, self.key(), traders_of(orders)) {
                Some(e) => Err(e),
                None => Ok(()),
            }
        }
    }

    /// The state of everything after the first `n` sellers of the order were
    /// served: each of their accounts has sold its part and every other is
    /// untouched; the marketplace's vault holds their fees, if any; and the
    /// buyer's buckets and the sellers' proceeds are lined up seller by
    /// seller.
    pub open spec fn plain_routed(
        &self,
        next: &GenericMarketplace,
        traders: Map<ComponentAddress, OpenTrader>,
        next_traders: Map<ComponentAddress, OpenTrader>,
        orders: Seq<Order>,
        full: FungibleBucket,
        n: int,
        buckets: Seq<Bucket>,
        revenues: Seq<(ComponentAddress, FungibleBucket)>,
    ) -> bool {
        let sellers = traders_of(orders).take(n);
        let key = self.key();
        let fees = plain_fees_total(traders, orders, full, key, sellers);
        &&& next_traders.dom() =~= traders.dom()
        &&& forall|a: ComponentAddress| #[trigger]
            traders.contains_key(a) ==> (if sellers.contains(a) {
                traders[a].unlisted_many(&next_traders[a], items_for(orders, a))
            } else {
                next_traders[a] == traders[a]
            })
        &&& fees == 0 ==> *next == *self
        &&& fees > 0 ==> self.collected(next, part_of(full, Amount { attos: fees as u128 }))
        &&& hold_one_each(buckets, routed_items(orders, sellers))
        &&& revenues.len() == n
        &&& forall|j: int|
            0 <= j < n ==> {
                let t = (#[trigger] sellers[j]);
                let split = plain_call_check(traders, orders, full, key, t)->Ok_0;
                revenues[j] == (traders[t].my_account, part_of(full, split.seller_revenue))
            }
    }

    /// Serving one more seller extends what
    /// [`GenericMarketplace::plain_routed`] describes by that seller.
    pub proof fn lemma_plain_routed_step(
        &self,
        mid: &GenericMarketplace,
        next: &GenericMarketplace,
        traders: Map<ComponentAddress, OpenTrader>,
        mid_traders: Map<ComponentAddress, OpenTrader>,
        next_traders: Map<ComponentAddress, OpenTrader>,
        orders: Seq<Order>,
        full: FungibleBucket,
        k: int,
        buckets: Seq<Bucket>,
        revenues: Seq<(ComponentAddress, FungibleBucket)>,
        nfts: Seq<Bucket>,
        revenue: (ComponentAddress, FungibleBucket),
    )
        requires
            0 <= k < traders_of(orders).len(),
            traders_of(orders).no_duplicates(),
            self.plain_routed(mid, traders, mid_traders, orders, full, k, buckets, revenues),
            traders.contains_key(traders_of(orders)[k]),
            plain_call_check(traders, orders, full, self.key(), traders_of(orders)[k]) is Ok,
            self.balance(full.resource_address) + full.amount@ <= u128::MAX,
            plain_fees_total(traders, orders, full, self.key(), traders_of(orders).take(k + 1))
                <= full.amount@,
            ({
                let t = traders_of(orders)[k];
                let split = plain_call_check(traders, orders, full, self.key(), t)->Ok_0;
                let items = items_for(orders, t);
                &&& next_traders == mid_traders.insert(t, next_traders[t])
                &&& traders[t].unlisted_many(&next_traders[t], items)
                &&& if split.marketplace_fee@ > 0 {
                    mid.collected(next, part_of(full, split.marketplace_fee))
                } else {
                    *next == *mid
                }
                &&& hold_one_each(nfts, items)
                &&& revenue == (traders[t].my_account, part_of(full, split.seller_revenue))
            }),
        ensures
            self.plain_routed(
                next,
                traders,
                next_traders,
                orders,
                full,
                k + 1,
                buckets + nfts,
                revenues.push(revenue),
            ),
    {
        let all = traders_of(orders);
        let done = all.take(k);
        let next_done = all.take(k + 1);
        let seller = all[k];
        let key = self.key();
        let split = plain_call_check(traders, orders, full, key, seller)->Ok_0;
        let items = items_for(orders, seller);
        let new_buckets = buckets + nfts;
        let new_revenues = revenues.push(revenue);
        let fees_before = plain_fees_total(traders, orders, full, key, done);
        assert(next_done.drop_last() =~= done);
        assert(next_done.last() == seller);
        assert(!done.contains(seller)) by {
            if done.contains(seller) {
                let q = choose|q: int| 0 <= q < done.len() && done[q] == seller;
                assert(all[q] == all[k]);
            }
        }
        if fees_before > 0 && split.marketplace_fee@ > 0 {
            lemma_collected_twice(
                self,
                mid,
                next,
                full,
                Amount { attos: fees_before as u128 },
                split.marketplace_fee,
            );
        }
        assert(next_traders.dom() =~= traders.dom());
        assert forall|a: ComponentAddress| #[trigger] traders.contains_key(a) implies (
        if next_done.contains(a) {
            traders[a].unlisted_many(&next_traders[a], items_for(orders, a))
        } else {
            next_traders[a] == traders[a]
        }) by {
            if a != seller {
                assert(next_traders[a] == mid_traders[a]);
                if next_done.contains(a) {
                    let q = choose|q: int| 0 <= q < next_done.len() && next_done[q] == a;
                    assert(done[q] == a);
                    assert(done.contains(a));
                }
                if done.contains(a) {
                    let q = choose|q: int| 0 <= q < done.len() && done[q] == a;
                    assert(next_done[q] == a);
                }
            } else {
                assert(next_done[k] == a);
            }
        }
        let before_items = routed_items(orders, done);
        let after_items = routed_items(orders, next_done);
        assert(after_items == before_items + items);
        assert forall|i: int| 0 <= i < after_items.len() implies holds_items(
            #[trigger] new_buckets[i],
            after_items[i].resource_address,
            seq![after_items[i].local_id],
        ) by {
            if i < before_items.len() {
                assert(new_buckets[i] == buckets[i]);
                assert(after_items[i] == before_items[i]);
            } else {
                assert(new_buckets[i] == nfts[i - before_items.len()]);
                assert(after_items[i] == items[i - before_items.len()]);
            }
        }
        assert forall|q: int| 0 <= q < k + 1 implies ({
            let t = (#[trigger] next_done[q]);
            let sp = plain_call_check(traders, orders, full, key, t)->Ok_0;
            new_revenues[q] == (traders[t].my_account, part_of(full, sp.seller_revenue))
        }) by {
            if q < k {
                assert(next_done[q] == done[q]);
                assert(new_revenues[q] == revenues[q]);
            }
        }
    }

    /// Asks the seller of `call` whether it would serve the call.
    fn quote_plain_call(traders: &Table<ComponentAddress, OpenTrader>, call: &RoutedCall, key: &Proof) -> (r:
        Result<Settlement, Error>)
        requires
            registry_wf(traders),
        ensures
            r == (if !traders@.contains_key(call.trader) {
                Err::<Settlement, Error>(Error::ListingNotFound)
            } else {
                traders@[call.trader].multi_purchase_check(call.nfgids@, call.payment, *key)
            }),
    {
        match traders.get(&call.trader) {
            Some(trader) => trader.quote_multi_purchase(&call.nfgids, &call.payment, key),
            None => Err(Error::ListingNotFound),
        }
    }

    /// Buys one seller's part of an order that was found to go through.
    fn serve_plain_call(
        &mut self,
        call: RoutedCall,
        key: &Proof,
        traders: &mut Table<ComponentAddress, OpenTrader>,
    ) -> (r: Result<ServedItems, Error>)
        requires
            old(self).wf(),
            registry_wf(old(traders)),
            *key == old(self).key(),
            old(traders)@.contains_key(call.trader),
            old(traders)@[call.trader].multi_purchase_check(call.nfgids@, call.payment, *key)
                is Ok,
            old(self).balance(call.payment.resource_address) + call.payment.amount@ <= u128::MAX,
        ensures
            r is Ok,
            final(self).wf(),
            registry_wf(final(traders)),
            ({
                let t = call.trader;
                let before = old(traders)@[t];
                let split = before.multi_purchase_check(call.nfgids@, call.payment, *key)->Ok_0;
                let part = r->Ok_0;
                &&& final(traders)@ == old(traders)@.insert(t, final(traders)@[t])
                &&& before.unlisted_many(&final(traders)@[t], call.nfgids@)
                &&& if split.marketplace_fee@ > 0 {
                    old(self).collected(final(self), part_of(call.payment, split.marketplace_fee))
                } else {
                    *final(self) == *old(self)
                }
                &&& hold_one_each(part.nfts@, call.nfgids@)
                &&& part.seller_revenue == (before.my_account, part_of(
                    call.payment,
                    split.seller_revenue,
                ))
            }),
    {
        let seller = call.trader;
        let ghost items = call.nfgids@;
        let mut trader = match traders.remove(&seller) {
            Some(trader) => trader,
            None => {
                return Err(Error::ListingNotFound);
            },
        };
        let my_account = trader.my_account;
        let out = match trader.multi_purchase_listing(call.nfgids, call.payment, key) {
            Ok(out) => out,
            Err(e) => {
                return Err(e);
            },
        };
        traders.insert(seller, trader);
        proof {
            assert(traders@ =~= old(traders)@.insert(seller, traders@[seller]));
        }
        match out.marketplace_fee {
            Some(fee) => {
                match self.collect_fee(fee) {
                    Ok(()) => {},
                    Err(e) => {
                        return Err(e);
                    },
                }
            },
            None => {},
        }
        Ok(
            ServedItems {
                nfts: wrap_items(out.nfts, Ghost(items)),
                seller_revenue: (my_account, out.seller_revenue),
            },
        )
    }

    /// Serves a bulk order of items without enforced royalties.
    ///
    /// `traders` are the escrow accounts by address.  The order is served as
    /// [`GenericMarketplace::plain_route_check`] allows and
    /// [`GenericMarketplace::plain_routed`] describes: the buyer gets one
    /// bucket for each item, seller by seller, and at the end what the
    /// payment held beyond the prices.  A refusal changes nothing.
    pub fn multi_listing_purchase(
        &mut self,
        orders: Vec<Order>,
        full_payment: FungibleBucket,
        traders: &mut Table<ComponentAddress, OpenTrader>,
    ) -> (r: Result<Routed, Error>)
        requires
            old(self).wf(),
            registry_wf(old(traders)),
        ensures
            final(self).wf(),
            registry_wf(final(traders)),
            match r {
                Ok(out) => {
                    let n = traders_of(orders@).len() as int;
                    let m = out.buckets@.len() - 1;
                    &&& old(self).plain_route_check(old(traders)@, orders@, full_payment) is Ok
                    &&& n > 0
                    &&& m >= 0
                    &&& old(self).plain_routed(
                        final(self),
                        old(traders)@,
                        final(traders)@,
                        orders@,
                        full_payment,
                        n,
                        out.buckets@.take(m),
                        out.seller_revenues@,
                    )
                    &&& out.buckets@[m] == Bucket::Fungible(
                        part_of(
                            full_payment,
                            Amount { attos: (full_payment.amount@ - orders_total(orders@)) as u128 },
                        ),
                    )
                },
                Err(e) => {
                    &&& old(self).plain_route_check(old(traders)@, orders@, full_payment) == Err::<
                        (),
                        Error,
                    >(e)
                    &&& *final(self) == *old(self)
                    &&& *final(traders) == *old(traders)
                },
            },
    {
        let key = match self.permission() {
            Some(key) => key,
            None => {
                return Err(Error::NotAuthorized);
            },
        };
        if orders.len() == 0 {
            return Err(Error::NothingToTrade);
        }
        let currency = full_payment.resource_address;
        let full_amount = full_payment.amount;
        let ghost full = full_payment;
        let ghost sellers = traders_of(orders@);
        let ghost traders_before = traders@;
        let ghost this_before = *self;
        let plan = match plan_route(&orders, full_payment) {
            Ok(plan) => plan,
            Err(e) => {
                return Err(e);
            },
        };
        match self.fee_balance(currency).checked_add(full_amount) {
            Some(_) => {},
            None => {
                return Err(Error::Overflow);
            },
        }
        proof {
            lemma_traders_of(orders@);
            lemma_totals_add_up(orders@);
            assert(sellers.contains(orders@[0].0));
            assert(sellers.take(0) =~= Seq::<ComponentAddress>::empty());
        }
        let mut j: usize = 0;
        while j < plan.calls.len()
            invariant
                j <= plan.calls@.len(),
                full == full_payment,
                plan.calls@.len() == sellers.len(),
                sellers == traders_of(orders@),
                calls_match(plan.calls@, orders@, full),
                !some_total_overflows(orders@),
                orders@.len() > 0,
                orders_total(orders@) <= full.amount@,
                this_before.marketplace_listing_key_held,
                this_before.balance(full.resource_address) + full.amount@ <= u128::MAX,
                this_before.wf(),
                registry_wf(traders),
                *self == this_before,
                *traders == *old(traders),
                traders@ == traders_before,
                *old(self) == this_before,
                old(traders)@ == traders_before,
                key == this_before.key(),
                plain_calls_fault(traders_before, orders@, full, key, sellers.take(j as int)) is None,
            decreases plan.calls@.len() - j,
        {
            proof {
                assert(sellers.take(j as int + 1).drop_last() =~= sellers.take(j as int));
                assert(sellers.take(j as int + 1).last() == sellers[j as int]);
                let call = plan.calls@[j as int];
                assert(call.trader == sellers[j as int]);
                assert(total_for(orders@, call.trader) <= u128::MAX);
                assert(call.payment == call_payment(orders@, full, call.trader));
                assert(call.nfgids@ == items_for(orders@, call.trader));
            }
            match Self::quote_plain_call(traders, &plan.calls[j], &key) {
                Ok(_) => {},
                Err(e) => {
                    proof {
                        assert(plain_call_check(traders_before, orders@, full, key, sellers[j as int])
                            == Err::<Settlement, Error>(e));
                        assert(plain_calls_fault(
                            traders_before,
                            orders@,
                            full,
                            key,
                            sellers.take(j as int + 1),
                        ) == Some(e));
                        lemma_plain_fault_extends(
                            traders_before,
                            orders@,
                            full,
                            key,
                            sellers,
                            j as int + 1,
                        );
                    }
                    return Err(e);
                },
            }
            j += 1;
        }
        proof {
            assert(sellers.take(sellers.len() as int) =~= sellers);
            lemma_plain_calls_pass(traders_before, orders@, full, key, sellers);
        }
        let mut calls = plan.calls;
        let residue = plan.residue;
        let ghost all_calls = calls@;
        let n = calls.len();
        let mut buckets: Vec<Bucket> = Vec::new();
        let mut seller_revenues: Vec<(ComponentAddress, FungibleBucket)> = Vec::new();
        let mut k: usize = 0;
        while calls.len() > 0
            invariant
                k + calls@.len() == n,
                n == sellers.len(),
                n > 0,
                all_calls.len() == n,
                calls@ == all_calls.skip(k as int),
                sellers == traders_of(orders@),
                sellers.no_duplicates(),
                calls_match(all_calls, orders@, full),
                !some_total_overflows(orders@),
                orders_total(orders@) <= full.amount@,
                sum_totals(orders@, sellers) == orders_total(orders@),
                this_before.wf(),
                this_before.balance(full.resource_address) + full.amount@ <= u128::MAX,
                key == this_before.key(),
                plain_calls_fault(traders_before, orders@, full, key, sellers) is None,
                self.wf(),
                registry_wf(traders),
                this_before.plain_routed(
                    self,
                    traders_before,
                    traders@,
                    orders@,
                    full,
                    k as int,
                    buckets@,
                    seller_revenues@,
                ),
            decreases calls@.len(),
        {
            let ghost before_self = *self;
            let ghost before_traders = traders@;
            let ghost before_buckets = buckets@;
            let ghost before_revenues = seller_revenues@;
            let call = calls.remove(0);
            let ghost seller = call.trader;
            proof {
                assert(call == all_calls[k as int]);
                assert(calls@ =~= all_calls.skip(k as int + 1));
                lemma_plain_step_ready(
                    &this_before,
                    &before_self,
                    traders_before,
                    before_traders,
                    orders@,
                    full,
                    k as int,
                    before_buckets,
                    before_revenues,
                );
                assert(seller == sellers[k as int]);
                assert(total_for(orders@, seller) <= u128::MAX);
                assert(call.payment == call_payment(orders@, full, seller));
                assert(call.nfgids@ == items_for(orders@, seller));
            }
            let mut part = match self.serve_plain_call(call, &key, traders) {
                Ok(part) => part,
                Err(e) => {
                    return Err(e);
                },
            };
            proof {
                let split = plain_call_check(traders_before, orders@, full, key, seller)->Ok_0;
                assert(part_of(call_payment(orders@, full, seller), split.marketplace_fee)
                    == part_of(full, split.marketplace_fee));
                assert(part_of(call_payment(orders@, full, seller), split.seller_revenue)
                    == part_of(full, split.seller_revenue));
                this_before.lemma_plain_routed_step(
                    &before_self,
                    self,
                    traders_before,
                    before_traders,
                    traders@,
                    orders@,
                    full,
                    k as int,
                    before_buckets,
                    before_revenues,
                    part.nfts@,
                    part.seller_revenue,
                );
            }
            buckets.append(&mut part.nfts);
            seller_revenues.push(part.seller_revenue);
            k += 1;
        }
        proof {
            assert(sellers.take(n as int) =~= sellers);
            assert(buckets@.push(Bucket::Fungible(residue)).take(buckets@.len() as int)
                =~= buckets@);
        }
        buckets.push(Bucket::Fungible(residue));
        Ok(Routed { buckets, seller_revenues })
    }

    /// Serves a bulk order of items whose royalties are left to the buyer's
    /// goodwill: such items are sold as items without enforced royalties.
    pub fn multi_listing_honour_purchase(
        &mut self,
        orders: Vec<Order>,
        full_payment: FungibleBucket,
        traders: &mut Table<ComponentAddress, OpenTrader>,
    ) -> (r: Result<Routed, Error>)
        requires
            old(self).wf(),
            registry_wf(old(traders)),
        ensures
            final(self).wf(),
            registry_wf(final(traders)),
            match r {
                Ok(out) => {
                    let n = traders_of(orders@).len() as int;
                    let m = out.buckets@.len() - 1;
                    &&& old(self).plain_route_check(old(traders)@, orders@, full_payment) is Ok
                    &&& n > 0
                    &&& m >= 0
                    &&& old(self).plain_routed(
                        final(self),
                        old(traders)@,
                        final(traders)@,
                        orders@,
                        full_payment,
                        n,
                        out.buckets@.take(m),
                        out.seller_revenues@,
                    )
                    &&& out.buckets@[m] == Bucket::Fungible(
                        part_of(
                            full_payment,
                            Amount { attos: (full_payment.amount@ - orders_total(orders@)) as u128 },
                        ),
                    )
                },
                Err(e) => {
                    &&& old(self).plain_route_check(old(traders)@, orders@, full_payment) == Err::<
                        (),
                        Error,
                    >(e)
                    &&& *final(self) == *old(self)
                    &&& *final(traders) == *old(traders)
                },
            },
    {
        self.multi_listing_purchase(orders, full_payment, traders)
    }
}

/// Before the seller at place `k` is served, its account is as the order
/// found it, and the marketplace's vault cannot overflow.
pub proof fn lemma_plain_step_ready(
    start: &GenericMarketplace,
    now: &GenericMarketplace,
    traders: Map<ComponentAddress, OpenTrader>,
    now_traders: Map<ComponentAddress, OpenTrader>,
    orders: Seq<Order>,
    full: FungibleBucket,
    k: int,
    buckets: Seq<Bucket>,
    revenues: Seq<(ComponentAddress, FungibleBucket)>,
)
    requires
        0 <= k < traders_of(orders).len(),
        traders_of(orders).no_duplicates(),
        start.wf(),
        !some_total_overflows(orders),
        orders_total(orders) <= full.amount@,
        sum_totals(orders, traders_of(orders)) == orders_total(orders),
        start.balance(full.resource_address) + full.amount@ <= u128::MAX,
        plain_calls_fault(traders, orders, full, start.key(), traders_of(orders)) is None,
        start.plain_routed(now, traders, now_traders, orders, full, k, buckets, revenues),
    ensures
        ({
            let t = traders_of(orders)[k];
            let payment = call_payment(orders, full, t);
            &&& traders.contains_key(t)
            &&& now_traders.contains_key(t)
            &&& now_traders[t] == traders[t]
            &&& now.key() == start.key()
            &&& plain_call_check(traders, orders, full, start.key(), t) is Ok
            &&& now.balance(full.resource_address) + payment.amount@ <= u128::MAX
            &&& plain_fees_total(traders, orders, full, start.key(), traders_of(orders).take(k + 1))
                <= full.amount@
        }),
{
    let sellers = traders_of(orders);
    let key = start.key();
    let done = sellers.take(k);
    let next_done = sellers.take(k + 1);
    let t = sellers[k];
    let payment = call_payment(orders, full, t);
    lemma_plain_calls_pass(traders, orders, full, key, sellers);
    lemma_plain_fault_prefix(traders, orders, full, key, sellers, k);
    lemma_plain_fault_prefix(traders, orders, full, key, sellers, k + 1);
    lemma_plain_calls_pass(traders, orders, full, key, done);
    lemma_plain_calls_pass(traders, orders, full, key, next_done);
    lemma_sum_totals_grows(orders, sellers, k);
    lemma_sum_totals_grows(orders, sellers, k + 1);
    assert(next_done.drop_last() =~= done);
    assert(next_done.last() == t);
    assert(plain_call_check(traders, orders, full, key, sellers[k]) is Ok);
    assert(!done.contains(t)) by {
        if done.contains(t) {
            let q = choose|q: int| 0 <= q < done.len() && done[q] == t;
            assert(sellers[q] == sellers[k]);
        }
    }
    assert(traders.contains_key(t));
    assert(now_traders.dom().contains(t));
    assert(total_for(orders, t) <= u128::MAX);
    assert(payment.amount@ == total_for(orders, t));
    assert(sum_totals(orders, next_done) == sum_totals(orders, done) + total_for(orders, t));
}

} // verus!
