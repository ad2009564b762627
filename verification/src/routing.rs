//! Splitting a bulk order by seller.
//!
//! A bulk order names, for each item, the seller's escrow account and the
//! price.  The orders for one seller are merged into one call with their
//! prices summed; the sellers are served in the order of their first
//! appearance, and within a seller the items keep the order of the bulk
//! order.  The buyer's payment is cut into one payment for each call; what it
//! holds beyond the sum of the prices is the residue.

use crate::address::ComponentAddress;
use crate::address::Key;
use crate::address::NonFungibleGlobalId;
use crate::amount::Amount;
use crate::error::Error;
use crate::resource::FungibleBucket;
use vstd::prelude::*;

verus! {

/// One line of a bulk order: the seller's escrow account, the item, the
/// price.
pub type Order = (ComponentAddress, NonFungibleGlobalId, Amount);

/// The orders for one seller.
pub struct OrderGroup {
    /// The seller's escrow account.
    pub trader: ComponentAddress,
    /// The items ordered from it, in the order of the bulk order.
    pub nfgids: Vec<NonFungibleGlobalId>,
    /// The sum of their prices.
    pub total: Amount,
}

/// One call to a seller's escrow account.
pub struct RoutedCall {
    /// The seller's escrow account.
    pub trader: ComponentAddress,
    /// The items to buy from it.
    pub nfgids: Vec<NonFungibleGlobalId>,
    /// The payment for them: exactly the sum of their prices.
    pub payment: FungibleBucket,
}

/// A bulk order, cut up by seller.
pub struct RoutePlan {
    /// The calls to make, one for each seller.
    pub calls: Vec<RoutedCall>,
    /// What the payment holds beyond the sum of the prices.
    pub residue: FungibleBucket,
}

/// The sellers of a bulk order, each once, in the order of first appearance.
pub open spec fn traders_of(orders: Seq<Order>) -> Seq<ComponentAddress>
    decreases orders.len(),
{
    if orders.len() == 0 {
        Seq::empty()
    } else {
        let before = traders_of(orders.drop_last());
        if before.contains(orders.last().0) {
            before
        } else {
            before.push(orders.last().0)
        }
    }
}

/// The items ordered from `trader`, in the order of the bulk order.
pub open spec fn items_for(orders: Seq<Order>, trader: ComponentAddress) -> Seq<NonFungibleGlobalId>
    decreases orders.len(),
{
    if orders.len() == 0 {
        Seq::empty()
    } else if orders.last().0 == trader {
        items_for(orders.drop_last(), trader).push(orders.last().1)
    } else {
        items_for(orders.drop_last(), trader)
    }
}

/// The sum of the prices of the items ordered from `trader`.
pub open spec fn total_for(orders: Seq<Order>, trader: ComponentAddress) -> nat
    decreases orders.len(),
{
    if orders.len() == 0 {
        0
    } else if orders.last().0 == trader {
        total_for(orders.drop_last(), trader) + orders.last().2@
    } else {
        total_for(orders.drop_last(), trader)
    }
}

/// The sum of the prices of a bulk order.
pub open spec fn orders_total(orders: Seq<Order>) -> nat
    decreases orders.len(),
{
    if orders.len() == 0 {
        0
    } else {
        orders_total(orders.drop_last()) + orders.last().2@
    }
}

/// The sum over `traders` of the totals ordered from each.
pub open spec fn sum_totals(orders: Seq<Order>, traders: Seq<ComponentAddress>) -> nat
    decreases traders.len(),
{
    if traders.len() == 0 {
        0
    } else {
        sum_totals(orders, traders.drop_last()) + total_for(orders, traders.last())
    }
}

/// Whether the total ordered from some seller is beyond the range of
/// amounts.
pub open spec fn some_total_overflows(orders: Seq<Order>) -> bool {
    exists|t: ComponentAddress| total_for(orders, t) > u128::MAX
}

/// Whether `groups` are the first `n` orders of `orders`, split by seller.
pub open spec fn groups_match(groups: Seq<OrderGroup>, orders: Seq<Order>) -> bool {
    &&& groups.len() == traders_of(orders).len()
    &&& forall|i: int|
        0 <= i < groups.len() ==> {
            &&& (#[trigger] groups[i]).trader == traders_of(orders)[i]
            &&& groups[i].nfgids@ == items_for(orders, groups[i].trader)
            &&& groups[i].total@ == total_for(orders, groups[i].trader)
        }
}

/// Whether `calls` serve `orders` out of `payment`: one call for each seller,
/// in the order of first appearance, with the seller's items and a payment of
/// exactly their total in the currency of `payment`.
pub open spec fn calls_match(calls: Seq<RoutedCall>, orders: Seq<Order>, payment: FungibleBucket) -> bool {
    &&& calls.len() == traders_of(orders).len()
    &&& forall|i: int|
        0 <= i < calls.len() ==> {
            &&& (#[trigger] calls[i]).trader == traders_of(orders)[i]
            &&& calls[i].nfgids@ == items_for(orders, calls[i].trader)
            &&& calls[i].payment.resource_address == payment.resource_address
            &&& calls[i].payment.divisibility == payment.divisibility
            &&& calls[i].payment.amount@ == total_for(orders, calls[i].trader)
        }
}

/// The sellers of a bulk order are listed without repetition, and they are
/// the sellers that some order names.
pub proof fn lemma_traders_of(orders: Seq<Order>)
    ensures
        traders_of(orders).no_duplicates(),
        forall|t: ComponentAddress|
            traders_of(orders).contains(t) <==> exists|i: int|
                0 <= i < orders.len() && (#[trigger] orders[i]).0 == t,
    decreases orders.len(),
{
    if orders.len() > 0 {
        let prev = orders.drop_last();
        let last = orders.last();
        lemma_traders_of(prev);
        let before = traders_of(prev);
        let now = traders_of(orders);
        assert forall|t: ComponentAddress| now.contains(t) <==> exists|i: int|
            0 <= i < orders.len() && (#[trigger] orders[i]).0 == t by {
            if now.contains(t) {
                let j = choose|j: int| 0 <= j < now.len() && now[j] == t;
                if j < before.len() {
                    assert(before[j] == t);
                    assert(before.contains(t));
                    let i = choose|i: int| 0 <= i < prev.len() && (#[trigger] prev[i]).0 == t;
                    assert(orders[i].0 == t);
                } else {
                    assert(orders[orders.len() - 1].0 == t);
                }
            }
            if exists|i: int| 0 <= i < orders.len() && (#[trigger] orders[i]).0 == t {
                let i = choose|i: int| 0 <= i < orders.len() && (#[trigger] orders[i]).0 == t;
                if i < prev.len() {
                    assert(prev[i].0 == t);
                    assert(before.contains(t));
                    let j = choose|j: int| 0 <= j < before.len() && before[j] == t;
                    assert(now[j] == t);
                } else {
                    if before.contains(t) {
                    } else {
                        assert(now[before.len() as int] == t);
                    }
                }
            }
        }
        if !before.contains(last.0) {
            assert forall|a: int, b: int| 0 <= a < now.len() && 0 <= b < now.len() && a != b implies now[a]
                != now[b] by {
                if a < before.len() && b < before.len() {
                } else if a < before.len() {
                    assert(before.contains(before[a]));
                } else {
                    assert(before.contains(before[b]));
                }
            }
        }
    }
}

/// Nothing is ordered from a seller that no order names.
pub proof fn lemma_absent_trader(orders: Seq<Order>, t: ComponentAddress)
    requires
        !traders_of(orders).contains(t),
    ensures
        total_for(orders, t) == 0,
        items_for(orders, t) == Seq::<NonFungibleGlobalId>::empty(),
    decreases orders.len(),
{
    if orders.len() > 0 {
        let prev = orders.drop_last();
        let before = traders_of(prev);
        lemma_traders_of(orders);
        lemma_traders_of(prev);
        assert(orders[orders.len() - 1] == orders.last());
        if before.contains(t) {
            let i = choose|i: int| 0 <= i < prev.len() && (#[trigger] prev[i]).0 == t;
            assert(orders[i].0 == t);
        }
        lemma_absent_trader(prev, t);
    }
}

/// Adding an order adds its price to the sum over any list of sellers that
/// names the order's seller once, and leaves the sum over a list that does
/// not name it as it was.
pub proof fn lemma_sum_totals_push(orders: Seq<Order>, order: Order, traders: Seq<ComponentAddress>)
    requires
        traders.no_duplicates(),
    ensures
        sum_totals(orders.push(order), traders) == sum_totals(orders, traders) + (if traders.contains(
            order.0,
        ) {
            order.2@
        } else {
            0
        }),
    decreases traders.len(),
{
    let more = orders.push(order);
    assert(more.drop_last() =~= orders);
    assert(more.last() == order);
    if traders.len() > 0 {
        let init = traders.drop_last();
        let t = traders.last();
        assert(init.no_duplicates()) by {
            assert forall|a: int, b: int| 0 <= a < init.len() && 0 <= b < init.len() && a != b implies init[a]
                != init[b] by {
                assert(init[a] == traders[a] && init[b] == traders[b]);
            }
        }
        lemma_sum_totals_push(orders, order, init);
        if t == order.0 {
            if init.contains(order.0) {
                let j = choose|j: int| 0 <= j < init.len() && init[j] == order.0;
                assert(traders[j] == traders[traders.len() - 1]);
            }
            assert(traders[traders.len() - 1] == order.0);
            assert(traders.contains(order.0));
        } else {
            if traders.contains(order.0) {
                let j = choose|j: int| 0 <= j < traders.len() && traders[j] == order.0;
                assert(init[j] == order.0);
                assert(init.contains(order.0));
            }
            if init.contains(order.0) {
                let j = choose|j: int| 0 <= j < init.len() && init[j] == order.0;
                assert(traders[j] == order.0);
            }
        }
    }
}

/// The totals ordered from the sellers of a bulk order add up to the sum of
/// its prices: cutting an order up by seller neither makes nor loses value.
pub proof fn lemma_totals_add_up(orders: Seq<Order>)
    ensures
        sum_totals(orders, traders_of(orders)) == orders_total(orders),
    decreases orders.len(),
{
    if orders.len() > 0 {
        let prev = orders.drop_last();
        let last = orders.last();
        let before = traders_of(prev);
        lemma_totals_add_up(prev);
        lemma_traders_of(prev);
        assert(prev.push(last) =~= orders);
        lemma_sum_totals_push(prev, last, before);
        if !before.contains(last.0) {
            let now = before.push(last.0);
            assert(now.drop_last() =~= before);
            assert(now.last() == last.0);
            lemma_absent_trader(prev, last.0);
        }
    }
}

/// The sum over a part of a list of sellers is at most the sum over the
/// whole.
pub proof fn lemma_sum_totals_grows(orders: Seq<Order>, traders: Seq<ComponentAddress>, n: int)
    requires
        0 <= n <= traders.len(),
    ensures
        sum_totals(orders, traders.take(n)) <= sum_totals(orders, traders),
    decreases traders.len() - n,
{
    if n < traders.len() {
        assert(traders.take(n + 1).drop_last() =~= traders.take(n));
        lemma_sum_totals_grows(orders, traders, n + 1);
    } else {
        assert(traders.take(n) =~= traders);
    }
}

/// The total ordered from a seller grows with every order added.
pub proof fn lemma_total_for_grows(orders: Seq<Order>, t: ComponentAddress, n: int)
    requires
        0 <= n <= orders.len(),
    ensures
        total_for(orders.take(n), t) <= total_for(orders, t),
    decreases orders.len() - n,
{
    if n < orders.len() {
        assert(orders.take(n + 1).drop_last() =~= orders.take(n));
        lemma_total_for_grows(orders, t, n + 1);
    } else {
        assert(orders.take(n) =~= orders);
    }
}

/// The position of the group of `trader`, if it has one.
fn find_group(groups: &Vec<OrderGroup>, trader: &ComponentAddress) -> (r: Option<usize>)
    ensures
        match r {
            Some(i) => i < groups@.len() && groups@[i as int].trader == *trader,
            None => forall|i: int| 0 <= i < groups@.len() ==> (#[trigger] groups@[i]).trader != *trader,
        },
{
    let mut i: usize = 0;
    while i < groups.len()
        invariant
            i <= groups.len(),
            forall|j: int| 0 <= j < i ==> (#[trigger] groups@[j]).trader != *trader,
        decreases groups.len() - i,
    {
        if groups[i].trader.same(trader) {
            return Some(i);
        }
        i += 1;
    }
    None
}

/// Splits a bulk order by seller.
///
/// Fails with `Overflow` exactly when the total ordered from some seller is
/// beyond the range of amounts.
pub fn group_orders(orders: &Vec<Order>) -> (r: Result<Vec<OrderGroup>, Error>)
    ensures
        match r {
            Ok(groups) => !some_total_overflows(orders@) && groups_match(groups@, orders@),
            Err(e) => e == Error::Overflow && some_total_overflows(orders@),
        },
{
    let mut groups: Vec<OrderGroup> = Vec::new();
    let mut i: usize = 0;
    proof {
        assert(orders@.take(0) =~= Seq::<Order>::empty());
    }
    while i < orders.len()
        invariant
            i <= orders.len(),
            groups_match(groups@, orders@.take(i as int)),
        decreases orders.len() - i,
    {
        let trader = orders[i].0;
        let nfgid = orders[i].1;
        let price = orders[i].2;
        let ghost prev = orders@.take(i as int);
        let ghost now = orders@.take(i as int + 1);
        let ghost old_groups = groups@;
        proof {
            assert(now.drop_last() =~= prev);
            assert(now.last() == orders@[i as int]);
            lemma_traders_of(prev);
        }
        match find_group(&groups, &trader) {
            Some(at) => {
                proof {
                    assert(traders_of(prev)[at as int] == trader);
                    assert(traders_of(prev).contains(trader));
                    lemma_total_for_grows(orders@, trader, i as int + 1);
                }
                let sum = match groups[at].total.checked_add(price) {
                    Some(sum) => sum,
                    None => {
                        return Err(Error::Overflow);
                    },
                };
                let mut group = groups.remove(at);
                group.nfgids.push(nfgid);
                group.total = sum;
                groups.insert(at, group);
                proof {
                    assert forall|j: int| 0 <= j < groups@.len() implies ({
                        &&& (#[trigger] groups@[j]).trader == traders_of(now)[j]
                        &&& groups@[j].nfgids@ == items_for(now, groups@[j].trader)
                        &&& groups@[j].total@ == total_for(now, groups@[j].trader)
                    }) by {
                        if j != at {
                            assert(groups@[j] == old_groups[j]);
                            assert(old_groups[j].trader == traders_of(prev)[j]);
                            assert(traders_of(prev)[j] != traders_of(prev)[at as int]);
                        }
                    }
                }
            },
            None => {
                proof {
                    if traders_of(prev).contains(trader) {
                        let j = choose|j: int|
                            0 <= j < traders_of(prev).len() && traders_of(prev)[j] == trader;
                        assert(old_groups[j].trader == trader);
                    }
                    lemma_absent_trader(prev, trader);
                }
                let mut nfgids: Vec<NonFungibleGlobalId> = Vec::new();
                nfgids.push(nfgid);
                groups.push(OrderGroup { trader, nfgids, total: price });
                proof {
                    assert(nfgids@ =~= items_for(now, trader));
                    assert forall|j: int| 0 <= j < groups@.len() implies ({
                        &&& (#[trigger] groups@[j]).trader == traders_of(now)[j]
                        &&& groups@[j].nfgids@ == items_for(now, groups@[j].trader)
                        &&& groups@[j].total@ == total_for(now, groups@[j].trader)
                    }) by {
                        if j < old_groups.len() {
                            assert(groups@[j] == old_groups[j]);
                            assert(old_groups[j].trader == traders_of(prev)[j]);
                        }
                    }
                }
            },
        }
        i += 1;
    }
    proof {
        assert(orders@.take(orders@.len() as int) =~= orders@);
        lemma_traders_of(orders@);
        assert forall|t: ComponentAddress| total_for(orders@, t) <= u128::MAX by {
            if traders_of(orders@).contains(t) {
                let j = choose|j: int|
                    0 <= j < traders_of(orders@).len() && traders_of(orders@)[j] == t;
                assert(groups@[j].trader == t);
            } else {
                lemma_absent_trader(orders@, t);
            }
        }
    }
    Ok(groups)
}

/// Cuts a bulk order up by seller and the buyer's payment with it.
///
/// Fails with `Overflow` when the total ordered from some seller is beyond
/// the range of amounts, else with `InsufficientPayment` when the payment is
/// less than the sum of the prices.  Otherwise the payments of the calls and
/// the residue add up to the payment.
pub fn plan_route(orders: &Vec<Order>, full_payment: FungibleBucket) -> (r: Result<RoutePlan, Error>)
    ensures
        match r {
            Ok(plan) => {
                &&& !some_total_overflows(orders@)
                &&& orders_total(orders@) <= full_payment.amount@
                &&& calls_match(plan.calls@, orders@, full_payment)
                &&& plan.residue.resource_address == full_payment.resource_address
                &&& plan.residue.divisibility == full_payment.divisibility
                &&& plan.residue.amount@ + orders_total(orders@) == full_payment.amount@
            },
            Err(e) => if some_total_overflows(orders@) {
                e == Error::Overflow
            } else {
                e == Error::InsufficientPayment && orders_total(orders@) > full_payment.amount@
            },
        },
{
    let groups = match group_orders(orders) {
        Ok(groups) => groups,
        Err(e) => {
            return Err(e);
        },
    };
    let ghost traders = traders_of(orders@);
    let mut rest = full_payment;
    let mut calls: Vec<RoutedCall> = Vec::new();
    let mut groups = groups;
    let ghost all_groups = groups@;
    let n = groups.len();
    let mut i: usize = 0;
    proof {
        lemma_totals_add_up(orders@);
        assert(traders.take(0) =~= Seq::<ComponentAddress>::empty());
    }
    while groups.len() > 0
        invariant
            i + groups@.len() == n,
            n == traders.len(),
            traders == traders_of(orders@),
            all_groups.len() == n,
            groups_match(all_groups, orders@),
            groups@ == all_groups.skip(i as int),
            calls@.len() == i,
            rest.resource_address == full_payment.resource_address,
            rest.divisibility == full_payment.divisibility,
            rest.amount@ + sum_totals(orders@, traders.take(i as int)) == full_payment.amount@,
            forall|j: int|
                0 <= j < i ==> {
                    &&& (#[trigger] calls@[j]).trader == traders[j]
                    &&& calls@[j].nfgids@ == items_for(orders@, calls@[j].trader)
                    &&& calls@[j].payment.resource_address == full_payment.resource_address
                    &&& calls@[j].payment.divisibility == full_payment.divisibility
                    &&& calls@[j].payment.amount@ == total_for(orders@, calls@[j].trader)
                },
            sum_totals(orders@, traders) == orders_total(orders@),
            !some_total_overflows(orders@),
        decreases groups@.len(),
    {
        let group = groups.remove(0);
        proof {
            assert(group == all_groups[i as int]);
            assert(groups@ =~= all_groups.skip(i as int + 1));
            assert(traders.take(i as int + 1).drop_last() =~= traders.take(i as int));
            assert(traders.take(i as int + 1).last() == traders[i as int]);
            lemma_sum_totals_grows(orders@, traders, i as int + 1);
            assert(sum_totals(orders@, traders.take(i as int + 1)) == sum_totals(
                orders@,
                traders.take(i as int),
            ) + total_for(orders@, traders[i as int]));
            assert(group.total@ == total_for(orders@, traders[i as int]));
        }
        let payment = match rest.take(group.total) {
            Some(payment) => payment,
            None => {
                return Err(Error::InsufficientPayment);
            },
        };
        calls.push(RoutedCall { trader: group.trader, nfgids: group.nfgids, payment });
        i += 1;
    }
    proof {
        assert(traders.take(n as int) =~= traders);
    }
    Ok(RoutePlan { calls, residue: rest })
}

} // verus!
