//! The order aggregate: line items, subtotal, fixed tax rate, tip and the
//! amount owed as last computed.
use vstd::prelude::*;
use crate::clock::now_unix_seconds;
use crate::money::{owed_cents, owed_of, TAX_RATE_PER_MILLE};
use crate::order_id::new_order_id;

verus! {

/// One menu item bought at a quantity, with the unit price it had when it was
/// added and the moment it was added, in seconds since the Unix epoch (UTC).
pub struct LineItem {
    pub name: String,
    pub quantity: u32,
    pub price_cents: u64,
    pub timestamp: i64,
}

/// What a line item holds, as mathematical values.
pub ghost struct LineItemModel {
    pub name: Seq<char>,
    pub quantity: nat,
    pub price: nat,
    pub timestamp: int,
}

impl View for LineItem {
    type V = LineItemModel;

    open spec fn view(&self) -> LineItemModel {
        LineItemModel {
            name: self.name@,
            quantity: self.quantity as nat,
            price: self.price_cents as nat,
            timestamp: self.timestamp as int,
        }
    }
}

/// Unit price times quantity, in cents.
pub open spec fn line_total(it: LineItemModel) -> nat {
    it.price * it.quantity
}

/// Sum of the line totals of `items`, in cents.
pub open spec fn items_total(items: Seq<LineItemModel>) -> nat
    decreases items.len(),
{
    if items.len() == 0 {
        0
    } else {
        items_total(items.drop_last()) + line_total(items.last())
    }
}

/// What an order holds, as mathematical values. Money is in cents; the tax
/// rate is in thousandths.
pub ghost struct OrderModel {
    pub id: u128,
    pub items: Seq<LineItemModel>,
    pub subtotal: int,
    pub tax_rate: int,
    pub tip: int,
    pub owed: int,
    pub server_id: int,
}

impl OrderModel {
    /// The order after `it` is appended to its items.
    pub open spec fn with_item(self, it: LineItemModel) -> OrderModel {
        OrderModel {
            items: self.items.push(it),
            subtotal: self.subtotal + line_total(it),
            ..self
        }
    }

    /// The order after the item at `index` is deleted; an index out of range
    /// leaves it as it is.
    pub open spec fn without_item(self, index: int) -> OrderModel {
        if 0 <= index < self.items.len() {
            OrderModel {
                items: self.items.remove(index),
                subtotal: self.subtotal - line_total(self.items[index]),
                ..self
            }
        } else {
            self
        }
    }

    /// The order with its tip replaced by `tip`.
    pub open spec fn with_tip(self, tip: int) -> OrderModel {
        OrderModel { tip, ..self }
    }

    /// The order with the amount owed brought up to date.
    pub open spec fn with_owed_computed(self) -> OrderModel {
        OrderModel { owed: owed_of(self.subtotal, self.tax_rate, self.tip), ..self }
    }

    /// The subtotal is the exact sum of the line totals and the tax rate is
    /// the fixed one.
    pub open spec fn consistent(self) -> bool {
        &&& self.subtotal == items_total(self.items)
        &&& self.tax_rate == TAX_RATE_PER_MILLE as int
    }
}

/// Deleting one item takes exactly its line total off the sum.
pub proof fn lemma_items_total_remove(items: Seq<LineItemModel>, index: int)
    requires
        0 <= index < items.len(),
    ensures
        items_total(items.remove(index)) + line_total(items[index]) == items_total(items),
    decreases items.len(),
{
    if index == items.len() - 1 {
        assert(items.remove(index) =~= items.drop_last());
    } else {
        let rest = items.remove(index);
        assert(rest.drop_last() =~= items.drop_last().remove(index));
        assert(rest.last() == items.last());
        lemma_items_total_remove(items.drop_last(), index);
    }
}

/// Every change to the items keeps the subtotal equal to the exact sum of
/// price times quantity over the items that are in the order: after adding an
/// item, and after removing one at any index.
pub proof fn lemma_subtotal_tracks_items(o: OrderModel, it: LineItemModel, index: int)
    requires
        o.consistent(),
    ensures
        o.with_item(it).consistent(),
        o.without_item(index).consistent(),
{
    assert(o.with_item(it).items.drop_last() =~= o.items);
    if 0 <= index < o.items.len() {
        lemma_items_total_remove(o.items, index);
    }
}

/// Adding an item and then removing it again, at the position it was added
/// at, gives back the order as it was, subtotal included.
pub proof fn lemma_add_then_remove_restores(o: OrderModel, it: LineItemModel)
    requires
        o.consistent(),
    ensures
        o.with_item(it).without_item(o.items.len() as int) == o,
{
    assert(o.with_item(it).items.remove(o.items.len() as int) =~= o.items);
}

/// No change to an order alters its tax rate: adding or removing an item,
/// setting the tip, computing the amount owed.
pub proof fn lemma_tax_rate_fixed(o: OrderModel, it: LineItemModel, index: int, tip: int)
    ensures
        o.with_item(it).tax_rate == o.tax_rate,
        o.without_item(index).tax_rate == o.tax_rate,
        o.with_tip(tip).tax_rate == o.tax_rate,
        o.with_owed_computed().tax_rate == o.tax_rate,
{
}

/// An order being taken: its items in the order they were added, the
/// subtotal, the tax rate, the tip and the amount owed as last computed.
pub struct Order {
    id: u128,
    items: Vec<LineItem>,
    subtotal_cents: u64,
    tax_rate_per_mille: u32,
    tip_cents: i64,
    owed_cents: i128,
    server_id: u32,
}

impl View for Order {
    type V = OrderModel;

    closed spec fn view(&self) -> OrderModel {
        OrderModel {
            id: self.id,
            items: self.items@.map_values(|it: LineItem| it@),
            subtotal: self.subtotal_cents as int,
            tax_rate: self.tax_rate_per_mille as int,
            tip: self.tip_cents as int,
            owed: self.owed_cents as int,
            server_id: self.server_id as int,
        }
    }
}

impl Order {
    /// The order's fields agree with one another.
    pub closed spec fn wf(&self) -> bool {
        self@.consistent()
    }

    /// An empty order with the given identifier, taken by `server_id`.
    pub fn with_id(id: u128, server_id: u32) -> (r: Order)
        ensures
            r.wf(),
            r@ == (OrderModel {
                id,
                items: Seq::empty(),
                subtotal: 0,
                tax_rate: TAX_RATE_PER_MILLE as int,
                tip: 0,
                owed: 0,
                server_id: server_id as int,
            }),
    {
        let r = Order {
            id,
            items: Vec::new(),
            subtotal_cents: 0,
            tax_rate_per_mille: TAX_RATE_PER_MILLE,
            tip_cents: 0,
            owed_cents: 0,
            server_id,
        };
        assert(r@.items =~= Seq::empty());
        r
    }

    /// An empty order with a fresh random identifier, taken by `server_id`.
    pub fn new(server_id: u32) -> (r: Order)
        ensures
            r.wf(),
            r@.items.len() == 0,
            r@.subtotal == 0,
            r@.tax_rate == TAX_RATE_PER_MILLE as int,
            r@.tip == 0,
            r@.owed == 0,
            r@.server_id == server_id as int,
    {
        Order::with_id(new_order_id(), server_id)
    }

    /// Appends `quantity` of `item` at `price_cents` each, stamped with the
    /// current time, and adds its line total to the subtotal.
    pub fn add_item(&mut self, item: &str, quantity: u32, price_cents: u64)
        requires
            old(self).wf(),
            old(self)@.subtotal + price_cents * quantity <= u64::MAX,
        ensures
            final(self).wf(),
            final(self)@ == old(self)@.with_item(
                LineItemModel {
                    name: item@,
                    quantity: quantity as nat,
                    price: price_cents as nat,
                    timestamp: final(self)@.items.last().timestamp,
                },
            ),
            final(self)@.items.len() == old(self)@.items.len() + 1,
            final(self)@.subtotal == old(self)@.subtotal + price_cents * quantity,
            final(self)@.subtotal == items_total(final(self)@.items),
            final(self)@.tax_rate == old(self)@.tax_rate,
    {
        let now = now_unix_seconds();
        self.add_item_at(item, quantity, price_cents, now);
    }

    /// Appends `quantity` of `item` at `price_cents` each, added at
    /// `timestamp`, and adds its line total to the subtotal.
    pub fn add_item_at(&mut self, item: &str, quantity: u32, price_cents: u64, timestamp: i64)
        requires
            old(self).wf(),
            old(self)@.subtotal + price_cents * quantity <= u64::MAX,
        ensures
            final(self).wf(),
            final(self)@ == old(self)@.with_item(
                LineItemModel {
                    name: item@,
                    quantity: quantity as nat,
                    price: price_cents as nat,
                    timestamp: timestamp as int,
                },
            ),
            final(self)@.subtotal == items_total(final(self)@.items),
            final(self)@.tax_rate == old(self)@.tax_rate,
    {
        let line = LineItem { name: String::from_str(item), quantity, price_cents, timestamp };
        let ghost it = line@;
        let ghost before = self.items@;
        self.items.push(line);
        assert(self.items@.map_values(|it: LineItem| it@) =~= before.map_values(
            |it: LineItem| it@,
        ).push(it));
        assert(self@.items.drop_last() =~= old(self)@.items);
        self.subtotal_cents = self.subtotal_cents + price_cents * quantity as u64;
    }

    /// Deletes the item at `index` and takes its line total off the
    /// subtotal. An index past the last item leaves the order unchanged.
    pub fn remove_item(&mut self, index: usize)
        requires
            old(self).wf(),
        ensures
            final(self).wf(),
            final(self)@ == old(self)@.without_item(index as int),
            index >= old(self)@.items.len() ==> *final(self) == *old(self),
            final(self)@.subtotal == items_total(final(self)@.items),
            final(self)@.tax_rate == old(self)@.tax_rate,
    {
        if index < self.items.len() {
            let ghost before = self@.items;
            let removed = self.items.remove(index);
            proof {
                lemma_items_total_remove(before, index as int);
                assert(self@.items =~= before.remove(index as int));
                assert(removed@ == before[index as int]);
            }
            let line: u64 = removed.price_cents * removed.quantity as u64;
            self.subtotal_cents = self.subtotal_cents - line;
        }
    }

    /// Replaces the tip with `tip_cents`, whatever its sign.
    pub fn add_tip(&mut self, tip_cents: i64)
        requires
            old(self).wf(),
        ensures
            final(self).wf(),
            final(self)@ == old(self)@.with_tip(tip_cents as int),
            final(self)@.tax_rate == old(self)@.tax_rate,
    {
        self.tip_cents = tip_cents;
    }

    /// Brings the amount owed up to date: subtotal plus tax plus tip,
    /// rounded to whole cents.
    pub fn calculate_amount_owed(&mut self)
        requires
            old(self).wf(),
        ensures
            final(self).wf(),
            final(self)@ == old(self)@.with_owed_computed(),
            final(self)@.owed == owed_of(old(self)@.subtotal, old(self)@.tax_rate, old(self)@.tip),
            final(self)@.tax_rate == old(self)@.tax_rate,
    {
        self.owed_cents = owed_cents(self.subtotal_cents, self.tax_rate_per_mille, self.tip_cents);
    }

    /// The order's identifier, as the 128-bit value of its UUID.
    pub fn id(&self) -> (r: u128)
        ensures
            r == self@.id,
    {
        self.id
    }

    /// The line items, in the order they were added.
    pub fn items(&self) -> (r: &Vec<LineItem>)
        ensures
            r@.map_values(|it: LineItem| it@) == self@.items,
    {
        &self.items
    }

    /// How many line items the order holds.
    pub fn item_count(&self) -> (r: usize)
        ensures
            r == self@.items.len(),
    {
        self.items.len()
    }

    /// The subtotal, in cents.
    pub fn subtotal_cents(&self) -> (r: u64)
        ensures
            r == self@.subtotal,
    {
        self.subtotal_cents
    }

    /// The tax rate, in thousandths.
    pub fn tax_rate_per_mille(&self) -> (r: u32)
        ensures
            r == self@.tax_rate,
    {
        self.tax_rate_per_mille
    }

    /// The tip, in cents.
    pub fn tip_cents(&self) -> (r: i64)
        ensures
            r == self@.tip,
    {
        self.tip_cents
    }

    /// The amount owed as last computed, in cents.
    pub fn amount_owed_cents(&self) -> (r: i128)
        ensures
            r == self@.owed,
    {
        self.owed_cents
    }

    /// The server who takes the order.
    pub fn server_id(&self) -> (r: u32)
        ensures
            r == self@.server_id,
    {
        self.server_id
    }
}

} // verus!
