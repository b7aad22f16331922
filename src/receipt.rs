//! The receipt: a boxed table with the order's header, one row per line
//! item and a block with subtotal, tax, tip and amount owed.
use vstd::prelude::*;
use crate::clock::{local_date_today, local_time_text};
use crate::money::{tax_cents, tax_of};
use crate::order::{LineItem, LineItemModel, Order, OrderModel};
use crate::order_id::{order_id_text, uuid_text_of};
use crate::text::{dec_text, decimal_text, money_string, money_text, pad_right, push_padded};

verus! {

/// The top of the receipt: the order's identifier text, its server, the date
/// it is printed on, and the column titles.
pub open spec fn header_text(id_text: Seq<char>, server_id: int, date: Seq<char>) -> Seq<char> {
    "┌─────────────────────────────────────────────────────────────┐\n│ Order ID: "@ + id_text + "\n│ Server ID: "@ + dec_text(server_id as nat) + "\n│ Order Date: "@ + date + "\n├─────────────────────────────────────────────────────────────┤\n│ Order Details:                                              │\n├─────────────────────────────────────────────────────────────┤\n│ No.  │ Item       │ Quantity │ Price  │ Date                │\n├──────┼────────────┼──────────┼────────┼─────────────────────┤\n"@
}

/// The row of line item `it`, numbered `no`, added at the local time written
/// `stamp`.
pub open spec fn row_text(no: nat, it: LineItemModel, stamp: Seq<char>) -> Seq<char> {
    "│ "@ + pad_right(dec_text(no), 4) + " │ "@ + pad_right(it.name, 10) + " │ "@ + pad_right(
        dec_text(it.quantity),
        8,
    ) + " │ $"@ + pad_right(money_text(it.price as int), 5) + " │ "@ + stamp + " │\n"@
}

/// The rows of the first `n` items, numbered from 1.
pub open spec fn rows_text(items: Seq<LineItemModel>, stamps: Seq<Seq<char>>, n: nat) -> Seq<char>
    decreases n,
{
    if n == 0 {
        Seq::empty()
    } else {
        rows_text(items, stamps, (n - 1) as nat) + row_text(n, items[n - 1], stamps[n - 1])
    }
}

/// The bottom of the receipt: subtotal, tax on it, tip and amount owed.
pub open spec fn footer_text(o: OrderModel) -> Seq<char> {
    "├──────┴────────────┴──────────┴────────┴─────────────────────┤\n│ Order Total: $"@ + pad_right(money_text(o.subtotal), 8) + "                                      │\n│ Taxes: $"@ + pad_right(
        money_text(tax_of(o.subtotal, o.tax_rate)),
        8,
    ) + "                                            │\n│ Tip: $"@ + pad_right(money_text(o.tip), 8) + "                                              │\n│ Amount Owed: $"@ + pad_right(money_text(o.owed), 8) + "                                      │\n└─────────────────────────────────────────────────────────────┘\n"@
}

/// The whole receipt of `o`, given the text of its identifier, the date, and
/// the local time text of each item.
pub open spec fn receipt_text(
    o: OrderModel,
    id_text: Seq<char>,
    date: Seq<char>,
    stamps: Seq<Seq<char>>,
) -> Seq<char> {
    header_text(id_text, o.server_id, date) + rows_text(o.items, stamps, o.items.len()) + footer_text(o)
}

/// The row of `it`, numbered `no`, with `stamp` as its time.
fn row_string(no: usize, it: &LineItem, stamp: &str) -> (r: String)
    ensures
        r@ == row_text(no as nat, it@, stamp@),
{
    let mut line = String::from_str("│ ");
    push_padded(&mut line, decimal_text(no as u128).as_str(), 4);
    line.append(" │ ");
    push_padded(&mut line, it.name.as_str(), 10);
    line.append(" │ ");
    push_padded(&mut line, decimal_text(it.quantity as u128).as_str(), 8);
    line.append(" │ $");
    push_padded(&mut line, money_string(it.price_cents as i128).as_str(), 5);
    line.append(" │ ");
    line.append(stamp);
    line.append(" │\n");
    line
}

impl Order {
    /// The receipt, given the text of the order's identifier, the date and the
    /// local time text of each item, in item order.
    pub fn format_receipt(&self, id_text: &str, date: &str, stamps: &Vec<String>) -> (r: String)
        requires
            stamps@.len() == self@.items.len(),
        ensures
            r@ == receipt_text(self@, id_text@, date@, stamps@.map_values(|t: String| t@)),
    {
        let ghost st = stamps@.map_values(|t: String| t@);
        let mut s = String::from_str("┌─────────────────────────────────────────────────────────────┐\n│ Order ID: ");
        s.append(id_text);
        s.append("\n│ Server ID: ");
        s.append(decimal_text(self.server_id() as u128).as_str());
        s.append("\n│ Order Date: ");
        s.append(date);
        s.append("\n├─────────────────────────────────────────────────────────────┤\n│ Order Details:                                              │\n├─────────────────────────────────────────────────────────────┤\n│ No.  │ Item       │ Quantity │ Price  │ Date                │\n├──────┼────────────┼──────────┼────────┼─────────────────────┤\n");
        let ghost head = s@;
        assert(head == header_text(id_text@, self@.server_id, date@));
        let items = self.items();
        let n = self.item_count();
        let mut i: usize = 0;
        assert(s@ =~= head + rows_text(self@.items, st, 0));
        while i < n
            invariant
                i <= n,
                n == self@.items.len(),
                n == items@.len(),
                n == stamps@.len(),
                st == stamps@.map_values(|t: String| t@),
                items@.map_values(|it: LineItem| it@) == self@.items,
                s@ == head + rows_text(self@.items, st, i as nat),
            decreases n - i,
        {
            let row = row_string(i + 1, &items[i], stamps[i].as_str());
            assert(items[i as int]@ == self@.items[i as int]);
            s.append(row.as_str());
            assert(s@ =~= head + rows_text(self@.items, st, (i + 1) as nat));
            i = i + 1;
        }
        let mut foot = String::from_str("├──────┴────────────┴──────────┴────────┴─────────────────────┤\n│ Order Total: $");
        push_padded(&mut foot, money_string(self.subtotal_cents() as i128).as_str(), 8);
        foot.append("                                      │\n│ Taxes: $");
        push_padded(&mut foot, money_string(tax_cents(self.subtotal_cents(), self.tax_rate_per_mille())).as_str(), 8);
        foot.append("                                            │\n│ Tip: $");
        push_padded(&mut foot, money_string(self.tip_cents() as i128).as_str(), 8);
        foot.append("                                              │\n│ Amount Owed: $");
        push_padded(&mut foot, money_string(self.amount_owed_cents()).as_str(), 8);
        foot.append("                                      │\n└─────────────────────────────────────────────────────────────┘\n");
        s.append(foot.as_str());
        assert(s@ =~= receipt_text(self@, id_text@, date@, st));
        s
    }

    /// The receipt as printed now: the identifier's text, today's local date
    /// and each item's time in the local time zone.
    pub fn display_order(&self) -> (r: String)
        ensures
            exists|date: Seq<char>, stamps: Seq<Seq<char>>|
                stamps.len() == self@.items.len() && r@ == #[trigger] receipt_text(
                    self@,
                    uuid_text_of(self@.id),
                    date,
                    stamps,
                ),
    {
        let id_text = order_id_text(self.id());
        let date = local_date_today();
        let items = self.items();
        let n = self.item_count();
        let mut stamps: Vec<String> = Vec::new();
        let mut i: usize = 0;
        while i < n
            invariant
                i <= n,
                n == items@.len(),
                stamps@.len() == i,
            decreases n - i,
        {
            stamps.push(local_time_text(items[i].timestamp));
            i = i + 1;
        }
        let r = self.format_receipt(id_text.as_str(), date.as_str(), &stamps);
        assert(stamps@.map_values(|t: String| t@).len() == self@.items.len());
        r
    }
}

} // verus!
