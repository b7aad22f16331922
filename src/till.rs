//! The decisions of the till's command loop: which command a menu number
//! selects, and the checks each command makes before it changes the order.
use vstd::prelude::*;
use crate::catalog::{has_name, lists, MenuCatalog};
use crate::order::{line_total, LineItemModel, Order};

verus! {

/// The commands of the till's menu, numbered 1 to 5.
#[derive(Clone, Copy, Debug, PartialEq, Eq, Structural)]
pub enum Command {
    AddItem,
    RemoveItem,
    AddTip,
    DisplayOrder,
    Exit,
}

/// The command that menu number `choice` selects, if any.
pub open spec fn command_spec(choice: u32) -> Option<Command> {
    if choice == 1 {
        Some(Command::AddItem)
    } else if choice == 2 {
        Some(Command::RemoveItem)
    } else if choice == 3 {
        Some(Command::AddTip)
    } else if choice == 4 {
        Some(Command::DisplayOrder)
    } else if choice == 5 {
        Some(Command::Exit)
    } else {
        None
    }
}

impl Command {
    /// The command that menu number `choice` selects; `None` for a number
    /// outside 1 to 5.
    pub fn from_choice(choice: u32) -> (r: Option<Command>)
        ensures
            r == command_spec(choice),
    {
        if choice == 1 {
            Some(Command::AddItem)
        } else if choice == 2 {
            Some(Command::RemoveItem)
        } else if choice == 3 {
            Some(Command::AddTip)
        } else if choice == 4 {
            Some(Command::DisplayOrder)
        } else if choice == 5 {
            Some(Command::Exit)
        } else {
            None
        }
    }
}

/// Why an item could not be added from the menu.
#[derive(Clone, Copy, Debug, PartialEq, Eq, Structural)]
pub enum AddError {
    /// The menu has no item of that name.
    UnknownItem,
    /// The subtotal would no longer fit in 64 bits of cents.
    SubtotalTooLarge,
}

impl Order {
    /// The order has no items.
    pub fn is_empty(&self) -> (r: bool)
        ensures
            r == (self@.items.len() == 0),
    {
        self.item_count() == 0
    }

    /// A tip may be set: the subtotal is above zero.
    pub fn accepts_tip(&self) -> (r: bool)
        ensures
            r == (self@.subtotal > 0),
    {
        self.subtotal_cents() > 0
    }

    /// Adds `quantity` of the menu item `name` at the menu's price.
    pub fn add_from_menu(&mut self, menu: &MenuCatalog, name: &str, quantity: u32) -> (r: Result<(), AddError>)
        requires
            old(self).wf(),
            menu.wf(),
        ensures
            final(self).wf(),
            r == Err::<(), AddError>(AddError::UnknownItem) <==> !has_name(menu@, name@),
            r is Err ==> *final(self) == *old(self),
            r is Ok <==> exists|p: nat|
                lists(menu@, name@, p) && old(self)@.subtotal + p * quantity <= u64::MAX,
            r is Ok ==> exists|p: nat|
                lists(menu@, name@, p) && final(self)@ == old(self)@.with_item(
                    LineItemModel {
                        name: name@,
                        quantity: quantity as nat,
                        price: p,
                        timestamp: final(self)@.items.last().timestamp,
                    },
                ),
    {
        match menu.lookup(name) {
            None => Err(AddError::UnknownItem),
            Some(price) => {
                assert(price as int * quantity as int <= 0xffff_ffff_ffff_ffff * 0xffff_ffff) by (nonlinear_arith)
                    requires
                        price <= 0xffff_ffff_ffff_ffffu64,
                        quantity <= 0xffff_ffffu32,
                ;
                let line: u128 = price as u128 * quantity as u128;
                if self.subtotal_cents() as u128 + line > u64::MAX as u128 {
                    proof {
                        assert forall|p: nat| lists(menu@, name@, p) implies old(self)@.subtotal + p
                            * quantity > u64::MAX by {
                            let i = choose|i: int| 0 <= i < menu@.len() && menu@[i] == (name@, price as nat);
                            let j = choose|j: int| 0 <= j < menu@.len() && menu@[j] == (name@, p);
                            assert(menu@[i].0 == menu@[j].0);
                            assert(i == j) by {
                                if i < j {
                                    assert(menu@[i].0 != menu@[j].0);
                                } else if j < i {
                                    assert(menu@[j].0 != menu@[i].0);
                                }
                            }
                        }
                    }
                    Err(AddError::SubtotalTooLarge)
                } else {
                    self.add_item(name, quantity, price);
                    Ok(())
                }
            },
        }
    }

    /// Removes the item that the list shows as number `number`, counting
    /// from 1. A number that names no item, 0 included, changes nothing.
    pub fn remove_item_number(&mut self, number: usize)
        requires
            old(self).wf(),
        ensures
            final(self).wf(),
            final(self)@ == old(self)@.without_item(number - 1),
            number == 0 || number > old(self)@.items.len() ==> *final(self) == *old(self),
    {
        if number >= 1 {
            self.remove_item(number - 1);
        }
    }
}

} // verus!
