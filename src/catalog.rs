//! The menu: a fixed set of item names with their unit prices.
use vstd::prelude::*;

verus! {

/// One dish or drink on the menu and its unit price in cents.
pub struct MenuEntry {
    pub name: String,
    pub price_cents: u64,
}

/// The menu. Names are unique, so it maps each name to one price; the order
/// of the entries is only the order in which they are listed.
pub struct MenuCatalog {
    entries: Vec<MenuEntry>,
}

impl View for MenuCatalog {
    type V = Seq<(Seq<char>, nat)>;

    closed spec fn view(&self) -> Seq<(Seq<char>, nat)> {
        self.entries@.map_values(|e: MenuEntry| (e.name@, e.price_cents as nat))
    }
}

/// No two entries of `list` have the same name.
pub open spec fn names_unique(list: Seq<(Seq<char>, nat)>) -> bool {
    forall|i: int, j: int| 0 <= i < j < list.len() ==> list[i].0 != list[j].0
}

/// `list` has an entry `name` priced `price`.
pub open spec fn lists(list: Seq<(Seq<char>, nat)>, name: Seq<char>, price: nat) -> bool {
    exists|i: int| 0 <= i < list.len() && list[i] == (name, price)
}

/// `list` has an entry called `name`.
pub open spec fn has_name(list: Seq<(Seq<char>, nat)>, name: Seq<char>) -> bool {
    exists|i: int| 0 <= i < list.len() && list[i].0 == name
}

/// The restaurant's menu, in the order it is listed.
pub open spec fn standard_menu() -> Seq<(Seq<char>, nat)> {
    seq![
        ("Burger"@, 999nat),
        ("Pizza"@, 1299nat),
        ("Salad"@, 799nat),
        ("Fries"@, 399nat),
        ("Spaghetti"@, 1099nat),
        ("Lasagna"@, 1199nat),
        ("Ravioli"@, 999nat),
        ("Tiramisu"@, 699nat),
        ("Coke"@, 199nat),
        ("Coffee"@, 249nat),
        ("Combo Meal"@, 1599nat),
        ("Kids Meal"@, 899nat),
    ]
}

impl MenuCatalog {
    /// The entries' names are unique.
    pub open spec fn wf(&self) -> bool {
        names_unique(self@)
    }

    /// The restaurant's menu.
    pub fn standard() -> (r: MenuCatalog)
        ensures
            r.wf(),
            r@ == standard_menu(),
    {
        let mut entries: Vec<MenuEntry> = Vec::new();
        entries.push(MenuEntry { name: String::from_str("Burger"), price_cents: 999 });
        entries.push(MenuEntry { name: String::from_str("Pizza"), price_cents: 1299 });
        entries.push(MenuEntry { name: String::from_str("Salad"), price_cents: 799 });
        entries.push(MenuEntry { name: String::from_str("Fries"), price_cents: 399 });
        entries.push(MenuEntry { name: String::from_str("Spaghetti"), price_cents: 1099 });
        entries.push(MenuEntry { name: String::from_str("Lasagna"), price_cents: 1199 });
        entries.push(MenuEntry { name: String::from_str("Ravioli"), price_cents: 999 });
        entries.push(MenuEntry { name: String::from_str("Tiramisu"), price_cents: 699 });
        entries.push(MenuEntry { name: String::from_str("Coke"), price_cents: 199 });
        entries.push(MenuEntry { name: String::from_str("Coffee"), price_cents: 249 });
        entries.push(MenuEntry { name: String::from_str("Combo Meal"), price_cents: 1599 });
        entries.push(MenuEntry { name: String::from_str("Kids Meal"), price_cents: 899 });
        let r = MenuCatalog { entries };
        proof {
            reveal_strlit("Burger");
            reveal_strlit("Pizza");
            reveal_strlit("Salad");
            reveal_strlit("Fries");
            reveal_strlit("Spaghetti");
            reveal_strlit("Lasagna");
            reveal_strlit("Ravioli");
            reveal_strlit("Tiramisu");
            reveal_strlit("Coke");
            reveal_strlit("Coffee");
            reveal_strlit("Combo Meal");
            reveal_strlit("Kids Meal");
            let l = r@;
            assert(l =~= standard_menu());
            assert forall|i: int, j: int| 0 <= i < j < l.len() implies l[i].0 != l[j].0 by {
                assert(l[i].0.len() != l[j].0.len() || l[i].0[0] != l[j].0[0] || l[i].0[1]
                    != l[j].0[1] || l[i].0[2] != l[j].0[2]);
            }
        }
        r
    }

    /// The price of `name`, if the menu has it. Names match exactly, case
    /// included.
    pub fn lookup(&self, name: &str) -> (r: Option<u64>)
        requires
            self.wf(),
        ensures
            r is None <==> !has_name(self@, name@),
            r matches Some(p) ==> lists(self@, name@, p as nat),
    {
        let key = String::from_str(name);
        let mut i: usize = 0;
        while i < self.entries.len()
            invariant
                i <= self.entries.len(),
                key@ == name@,
                forall|k: int| 0 <= k < i ==> self@[k].0 != name@,
            decreases self.entries.len() - i,
        {
            if self.entries[i].name == key {
                assert(self@[i as int] == (name@, self.entries[i as int].price_cents as nat));
                return Some(self.entries[i].price_cents);
            }
            i = i + 1;
        }
        None
    }

    /// The entries, in the order they are listed.
    pub fn list(&self) -> (r: &Vec<MenuEntry>)
        ensures
            r@.map_values(|e: MenuEntry| (e.name@, e.price_cents as nat)) == self@,
    {
        &self.entries
    }
}

} // verus!
