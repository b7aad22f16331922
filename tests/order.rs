use till_order::money::{owed_cents, tax_cents, TAX_RATE_PER_MILLE};
use till_order::order::Order;

#[test]
fn test_add_item() {
    let mut order = Order::new(123);
    order.add_item("Burger", 2, 999);

    assert_eq!(order.items().len(), 1);
    assert_eq!(order.subtotal_cents(), 1998);
}

#[test]
fn test_remove_item() {
    let mut order = Order::new(123);
    order.add_item("Burger", 2, 999);
    println!("Order Total: {}", order.subtotal_cents());
    order.add_item("Pizza", 1, 1299);
    println!("Order Total: {}", order.subtotal_cents());
    order.remove_item(0);
    println!("Order Total: {}", order.subtotal_cents());

    assert_eq!(order.items().len(), 1);
    assert_eq!(order.subtotal_cents(), 1299);
}

#[test]
fn test_add_tip() {
    let mut order = Order::new(123);
    order.add_item("Burger", 2, 999);
    order.add_tip(200);

    assert_eq!(order.tip_cents(), 200);
}

#[test]
fn test_calculate_amount_owed() {
    let mut order = Order::new(123);
    order.add_item("Burger", 2, 999);
    order.add_tip(200);
    order.calculate_amount_owed();

    assert_eq!(order.amount_owed_cents(), 2402);
}

#[test]
fn new_order_is_empty() {
    let order = Order::new(7);
    assert_eq!(order.item_count(), 0);
    assert_eq!(order.subtotal_cents(), 0);
    assert_eq!(order.tip_cents(), 0);
    assert_eq!(order.amount_owed_cents(), 0);
    assert_eq!(order.server_id(), 7);
    assert_eq!(order.tax_rate_per_mille(), 102);
    assert!(order.is_empty());
}

#[test]
fn new_order_id_is_version_four() {
    let order = Order::new(1);
    assert_eq!((order.id() >> 76) & 0xf, 4);
    let other = Order::new(1);
    assert_ne!(order.id(), other.id());
}

#[test]
fn remaining_item_is_pizza() {
    let mut order = Order::with_id(1, 123);
    order.add_item_at("Burger", 2, 999, 10);
    order.add_item_at("Pizza", 1, 1299, 20);
    order.remove_item(0);
    assert_eq!(order.items()[0].name, "Pizza");
    assert_eq!(order.items()[0].quantity, 1);
    assert_eq!(order.items()[0].price_cents, 1299);
    assert_eq!(order.items()[0].timestamp, 20);
}

#[test]
fn subtotal_follows_adds_and_removes() {
    let mut order = Order::with_id(1, 123);
    order.add_item_at("Burger", 2, 999, 0);
    assert_eq!(order.subtotal_cents(), 1998);
    order.add_item_at("Coke", 3, 199, 0);
    assert_eq!(order.subtotal_cents(), 2595);
    order.add_item_at("Coffee", 1, 249, 0);
    assert_eq!(order.subtotal_cents(), 2844);
    order.remove_item(1);
    assert_eq!(order.subtotal_cents(), 2247);
    order.remove_item(0);
    assert_eq!(order.subtotal_cents(), 249);
    order.remove_item(0);
    assert_eq!(order.subtotal_cents(), 0);
    assert_eq!(order.item_count(), 0);
}

#[test]
fn remove_out_of_range_changes_nothing() {
    let mut order = Order::with_id(1, 123);
    order.add_item_at("Burger", 2, 999, 5);
    order.add_tip(150);
    order.remove_item(1);
    order.remove_item(1);
    order.remove_item(usize::MAX);
    assert_eq!(order.item_count(), 1);
    assert_eq!(order.subtotal_cents(), 1998);
    assert_eq!(order.tip_cents(), 150);
    assert_eq!(order.items()[0].name, "Burger");
}

#[test]
fn remove_from_empty_order_changes_nothing() {
    let mut order = Order::with_id(1, 123);
    order.remove_item(0);
    assert_eq!(order.item_count(), 0);
    assert_eq!(order.subtotal_cents(), 0);
}

#[test]
fn add_then_remove_restores_subtotal() {
    let mut order = Order::with_id(1, 123);
    order.add_item_at("Pizza", 1, 1299, 0);
    for _ in 0..100 {
        let before = order.subtotal_cents();
        order.add_item_at("Salad", 3, 799, 0);
        assert_eq!(order.subtotal_cents(), before + 2397);
        let last = order.item_count() - 1;
        order.remove_item(last);
        assert_eq!(order.subtotal_cents(), before);
        assert_eq!(order.item_count(), 1);
    }
    assert_eq!(order.subtotal_cents(), 1299);
}

#[test]
fn tax_rate_never_changes() {
    let mut order = Order::with_id(1, 123);
    assert_eq!(order.tax_rate_per_mille(), TAX_RATE_PER_MILLE);
    order.add_item_at("Burger", 2, 999, 0);
    assert_eq!(order.tax_rate_per_mille(), 102);
    order.add_tip(-500);
    assert_eq!(order.tax_rate_per_mille(), 102);
    order.remove_item(0);
    assert_eq!(order.tax_rate_per_mille(), 102);
    order.calculate_amount_owed();
    assert_eq!(order.tax_rate_per_mille(), 102);
}

#[test]
fn tip_is_overwritten_whatever_came_before() {
    let mut order = Order::with_id(1, 123);
    order.add_tip(200);
    assert_eq!(order.tip_cents(), 200);
    order.add_tip(-75);
    assert_eq!(order.tip_cents(), -75);
    order.add_item_at("Fries", 1, 399, 0);
    order.add_tip(200);
    assert_eq!(order.tip_cents(), 200);
}

#[test]
fn amount_owed_is_stale_until_computed() {
    let mut order = Order::with_id(1, 123);
    order.add_item_at("Burger", 2, 999, 0);
    assert_eq!(order.amount_owed_cents(), 0);
    order.calculate_amount_owed();
    assert_eq!(order.amount_owed_cents(), 2202);
    order.add_item_at("Coke", 1, 199, 0);
    assert_eq!(order.amount_owed_cents(), 2202);
    order.calculate_amount_owed();
    assert_eq!(order.amount_owed_cents(), 2421);
}

#[test]
fn negative_tip_lowers_amount_owed() {
    let mut order = Order::with_id(1, 123);
    order.add_item_at("Coke", 1, 199, 0);
    order.add_tip(-500);
    order.calculate_amount_owed();
    assert_eq!(order.amount_owed_cents(), -281);
}

#[test]
fn tax_is_rounded_to_cents() {
    assert_eq!(tax_cents(1998, 102), 204);
    assert_eq!(tax_cents(0, 102), 0);
    assert_eq!(tax_cents(250, 102), 26);
    assert_eq!(tax_cents(u64::MAX, 102), 1_881_567_895_518_374_265);
}

#[test]
fn owed_rounds_halves_away_from_zero() {
    assert_eq!(owed_cents(1998, 102, 200), 2402);
    assert_eq!(owed_cents(250, 102, 0), 276);
    assert_eq!(owed_cents(250, 102, -300), -25);
    assert_eq!(owed_cents(0, 102, -150), -150);
    assert_eq!(owed_cents(0, 102, i64::MIN), i64::MIN as i128);
}
