use till_order::order::Order;
use till_order::text::{decimal_text, money_string, push_padded};

#[test]
fn decimal_and_money_text() {
    assert_eq!(decimal_text(0), "0");
    assert_eq!(decimal_text(1234), "1234");
    assert_eq!(decimal_text(u128::MAX), u128::MAX.to_string());
    assert_eq!(money_string(1998), "19.98");
    assert_eq!(money_string(5), "0.05");
    assert_eq!(money_string(0), "0.00");
    assert_eq!(money_string(-1205), "-12.05");
    assert_eq!(money_string(-7), "-0.07");
    assert_eq!(money_string(i128::MIN), "-1701411834604692317316873037158841057.28");
}

#[test]
fn padding_counts_characters() {
    let mut s = String::from("|");
    push_padded(&mut s, "ab", 4);
    assert_eq!(s, "|ab  ");
    let mut t = String::new();
    push_padded(&mut t, "Spaghetti!!", 10);
    assert_eq!(t, "Spaghetti!!");
    let mut u = String::new();
    push_padded(&mut u, "é", 3);
    assert_eq!(u, "é  ");
}

#[test]
fn receipt_layout() {
    let mut order = Order::with_id(1, 123);
    order.add_item_at("Burger", 2, 999, 0);
    order.add_item_at("Pizza", 1, 1299, 0);
    order.add_tip(200);
    order.calculate_amount_owed();
    let stamps = vec![
        String::from("2024-01-02 03:04:05"),
        String::from("2024-01-02 03:05:00"),
    ];
    let text = order.format_receipt("ID-TEXT", "2024-01-02", &stamps);
    let expected = [
        "┌─────────────────────────────────────────────────────────────┐",
        "│ Order ID: ID-TEXT",
        "│ Server ID: 123",
        "│ Order Date: 2024-01-02",
        "├─────────────────────────────────────────────────────────────┤",
        "│ Order Details:                                              │",
        "├─────────────────────────────────────────────────────────────┤",
        "│ No.  │ Item       │ Quantity │ Price  │ Date                │",
        "├──────┼────────────┼──────────┼────────┼─────────────────────┤",
        "│ 1    │ Burger     │ 2        │ $9.99  │ 2024-01-02 03:04:05 │",
        "│ 2    │ Pizza      │ 1        │ $12.99 │ 2024-01-02 03:05:00 │",
        "├──────┴────────────┴──────────┴────────┴─────────────────────┤",
        "│ Order Total: $32.97                                         │",
        "│ Taxes: $3.36                                                │",
        "│ Tip: $2.00                                                  │",
        "│ Amount Owed: $38.33                                         │",
        "└─────────────────────────────────────────────────────────────┘",
    ];
    let mut want = String::new();
    for line in expected.iter() {
        want.push_str(line);
        want.push('\n');
    }
    assert_eq!(text, want);
}

#[test]
fn receipt_of_empty_order() {
    let order = Order::with_id(1, 9);
    let text = order.format_receipt("x", "d", &Vec::new());
    assert_eq!(text.lines().count(), 15);
    assert!(text.contains("│ Server ID: 9\n"));
    assert!(text.contains("│ Order Total: $0.00    "));
}

#[test]
fn displayed_receipt_shows_uuid_and_times() {
    let mut order = Order::new(42);
    order.add_item("Coke", 1, 199);
    order.calculate_amount_owed();
    let text = order.display_order();
    let id = uuid::Uuid::from_u128(order.id()).hyphenated().to_string();
    assert!(text.contains(&format!("│ Order ID: {}\n", id)));
    assert!(!text.contains(&format!("│ Order ID: {}\n", order.id())));
    let row = text.lines().nth(9).unwrap();
    assert!(row.starts_with("│ 1    │ Coke       │ 1        │ $1.99  │ "));
    let stamp = &row["│ 1    │ Coke       │ 1        │ $1.99  │ ".len()..row.len() - " │".len()];
    assert_eq!(stamp.len(), 19);
    assert_ne!(stamp, order.items()[0].timestamp.to_string());
    assert_eq!(text.lines().count(), 16);
}
