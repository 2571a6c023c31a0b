use shuttlings_cch24::days::day_5::{manifest_orders, Day5Error, Order};

fn order(item: &str, quantity: usize) -> Option<Order> {
    Some(Order { item: item.to_string(), quantity })
}

fn magic() -> Option<Vec<String>> {
    Some(vec!["event".to_string(), "Christmas 2024".to_string()])
}

#[test]
fn valid_orders_are_listed() {
    let orders = vec![order("Toy car", 2), None, order("Lego brick", 230)];
    assert_eq!(
        manifest_orders(magic(), Some(orders)).unwrap(),
        "Toy car: 2\nLego brick: 230"
    );
}

#[test]
fn single_order_has_no_line_break() {
    let orders = vec![None, order("Snow globe", 0)];
    assert_eq!(manifest_orders(magic(), Some(orders)).unwrap(), "Snow globe: 0");
}

#[test]
fn missing_magic_keyword() {
    let keywords = Some(vec!["christmas 2024".to_string()]);
    let r = manifest_orders(keywords, Some(vec![order("Toy car", 2)]));
    assert_eq!(r.unwrap_err(), Day5Error::NoMagicKeyword);
    assert_eq!(manifest_orders(Some(vec![]), None).unwrap_err(), Day5Error::NoMagicKeyword);
}

#[test]
fn no_valid_orders() {
    assert_eq!(manifest_orders(None, None).unwrap_err(), Day5Error::NoOrders);
    assert_eq!(manifest_orders(magic(), None).unwrap_err(), Day5Error::NoOrders);
    assert_eq!(manifest_orders(magic(), Some(vec![None, None])).unwrap_err(), Day5Error::NoOrders);
    assert_eq!(manifest_orders(magic(), Some(vec![])).unwrap_err(), Day5Error::NoOrders);
}

#[test]
fn manifest_error_texts() {
    assert_eq!(Day5Error::ParseError.message(), "Invalid manifest");
    assert_eq!(Day5Error::ParseError.status_code(), 400);
    assert_eq!(Day5Error::NoMagicKeyword.message(), "Magic keyword not provided");
    assert_eq!(Day5Error::NoOrders.message(), "no orders");
    assert_eq!(Day5Error::NoOrders.status_code(), 204);
}
