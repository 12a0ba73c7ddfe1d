use paypal::{
    capture_url, check_captured, check_success, order_url, orders_url, Amount, ApplicationContext,
    Error, OrderDetails, OrderIntent, OrderStatus, ShippingPreference, UserAction,
};

fn details(status: OrderStatus) -> OrderDetails {
    OrderDetails { id: "5O190127TN364715T".to_string(), status, links: Vec::new() }
}

#[test]
fn euro_amounts() {
    let a = Amount::euro(12, 50);
    assert_eq!(a.value, "12.50");
    assert_eq!(a.currency_code, "EUR");
    assert_eq!(Amount::euro(0, 0).value, "0.0");
    assert_eq!(Amount::euro(3, 5).value, "3.5");
    assert_eq!(Amount::euro(1000, 9).value, "1000.9");
    assert_eq!(Amount::euro(u32::MAX, 99).value, "4294967295.99");
}

#[test]
fn success_statuses() {
    assert!(check_success(200).is_ok());
    assert!(check_success(201).is_ok());
    assert!(check_success(299).is_ok());
    assert!(matches!(check_success(199), Err(Error::Status(199))));
    assert!(matches!(check_success(300), Err(Error::Status(300))));
    assert!(matches!(check_success(401), Err(Error::Status(401))));
    assert!(matches!(check_success(500), Err(Error::Status(500))));
}

#[test]
fn order_urls() {
    let base = "https://api.sandbox.paypal.com";
    assert_eq!(orders_url(base), "https://api.sandbox.paypal.com/v2/checkout/orders");
    assert_eq!(order_url(base, "ABC"), "https://api.sandbox.paypal.com/v2/checkout/orders/ABC");
    assert_eq!(
        capture_url(base, "ABC"),
        "https://api.sandbox.paypal.com/v2/checkout/orders/ABC/capture"
    );
}

#[test]
fn captured_order_accepted() {
    let d = check_captured(details(OrderStatus::Completed)).ok().unwrap();
    assert_eq!(d.id, "5O190127TN364715T");
    assert_eq!(d.status, OrderStatus::Completed);
}

#[test]
fn uncaptured_order_rejected() {
    match check_captured(details(OrderStatus::Approved)) {
        Err(Error::Api(m)) => assert_eq!(m, "Unexpected state of order: Approved"),
        _ => panic!("an approved order is not captured"),
    }
    match check_captured(details(OrderStatus::Voided)) {
        Err(Error::Api(m)) => assert_eq!(m, "Unexpected state of order: Voided"),
        _ => panic!("a voided order is not captured"),
    }
}

#[test]
fn status_names() {
    assert_eq!(OrderStatus::Created.name(), "Created");
    assert_eq!(OrderStatus::Saved.name(), "Saved");
    assert_eq!(OrderStatus::Completed.name(), "Completed");
}

#[test]
fn defaults() {
    let c = ApplicationContext::default();
    assert!(c.brand_name.is_none());
    assert!(c.locale.is_none());
    assert!(c.return_url.is_none());
    assert!(c.cancel_url.is_none());
    assert_eq!(c.user_action, UserAction::Continue);
    assert_eq!(c.shipping_preference, ShippingPreference::GetFromFile);
    assert_eq!(OrderIntent::default(), OrderIntent::Capture);
}
