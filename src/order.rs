use crate::error::Error;
use crate::text::{append, decimal, push_decimal};
use vstd::prelude::*;

verus! {

/// A hypermedia link returned with an order.
pub struct LinkDescription {
    pub href: String,
    pub rel: String,
    pub method: String,
}

/// A sum of money: its decimal text and its ISO currency code.
pub struct Amount {
    pub value: String,
    pub currency_code: String,
}

impl Amount {
    /// `eur` euros and `cent` cents, written `"{eur}.{cent}"` with no padding
    /// of the cents.
    pub fn euro(eur: u32, cent: u32) -> (r: Amount)
        ensures
            r.value@ == decimal(eur as nat) + seq!['.'] + decimal(cent as nat),
            r.currency_code@ == "EUR"@,
    {
        let mut value = String::new();
        push_decimal(&mut value, eur);
        append(&mut value, ".");
        push_decimal(&mut value, cent);
        proof {
            reveal_strlit(".");
        }
        Amount { value, currency_code: "EUR".to_owned() }
    }
}

/// Who supplies the shipping address of an order.
#[derive(Clone, Copy, Debug, PartialEq, Eq, Structural)]
pub enum ShippingPreference {
    GetFromFile,
    NoShipping,
    SetProvidedAddress,
}

impl Default for ShippingPreference {
    fn default() -> (r: ShippingPreference)
        ensures
            r == ShippingPreference::GetFromFile,
    {
        ShippingPreference::GetFromFile
    }
}

/// What the payer is asked to do on the approval page.
#[derive(Clone, Copy, Debug, PartialEq, Eq, Structural)]
pub enum UserAction {
    Continue,
    PayNow,
}

impl Default for UserAction {
    fn default() -> (r: UserAction)
        ensures
            r == UserAction::Continue,
    {
        UserAction::Continue
    }
}

/// How the approval flow presents itself to the payer.
pub struct ApplicationContext {
    pub brand_name: Option<String>,
    pub locale: Option<String>,
    pub user_action: UserAction,
    pub return_url: Option<String>,
    pub cancel_url: Option<String>,
    pub shipping_preference: ShippingPreference,
}

impl Default for ApplicationContext {
    fn default() -> (r: ApplicationContext)
        ensures
            r.brand_name is None,
            r.locale is None,
            r.user_action == UserAction::Continue,
            r.return_url is None,
            r.cancel_url is None,
            r.shipping_preference == ShippingPreference::GetFromFile,
    {
        ApplicationContext {
            brand_name: None,
            locale: None,
            user_action: UserAction::Continue,
            return_url: None,
            cancel_url: None,
            shipping_preference: ShippingPreference::GetFromFile,
        }
    }
}

/// The lifecycle state of an order.
#[derive(Clone, Copy, Debug, PartialEq, Eq, Structural)]
pub enum OrderStatus {
    Created,
    Saved,
    Approved,
    Voided,
    Completed,
}

impl OrderStatus {
    pub open spec fn name_view(&self) -> Seq<char> {
        match self {
            OrderStatus::Created => "Created"@,
            OrderStatus::Saved => "Saved"@,
            OrderStatus::Approved => "Approved"@,
            OrderStatus::Voided => "Voided"@,
            OrderStatus::Completed => "Completed"@,
        }
    }

    /// The variant's name, as it appears in messages.
    pub fn name(&self) -> (r: &'static str)
        ensures
            r@ == self.name_view(),
    {
        match self {
            OrderStatus::Created => "Created",
            OrderStatus::Saved => "Saved",
            OrderStatus::Approved => "Approved",
            OrderStatus::Voided => "Voided",
            OrderStatus::Completed => "Completed",
        }
    }
}

/// Whether the payment is taken at once or only authorized.
#[derive(Clone, Copy, Debug, PartialEq, Eq, Structural)]
pub enum OrderIntent {
    Capture,
    Authorize,
}

impl Default for OrderIntent {
    fn default() -> (r: OrderIntent)
        ensures
            r == OrderIntent::Capture,
    {
        OrderIntent::Capture
    }
}

/// One purchase within an order.
pub struct PurchaseUnitRequest {
    pub amount: Amount,
    pub description: String,
}

/// The body of an order creation request.
pub struct CreateOrder {
    pub intent: OrderIntent,
    pub purchase_units: Vec<PurchaseUnitRequest>,
    pub application_context: ApplicationContext,
}

/// An order as the API reports it.
pub struct OrderDetails {
    pub id: String,
    pub status: OrderStatus,
    pub links: Vec<LinkDescription>,
}

pub open spec fn orders_path() -> Seq<char> {
    "/v2/checkout/orders"@
}

/// The URL that new orders are posted to.
pub fn orders_url(base_url: &str) -> (r: String)
    ensures
        r@ == base_url@ + orders_path(),
{
    let mut url = base_url.to_owned();
    append(&mut url, "/v2/checkout/orders");
    url
}

/// The URL of the order `id`.
pub fn order_url(base_url: &str, id: &str) -> (r: String)
    ensures
        r@ == base_url@ + orders_path() + seq!['/'] + id@,
{
    let mut url = orders_url(base_url);
    append(&mut url, "/");
    append(&mut url, id);
    proof {
        reveal_strlit("/");
    }
    url
}

/// The URL that captures the payment of the order `id`.
pub fn capture_url(base_url: &str, id: &str) -> (r: String)
    ensures
        r@ == base_url@ + orders_path() + seq!['/'] + id@ + "/capture"@,
{
    let mut url = order_url(base_url, id);
    append(&mut url, "/capture");
    url
}

pub open spec fn unexpected_state_message(status: OrderStatus) -> Seq<char> {
    "Unexpected state of order: "@ + status.name_view()
}

/// Accepts the answer to a capture only when the order is completed; any
/// other state is reported as `Error::Api` naming that state.
pub fn check_captured(details: OrderDetails) -> (r: Result<OrderDetails, Error>)
    ensures
        details.status == OrderStatus::Completed ==> r == Ok::<OrderDetails, Error>(details),
        details.status != OrderStatus::Completed ==> (r matches Err(Error::Api(m)) && m@
            == unexpected_state_message(details.status)),
{
    if details.status == OrderStatus::Completed {
        Ok(details)
    } else {
        let mut msg = "Unexpected state of order: ".to_owned();
        append(&mut msg, details.status.name());
        Err(Error::Api(msg))
    }
}

} // verus!
