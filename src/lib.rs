//! Client-side OAuth2 client-credentials token management and the
//! checkout order types that travel with it.
//!
//! The token side is split in three: a `TokenCell` that holds the current
//! token and is only ever replaced whole, a `Scheduler` that decides, event by
//! event, when to acquire, install or stop, and a runner outside this crate
//! that waits, talks HTTP and feeds the events back.

mod auth;
mod error;
mod order;
mod scheduler;
mod text;

pub use auth::{
    next_wait, production_url, sandbox_url, token_path, token_url, wait_for, AccessToken,
    Credentials, Environment, SAFETY_MARGIN,
};
pub use error::{check_success, is_success_status, Error};
pub use order::{
    capture_url, check_captured, order_url, orders_path, orders_url, unexpected_state_message,
    Amount, ApplicationContext, CreateOrder, LinkDescription, OrderDetails, OrderIntent,
    OrderStatus, PurchaseUnitRequest, ShippingPreference, UserAction,
};
pub use scheduler::{
    apply, count, drive, is_acquire, is_finish, launch, refresh_failure_reported_once,
    refresh_waits_lifetime_less_margin, shutdown_while_waiting_terminates, transition, Action,
    Event, Outcome, Phase, Scheduler, TokenCell,
};
pub use text::{decimal, digit_char};
