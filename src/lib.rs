//! A newsletter subscription service: request routing, form decoding and the
//! decisions of the subscription handler, with their contracts.

pub mod form;
pub mod routing;
pub mod subscription;

pub use form::{FormData, FormError, FormField, decode_subscription};
pub use routing::{Method, Response, Route, health_check, not_found, route};
pub use subscription::{
    StoreError,
    SubscribeAction,
    SubscriptionRecord,
    begin_subscription,
    finish_subscription,
};
