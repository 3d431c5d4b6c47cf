//! Confirmation stage of a payment router: request validation, intent and
//! attempt state rules, surcharge reconciliation and the persistence plan.

pub mod customer;
pub mod enums;
pub mod errors;
pub mod helpers;
pub mod json;
pub mod laws;
pub mod payment_confirm;
pub mod payment_data;
pub mod payment_link;
pub mod persistence;
pub mod pipeline;
pub mod request;
pub mod resolver;
pub mod storage;
pub mod store;
pub mod surcharge;
pub mod transition;
pub mod validator;
pub mod versioning;
pub mod views;
