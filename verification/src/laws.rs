//! What holds of every confirmation, stated over the models of the store,
//! the request and the aggregate.

pub mod addresses;
pub mod attempts;
pub mod intents;
pub mod surcharge;
pub mod writes;
