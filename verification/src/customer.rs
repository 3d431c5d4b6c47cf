//! What becomes of the customer of a confirmation.

use vstd::prelude::*;
use crate::helpers::first_of;
use crate::payment_data::{CustomerDetails, CustomerDetailsView, PaymentData, PaymentDataView};
use crate::storage::{Customer, CustomerView, PaymentIntentView};
use crate::views::{clone_opt_text, opt_view, or_else};

verus! {

/// What is to be done about the customer of a payment.
#[derive(Debug, PartialEq)]
pub enum CustomerAction {
    /// The customer is new to the store and is added.
    Insert(Customer),
    /// The customer is stored and the request says something new of them.
    Update(Customer),
    /// The customer is stored and stays as they are.
    Keep(Customer),
    /// The payment has no customer.
    Nothing,
}

/// The model of [`CustomerAction`].
pub enum CustomerActionView {
    Insert(CustomerView),
    Update(CustomerView),
    Keep(CustomerView),
    Nothing,
}

impl View for CustomerAction {
    type V = CustomerActionView;

    open spec fn view(&self) -> CustomerActionView {
        match self {
            CustomerAction::Insert(c) => CustomerActionView::Insert(c@),
            CustomerAction::Update(c) => CustomerActionView::Update(c@),
            CustomerAction::Keep(c) => CustomerActionView::Keep(c@),
            CustomerAction::Nothing => CustomerActionView::Nothing,
        }
    }
}

impl CustomerActionView {
    /// The customer that the payment has once the action is done.
    pub open spec fn customer(self) -> Option<CustomerView> {
        match self {
            CustomerActionView::Insert(c) => Some(c),
            CustomerActionView::Update(c) => Some(c),
            CustomerActionView::Keep(c) => Some(c),
            CustomerActionView::Nothing => None,
        }
    }
}

/// The customer to look up: the request's, else the intent's.
pub open spec fn spec_customer_to_fetch(
    data: PaymentDataView,
    request: Option<CustomerDetailsView>,
) -> Option<Seq<char>> {
    or_else(
        match request {
            Some(details) => details.customer_id,
            None => None,
        },
        data.payment_intent.customer_id,
    )
}

/// The request says something of the customer beyond who they are.
pub open spec fn brings_customer_data(request: CustomerDetailsView) -> bool {
    request.name.is_some() || request.email.is_some() || request.phone.is_some()
}

/// What is to be done about the customer.
///
/// A stored customer is kept, or brought up to date with what the request
/// says of them. A customer that the store does not have is added where the
/// request names them. A payment without a customer has nothing to do.
pub open spec fn spec_customer_action(
    data: PaymentDataView,
    request: Option<CustomerDetailsView>,
    found: Option<CustomerView>,
    merchant_id: Seq<char>,
) -> CustomerActionView {
    match spec_customer_to_fetch(data, request) {
        None => CustomerActionView::Nothing,
        Some(customer_id) => match (found, request) {
            (Some(stored), Some(details)) => if brings_customer_data(details) {
                CustomerActionView::Update(
                    CustomerView {
                        name: or_else(details.name, stored.name),
                        email: or_else(details.email, stored.email),
                        phone: or_else(details.phone, stored.phone),
                        ..stored
                    },
                )
            } else {
                CustomerActionView::Keep(stored)
            },
            (Some(stored), None) => CustomerActionView::Keep(stored),
            (None, Some(details)) => if details.customer_id.is_some() {
                CustomerActionView::Insert(
                    CustomerView {
                        customer_id,
                        merchant_id,
                        name: details.name,
                        email: details.email,
                        phone: details.phone,
                        connector_customer: None,
                    },
                )
            } else {
                CustomerActionView::Nothing
            },
            (None, None) => CustomerActionView::Nothing,
        },
    }
}

/// The aggregate with the customer of an action noted on it: the intent
/// belongs to the customer, and the customer's email address stands in
/// where the aggregate has none.
pub open spec fn spec_with_customer(
    data: PaymentDataView,
    action: CustomerActionView,
) -> PaymentDataView {
    match action.customer() {
        Some(customer) => PaymentDataView {
            payment_intent: PaymentIntentView {
                customer_id: Some(customer.customer_id),
                ..data.payment_intent
            },
            email: or_else(data.email, customer.email),
            ..data
        },
        None => data,
    }
}

/// Decides what is to be done about the customer of a confirmation.
pub fn customer_action(
    payment_data: &PaymentData,
    request: &Option<CustomerDetails>,
    found: Option<Customer>,
    merchant_id: &String,
) -> (res: CustomerAction)
    ensures
        res@ == spec_customer_action(
            payment_data@,
            opt_view(*request),
            opt_view(found),
            merchant_id@,
        ),
{
    let requested = match request {
        Some(details) => clone_opt_text(&details.customer_id),
        None => None,
    };
    let customer_id = match first_of(
        requested,
        clone_opt_text(&payment_data.payment_intent.customer_id),
    ) {
        Some(id) => id,
        None => {
            return CustomerAction::Nothing;
        },
    };
    match (found, request) {
        (Some(stored), Some(details)) => {
            if details.name.is_some() || details.email.is_some() || details.phone.is_some() {
                CustomerAction::Update(
                    Customer {
                        name: first_of(clone_opt_text(&details.name), stored.name),
                        email: first_of(clone_opt_text(&details.email), stored.email),
                        phone: first_of(clone_opt_text(&details.phone), stored.phone),
                        customer_id: stored.customer_id,
                        merchant_id: stored.merchant_id,
                        connector_customer: stored.connector_customer,
                    },
                )
            } else {
                CustomerAction::Keep(stored)
            }
        },
        (Some(stored), None) => CustomerAction::Keep(stored),
        (None, Some(details)) => {
            if details.customer_id.is_some() {
                CustomerAction::Insert(
                    Customer {
                        customer_id,
                        merchant_id: merchant_id.clone(),
                        name: clone_opt_text(&details.name),
                        email: clone_opt_text(&details.email),
                        phone: clone_opt_text(&details.phone),
                        connector_customer: None,
                    },
                )
            } else {
                CustomerAction::Nothing
            }
        },
        (None, None) => CustomerAction::Nothing,
    }
}

/// The customer of an action.
pub fn customer_of(action: &CustomerAction) -> (res: Option<&Customer>)
    ensures
        match res {
            Some(c) => action@.customer() == Some(c@),
            None => action@.customer().is_none(),
        },
{
    match action {
        CustomerAction::Insert(c) => Some(c),
        CustomerAction::Update(c) => Some(c),
        CustomerAction::Keep(c) => Some(c),
        CustomerAction::Nothing => None,
    }
}

} // verus!
