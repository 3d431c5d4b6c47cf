//! The aggregate of one confirmation and the values resolved for it.

use vstd::prelude::*;
use crate::enums::{Currency, FraudCheckStatus, PaymentFlow, PaymentMethod, PaymentMethodType};
use crate::request::{MandateData, PaymentMethodData, PaymentMethodDataView};
use crate::storage::{
    Address, AddressView, PaymentAttempt, PaymentAttemptView, PaymentIntent, PaymentIntentView,
};
use crate::surcharge::SurchargeDetails;
use crate::views::{clone_opt_text, opt_view};

verus! {

/// The recurring payment that a stored mandate stands for.
#[derive(Clone, Copy, Debug, PartialEq, Eq, Structural)]
pub struct RecurringMandatePaymentData {
    pub payment_method_type: Option<PaymentMethodType>,
}






/// What a request says of the customer, each field taken from the customer
/// object or, failing that, from the request itself.
#[derive(Debug, PartialEq)]
pub struct CustomerDetails {
    pub customer_id: Option<String>,
    pub name: Option<String>,
    pub email: Option<String>,
    pub phone: Option<String>,
    pub phone_country_code: Option<String>,
}

/// The model of [`CustomerDetails`]: the same fields, with text as sequences of characters.
pub struct CustomerDetailsView {
    pub customer_id: Option<Seq<char>>,
    pub name: Option<Seq<char>>,
    pub email: Option<Seq<char>>,
    pub phone: Option<Seq<char>>,
    pub phone_country_code: Option<Seq<char>>,
}

impl View for CustomerDetails {
    type V = CustomerDetailsView;

    open spec fn view(&self) -> CustomerDetailsView {
        CustomerDetailsView {
            customer_id: opt_view(self.customer_id),
            name: opt_view(self.name),
            email: opt_view(self.email),
            phone: opt_view(self.phone),
            phone_country_code: opt_view(self.phone_country_code),
        }
    }
}

impl Clone for CustomerDetails {
    fn clone(&self) -> (res: Self)
        ensures
            res@ == self@,
    {
        CustomerDetails {
            customer_id: clone_opt_text(&self.customer_id),
            name: clone_opt_text(&self.name),
            email: clone_opt_text(&self.email),
            phone: clone_opt_text(&self.phone),
            phone_country_code: clone_opt_text(&self.phone_country_code),
        }
    }
}

/// The token, payment method and mandate that a confirmation works with, and
/// its link to a recurring payment.
#[derive(Debug, PartialEq)]
pub struct MandateResolution {
    pub token: Option<String>,
    pub payment_method: Option<PaymentMethod>,
    pub payment_method_type: Option<PaymentMethodType>,
    pub setup_mandate: Option<MandateData>,
    pub recurring_mandate_payment_data: Option<RecurringMandatePaymentData>,
    pub mandate_connector: Option<String>,
}

/// The model of [`MandateResolution`]: the same fields, with text as sequences of characters.
pub struct MandateResolutionView {
    pub token: Option<Seq<char>>,
    pub payment_method: Option<PaymentMethod>,
    pub payment_method_type: Option<PaymentMethodType>,
    pub setup_mandate: Option<MandateData>,
    pub recurring_mandate_payment_data: Option<RecurringMandatePaymentData>,
    pub mandate_connector: Option<Seq<char>>,
}

impl View for MandateResolution {
    type V = MandateResolutionView;

    open spec fn view(&self) -> MandateResolutionView {
        MandateResolutionView {
            token: opt_view(self.token),
            payment_method: self.payment_method,
            payment_method_type: self.payment_method_type,
            setup_mandate: self.setup_mandate,
            recurring_mandate_payment_data: self.recurring_mandate_payment_data,
            mandate_connector: opt_view(self.mandate_connector),
        }
    }
}

impl Clone for MandateResolution {
    fn clone(&self) -> (res: Self)
        ensures
            res@ == self@,
    {
        MandateResolution {
            token: clone_opt_text(&self.token),
            payment_method: self.payment_method,
            payment_method_type: self.payment_method_type,
            setup_mandate: self.setup_mandate,
            recurring_mandate_payment_data: self.recurring_mandate_payment_data,
            mandate_connector: clone_opt_text(&self.mandate_connector),
        }
    }
}

/// The outcome of a fraud check.
#[derive(Debug, PartialEq)]
pub struct FraudCheck {
    pub frm_status: FraudCheckStatus,
    pub frm_reason: Option<String>,
}

/// The model of [`FraudCheck`]: the same fields, with text as sequences of characters.
pub struct FraudCheckView {
    pub frm_status: FraudCheckStatus,
    pub frm_reason: Option<Seq<char>>,
}

impl View for FraudCheck {
    type V = FraudCheckView;

    open spec fn view(&self) -> FraudCheckView {
        FraudCheckView {
            frm_status: self.frm_status,
            frm_reason: opt_view(self.frm_reason),
        }
    }
}

impl Clone for FraudCheck {
    fn clone(&self) -> (res: Self)
        ensures
            res@ == self@,
    {
        FraudCheck {
            frm_status: self.frm_status,
            frm_reason: clone_opt_text(&self.frm_reason),
        }
    }
}

impl FraudCheck {
    /// A copy of an optional value.
    pub fn clone_opt(value: &Option<FraudCheck>) -> (res: Option<FraudCheck>)
        ensures
            opt_view(res) == opt_view(*value),
    {
        match value {
            Some(v) => Some(v.clone()),
            None => None,
        }
    }
}

/// The unit of work that one confirmation threads through its phases.
#[derive(Debug, PartialEq)]
pub struct PaymentData {
    pub flow: PaymentFlow,
    pub payment_intent: PaymentIntent,
    pub payment_attempt: PaymentAttempt,
    pub currency: Currency,
    pub amount: i64,
    pub email: Option<String>,
    pub mandate_connector: Option<String>,
    pub setup_mandate: Option<MandateData>,
    pub token: Option<String>,
    pub shipping: Option<Address>,
    pub billing: Option<Address>,
    pub confirm: Option<bool>,
    pub force_sync: Option<bool>,
    pub payment_method_data: Option<PaymentMethodData>,
    pub card_cvc: Option<String>,
    pub creds_identifier: Option<String>,
    pub recurring_mandate_payment_data: Option<RecurringMandatePaymentData>,
    pub surcharge_details: Option<SurchargeDetails>,
    pub frm_message: Option<FraudCheck>,
}

/// The model of [`PaymentData`]: the same fields, with text as sequences of characters.
pub struct PaymentDataView {
    pub flow: PaymentFlow,
    pub payment_intent: PaymentIntentView,
    pub payment_attempt: PaymentAttemptView,
    pub currency: Currency,
    pub amount: i64,
    pub email: Option<Seq<char>>,
    pub mandate_connector: Option<Seq<char>>,
    pub setup_mandate: Option<MandateData>,
    pub token: Option<Seq<char>>,
    pub shipping: Option<AddressView>,
    pub billing: Option<AddressView>,
    pub confirm: Option<bool>,
    pub force_sync: Option<bool>,
    pub payment_method_data: Option<PaymentMethodDataView>,
    pub card_cvc: Option<Seq<char>>,
    pub creds_identifier: Option<Seq<char>>,
    pub recurring_mandate_payment_data: Option<RecurringMandatePaymentData>,
    pub surcharge_details: Option<SurchargeDetails>,
    pub frm_message: Option<FraudCheckView>,
}

impl View for PaymentData {
    type V = PaymentDataView;

    open spec fn view(&self) -> PaymentDataView {
        PaymentDataView {
            flow: self.flow,
            payment_intent: self.payment_intent@,
            payment_attempt: self.payment_attempt@,
            currency: self.currency,
            amount: self.amount,
            email: opt_view(self.email),
            mandate_connector: opt_view(self.mandate_connector),
            setup_mandate: self.setup_mandate,
            token: opt_view(self.token),
            shipping: opt_view(self.shipping),
            billing: opt_view(self.billing),
            confirm: self.confirm,
            force_sync: self.force_sync,
            payment_method_data: opt_view(self.payment_method_data),
            card_cvc: opt_view(self.card_cvc),
            creds_identifier: opt_view(self.creds_identifier),
            recurring_mandate_payment_data: self.recurring_mandate_payment_data,
            surcharge_details: self.surcharge_details,
            frm_message: opt_view(self.frm_message),
        }
    }
}

impl Clone for PaymentData {
    fn clone(&self) -> (res: Self)
        ensures
            res@ == self@,
    {
        PaymentData {
            flow: self.flow,
            payment_intent: self.payment_intent.clone(),
            payment_attempt: self.payment_attempt.clone(),
            currency: self.currency,
            amount: self.amount,
            email: clone_opt_text(&self.email),
            mandate_connector: clone_opt_text(&self.mandate_connector),
            setup_mandate: self.setup_mandate,
            token: clone_opt_text(&self.token),
            shipping: Address::clone_opt(&self.shipping),
            billing: Address::clone_opt(&self.billing),
            confirm: self.confirm,
            force_sync: self.force_sync,
            payment_method_data: PaymentMethodData::clone_opt(&self.payment_method_data),
            card_cvc: clone_opt_text(&self.card_cvc),
            creds_identifier: clone_opt_text(&self.creds_identifier),
            recurring_mandate_payment_data: self.recurring_mandate_payment_data,
            surcharge_details: self.surcharge_details,
            frm_message: FraudCheck::clone_opt(&self.frm_message),
        }
    }
}
} // verus!
