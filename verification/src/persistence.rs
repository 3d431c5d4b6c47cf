//! The persistence plan of a confirmation, and what each change does to the
//! record it is applied to.

use vstd::prelude::*;
use crate::enums::{FrmSuggestion, MerchantStorageScheme, PaymentSource};
use crate::helpers::first_of;
use crate::json::{clone_opt_value, clone_opt_values};
use crate::payment_data::{PaymentData, PaymentDataView};
use crate::storage::{
    Customer, CustomerUpdate, CustomerUpdateView, CustomerView, PaymentAttempt,
    PaymentAttemptUpdate, PaymentAttemptUpdateView, PaymentAttemptView, PaymentIntent,
    PaymentIntentConfirmUpdate, PaymentIntentConfirmUpdateView, PaymentIntentUpdate,
    PaymentIntentUpdateView, PaymentIntentView, StatusAndAttemptUpdate,
};
use crate::surcharge::spec_authorized_amount;
use crate::transition::{spec_transition, transition, Transition, TransitionView};
use crate::views::{clone_opt_text, opt_view, or_else};

verus! {

/// What the caller's headers say of a confirmation.
#[derive(Clone, Copy, Debug, PartialEq, Eq, Structural)]
pub struct HeaderPayload {
    pub payment_confirm_source: Option<PaymentSource>,
}

/// A change to one stored customer.
#[derive(Debug, PartialEq)]
pub struct CustomerWrite {
    pub customer_id: String,
    pub merchant_id: String,
    pub update: CustomerUpdate,
}

/// The model of [`CustomerWrite`]: the same fields, with text as sequences of characters.
pub struct CustomerWriteView {
    pub customer_id: Seq<char>,
    pub merchant_id: Seq<char>,
    pub update: CustomerUpdateView,
}

impl View for CustomerWrite {
    type V = CustomerWriteView;

    open spec fn view(&self) -> CustomerWriteView {
        CustomerWriteView {
            customer_id: self.customer_id@,
            merchant_id: self.merchant_id@,
            update: self.update@,
        }
    }
}

impl Clone for CustomerWrite {
    fn clone(&self) -> (res: Self)
        ensures
            res@ == self@,
    {
        CustomerWrite {
            customer_id: self.customer_id.clone(),
            merchant_id: self.merchant_id.clone(),
            update: self.update.clone(),
        }
    }
}

impl CustomerWrite {
    /// A copy of an optional value.
    pub fn clone_opt(value: &Option<CustomerWrite>) -> (res: Option<CustomerWrite>)
        ensures
            opt_view(res) == opt_view(*value),
    {
        match value {
            Some(v) => Some(v.clone()),
            None => None,
        }
    }
}

/// What a confirmation writes back: the change to its attempt, the change to
/// its intent and, where one was asked for, the change to its customer. The
/// three are independent of each other.
#[derive(Debug, PartialEq)]
pub struct UpdatePlan {
    pub attempt_update: PaymentAttemptUpdate,
    pub intent_update: PaymentIntentUpdate,
    pub customer_update: Option<CustomerWrite>,
}

/// The model of [`UpdatePlan`]: the same fields, with text as sequences of characters.
pub struct UpdatePlanView {
    pub attempt_update: PaymentAttemptUpdateView,
    pub intent_update: PaymentIntentUpdateView,
    pub customer_update: Option<CustomerWriteView>,
}

impl View for UpdatePlan {
    type V = UpdatePlanView;

    open spec fn view(&self) -> UpdatePlanView {
        UpdatePlanView {
            attempt_update: self.attempt_update@,
            intent_update: self.intent_update@,
            customer_update: opt_view(self.customer_update),
        }
    }
}

impl Clone for UpdatePlan {
    fn clone(&self) -> (res: Self)
        ensures
            res@ == self@,
    {
        UpdatePlan {
            attempt_update: self.attempt_update.clone(),
            intent_update: self.intent_update.clone(),
            customer_update: CustomerWrite::clone_opt(&self.customer_update),
        }
    }
}

/// The change that a confirmation makes to its attempt: the statuses and the
/// error of the transition, what the reconciliation resolved, and the amount
/// that can be captured.
pub open spec fn spec_attempt_update(
    data: PaymentDataView,
    step: TransitionView,
    storage_scheme: MerchantStorageScheme,
    additional_pm_data: Option<serde_json::Value>,
) -> PaymentAttemptUpdateView {
    PaymentAttemptUpdateView {
        amount: data.amount,
        currency: data.currency,
        status: step.attempt_status,
        authentication_type: data.payment_attempt.authentication_type,
        payment_method: data.payment_attempt.payment_method,
        browser_info: data.payment_attempt.browser_info,
        connector: data.payment_attempt.connector,
        payment_token: data.token,
        payment_method_data: additional_pm_data,
        payment_method_type: data.payment_attempt.payment_method_type,
        payment_experience: data.payment_attempt.payment_experience,
        business_sub_label: data.payment_attempt.business_sub_label,
        straight_through_algorithm: data.payment_attempt.straight_through_algorithm,
        error_code: step.error_code,
        error_message: step.error_message,
        amount_capturable: Some(
            spec_authorized_amount(data.surcharge_details, data.payment_attempt.amount),
        ),
        updated_by: storage_scheme.spec_text(),
        merchant_connector_id: data.payment_attempt.merchant_connector_id,
    }
}

/// The identifier of an optional customer.
pub open spec fn customer_id_of(customer: Option<CustomerView>) -> Option<Seq<char>> {
    match customer {
        Some(c) => Some(c.customer_id),
        None => None,
    }
}

/// The change that a confirmation makes to its intent.
pub open spec fn spec_intent_update(
    data: PaymentDataView,
    step: TransitionView,
    customer: Option<CustomerView>,
    storage_scheme: MerchantStorageScheme,
    header_payload: HeaderPayload,
) -> PaymentIntentConfirmUpdateView {
    PaymentIntentConfirmUpdateView {
        amount: data.amount,
        currency: data.currency,
        setup_future_usage: data.payment_intent.setup_future_usage,
        status: step.intent_status,
        customer_id: customer_id_of(customer),
        shipping_address_id: data.payment_intent.shipping_address_id,
        billing_address_id: data.payment_intent.billing_address_id,
        return_url: data.payment_intent.return_url,
        business_country: data.payment_intent.business_country,
        business_label: data.payment_intent.business_label,
        description: data.payment_intent.description,
        statement_descriptor_name: data.payment_intent.statement_descriptor_name,
        statement_descriptor_suffix: data.payment_intent.statement_descriptor_suffix,
        order_details: data.payment_intent.order_details,
        metadata: data.payment_intent.metadata,
        payment_confirm_source: header_payload.payment_confirm_source,
        updated_by: storage_scheme.spec_text(),
    }
}

/// The change to the customer: made only where a change was asked for and
/// the customer is known.
pub open spec fn spec_customer_write(
    customer: Option<CustomerView>,
    updated_customer: Option<CustomerUpdateView>,
) -> Option<CustomerWriteView> {
    match (updated_customer, customer) {
        (Some(update), Some(c)) => Some(
            CustomerWriteView { customer_id: c.customer_id, merchant_id: c.merchant_id, update },
        ),
        _ => None,
    }
}

/// Everything that a confirmation writes back.
pub open spec fn spec_update_plan(
    data: PaymentDataView,
    customer: Option<CustomerView>,
    storage_scheme: MerchantStorageScheme,
    updated_customer: Option<CustomerUpdateView>,
    frm_suggestion: Option<FrmSuggestion>,
    header_payload: HeaderPayload,
    additional_pm_data: Option<serde_json::Value>,
) -> UpdatePlanView {
    let step = spec_transition(frm_suggestion, data.frm_message);
    UpdatePlanView {
        attempt_update: spec_attempt_update(data, step, storage_scheme, additional_pm_data),
        intent_update: PaymentIntentUpdateView::Update(
            spec_intent_update(data, step, customer, storage_scheme, header_payload),
        ),
        customer_update: spec_customer_write(customer, updated_customer),
    }
}

/// The attempt after the change of a confirmation, made at `now`. The error
/// fields are set or cleared where the change names them.
pub open spec fn spec_apply_attempt_update(
    update: PaymentAttemptUpdateView,
    source: PaymentAttemptView,
    now: i64,
) -> PaymentAttemptView {
    PaymentAttemptView {
        amount: update.amount,
        currency: Some(update.currency),
        status: update.status,
        authentication_type: or_else(update.authentication_type, source.authentication_type),
        payment_method: or_else(update.payment_method, source.payment_method),
        browser_info: or_else(update.browser_info, source.browser_info),
        connector: or_else(update.connector, source.connector),
        payment_token: or_else(update.payment_token, source.payment_token),
        payment_method_data: or_else(update.payment_method_data, source.payment_method_data),
        payment_method_type: or_else(update.payment_method_type, source.payment_method_type),
        payment_experience: or_else(update.payment_experience, source.payment_experience),
        business_sub_label: or_else(update.business_sub_label, source.business_sub_label),
        straight_through_algorithm: or_else(
            update.straight_through_algorithm,
            source.straight_through_algorithm,
        ),
        error_code: match update.error_code {
            Some(code) => code,
            None => source.error_code,
        },
        error_message: match update.error_message {
            Some(message) => message,
            None => source.error_message,
        },
        amount_capturable: match update.amount_capturable {
            Some(amount) => amount,
            None => source.amount_capturable,
        },
        updated_by: update.updated_by,
        merchant_connector_id: or_else(update.merchant_connector_id, source.merchant_connector_id),
        modified_at: now,
        ..source
    }
}

/// The intent after a change made at `now`.
pub open spec fn spec_apply_intent_update(
    update: PaymentIntentUpdateView,
    source: PaymentIntentView,
    now: i64,
) -> PaymentIntentView {
    match update {
        PaymentIntentUpdateView::Update(u) => PaymentIntentView {
            amount: u.amount,
            currency: Some(u.currency),
            setup_future_usage: or_else(u.setup_future_usage, source.setup_future_usage),
            status: u.status,
            customer_id: or_else(u.customer_id, source.customer_id),
            shipping_address_id: or_else(u.shipping_address_id, source.shipping_address_id),
            billing_address_id: or_else(u.billing_address_id, source.billing_address_id),
            return_url: or_else(u.return_url, source.return_url),
            business_country: or_else(u.business_country, source.business_country),
            business_label: or_else(u.business_label, source.business_label),
            description: or_else(u.description, source.description),
            statement_descriptor_name: or_else(
                u.statement_descriptor_name,
                source.statement_descriptor_name,
            ),
            statement_descriptor_suffix: or_else(
                u.statement_descriptor_suffix,
                source.statement_descriptor_suffix,
            ),
            order_details: or_else(u.order_details, source.order_details),
            metadata: or_else(u.metadata, source.metadata),
            payment_confirm_source: or_else(
                u.payment_confirm_source,
                source.payment_confirm_source,
            ),
            updated_by: u.updated_by,
            modified_at: now,
            ..source
        },
        PaymentIntentUpdateView::StatusAndAttemptUpdate(u) => PaymentIntentView {
            status: u.status,
            active_attempt_id: u.active_attempt_id,
            attempt_count: u.attempt_count,
            updated_by: u.updated_by,
            modified_at: now,
            ..source
        },
    }
}

impl PaymentAttemptUpdate {
    /// Applies the change to an attempt.
    pub fn apply_changeset(self, source: PaymentAttempt, now: i64) -> (res: PaymentAttempt)
        ensures
            res@ == spec_apply_attempt_update(self@, source@, now),
    {
        PaymentAttempt {
            amount: self.amount,
            currency: Some(self.currency),
            status: self.status,
            authentication_type: first_of(self.authentication_type, source.authentication_type),
            payment_method: first_of(self.payment_method, source.payment_method),
            browser_info: first_of(self.browser_info, source.browser_info),
            connector: first_of(self.connector, source.connector),
            payment_token: first_of(self.payment_token, source.payment_token),
            payment_method_data: first_of(self.payment_method_data, source.payment_method_data),
            payment_method_type: first_of(self.payment_method_type, source.payment_method_type),
            payment_experience: first_of(self.payment_experience, source.payment_experience),
            business_sub_label: first_of(self.business_sub_label, source.business_sub_label),
            straight_through_algorithm: first_of(
                self.straight_through_algorithm,
                source.straight_through_algorithm,
            ),
            error_code: match self.error_code {
                Some(code) => code,
                None => source.error_code,
            },
            error_message: match self.error_message {
                Some(message) => message,
                None => source.error_message,
            },
            amount_capturable: match self.amount_capturable {
                Some(amount) => amount,
                None => source.amount_capturable,
            },
            updated_by: self.updated_by,
            merchant_connector_id: first_of(
                self.merchant_connector_id,
                source.merchant_connector_id,
            ),
            modified_at: now,
            ..source
        }
    }
}

impl PaymentIntentUpdate {
    /// Applies the change to an intent.
    pub fn apply_changeset(self, source: PaymentIntent, now: i64) -> (res: PaymentIntent)
        ensures
            res@ == spec_apply_intent_update(self@, source@, now),
    {
        match self {
            PaymentIntentUpdate::Update(u) => PaymentIntent {
                amount: u.amount,
                currency: Some(u.currency),
                setup_future_usage: first_of(u.setup_future_usage, source.setup_future_usage),
                status: u.status,
                customer_id: first_of(u.customer_id, source.customer_id),
                shipping_address_id: first_of(u.shipping_address_id, source.shipping_address_id),
                billing_address_id: first_of(u.billing_address_id, source.billing_address_id),
                return_url: first_of(u.return_url, source.return_url),
                business_country: first_of(u.business_country, source.business_country),
                business_label: first_of(u.business_label, source.business_label),
                description: first_of(u.description, source.description),
                statement_descriptor_name: first_of(
                    u.statement_descriptor_name,
                    source.statement_descriptor_name,
                ),
                statement_descriptor_suffix: first_of(
                    u.statement_descriptor_suffix,
                    source.statement_descriptor_suffix,
                ),
                order_details: first_of(u.order_details, source.order_details),
                metadata: first_of(u.metadata, source.metadata),
                payment_confirm_source: first_of(
                    u.payment_confirm_source,
                    source.payment_confirm_source,
                ),
                updated_by: u.updated_by,
                modified_at: now,
                ..source
            },
            PaymentIntentUpdate::StatusAndAttemptUpdate(u) => PaymentIntent {
                status: u.status,
                active_attempt_id: u.active_attempt_id,
                attempt_count: u.attempt_count,
                updated_by: u.updated_by,
                modified_at: now,
                ..source
            },
        }
    }
}

/// Builds the change to the attempt.
pub fn attempt_update(
    data: &PaymentData,
    step: Transition,
    storage_scheme: MerchantStorageScheme,
    additional_pm_data: Option<serde_json::Value>,
) -> (res: PaymentAttemptUpdate)
    ensures
        res@ == spec_attempt_update(data@, step@, storage_scheme, additional_pm_data),
{
    let amount_capturable: i64 = match data.surcharge_details {
        Some(details) => details.final_amount,
        None => data.payment_attempt.amount,
    };
    PaymentAttemptUpdate {
        amount: data.amount,
        currency: data.currency,
        status: step.attempt_status,
        authentication_type: data.payment_attempt.authentication_type,
        payment_method: data.payment_attempt.payment_method,
        browser_info: clone_opt_value(&data.payment_attempt.browser_info),
        connector: clone_opt_text(&data.payment_attempt.connector),
        payment_token: clone_opt_text(&data.token),
        payment_method_data: additional_pm_data,
        payment_method_type: data.payment_attempt.payment_method_type,
        payment_experience: data.payment_attempt.payment_experience,
        business_sub_label: clone_opt_text(&data.payment_attempt.business_sub_label),
        straight_through_algorithm: clone_opt_value(
            &data.payment_attempt.straight_through_algorithm,
        ),
        error_code: step.error_code,
        error_message: step.error_message,
        amount_capturable: Some(amount_capturable),
        updated_by: storage_scheme.text(),
        merchant_connector_id: clone_opt_text(&data.payment_attempt.merchant_connector_id),
    }
}

/// Builds the change to the intent.
pub fn intent_update(
    data: &PaymentData,
    step: &Transition,
    customer: &Option<Customer>,
    storage_scheme: MerchantStorageScheme,
    header_payload: HeaderPayload,
) -> (res: PaymentIntentConfirmUpdate)
    ensures
        res@ == spec_intent_update(
            data@,
            step@,
            opt_view(*customer),
            storage_scheme,
            header_payload,
        ),
{
    let customer_id = match customer {
        Some(c) => Some(c.customer_id.clone()),
        None => None,
    };
    PaymentIntentConfirmUpdate {
        amount: data.amount,
        currency: data.currency,
        setup_future_usage: data.payment_intent.setup_future_usage,
        status: step.intent_status,
        customer_id,
        shipping_address_id: clone_opt_text(&data.payment_intent.shipping_address_id),
        billing_address_id: clone_opt_text(&data.payment_intent.billing_address_id),
        return_url: clone_opt_text(&data.payment_intent.return_url),
        business_country: data.payment_intent.business_country,
        business_label: clone_opt_text(&data.payment_intent.business_label),
        description: clone_opt_text(&data.payment_intent.description),
        statement_descriptor_name: clone_opt_text(&data.payment_intent.statement_descriptor_name),
        statement_descriptor_suffix: clone_opt_text(
            &data.payment_intent.statement_descriptor_suffix,
        ),
        order_details: clone_opt_values(&data.payment_intent.order_details),
        metadata: clone_opt_value(&data.payment_intent.metadata),
        payment_confirm_source: header_payload.payment_confirm_source,
        updated_by: storage_scheme.text(),
    }
}

} // verus!
