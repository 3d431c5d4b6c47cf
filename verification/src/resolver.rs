//! The resource resolver: whether an intent may be confirmed, what has to be
//! fetched for it, and what the fetched mandate comes to.

use vstd::prelude::*;
use crate::enums::{MandateTransactionType, PaymentMethod, PaymentMethodType};
use crate::errors::ApiErrorResponse;
use crate::helpers::{
    authenticate_client_secret, first_of, fulfillment_deadline, get_customer_details_from_request,
    not_allowed_statuses, spec_authenticate_client_secret, spec_customer_details,
    validate_payment_status_against_not_allowed_statuses,
};
use crate::payment_data::{MandateResolution, MandateResolutionView, RecurringMandatePaymentData};
use crate::request::{
    AddressDetails, AddressDetailsView, MerchantConnectorDetailsWrap,
    MerchantConnectorDetailsWrapView, PaymentIdType, PaymentIdTypeView, PaymentsRequest,
    PaymentsRequestView,
};
use crate::storage::{MerchantAccount, MerchantAccountView, PaymentIntent, PaymentIntentView};
use crate::views::{clone_opt_text, opt_view, or_else};

verus! {

/// What is to be done about one address of a payment.
#[derive(Debug, PartialEq)]
pub enum AddressAction {
    /// The stored address is overwritten with what the request gives.
    Update { address_id: String, details: AddressDetails },
    /// The stored address is read.
    Find { address_id: String },
    /// An address is created from what the request gives.
    Create { details: AddressDetails },
    /// The payment has no such address.
    Skip,
}

/// The model of [`AddressAction`].
pub enum AddressActionView {
    Update { address_id: Seq<char>, details: AddressDetailsView },
    Find { address_id: Seq<char> },
    Create { details: AddressDetailsView },
    Skip,
}

impl View for AddressAction {
    type V = AddressActionView;

    open spec fn view(&self) -> AddressActionView {
        match self {
            AddressAction::Update { address_id, details } => AddressActionView::Update {
                address_id: address_id@,
                details: details@,
            },
            AddressAction::Find { address_id } => AddressActionView::Find {
                address_id: address_id@,
            },
            AddressAction::Create { details } => AddressActionView::Create { details: details@ },
            AddressAction::Skip => AddressActionView::Skip,
        }
    }
}

/// A mandate set up by an earlier payment.
#[derive(Debug, PartialEq)]
pub struct StoredMandate {
    pub mandate_id: String,
    pub customer_id: String,
    pub payment_method: PaymentMethod,
    pub payment_method_type: Option<PaymentMethodType>,
    pub connector: String,
    pub payment_token: Option<String>,
}

/// The model of [`StoredMandate`]: the same fields, with text as sequences of characters.
pub struct StoredMandateView {
    pub mandate_id: Seq<char>,
    pub customer_id: Seq<char>,
    pub payment_method: PaymentMethod,
    pub payment_method_type: Option<PaymentMethodType>,
    pub connector: Seq<char>,
    pub payment_token: Option<Seq<char>>,
}

impl View for StoredMandate {
    type V = StoredMandateView;

    open spec fn view(&self) -> StoredMandateView {
        StoredMandateView {
            mandate_id: self.mandate_id@,
            customer_id: self.customer_id@,
            payment_method: self.payment_method,
            payment_method_type: self.payment_method_type,
            connector: self.connector@,
            payment_token: opt_view(self.payment_token),
        }
    }
}

impl Clone for StoredMandate {
    fn clone(&self) -> (res: Self)
        ensures
            res@ == self@,
    {
        StoredMandate {
            mandate_id: self.mandate_id.clone(),
            customer_id: self.customer_id.clone(),
            payment_method: self.payment_method,
            payment_method_type: self.payment_method_type,
            connector: self.connector.clone(),
            payment_token: clone_opt_text(&self.payment_token),
        }
    }
}

impl StoredMandate {
    /// A copy of an optional value.
    pub fn clone_opt(value: &Option<StoredMandate>) -> (res: Option<StoredMandate>)
        ensures
            opt_view(res) == opt_view(*value),
    {
        match value {
            Some(v) => Some(v.clone()),
            None => None,
        }
    }
}

/// What is to be fetched for an intent that may be confirmed: its active
/// attempt, its two addresses and, where the request overrides them, the
/// connector credentials to keep. The fetches are independent of each other.
#[derive(Debug, PartialEq)]
pub struct ResourcePlan {
    pub payment_id: String,
    pub merchant_id: String,
    pub attempt_id: String,
    pub shipping: AddressAction,
    pub billing: AddressAction,
    pub customer_id: Option<String>,
    pub connector_credentials: Option<MerchantConnectorDetailsWrap>,
}

/// The model of [`ResourcePlan`]: the same fields, with text as sequences of characters.
pub struct ResourcePlanView {
    pub payment_id: Seq<char>,
    pub merchant_id: Seq<char>,
    pub attempt_id: Seq<char>,
    pub shipping: AddressActionView,
    pub billing: AddressActionView,
    pub customer_id: Option<Seq<char>>,
    pub connector_credentials: Option<MerchantConnectorDetailsWrapView>,
}

impl View for ResourcePlan {
    type V = ResourcePlanView;

    open spec fn view(&self) -> ResourcePlanView {
        ResourcePlanView {
            payment_id: self.payment_id@,
            merchant_id: self.merchant_id@,
            attempt_id: self.attempt_id@,
            shipping: self.shipping@,
            billing: self.billing@,
            customer_id: opt_view(self.customer_id),
            connector_credentials: opt_view(self.connector_credentials),
        }
    }
}

/// What is to be done about an address: a stored one is read, or overwritten
/// where the request gives an address; without a stored one the request's
/// address is created, if it gives one.
pub open spec fn spec_address_action(
    requested: Option<AddressDetailsView>,
    stored_address_id: Option<Seq<char>>,
) -> AddressActionView {
    match (stored_address_id, requested) {
        (Some(address_id), Some(details)) => AddressActionView::Update { address_id, details },
        (Some(address_id), None) => AddressActionView::Find { address_id },
        (None, Some(details)) => AddressActionView::Create { details },
        (None, None) => AddressActionView::Skip,
    }
}

/// Decides what is to be done about one address of a payment.
pub fn create_or_find_address_for_payment_by_request(
    requested: &Option<AddressDetails>,
    stored_address_id: &Option<String>,
) -> (res: AddressAction)
    ensures
        res@ == spec_address_action(opt_view(*requested), opt_view(*stored_address_id)),
{
    match (stored_address_id, requested) {
        (Some(address_id), Some(details)) => AddressAction::Update {
            address_id: address_id.clone(),
            details: details.clone(),
        },
        (Some(address_id), None) => AddressAction::Find { address_id: address_id.clone() },
        (None, Some(details)) => AddressAction::Create { details: details.clone() },
        (None, None) => AddressAction::Skip,
    }
}

/// The identifier of the intent that a request is about, where it names one.
pub open spec fn spec_payment_intent_id(payment_id: PaymentIdTypeView) -> Result<
    Seq<char>,
    ApiErrorResponse,
> {
    match payment_id {
        PaymentIdTypeView::PaymentIntentId(id) => Ok(id),
        _ => Err(ApiErrorResponse::PaymentNotFound),
    }
}

/// Reads the identifier of the intent that a request is about.
pub fn get_payment_intent_id(payment_id: &PaymentIdType) -> (res: Result<String, ApiErrorResponse>)
    ensures
        match res {
            Ok(id) => spec_payment_intent_id(payment_id@) == Ok::<Seq<char>, ApiErrorResponse>(id@),
            Err(e) => spec_payment_intent_id(payment_id@) == Err::<Seq<char>, ApiErrorResponse>(e),
        },
{
    match payment_id {
        PaymentIdType::PaymentIntentId(id) => Ok(id.clone()),
        _ => Err(ApiErrorResponse::PaymentNotFound),
    }
}

/// Why an intent cannot be confirmed, if it cannot: its status forbids it,
/// its deadline has passed, or the request's client secret is not the
/// intent's.
pub open spec fn confirm_refusal(
    request: PaymentsRequestView,
    merchant_account: MerchantAccountView,
    intent: PaymentIntentView,
    now: i64,
) -> Option<ApiErrorResponse> {
    let secret = spec_authenticate_client_secret(
        request.client_secret,
        intent,
        merchant_account.intent_fulfillment_time,
        now,
    );
    if intent.status.forbids_confirm() {
        Some(ApiErrorResponse::InvalidState)
    } else if secret is Err {
        Some(secret->Err_0)
    } else {
        None
    }
}

/// Tests whether an intent may be confirmed at `now`: its status allows it,
/// its deadline has not passed, and the client secret of the request, if it
/// presents one, is the intent's.
pub fn check_confirm_allowed(
    request: &PaymentsRequest,
    merchant_account: &MerchantAccount,
    payment_intent: &PaymentIntent,
    now: i64,
) -> (res: Result<(), ApiErrorResponse>)
    ensures
        match res {
            Ok(()) => confirm_refusal(request@, merchant_account@, payment_intent@, now).is_none(),
            Err(e) => confirm_refusal(request@, merchant_account@, payment_intent@, now) == Some(e),
        },
{
    let not_allowed = not_allowed_statuses();
    match validate_payment_status_against_not_allowed_statuses(
        &payment_intent.status,
        not_allowed.as_slice(),
    ) {
        Err(e) => {
            return Err(e);
        },
        Ok(()) => {},
    }
    authenticate_client_secret(
        &request.client_secret,
        payment_intent,
        merchant_account.intent_fulfillment_time,
        now,
    )
}

/// What is to be fetched for an intent.
pub open spec fn spec_resource_plan(
    request: PaymentsRequestView,
    intent: PaymentIntentView,
) -> ResourcePlanView {
    ResourcePlanView {
        payment_id: intent.payment_id,
        merchant_id: intent.merchant_id,
        attempt_id: intent.active_attempt_id,
        shipping: spec_address_action(request.shipping, intent.shipping_address_id),
        billing: spec_address_action(request.billing, intent.billing_address_id),
        customer_id: or_else(intent.customer_id, spec_customer_details(request).customer_id),
        connector_credentials: request.merchant_connector_details,
    }
}

/// The plan for an intent that may be confirmed, or the reason why it may
/// not.
pub open spec fn spec_plan_resources(
    request: PaymentsRequestView,
    merchant_account: MerchantAccountView,
    intent: PaymentIntentView,
    now: i64,
) -> Result<ResourcePlanView, ApiErrorResponse> {
    match confirm_refusal(request, merchant_account, intent, now) {
        Some(error) => Err(error),
        None => Ok(spec_resource_plan(request, intent)),
    }
}

/// The model of a plan or the error in its place.
pub open spec fn plan_view(res: Result<ResourcePlan, ApiErrorResponse>) -> Result<
    ResourcePlanView,
    ApiErrorResponse,
> {
    match res {
        Ok(plan) => Ok(plan@),
        Err(e) => Err(e),
    }
}

/// Decides whether the fetched intent may be confirmed at `now` and, if so,
/// what is to be fetched next. An intent that is turned away leaves nothing
/// to fetch and nothing to write.
pub fn plan_resources(
    request: &PaymentsRequest,
    merchant_account: &MerchantAccount,
    payment_intent: &PaymentIntent,
    now: i64,
) -> (res: Result<ResourcePlan, ApiErrorResponse>)
    ensures
        plan_view(res) == spec_plan_resources(request@, merchant_account@, payment_intent@, now),
        payment_intent@.status.forbids_confirm() ==> res == Err::<
            ResourcePlan,
            ApiErrorResponse,
        >(ApiErrorResponse::InvalidState),
        now > fulfillment_deadline(
            payment_intent@.created_at,
            merchant_account@.intent_fulfillment_time,
        ) ==> res is Err,
{
    match check_confirm_allowed(request, merchant_account, payment_intent, now) {
        Err(e) => {
            return Err(e);
        },
        Ok(()) => {},
    }
    let customer_details = get_customer_details_from_request(request);
    Ok(
        ResourcePlan {
            payment_id: payment_intent.payment_id.clone(),
            merchant_id: payment_intent.merchant_id.clone(),
            attempt_id: payment_intent.active_attempt_id.clone(),
            shipping: create_or_find_address_for_payment_by_request(
                &request.shipping,
                &payment_intent.shipping_address_id,
            ),
            billing: create_or_find_address_for_payment_by_request(
                &request.billing,
                &payment_intent.billing_address_id,
            ),
            customer_id: first_of(
                clone_opt_text(&payment_intent.customer_id),
                customer_details.customer_id,
            ),
            connector_credentials: MerchantConnectorDetailsWrap::clone_opt(
                &request.merchant_connector_details,
            ),
        },
    )
}

/// The token, payment method and mandate of a confirmation.
///
/// A request that uses a stored mandate takes them from the mandate, and
/// fails where the mandate is not found. Every other request takes them from
/// itself, together with the mandate that it asks to set up.
pub open spec fn spec_mandate_details(
    request: PaymentsRequestView,
    mandate_type: Option<MandateTransactionType>,
    stored: Option<StoredMandateView>,
) -> Result<MandateResolutionView, ApiErrorResponse> {
    if mandate_type == Some(MandateTransactionType::RecurringMandateTransaction) {
        match stored {
            None => Err(ApiErrorResponse::MandateNotFound),
            Some(mandate) => Ok(
                MandateResolutionView {
                    token: mandate.payment_token,
                    payment_method: Some(mandate.payment_method),
                    payment_method_type: or_else(
                        mandate.payment_method_type,
                        request.payment_method_type,
                    ),
                    setup_mandate: None,
                    recurring_mandate_payment_data: Some(
                        RecurringMandatePaymentData {
                            payment_method_type: mandate.payment_method_type,
                        },
                    ),
                    mandate_connector: Some(mandate.connector),
                },
            ),
        }
    } else {
        Ok(
            MandateResolutionView {
                token: request.payment_token,
                payment_method: request.payment_method,
                payment_method_type: request.payment_method_type,
                setup_mandate: request.mandate_data,
                recurring_mandate_payment_data: None,
                mandate_connector: None,
            },
        )
    }
}

/// The model of a resolution or the error in its place.
pub open spec fn resolution_view(res: Result<MandateResolution, ApiErrorResponse>) -> Result<
    MandateResolutionView,
    ApiErrorResponse,
> {
    match res {
        Ok(resolution) => Ok(resolution@),
        Err(e) => Err(e),
    }
}

/// Resolves the token, payment method and mandate of a confirmation.
/// `stored` is the mandate that the request names, as far as the store has it.
pub fn get_token_pm_type_mandate_details(
    request: &PaymentsRequest,
    mandate_type: Option<MandateTransactionType>,
    stored: Option<StoredMandate>,
) -> (res: Result<MandateResolution, ApiErrorResponse>)
    ensures
        resolution_view(res) == spec_mandate_details(request@, mandate_type, opt_view(stored)),
{
    let recurring = match mandate_type {
        Some(MandateTransactionType::RecurringMandateTransaction) => true,
        _ => false,
    };
    if recurring {
        match stored {
            None => Err(ApiErrorResponse::MandateNotFound),
            Some(mandate) => Ok(
                MandateResolution {
                    token: mandate.payment_token,
                    payment_method: Some(mandate.payment_method),
                    payment_method_type: first_of(
                        mandate.payment_method_type,
                        request.payment_method_type,
                    ),
                    setup_mandate: None,
                    recurring_mandate_payment_data: Some(
                        RecurringMandatePaymentData {
                            payment_method_type: mandate.payment_method_type,
                        },
                    ),
                    mandate_connector: Some(mandate.connector),
                },
            ),
        }
    } else {
        Ok(
            MandateResolution {
                token: clone_opt_text(&request.payment_token),
                payment_method: request.payment_method,
                payment_method_type: request.payment_method_type,
                setup_mandate: request.mandate_data,
                recurring_mandate_payment_data: None,
                mandate_connector: None,
            },
        )
    }
}

} // verus!
