//! The rules that the confirm and payment-link operations share.

use vstd::prelude::*;
use crate::enums::{IntentStatus, MandateTransactionType};
use crate::errors::{ApiErrorResponse, FieldName, RequestFault};
use crate::payment_data::{CustomerDetails, CustomerDetailsView};
use crate::request::{PaymentsRequest, PaymentsRequestView};
use crate::storage::{PaymentIntent, PaymentIntentView};
use crate::views::{clone_opt_text, opt_view, or_else};

verus! {

/// The seconds for which an intent can be confirmed where its merchant sets
/// no time of its own.
pub const DEFAULT_FULFILLMENT_TIME: i64 = 900;

/// The first of two optional values that is present.
pub fn first_of<T>(first: Option<T>, second: Option<T>) -> (res: Option<T>)
    ensures
        res == or_else(first, second),
{
    match first {
        Some(value) => Some(value),
        None => second,
    }
}

/// An intent whose status is one of `not_allowed_statuses` is turned away.
pub open spec fn spec_validate_payment_status(
    status: IntentStatus,
    not_allowed_statuses: Seq<IntentStatus>,
) -> Result<(), ApiErrorResponse> {
    if not_allowed_statuses.contains(status) {
        Err(ApiErrorResponse::InvalidState)
    } else {
        Ok(())
    }
}

/// The statuses in which an intent may not be confirmed, nor paid for
/// through a payment page.
pub fn not_allowed_statuses() -> (res: [IntentStatus; 5])
    ensures
        forall|status: IntentStatus| res@.contains(status) <==> status.forbids_confirm(),
{
    let res = [
        IntentStatus::Cancelled,
        IntentStatus::Succeeded,
        IntentStatus::Processing,
        IntentStatus::RequiresCapture,
        IntentStatus::RequiresMerchantAction,
    ];
    proof {
        assert forall|status: IntentStatus| res@.contains(status) <==> status.forbids_confirm() by {
            if status.forbids_confirm() {
                assert(res@[0] == IntentStatus::Cancelled);
                assert(res@[1] == IntentStatus::Succeeded);
                assert(res@[2] == IntentStatus::Processing);
                assert(res@[3] == IntentStatus::RequiresCapture);
                assert(res@[4] == IntentStatus::RequiresMerchantAction);
            }
        }
    }
    res
}

/// Turns an intent away whose status is one of `not_allowed_statuses`.
pub fn validate_payment_status_against_not_allowed_statuses(
    intent_status: &IntentStatus,
    not_allowed_statuses: &[IntentStatus],
) -> (res: Result<(), ApiErrorResponse>)
    ensures
        res == spec_validate_payment_status(*intent_status, not_allowed_statuses@),
{
    let mut i: usize = 0;
    while i < not_allowed_statuses.len()
        invariant
            i <= not_allowed_statuses.len(),
            forall|j: int| 0 <= j < i ==> not_allowed_statuses@[j] != *intent_status,
        decreases not_allowed_statuses.len() - i,
    {
        if not_allowed_statuses[i] == *intent_status {
            return Err(ApiErrorResponse::InvalidState);
        }
        i = i + 1;
    }
    Ok(())
}

/// The latest moment at which an intent created at `created_at` can be
/// confirmed: the merchant's time, or the default, after its creation, held
/// within the machine's integers.
pub open spec fn fulfillment_deadline(created_at: i64, fulfillment_time: Option<i64>) -> int {
    let window = match fulfillment_time {
        Some(seconds) => seconds,
        None => DEFAULT_FULFILLMENT_TIME,
    };
    if created_at + window > i64::MAX {
        i64::MAX as int
    } else if created_at + window < i64::MIN {
        i64::MIN as int
    } else {
        created_at + window
    }
}

/// Tests whether `now` lies past the deadline of an intent created at
/// `created_at`.
pub fn is_past_fulfillment_deadline(
    created_at: i64,
    fulfillment_time: Option<i64>,
    now: i64,
) -> (res:
    bool)
    ensures
        res == (now > fulfillment_deadline(created_at, fulfillment_time)),
{
    let window: i64 = match fulfillment_time {
        Some(seconds) => seconds,
        None => DEFAULT_FULFILLMENT_TIME,
    };
    let sum: i128 = created_at as i128 + window as i128;
    let deadline: i64 = if sum > 9223372036854775807i128 {
        9223372036854775807i64
    } else if sum < -9223372036854775808i128 {
        -9223372036854775808i64
    } else {
        sum as i64
    };
    now > deadline
}

/// No intent can be confirmed past its deadline, whether or not the request
/// presents a client secret. A request that presents one must present the
/// intent's own; an intent that has no secret left has expired.
pub open spec fn spec_authenticate_client_secret(
    request_client_secret: Option<Seq<char>>,
    payment_intent: PaymentIntentView,
    fulfillment_time: Option<i64>,
    now: i64,
) -> Result<(), ApiErrorResponse> {
    let expired = now > fulfillment_deadline(payment_intent.created_at, fulfillment_time);
    match request_client_secret {
        None => if expired {
            Err(ApiErrorResponse::ClientSecretExpired)
        } else {
            Ok(())
        },
        Some(presented) => match payment_intent.client_secret {
            None => Err(ApiErrorResponse::ClientSecretExpired),
            Some(issued) => if presented != issued {
                Err(ApiErrorResponse::InvalidRequestData {
                    reason: RequestFault::ClientSecretMismatch,
                })
            } else if expired {
                Err(ApiErrorResponse::ClientSecretExpired)
            } else {
                Ok(())
            },
        },
    }
}

/// Holds a request against the deadline of the intent and, where it
/// presents a client secret, against the intent's own, at `now`.
pub fn authenticate_client_secret(
    request_client_secret: &Option<String>,
    payment_intent: &PaymentIntent,
    fulfillment_time: Option<i64>,
    now: i64,
) -> (res: Result<(), ApiErrorResponse>)
    ensures
        res == spec_authenticate_client_secret(
            opt_view(*request_client_secret),
            payment_intent@,
            fulfillment_time,
            now,
        ),
        now > fulfillment_deadline(payment_intent@.created_at, fulfillment_time) ==> res is Err,
{
    let expired = is_past_fulfillment_deadline(payment_intent.created_at, fulfillment_time, now);
    match request_client_secret {
        None => {},
        Some(presented) => match &payment_intent.client_secret {
            None => {
                return Err(ApiErrorResponse::ClientSecretExpired);
            },
            Some(issued) => {
                if *presented != *issued {
                    return Err(
                        ApiErrorResponse::InvalidRequestData {
                            reason: RequestFault::ClientSecretMismatch,
                        },
                    );
                }
            },
        },
    }
    if expired {
        Err(ApiErrorResponse::ClientSecretExpired)
    } else {
        Ok(())
    }
}

/// What a request says of the customer: each field from the customer object
/// where that has it, else from the request's own field.
pub open spec fn spec_customer_details(request: PaymentsRequestView) -> CustomerDetailsView {
    match request.customer {
        Some(customer) => CustomerDetailsView {
            customer_id: Some(customer.id),
            name: or_else(customer.name, request.name),
            email: or_else(customer.email, request.email),
            phone: or_else(customer.phone, request.phone),
            phone_country_code: or_else(customer.phone_country_code, request.phone_country_code),
        },
        None => CustomerDetailsView {
            customer_id: request.customer_id,
            name: request.name,
            email: request.email,
            phone: request.phone,
            phone_country_code: request.phone_country_code,
        },
    }
}

/// Reads what a request says of the customer.
pub fn get_customer_details_from_request(request: &PaymentsRequest) -> (res: CustomerDetails)
    ensures
        res@ == spec_customer_details(request@),
{
    match &request.customer {
        Some(customer) => CustomerDetails {
            customer_id: Some(customer.id.clone()),
            name: first_of(clone_opt_text(&customer.name), clone_opt_text(&request.name)),
            email: first_of(clone_opt_text(&customer.email), clone_opt_text(&request.email)),
            phone: first_of(clone_opt_text(&customer.phone), clone_opt_text(&request.phone)),
            phone_country_code: first_of(
                clone_opt_text(&customer.phone_country_code),
                clone_opt_text(&request.phone_country_code),
            ),
        },
        None => CustomerDetails {
            customer_id: clone_opt_text(&request.customer_id),
            name: clone_opt_text(&request.name),
            email: clone_opt_text(&request.email),
            phone: clone_opt_text(&request.phone),
            phone_country_code: clone_opt_text(&request.phone_country_code),
        },
    }
}

/// A payment that is to be used again needs a customer to belong to.
pub open spec fn spec_validate_customer_id_mandatory_cases(
    has_setup_future_usage: bool,
    customer_id: Option<Seq<char>>,
) -> Result<(), ApiErrorResponse> {
    if has_setup_future_usage && customer_id.is_none() {
        Err(ApiErrorResponse::InvalidRequestData { reason: RequestFault::CustomerIdRequired })
    } else {
        Ok(())
    }
}

/// Asks for a customer where the payment is to be used again.
pub fn validate_customer_id_mandatory_cases(
    has_setup_future_usage: bool,
    customer_id: &Option<String>,
) -> (res: Result<(), ApiErrorResponse>)
    ensures
        res == spec_validate_customer_id_mandatory_cases(
            has_setup_future_usage,
            opt_view(*customer_id),
        ),
{
    if has_setup_future_usage && customer_id.is_none() {
        Err(ApiErrorResponse::InvalidRequestData { reason: RequestFault::CustomerIdRequired })
    } else {
        Ok(())
    }
}

/// Unless a stored mandate pays, a confirmation needs a payment method, named
/// or given as data, or a token that stands for one.
pub open spec fn spec_validate_pm_or_token_given(
    request: PaymentsRequestView,
    mandate_type: Option<MandateTransactionType>,
    token: Option<Seq<char>>,
) -> Result<(), ApiErrorResponse> {
    if mandate_type != Some(MandateTransactionType::RecurringMandateTransaction)
        && token.is_none() && request.payment_method.is_none()
        && request.payment_method_data.is_none() {
        Err(ApiErrorResponse::PaymentMethodNotFound)
    } else {
        Ok(())
    }
}

/// Asks for something to pay with: a payment method, a token, or a stored mandate.
pub fn validate_pm_or_token_given(
    request: &PaymentsRequest,
    mandate_type: Option<MandateTransactionType>,
    token: &Option<String>,
) -> (res: Result<(), ApiErrorResponse>)
    ensures
        res == spec_validate_pm_or_token_given(request@, mandate_type, opt_view(*token)),
{
    let recurring = match mandate_type {
        Some(MandateTransactionType::RecurringMandateTransaction) => true,
        _ => false,
    };
    if !recurring && token.is_none() && request.payment_method.is_none()
        && request.payment_method_data.is_none() {
        Err(ApiErrorResponse::PaymentMethodNotFound)
    } else {
        Ok(())
    }
}

/// The return address of a payment: the request's, else the stored one, else
/// the merchant's; without any of them the field is missing.
pub open spec fn spec_resolve_return_url(
    requested: Option<Seq<char>>,
    stored: Option<Seq<char>>,
    merchant_default: Option<Seq<char>>,
) -> Result<Seq<char>, ApiErrorResponse> {
    match or_else(requested, or_else(stored, merchant_default)) {
        Some(url) => Ok(url),
        None => Err(ApiErrorResponse::MissingRequiredField { field_name: FieldName::ReturnUrl }),
    }
}

/// Picks the return address of a payment.
pub fn resolve_return_url(
    requested: Option<String>,
    stored: Option<String>,
    merchant_default: Option<String>,
) -> (res: Result<String, ApiErrorResponse>)
    ensures
        match res {
            Ok(url) => spec_resolve_return_url(
                opt_view(requested),
                opt_view(stored),
                opt_view(merchant_default),
            ) == Ok::<Seq<char>, ApiErrorResponse>(url@),
            Err(e) => spec_resolve_return_url(
                opt_view(requested),
                opt_view(stored),
                opt_view(merchant_default),
            ) == Err::<Seq<char>, ApiErrorResponse>(e),
        },
{
    match first_of(requested, first_of(stored, merchant_default)) {
        Some(url) => Ok(url),
        None => Err(ApiErrorResponse::MissingRequiredField { field_name: FieldName::ReturnUrl }),
    }
}

} // verus!
