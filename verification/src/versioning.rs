//! Attempt versioning: whether a confirmation carries on with the attempt
//! that its intent points to or opens a new one, and what the new one is.

use vstd::prelude::*;
use crate::enums::{AttemptStatus, IntentStatus, MerchantStorageScheme, RetryAction};
use crate::errors::ApiErrorResponse;
use crate::json::clone_opt_value;
use crate::request::{PaymentsRequest, PaymentsRequestView};
use crate::storage::{
    PaymentAttempt, PaymentAttemptView, PaymentIntent, PaymentIntentView, StatusAndAttemptUpdate,
    StatusAndAttemptUpdateView,
};
use crate::views::{clone_opt_text, opt_view};

verus! {

/// What a confirmation does about its attempt.
#[derive(Clone, Copy, Debug, PartialEq, Eq, Structural)]
pub enum AttemptType {
    /// A new attempt is opened and becomes the intent's active one.
    New,
    /// The intent's active attempt is carried on.
    SameOld,
}

/// The character of a decimal digit.
pub open spec fn digit_char(d: int) -> char
    recommends
        0 <= d < 10,
{
    if d == 0 {
        '0'
    } else if d == 1 {
        '1'
    } else if d == 2 {
        '2'
    } else if d == 3 {
        '3'
    } else if d == 4 {
        '4'
    } else if d == 5 {
        '5'
    } else if d == 6 {
        '6'
    } else if d == 7 {
        '7'
    } else if d == 8 {
        '8'
    } else {
        '9'
    }
}

/// A number written in decimal, without leading zeros.
pub open spec fn decimal_text(n: nat) -> Seq<char>
    decreases n,
{
    if n < 10 {
        seq![digit_char(n as int)]
    } else {
        decimal_text(n / 10).push(digit_char((n % 10) as int))
    }
}

/// The identifier of the attempt of a payment with a given number: the
/// payment's identifier, an underscore, and the number in decimal.
pub open spec fn spec_attempt_id(payment_id: Seq<char>, attempt_count: nat) -> Seq<char> {
    payment_id + seq!['_'] + decimal_text(attempt_count)
}

fn digit_text(d: u32) -> (res: &'static str)
    requires
        d < 10,
    ensures
        res@ == seq![digit_char(d as int)],
{
    proof {
        reveal_strlit("0");
        reveal_strlit("1");
        reveal_strlit("2");
        reveal_strlit("3");
        reveal_strlit("4");
        reveal_strlit("5");
        reveal_strlit("6");
        reveal_strlit("7");
        reveal_strlit("8");
        reveal_strlit("9");
    }
    let res = if d == 0 {
        "0"
    } else if d == 1 {
        "1"
    } else if d == 2 {
        "2"
    } else if d == 3 {
        "3"
    } else if d == 4 {
        "4"
    } else if d == 5 {
        "5"
    } else if d == 6 {
        "6"
    } else if d == 7 {
        "7"
    } else if d == 8 {
        "8"
    } else {
        "9"
    };
    assert(res@ =~= seq![digit_char(d as int)]);
    res
}

/// Writes a number in decimal.
pub fn decimal(n: u32) -> (res: String)
    ensures
        res@ == decimal_text(n as nat),
    decreases n,
{
    if n < 10 {
        digit_text(n).to_string()
    } else {
        let mut text = decimal(n / 10);
        let last = digit_text(n % 10);
        text.append(last);
        proof {
            assert(text@ =~= decimal_text((n / 10) as nat).push(digit_char((n % 10) as int)));
        }
        text
    }
}

/// The identifier of the attempt of a payment with a given number.
pub fn get_payment_attempt_id(payment_id: &String, attempt_count: u32) -> (res: String)
    ensures
        res@ == spec_attempt_id(payment_id@, attempt_count as nat),
{
    proof {
        reveal_strlit("_");
    }
    let mut id = payment_id.clone();
    id.append("_");
    let number = decimal(attempt_count);
    id.append(number.as_str());
    proof {
        assert("_"@ =~= seq!['_']);
    }
    id
}

/// Whether a confirmation carries on with the current attempt or opens a
/// new one.
///
/// An intent that waits for an action keeps its attempt. A failed intent
/// gets a new attempt where the caller asks for a manual retry and the
/// current attempt ended in a failure that allows one. Every other intent
/// cannot be confirmed.
pub open spec fn spec_get_attempt_type(
    intent: PaymentIntentView,
    attempt: PaymentAttemptView,
    request: PaymentsRequestView,
) -> Result<AttemptType, ApiErrorResponse> {
    if intent.status.awaits_action() {
        Ok(AttemptType::SameOld)
    } else if intent.status == IntentStatus::Failed {
        if request.retry_action != Some(RetryAction::ManualRetry) {
            Err(ApiErrorResponse::InvalidState)
        } else if attempt.status.allows_retry() {
            Ok(AttemptType::New)
        } else if attempt.status == AttemptStatus::VoidFailed || attempt.status
            == AttemptStatus::RouterDeclined || attempt.status == AttemptStatus::CaptureFailed {
            Err(ApiErrorResponse::InvalidState)
        } else {
            Err(ApiErrorResponse::InternalServerError)
        }
    } else {
        Err(ApiErrorResponse::InvalidState)
    }
}

/// Decides whether a confirmation carries on with the current attempt or opens a new one.
pub fn get_attempt_type(
    payment_intent: &PaymentIntent,
    payment_attempt: &PaymentAttempt,
    request: &PaymentsRequest,
) -> (res: Result<AttemptType, ApiErrorResponse>)
    ensures
        res == spec_get_attempt_type(payment_intent@, payment_attempt@, request@),
{
    match payment_intent.status {
        IntentStatus::Failed => {
            let manual_retry = match request.retry_action {
                Some(RetryAction::ManualRetry) => true,
                _ => false,
            };
            if !manual_retry {
                return Err(ApiErrorResponse::InvalidState);
            }
            match payment_attempt.status {
                AttemptStatus::AuthenticationFailed
                | AttemptStatus::AuthorizationFailed
                | AttemptStatus::Failure => Ok(AttemptType::New),
                AttemptStatus::VoidFailed
                | AttemptStatus::RouterDeclined
                | AttemptStatus::CaptureFailed => Err(ApiErrorResponse::InvalidState),
                _ => Err(ApiErrorResponse::InternalServerError),
            }
        },
        IntentStatus::Cancelled
        | IntentStatus::RequiresCapture
        | IntentStatus::PartiallyCaptured
        | IntentStatus::Processing
        | IntentStatus::Succeeded => Err(ApiErrorResponse::InvalidState),
        IntentStatus::RequiresCustomerAction
        | IntentStatus::RequiresMerchantAction
        | IntentStatus::RequiresPaymentMethod
        | IntentStatus::RequiresConfirmation => Ok(AttemptType::SameOld),
    }
}

/// The status of an intent whose new attempt is about to be confirmed.
pub open spec fn spec_payment_intent_status_fsm(has_payment_method_data: bool) -> IntentStatus {
    if has_payment_method_data {
        IntentStatus::RequiresCustomerAction
    } else {
        IntentStatus::RequiresPaymentMethod
    }
}

/// The attempt that follows `old` as number `new_attempt_count` of its
/// payment. It keeps what was fixed when the payment was created: amounts,
/// currency, capture and authentication settings, mandate, label and routing.
/// What belonged to the old execution is left behind: connector, payment
/// method, token, browser and errors.
pub open spec fn spec_new_attempt(
    old: PaymentAttemptView,
    new_attempt_count: nat,
    storage_scheme: MerchantStorageScheme,
    now: i64,
) -> PaymentAttemptView {
    PaymentAttemptView {
        attempt_id: spec_attempt_id(old.payment_id, new_attempt_count),
        status: AttemptStatus::PaymentMethodAwaited,
        payment_method: None,
        payment_method_type: None,
        payment_experience: None,
        connector: None,
        merchant_connector_id: None,
        browser_info: None,
        payment_token: None,
        payment_method_data: None,
        error_code: None,
        error_message: None,
        amount_capturable: old.amount,
        created_at: now,
        modified_at: now,
        updated_by: storage_scheme.spec_text(),
        ..old
    }
}

/// The change that makes a new attempt the active one of its intent.
pub open spec fn spec_link_new_attempt(
    intent: PaymentIntentView,
    request: PaymentsRequestView,
    storage_scheme: MerchantStorageScheme,
) -> StatusAndAttemptUpdateView {
    StatusAndAttemptUpdateView {
        status: spec_payment_intent_status_fsm(request.payment_method_data.is_some()),
        active_attempt_id: spec_attempt_id(intent.payment_id, (intent.attempt_count + 1) as nat),
        attempt_count: (intent.attempt_count + 1) as u32,
        updated_by: storage_scheme.spec_text(),
    }
}

/// A new attempt and the change that links it to its intent.
#[derive(Debug, PartialEq)]
pub struct NewAttemptPlan {
    pub new_attempt: PaymentAttempt,
    pub intent_update: StatusAndAttemptUpdate,
}

/// The model of [`NewAttemptPlan`].
pub struct NewAttemptPlanView {
    pub new_attempt: PaymentAttemptView,
    pub intent_update: StatusAndAttemptUpdateView,
}

impl View for NewAttemptPlan {
    type V = NewAttemptPlanView;

    open spec fn view(&self) -> NewAttemptPlanView {
        NewAttemptPlanView {
            new_attempt: self.new_attempt@,
            intent_update: self.intent_update@,
        }
    }
}

/// What has to be written before a confirmation goes on: nothing where the
/// attempt is carried on, else the new attempt and its link.
pub open spec fn spec_modify_payment_intent_and_payment_attempt(
    attempt_type: AttemptType,
    request: PaymentsRequestView,
    intent: PaymentIntentView,
    attempt: PaymentAttemptView,
    storage_scheme: MerchantStorageScheme,
    now: i64,
) -> Option<NewAttemptPlanView> {
    match attempt_type {
        AttemptType::SameOld => None,
        AttemptType::New => Some(
            NewAttemptPlanView {
                new_attempt: spec_new_attempt(
                    attempt,
                    (intent.attempt_count + 1) as nat,
                    storage_scheme,
                    now,
                ),
                intent_update: spec_link_new_attempt(intent, request, storage_scheme),
            },
        ),
    }
}

/// Builds the attempt that follows `old`.
pub fn make_new_payment_attempt(
    old: &PaymentAttempt,
    new_attempt_count: u32,
    storage_scheme: MerchantStorageScheme,
    now: i64,
) -> (res: PaymentAttempt)
    ensures
        res@ == spec_new_attempt(old@, new_attempt_count as nat, storage_scheme, now),
{
    PaymentAttempt {
        payment_id: old.payment_id.clone(),
        merchant_id: old.merchant_id.clone(),
        attempt_id: get_payment_attempt_id(&old.payment_id, new_attempt_count),
        status: AttemptStatus::PaymentMethodAwaited,
        amount: old.amount,
        currency: old.currency,
        surcharge_amount: old.surcharge_amount,
        tax_amount: old.tax_amount,
        payment_method: None,
        payment_method_type: None,
        payment_experience: None,
        capture_method: old.capture_method,
        authentication_type: old.authentication_type,
        connector: None,
        merchant_connector_id: None,
        browser_info: None,
        payment_token: None,
        payment_method_data: None,
        mandate_id: clone_opt_text(&old.mandate_id),
        mandate_details: old.mandate_details,
        business_sub_label: clone_opt_text(&old.business_sub_label),
        straight_through_algorithm: clone_opt_value(&old.straight_through_algorithm),
        error_code: None,
        error_message: None,
        amount_capturable: old.amount,
        created_at: now,
        modified_at: now,
        updated_by: storage_scheme.text(),
    }
}

impl AttemptType {
    /// Plans what this decision asks to be written. The old attempt is not
    /// part of the plan: it stays as it is.
    pub fn modify_payment_intent_and_payment_attempt(
        &self,
        request: &PaymentsRequest,
        fetched_payment_intent: &PaymentIntent,
        fetched_payment_attempt: &PaymentAttempt,
        storage_scheme: MerchantStorageScheme,
        now: i64,
    ) -> (res: Option<NewAttemptPlan>)
        requires
            fetched_payment_intent.attempt_count < u32::MAX,
        ensures
            opt_view(res) == spec_modify_payment_intent_and_payment_attempt(
                *self,
                request@,
                fetched_payment_intent@,
                fetched_payment_attempt@,
                storage_scheme,
                now,
            ),
    {
        match self {
            AttemptType::SameOld => None,
            AttemptType::New => {
                let new_attempt_count: u32 = fetched_payment_intent.attempt_count + 1;
                let new_attempt = make_new_payment_attempt(
                    fetched_payment_attempt,
                    new_attempt_count,
                    storage_scheme,
                    now,
                );
                let status = if request.payment_method_data.is_some() {
                    IntentStatus::RequiresCustomerAction
                } else {
                    IntentStatus::RequiresPaymentMethod
                };
                let intent_update = StatusAndAttemptUpdate {
                    status,
                    active_attempt_id: get_payment_attempt_id(
                        &fetched_payment_intent.payment_id,
                        new_attempt_count,
                    ),
                    attempt_count: new_attempt_count,
                    updated_by: storage_scheme.text(),
                };
                Some(NewAttemptPlan { new_attempt, intent_update })
            },
        }
    }
}

/// The decimal forms of a number and its successor end differently.
pub proof fn lemma_decimal_successor_differs(n: nat)
    ensures
        decimal_text(n) != decimal_text(n + 1),
        decimal_text(n).len() > 0,
        decimal_text(n + 1).len() > 0,
        decimal_text(n).last() != decimal_text(n + 1).last(),
{
    lemma_decimal_last(n);
    lemma_decimal_last(n + 1);
    assert(n % 10 != (n + 1) % 10);
}

/// A number in decimal ends with its last digit.
pub proof fn lemma_decimal_last(n: nat)
    ensures
        decimal_text(n).len() > 0,
        decimal_text(n).last() == digit_char((n % 10) as int),
{
    if n < 10 {
        assert(n % 10 == n);
    } else {
    }
}

/// The attempts of one payment with consecutive numbers have different
/// identifiers.
pub proof fn lemma_next_attempt_id_differs(payment_id: Seq<char>, attempt_count: nat)
    ensures
        spec_attempt_id(payment_id, attempt_count) != spec_attempt_id(
            payment_id,
            attempt_count + 1,
        ),
{
    lemma_decimal_successor_differs(attempt_count);
    let a = spec_attempt_id(payment_id, attempt_count);
    let b = spec_attempt_id(payment_id, attempt_count + 1);
    assert(a.last() == decimal_text(attempt_count).last());
    assert(b.last() == decimal_text(attempt_count + 1).last());
}

} // verus!
