//! What holds of every declared surcharge.

use vstd::prelude::*;
use crate::enums::MandateTransactionType;
use crate::errors::ApiErrorResponse;
use crate::payment_confirm::{reconciled_attempt, spec_get_trackers};
use crate::payment_data::MandateResolutionView;
use crate::request::{PaymentsRequestView, RequestSurchargeDetails};
use crate::storage::{AddressView, MerchantAccountView, PaymentAttemptView, PaymentIntentView};
use crate::surcharge::{spec_validate_surcharge, surcharge_mismatch, SessionSurcharge};

verus! {

/// A surcharge that was fixed when the payment was created must be declared
/// again as it was: a request that brings payment method data and declares
/// another surcharge is turned away, and one that declares the same
/// surcharge and tax passes.
pub proof fn law_stored_surcharge_binds(
    attempt: PaymentAttemptView,
    request: PaymentsRequestView,
    session: SessionSurcharge,
    stored: i64,
    declared: RequestSurchargeDetails,
)
    requires
        attempt.surcharge_amount == Some(stored),
        request.surcharge_details == Some(declared),
        request.payment_method_data.is_some(),
    ensures
        declared.surcharge_amount != stored ==> spec_validate_surcharge(attempt, request, session)
            == Err::<(), ApiErrorResponse>(surcharge_mismatch()),
        declared.surcharge_amount == stored && declared.tax_amount == attempt.tax_amount
            ==> spec_validate_surcharge(attempt, request, session) == Ok::<(), ApiErrorResponse>(
            (),
        ),
{
}

/// Without a surcharge from an earlier call, stored or cached, a request
/// that brings payment method data may declare a zero surcharge and no
/// other.
pub proof fn law_unknown_surcharge_must_be_zero(
    attempt: PaymentAttemptView,
    request: PaymentsRequestView,
    declared: RequestSurchargeDetails,
)
    requires
        attempt.surcharge_amount.is_none(),
        request.surcharge_details == Some(declared),
        request.payment_method_data.is_some(),
    ensures
        declared.spec_is_surcharge_zero() ==> spec_validate_surcharge(
            attempt,
            request,
            SessionSurcharge::NotFound,
        ) == Ok::<(), ApiErrorResponse>(()),
        !declared.spec_is_surcharge_zero() ==> spec_validate_surcharge(
            attempt,
            request,
            SessionSurcharge::NotFound,
        ) == Err::<(), ApiErrorResponse>(surcharge_mismatch()),
{
}

/// A reconciliation never passes a surcharge that the surcharge rules turn
/// away.
pub proof fn law_reconciliation_holds_surcharge(
    request: PaymentsRequestView,
    mandate_type: Option<MandateTransactionType>,
    merchant_account: MerchantAccountView,
    intent: PaymentIntentView,
    attempt: PaymentAttemptView,
    mandate: MandateResolutionView,
    shipping: Option<AddressView>,
    billing: Option<AddressView>,
    session: SessionSurcharge,
    now: i64,
)
    requires
        spec_validate_surcharge(reconciled_attempt(request, attempt, mandate), request, session)
            is Err,
    ensures
        spec_get_trackers(
            request,
            mandate_type,
            merchant_account,
            intent,
            attempt,
            mandate,
            shipping,
            billing,
            session,
            now,
        ) is Err,
{
}

} // verus!
