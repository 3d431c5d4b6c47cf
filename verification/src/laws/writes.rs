//! What a confirmation writes, and when it writes nothing.

use vstd::prelude::*;
use crate::enums::FrmSuggestion;
use crate::errors::ApiErrorResponse;
use crate::helpers::fulfillment_deadline;
use crate::payment_data::PaymentDataView;
use crate::persistence::{spec_update_plan, UpdatePlanView};
use crate::pipeline::{spec_confirm, spec_persist, spec_resolve, ConfirmInputsView};
use crate::request::PaymentsRequestView;
use crate::resolver::{confirm_refusal, spec_mandate_details};
use crate::storage::{
    MerchantAccountView, PaymentAttemptUpdateView, PaymentAttemptView, PaymentIntentUpdateView,
    PaymentIntentView,
};
use crate::store::{
    attempt_key, first_index, intent_key, lemma_first_index_after_update,
    lemma_first_index_is_first, spec_find_attempt, spec_find_intent, spec_update_attempt,
    spec_update_intent, MemoryStoreView,
};
use crate::surcharge::{spec_authorized_amount, SurchargeDetails, SurchargeKeyView};
use crate::transition::{next_attempt_status, next_intent_status};
use crate::validator::{chosen_payment_id, spec_validate_request};

verus! {

/// A request that does not pass validation is answered with its fault, and
/// the store is left as it was.
pub proof fn law_invalid_request_writes_nothing(
    store: MemoryStoreView,
    cache: Seq<(SurchargeKeyView, SurchargeDetails)>,
    merchant_account: MerchantAccountView,
    request: PaymentsRequestView,
    inputs: ConfirmInputsView,
)
    requires
        spec_validate_request(request, merchant_account, inputs.generated_payment_id) is Err,
    ensures
        spec_confirm(store, cache, merchant_account, request, inputs) == (
            store,
            Err::<PaymentDataView, ApiErrorResponse>(
                spec_validate_request(
                    request,
                    merchant_account,
                    inputs.generated_payment_id,
                )->Err_0,
            ),
        ),
{
}

/// An intent whose status forbids confirmation is not confirmed, and its
/// confirmation writes nothing: the store is left as it was, whatever else
/// the request holds. Where the request passes validation and its mandate
/// resolves, the error is `InvalidState`.
pub proof fn law_forbidden_status_writes_nothing(
    store: MemoryStoreView,
    cache: Seq<(SurchargeKeyView, SurchargeDetails)>,
    merchant_account: MerchantAccountView,
    request: PaymentsRequestView,
    inputs: ConfirmInputsView,
    intent: PaymentIntentView,
)
    requires
        spec_find_intent(
            store,
            chosen_payment_id(request, inputs.generated_payment_id),
            merchant_account.merchant_id,
        ) == Some(intent),
        intent.status.forbids_confirm(),
    ensures
        spec_confirm(store, cache, merchant_account, request, inputs).0 == store,
        spec_confirm(store, cache, merchant_account, request, inputs).1 is Err,
        spec_validate_request(request, merchant_account, inputs.generated_payment_id) is Ok
            && spec_mandate_details(
            request,
            spec_validate_request(
                request,
                merchant_account,
                inputs.generated_payment_id,
            )->Ok_0.mandate_type,
            inputs.stored_mandate,
        ) is Ok ==> spec_confirm(store, cache, merchant_account, request, inputs).1 == Err::<
            PaymentDataView,
            ApiErrorResponse,
        >(ApiErrorResponse::InvalidState),
{
}

/// An intent that is turned away, for its status or for the client secret
/// of the request, is turned away before anything is written.
pub proof fn law_refused_intent_writes_nothing(
    store: MemoryStoreView,
    cache: Seq<(SurchargeKeyView, SurchargeDetails)>,
    merchant_account: MerchantAccountView,
    request: PaymentsRequestView,
    inputs: ConfirmInputsView,
    intent: PaymentIntentView,
)
    requires
        spec_find_intent(
            store,
            chosen_payment_id(request, inputs.generated_payment_id),
            merchant_account.merchant_id,
        ) == Some(intent),
        confirm_refusal(request, merchant_account, intent, inputs.now).is_some(),
    ensures
        spec_confirm(store, cache, merchant_account, request, inputs).0 == store,
        spec_confirm(store, cache, merchant_account, request, inputs).1 is Err,
{
}

/// An intent whose deadline has passed is not confirmed, whether or not the
/// request presents a client secret: the confirmation ends in an error
/// before anything is fetched for the intent or written. Where the request
/// passes validation, its mandate resolves, the status of the intent allows
/// confirmation and the request presents no secret or the intent's own, the
/// error is `ClientSecretExpired`.
pub proof fn law_expired_intent_is_turned_away(
    store: MemoryStoreView,
    cache: Seq<(SurchargeKeyView, SurchargeDetails)>,
    merchant_account: MerchantAccountView,
    request: PaymentsRequestView,
    inputs: ConfirmInputsView,
    intent: PaymentIntentView,
)
    requires
        spec_find_intent(
            store,
            chosen_payment_id(request, inputs.generated_payment_id),
            merchant_account.merchant_id,
        ) == Some(intent),
        inputs.now > fulfillment_deadline(
            intent.created_at,
            merchant_account.intent_fulfillment_time,
        ),
    ensures
        confirm_refusal(request, merchant_account, intent, inputs.now).is_some(),
        spec_confirm(store, cache, merchant_account, request, inputs).0 == store,
        spec_confirm(store, cache, merchant_account, request, inputs).1 is Err,
        ({
            let validation = spec_validate_request(
                request,
                merchant_account,
                inputs.generated_payment_id,
            );
            &&& validation is Ok
            &&& spec_mandate_details(
                request,
                validation->Ok_0.mandate_type,
                inputs.stored_mandate,
            ) is Ok
            &&& !intent.status.forbids_confirm()
            &&& request.client_secret.is_none() || request.client_secret == intent.client_secret
        }) ==> spec_confirm(store, cache, merchant_account, request, inputs).1 == Err::<
            PaymentDataView,
            ApiErrorResponse,
        >(ApiErrorResponse::ClientSecretExpired),
{
}

/// After the changes of a confirmation are written, the store holds the
/// intent and the attempt that the aggregate ends with.
pub(crate) proof fn lemma_persist_returns_the_stored_rows(
    store: MemoryStoreView,
    data: PaymentDataView,
    plan: UpdatePlanView,
    now: i64,
)
    requires
        spec_persist(store, data, plan, now).1 is Ok,
    ensures
        ({
            let after = spec_persist(store, data, plan, now);
            let intent = (after.1->Ok_0).payment_intent;
            let attempt = (after.1->Ok_0).payment_attempt;
            &&& spec_find_intent(after.0, intent.payment_id, intent.merchant_id) == Some(intent)
            &&& spec_find_attempt(
                after.0,
                attempt.payment_id,
                attempt.merchant_id,
                attempt.attempt_id,
            ) == Some(attempt)
        }),
{
    let wanted_intent = intent_key(
        data.payment_intent.payment_id,
        data.payment_intent.merchant_id,
    );
    lemma_first_index_is_first(store.intents, wanted_intent);
    let place = first_index(store.intents, wanted_intent).unwrap();
    let written = spec_update_intent(store, data.payment_intent, plan.intent_update, now).unwrap();
    lemma_first_index_after_update(store.intents, place, written.1, wanted_intent);
    let target = attempt_key(
        data.payment_attempt.payment_id,
        data.payment_attempt.merchant_id,
        data.payment_attempt.attempt_id,
    );
    lemma_first_index_is_first(written.0.attempts, target);
    let attempt_place = first_index(written.0.attempts, target).unwrap();
    let attempt_written = spec_update_attempt(
        written.0,
        data.payment_attempt,
        plan.attempt_update,
        now,
    ).unwrap();
    lemma_first_index_after_update(written.0.attempts, attempt_place, attempt_written.1, target);
}

/// What a confirmation that succeeds returns of the intent and the attempt
/// is what the store then holds of them.
pub proof fn law_confirm_returns_the_stored_rows(
    store: MemoryStoreView,
    cache: Seq<(SurchargeKeyView, SurchargeDetails)>,
    merchant_account: MerchantAccountView,
    request: PaymentsRequestView,
    inputs: ConfirmInputsView,
)
    requires
        spec_confirm(store, cache, merchant_account, request, inputs).1 is Ok,
    ensures
        ({
            let after = spec_confirm(store, cache, merchant_account, request, inputs);
            let intent = (after.1->Ok_0).payment_intent;
            let attempt = (after.1->Ok_0).payment_attempt;
            &&& spec_find_intent(after.0, intent.payment_id, intent.merchant_id) == Some(intent)
            &&& spec_find_attempt(
                after.0,
                attempt.payment_id,
                attempt.merchant_id,
                attempt.attempt_id,
            ) == Some(attempt)
        }),
{
    let validation = spec_validate_request(request, merchant_account, inputs.generated_payment_id);
    assert(validation is Ok);
    let resolved = spec_resolve(store, cache, merchant_account, request, validation->Ok_0, inputs);
    assert(resolved.1 is Ok);
    let data = PaymentDataView { frm_message: inputs.frm_message, ..resolved.1->Ok_0 };
    let plan = spec_update_plan(
        data,
        inputs.customer,
        merchant_account.storage_scheme,
        inputs.updated_customer,
        inputs.frm_suggestion,
        inputs.header_payload,
        inputs.additional_pm_data,
    );
    assert(spec_confirm(store, cache, merchant_account, request, inputs) == spec_persist(
        resolved.0,
        data,
        plan,
        inputs.now,
    ));
    lemma_persist_returns_the_stored_rows(resolved.0, data, plan, inputs.now);
}

/// Of two writers that read the same attempt, the second to write is turned
/// away: once a change has moved the row's time on, a change that goes by
/// the row as it was read before finds it no longer.
pub proof fn law_stale_attempt_write_is_refused(
    store: MemoryStoreView,
    this: PaymentAttemptView,
    first: PaymentAttemptUpdateView,
    second: PaymentAttemptUpdateView,
    first_time: i64,
    second_time: i64,
)
    requires
        spec_update_attempt(store, this, first, first_time).is_some(),
        first_time != this.modified_at,
    ensures
        spec_update_attempt(
            spec_update_attempt(store, this, first, first_time).unwrap().0,
            this,
            second,
            second_time,
        ).is_none(),
{
    let wanted = attempt_key(this.payment_id, this.merchant_id, this.attempt_id);
    lemma_first_index_is_first(store.attempts, wanted);
    let place = first_index(store.attempts, wanted).unwrap();
    let written = spec_update_attempt(store, this, first, first_time).unwrap();
    lemma_first_index_after_update(store.attempts, place, written.1, wanted);
}

/// Of two writers that read the same intent, the second to write is turned
/// away.
pub proof fn law_stale_intent_write_is_refused(
    store: MemoryStoreView,
    this: PaymentIntentView,
    first: PaymentIntentUpdateView,
    second: PaymentIntentUpdateView,
    first_time: i64,
    second_time: i64,
)
    requires
        spec_update_intent(store, this, first, first_time).is_some(),
        first_time != this.modified_at,
    ensures
        spec_update_intent(
            spec_update_intent(store, this, first, first_time).unwrap().0,
            this,
            second,
            second_time,
        ).is_none(),
{
    let wanted = intent_key(this.payment_id, this.merchant_id);
    lemma_first_index_is_first(store.intents, wanted);
    let place = first_index(store.intents, wanted).unwrap();
    let written = spec_update_intent(store, this, first, first_time).unwrap();
    lemma_first_index_after_update(store.intents, place, written.1, wanted);
}

/// A confirmation that succeeds ends in the statuses that the fraud check's
/// suggestion selects: processing and pending without one, failed and
/// failure on a cancellation, and a hold for the merchant on a manual
/// review. The amount that can be captured is the attempt's amount with the
/// resolved surcharge and its tax, or the attempt's amount where there is no
/// surcharge.
pub proof fn law_confirm_ends_in_transition(
    store: MemoryStoreView,
    cache: Seq<(SurchargeKeyView, SurchargeDetails)>,
    merchant_account: MerchantAccountView,
    request: PaymentsRequestView,
    inputs: ConfirmInputsView,
)
    requires
        spec_confirm(store, cache, merchant_account, request, inputs).1 is Ok,
    ensures
        ({
            let data = spec_confirm(store, cache, merchant_account, request, inputs).1->Ok_0;
            &&& data.payment_intent.status == next_intent_status(inputs.frm_suggestion)
            &&& data.payment_attempt.status == next_attempt_status(inputs.frm_suggestion)
            &&& data.payment_attempt.amount_capturable == spec_authorized_amount(
                data.surcharge_details,
                data.payment_attempt.amount,
            )
            &&& inputs.frm_suggestion == Some(FrmSuggestion::FrmCancelTransaction)
                && inputs.frm_message.is_some() ==> data.payment_attempt.error_message
                == inputs.frm_message.unwrap().frm_reason
        }),
{
}

} // verus!
