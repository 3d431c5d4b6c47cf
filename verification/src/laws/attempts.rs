//! What becomes of the attempts of a payment when it is confirmed.

use vstd::prelude::*;
use crate::enums::{IntentStatus, MerchantStorageScheme, RetryAction};
use crate::errors::ApiErrorResponse;
use crate::laws::writes::lemma_persist_returns_the_stored_rows;
use crate::payment_data::PaymentDataView;
use crate::persistence::{spec_update_plan, UpdatePlanView};
use crate::pipeline::{
    spec_confirm, spec_fetch_resources, spec_persist, spec_resolve, spec_resolve_address,
    spec_version_attempt, ConfirmInputsView, VersionedView,
};
use crate::request::PaymentsRequestView;
use crate::resolver::{spec_payment_intent_id, spec_plan_resources, AddressActionView};
use crate::storage::{
    MerchantAccountView, PaymentAttemptView, PaymentIntentUpdateView, PaymentIntentView,
};
use crate::store::{
    attempt_key, first_index, intent_key, lemma_first_index_after_push,
    lemma_first_index_after_update, lemma_first_index_is_first, spec_find_attempt, spec_find_intent,
    spec_insert_payment_attempt, spec_update_intent, MemoryStoreView,
};
use crate::surcharge::{SurchargeDetails, SurchargeKeyView};
use crate::validator::{chosen_payment_id, spec_validate_request, ValidateResultView};
use crate::versioning::{
    lemma_next_attempt_id_differs, spec_attempt_id, spec_modify_payment_intent_and_payment_attempt,
    spec_new_attempt, AttemptType,
};

verus! {

/// The confirmation of an intent that waits for an action goes on with the
/// attempt that the intent points to, and settling the attempt writes
/// nothing.
pub proof fn law_awaiting_action_keeps_attempt(
    store: MemoryStoreView,
    request: PaymentsRequestView,
    intent: PaymentIntentView,
    attempt: PaymentAttemptView,
    storage_scheme: MerchantStorageScheme,
    now: i64,
)
    requires
        intent.status.awaits_action(),
    ensures
        spec_version_attempt(store, request, intent, attempt, storage_scheme, now) == (
            store,
            Ok::<VersionedView, ApiErrorResponse>(
                VersionedView { payment_intent: intent, payment_attempt: attempt },
            ),
        ),
{
}

/// The attempts of one payment with consecutive numbers have different
/// identifiers.
pub proof fn law_consecutive_attempts_have_distinct_ids(payment_id: Seq<char>, attempt_count: nat)
    ensures
        spec_attempt_id(payment_id, attempt_count) != spec_attempt_id(
            payment_id,
            attempt_count + 1,
        ),
{
    lemma_next_attempt_id_differs(payment_id, attempt_count);
}

/// A manual retry of a failed intent whose attempt ended in a failure opens
/// a new attempt. It bears the next number of the payment and the intent
/// points to it. Exactly one row is added to the attempts of the store, and
/// since a row whose key is taken is refused, the new attempt has another
/// identifier than the attempt before it, which stays in the store as it
/// was.
pub proof fn law_retry_opens_new_attempt(
    store: MemoryStoreView,
    request: PaymentsRequestView,
    intent: PaymentIntentView,
    attempt: PaymentAttemptView,
    storage_scheme: MerchantStorageScheme,
    now: i64,
)
    requires
        intent.status == IntentStatus::Failed,
        request.retry_action == Some(RetryAction::ManualRetry),
        attempt.status.allows_retry(),
        attempt.payment_id == intent.payment_id,
        spec_find_attempt(store, attempt.payment_id, attempt.merchant_id, attempt.attempt_id)
            == Some(attempt),
        spec_version_attempt(store, request, intent, attempt, storage_scheme, now).1 is Ok,
    ensures
        ({
            let after = spec_version_attempt(store, request, intent, attempt, storage_scheme, now);
            let versioned = after.1->Ok_0;
            &&& versioned.payment_attempt.attempt_id == spec_attempt_id(
                intent.payment_id,
                (intent.attempt_count + 1) as nat,
            )
            &&& versioned.payment_attempt.attempt_id != attempt.attempt_id
            &&& versioned.payment_intent.active_attempt_id == versioned.payment_attempt.attempt_id
            &&& after.0.attempts == store.attempts.push(versioned.payment_attempt)
            &&& spec_find_attempt(
                store,
                attempt.payment_id,
                attempt.merchant_id,
                versioned.payment_attempt.attempt_id,
            ).is_none()
            &&& spec_find_attempt(
                after.0,
                attempt.payment_id,
                attempt.merchant_id,
                attempt.attempt_id,
            ) == Some(attempt)
        }),
{
    let new_attempt = spec_new_attempt(
        attempt,
        (intent.attempt_count + 1) as nat,
        storage_scheme,
        now,
    );
    let wanted = attempt_key(attempt.payment_id, attempt.merchant_id, attempt.attempt_id);
    let taken = attempt_key(
        new_attempt.payment_id,
        new_attempt.merchant_id,
        new_attempt.attempt_id,
    );
    assert(first_index(store.attempts, taken).is_none());
    assert(first_index(store.attempts, wanted).is_some());
    if new_attempt.attempt_id == attempt.attempt_id {
        assert(taken == wanted);
    }
    assert(!wanted(new_attempt));
    lemma_first_index_after_push(store.attempts, new_attempt, wanted);
}

/// What a successful write returns of the intent and the attempt: the
/// attempt has the identifier of the aggregate's attempt, the intent points
/// to the attempt that its stored row pointed to, and no attempt is added to
/// the store or taken from it.
proof fn lemma_persist_target(
    store: MemoryStoreView,
    data: PaymentDataView,
    plan: UpdatePlanView,
    now: i64,
)
    requires
        spec_persist(store, data, plan, now).1 is Ok,
        plan.intent_update is Update,
    ensures
        ({
            let after = spec_persist(store, data, plan, now);
            let stored = spec_find_intent(
                store,
                data.payment_intent.payment_id,
                data.payment_intent.merchant_id,
            );
            &&& (after.1->Ok_0).payment_attempt.attempt_id == data.payment_attempt.attempt_id
            &&& stored.is_some()
            &&& (after.1->Ok_0).payment_intent.active_attempt_id
                == stored.unwrap().active_attempt_id
            &&& after.0.attempts.len() == store.attempts.len()
        }),
{
    let written = spec_update_intent(store, data.payment_intent, plan.intent_update, now);
    let after_intent = written.unwrap().0;
    lemma_first_index_is_first(
        store.intents,
        intent_key(data.payment_intent.payment_id, data.payment_intent.merchant_id),
    );
    lemma_first_index_is_first(
        after_intent.attempts,
        attempt_key(
            data.payment_attempt.payment_id,
            data.payment_attempt.merchant_id,
            data.payment_attempt.attempt_id,
        ),
    );
}

/// What settling the attempt gives where the intent and its attempt are the
/// rows of the store: the intent that comes out is the stored row and
/// points to the attempt that comes out. An intent that waits for an action
/// keeps its attempt and nothing is written. Any other intent is a failed
/// one that is retried by hand: one attempt is added, under an identifier
/// that no attempt of the payment had.
proof fn lemma_versioned_rows(
    store: MemoryStoreView,
    request: PaymentsRequestView,
    intent: PaymentIntentView,
    attempt: PaymentAttemptView,
    storage_scheme: MerchantStorageScheme,
    now: i64,
)
    requires
        spec_find_intent(store, intent.payment_id, intent.merchant_id) == Some(intent),
        spec_find_attempt(
            store,
            intent.payment_id,
            intent.merchant_id,
            intent.active_attempt_id,
        ) == Some(attempt),
        spec_version_attempt(store, request, intent, attempt, storage_scheme, now).1 is Ok,
    ensures
        ({
            let after = spec_version_attempt(store, request, intent, attempt, storage_scheme, now);
            let versioned = after.1->Ok_0;
            let new_id = versioned.payment_attempt.attempt_id;
            &&& versioned.payment_attempt.payment_id == intent.payment_id
            &&& versioned.payment_attempt.merchant_id == intent.merchant_id
            &&& versioned.payment_intent.payment_id == intent.payment_id
            &&& versioned.payment_intent.merchant_id == intent.merchant_id
            &&& versioned.payment_intent.active_attempt_id == new_id
            &&& spec_find_intent(after.0, intent.payment_id, intent.merchant_id) == Some(
                versioned.payment_intent,
            )
            &&& intent.status.awaits_action() ==> after.0 == store && versioned.payment_attempt
                == attempt && new_id == intent.active_attempt_id
            &&& !intent.status.awaits_action() ==> {
                &&& intent.status == IntentStatus::Failed
                &&& request.retry_action == Some(RetryAction::ManualRetry)
                &&& new_id == spec_attempt_id(intent.payment_id, (intent.attempt_count + 1) as nat)
                &&& new_id != intent.active_attempt_id
                &&& after.0.attempts == store.attempts.push(versioned.payment_attempt)
                &&& spec_find_attempt(
                    store,
                    intent.payment_id,
                    intent.merchant_id,
                    new_id,
                ).is_none()
            }
        }),
{
    let wanted_intent = intent_key(intent.payment_id, intent.merchant_id);
    let wanted = attempt_key(intent.payment_id, intent.merchant_id, intent.active_attempt_id);
    lemma_first_index_is_first(store.intents, wanted_intent);
    lemma_first_index_is_first(store.attempts, wanted);
    if !intent.status.awaits_action() {
        let plan = spec_modify_payment_intent_and_payment_attempt(
            AttemptType::New,
            request,
            intent,
            attempt,
            storage_scheme,
            now,
        ).unwrap();
        let taken = attempt_key(
            plan.new_attempt.payment_id,
            plan.new_attempt.merchant_id,
            plan.new_attempt.attempt_id,
        );
        assert(first_index(store.attempts, taken).is_none());
        if plan.new_attempt.attempt_id == intent.active_attempt_id {
            assert(taken == wanted);
        }
        let inserted = spec_insert_payment_attempt(store, plan.new_attempt)->Ok_0;
        let place = first_index(store.intents, wanted_intent).unwrap();
        let linked = spec_update_intent(
            inserted,
            intent,
            PaymentIntentUpdateView::StatusAndAttemptUpdate(plan.intent_update),
            now,
        ).unwrap();
        lemma_first_index_after_update(store.intents, place, linked.1, wanted_intent);
    }
}

/// What the resolution of a request ends on, where it succeeds: the
/// aggregate's intent and attempt belong to the payment, the intent and its
/// stored row point to the attempt, and the attempt is the one that the
/// intent pointed to before where the intent waits for an action, else a new
/// one, the only row added to the attempts of the store.
proof fn lemma_resolved_attempt(
    store: MemoryStoreView,
    cache: Seq<(SurchargeKeyView, SurchargeDetails)>,
    merchant_account: MerchantAccountView,
    request: PaymentsRequestView,
    validated: ValidateResultView,
    inputs: ConfirmInputsView,
    intent: PaymentIntentView,
)
    requires
        spec_resolve(store, cache, merchant_account, request, validated, inputs).1 is Ok,
        spec_find_intent(
            store,
            spec_payment_intent_id(validated.payment_id)->Ok_0,
            merchant_account.merchant_id,
        ) == Some(intent),
    ensures
        ({
            let after = spec_resolve(store, cache, merchant_account, request, validated, inputs);
            let data = after.1->Ok_0;
            let new_id = data.payment_attempt.attempt_id;
            let stored = spec_find_intent(after.0, intent.payment_id, intent.merchant_id);
            &&& data.payment_intent.payment_id == intent.payment_id
            &&& data.payment_intent.merchant_id == intent.merchant_id
            &&& data.payment_attempt.payment_id == intent.payment_id
            &&& data.payment_attempt.merchant_id == intent.merchant_id
            &&& data.payment_intent.active_attempt_id == new_id
            &&& stored.is_some() && stored.unwrap().active_attempt_id == new_id
            &&& spec_find_attempt(
                store,
                intent.payment_id,
                intent.merchant_id,
                intent.active_attempt_id,
            ).is_some()
            &&& intent.status.awaits_action() ==> new_id == intent.active_attempt_id
                && after.0.attempts == store.attempts
            &&& !intent.status.awaits_action() ==> {
                &&& intent.status == IntentStatus::Failed
                &&& request.retry_action == Some(RetryAction::ManualRetry)
                &&& new_id == spec_attempt_id(intent.payment_id, (intent.attempt_count + 1) as nat)
                &&& new_id != intent.active_attempt_id
                &&& after.0.attempts.len() == store.attempts.len() + 1
                &&& spec_find_attempt(
                    store,
                    intent.payment_id,
                    intent.merchant_id,
                    new_id,
                ).is_none()
            }
        }),
{
    lemma_first_index_is_first(
        store.intents,
        intent_key(
            spec_payment_intent_id(validated.payment_id)->Ok_0,
            merchant_account.merchant_id,
        ),
    );
    let plan = spec_plan_resources(request, merchant_account, intent, inputs.now)->Ok_0;
    let fetched = spec_fetch_resources(
        store,
        plan,
        inputs.shipping_address_id,
        inputs.billing_address_id,
        inputs.now,
    );
    let shipping = spec_resolve_address(
        store,
        plan.shipping,
        inputs.shipping_address_id,
        plan.merchant_id,
        plan.customer_id,
        plan.payment_id,
        inputs.now,
    );
    lemma_address_resolution_keeps_attempts(
        store,
        plan.shipping,
        inputs.shipping_address_id,
        plan.merchant_id,
        plan.customer_id,
        plan.payment_id,
        inputs.now,
    );
    lemma_address_resolution_keeps_attempts(
        shipping.0,
        plan.billing,
        inputs.billing_address_id,
        plan.merchant_id,
        plan.customer_id,
        plan.payment_id,
        inputs.now,
    );
    assert(fetched.0.attempts == store.attempts);
    assert(fetched.0.intents == store.intents);
    let attempt = (fetched.1->Ok_0).payment_attempt;
    lemma_versioned_rows(
        fetched.0,
        request,
        intent,
        attempt,
        merchant_account.storage_scheme,
        inputs.now,
    );
}

/// The confirmation of an intent that waits for an action ends on the
/// attempt that the intent pointed to: the aggregate's attempt is that
/// attempt, the intent still points to it, and no attempt is added to the
/// store or taken from it.
pub proof fn law_confirm_of_awaiting_intent_keeps_attempt(
    store: MemoryStoreView,
    cache: Seq<(SurchargeKeyView, SurchargeDetails)>,
    merchant_account: MerchantAccountView,
    request: PaymentsRequestView,
    inputs: ConfirmInputsView,
    intent: PaymentIntentView,
)
    requires
        spec_find_intent(
            store,
            chosen_payment_id(request, inputs.generated_payment_id),
            merchant_account.merchant_id,
        ) == Some(intent),
        intent.status.awaits_action(),
        spec_confirm(store, cache, merchant_account, request, inputs).1 is Ok,
    ensures
        ({
            let after = spec_confirm(store, cache, merchant_account, request, inputs);
            let data = after.1->Ok_0;
            &&& data.payment_attempt.attempt_id == intent.active_attempt_id
            &&& data.payment_intent.active_attempt_id == intent.active_attempt_id
            &&& after.0.attempts.len() == store.attempts.len()
        }),
{
    let validation = spec_validate_request(request, merchant_account, inputs.generated_payment_id);
    assert(validation is Ok);
    let validated = validation->Ok_0;
    let resolved = spec_resolve(store, cache, merchant_account, request, validated, inputs);
    assert(resolved.1 is Ok);
    lemma_resolved_attempt(store, cache, merchant_account, request, validated, inputs, intent);
    let data = PaymentDataView { frm_message: inputs.frm_message, ..resolved.1->Ok_0 };
    let plan = spec_update_plan(
        data,
        inputs.customer,
        merchant_account.storage_scheme,
        inputs.updated_customer,
        inputs.frm_suggestion,
        inputs.header_payload,
        inputs.additional_pm_data,
    );
    assert(spec_confirm(store, cache, merchant_account, request, inputs) == spec_persist(
        resolved.0,
        data,
        plan,
        inputs.now,
    ));
    lemma_persist_target(resolved.0, data, plan, inputs.now);
}

/// Resolving an address touches no attempt.
proof fn lemma_address_resolution_keeps_attempts(
    store: MemoryStoreView,
    action: AddressActionView,
    fresh_address_id: Seq<char>,
    merchant_id: Seq<char>,
    customer_id: Option<Seq<char>>,
    payment_id: Seq<char>,
    now: i64,
)
    ensures
        spec_resolve_address(
            store,
            action,
            fresh_address_id,
            merchant_id,
            customer_id,
            payment_id,
            now,
        ).0.attempts == store.attempts,
{
}

/// Settling the attempt of a confirmation leaves every attempt but the one
/// it goes on with as it was.
proof fn lemma_versioning_keeps_other_attempts(
    store: MemoryStoreView,
    request: PaymentsRequestView,
    intent: PaymentIntentView,
    attempt: PaymentAttemptView,
    storage_scheme: MerchantStorageScheme,
    now: i64,
    payment_id: Seq<char>,
    merchant_id: Seq<char>,
    attempt_id: Seq<char>,
)
    requires
        spec_version_attempt(store, request, intent, attempt, storage_scheme, now).1 is Ok,
        attempt_id != (spec_version_attempt(
            store,
            request,
            intent,
            attempt,
            storage_scheme,
            now,
        ).1->Ok_0).payment_attempt.attempt_id,
    ensures
        spec_find_attempt(
            spec_version_attempt(store, request, intent, attempt, storage_scheme, now).0,
            payment_id,
            merchant_id,
            attempt_id,
        ) == spec_find_attempt(store, payment_id, merchant_id, attempt_id),
{
    let after = spec_version_attempt(store, request, intent, attempt, storage_scheme, now);
    let wanted = attempt_key(payment_id, merchant_id, attempt_id);
    if after.0.attempts != store.attempts {
        let new_attempt = (after.1->Ok_0).payment_attempt;
        assert(!wanted(new_attempt));
        lemma_first_index_after_push(store.attempts, new_attempt, wanted);
    }
}

/// Writing the changes of a confirmation leaves every attempt but the one
/// of the aggregate as it was.
proof fn lemma_persist_keeps_other_attempts(
    store: MemoryStoreView,
    data: PaymentDataView,
    plan: UpdatePlanView,
    now: i64,
    payment_id: Seq<char>,
    merchant_id: Seq<char>,
    attempt_id: Seq<char>,
)
    requires
        attempt_id != data.payment_attempt.attempt_id,
    ensures
        spec_find_attempt(
            spec_persist(store, data, plan, now).0,
            payment_id,
            merchant_id,
            attempt_id,
        ) == spec_find_attempt(store, payment_id, merchant_id, attempt_id),
{
    let after = spec_persist(store, data, plan, now);
    let wanted = attempt_key(payment_id, merchant_id, attempt_id);
    let target = attempt_key(
        data.payment_attempt.payment_id,
        data.payment_attempt.merchant_id,
        data.payment_attempt.attempt_id,
    );
    lemma_first_index_is_first(store.attempts, target);
    lemma_first_index_is_first(store.attempts, wanted);
    if after.0.attempts != store.attempts {
        let place = first_index(store.attempts, target).unwrap();
        let row = after.0.attempts[place];
        assert(after.0.attempts == store.attempts.update(place, row));
        assert(!wanted(store.attempts[place]));
        assert(!wanted(row));
        lemma_first_index_after_update(store.attempts, place, row, wanted);
        lemma_first_index_is_first(after.0.attempts, wanted);
    }
}

/// Resolving the records of a request leaves every attempt but the one of
/// the aggregate as it was.
proof fn lemma_resolve_keeps_other_attempts(
    store: MemoryStoreView,
    cache: Seq<(SurchargeKeyView, SurchargeDetails)>,
    merchant_account: MerchantAccountView,
    request: PaymentsRequestView,
    validated: ValidateResultView,
    inputs: ConfirmInputsView,
    payment_id: Seq<char>,
    merchant_id: Seq<char>,
    attempt_id: Seq<char>,
)
    requires
        spec_resolve(store, cache, merchant_account, request, validated, inputs).1 is Ok,
        attempt_id != (spec_resolve(
            store,
            cache,
            merchant_account,
            request,
            validated,
            inputs,
        ).1->Ok_0).payment_attempt.attempt_id,
    ensures
        spec_find_attempt(
            spec_resolve(store, cache, merchant_account, request, validated, inputs).0,
            payment_id,
            merchant_id,
            attempt_id,
        ) == spec_find_attempt(store, payment_id, merchant_id, attempt_id),
{
    let intent = spec_find_intent(
        store,
        spec_payment_intent_id(validated.payment_id)->Ok_0,
        merchant_account.merchant_id,
    ).unwrap();
    let plan = spec_plan_resources(
        request,
        merchant_account,
        intent,
        inputs.now,
    )->Ok_0;
    let fetched = spec_fetch_resources(
        store,
        plan,
        inputs.shipping_address_id,
        inputs.billing_address_id,
        inputs.now,
    );
    let shipping = spec_resolve_address(
        store,
        plan.shipping,
        inputs.shipping_address_id,
        plan.merchant_id,
        plan.customer_id,
        plan.payment_id,
        inputs.now,
    );
    lemma_address_resolution_keeps_attempts(
        store,
        plan.shipping,
        inputs.shipping_address_id,
        plan.merchant_id,
        plan.customer_id,
        plan.payment_id,
        inputs.now,
    );
    lemma_address_resolution_keeps_attempts(
        shipping.0,
        plan.billing,
        inputs.billing_address_id,
        plan.merchant_id,
        plan.customer_id,
        plan.payment_id,
        inputs.now,
    );
    assert(fetched.0.attempts == store.attempts);
    lemma_versioning_keeps_other_attempts(
        fetched.0,
        request,
        intent,
        (fetched.1->Ok_0).payment_attempt,
        merchant_account.storage_scheme,
        inputs.now,
        payment_id,
        merchant_id,
        attempt_id,
    );
}

/// A confirmation that succeeds leaves every attempt but the one it ends on
/// in the store as it was: the attempts of earlier executions stay
/// retrievable, unchanged.
pub proof fn law_confirm_keeps_other_attempts(
    store: MemoryStoreView,
    cache: Seq<(SurchargeKeyView, SurchargeDetails)>,
    merchant_account: MerchantAccountView,
    request: PaymentsRequestView,
    inputs: ConfirmInputsView,
    payment_id: Seq<char>,
    merchant_id: Seq<char>,
    attempt_id: Seq<char>,
)
    requires
        spec_confirm(store, cache, merchant_account, request, inputs).1 is Ok,
        attempt_id != (spec_confirm(
            store,
            cache,
            merchant_account,
            request,
            inputs,
        ).1->Ok_0).payment_attempt.attempt_id,
    ensures
        spec_find_attempt(
            spec_confirm(store, cache, merchant_account, request, inputs).0,
            payment_id,
            merchant_id,
            attempt_id,
        ) == spec_find_attempt(store, payment_id, merchant_id, attempt_id),
{
    let outcome = spec_confirm(store, cache, merchant_account, request, inputs);
    let validation = spec_validate_request(request, merchant_account, inputs.generated_payment_id);
    assert(validation is Ok);
    let validated = validation->Ok_0;
    let resolved = spec_resolve(store, cache, merchant_account, request, validated, inputs);
    assert(resolved.1 is Ok);
    let found = resolved.1->Ok_0;
    let data = PaymentDataView { frm_message: inputs.frm_message, ..found };
    let plan = spec_update_plan(
        data,
        inputs.customer,
        merchant_account.storage_scheme,
        inputs.updated_customer,
        inputs.frm_suggestion,
        inputs.header_payload,
        inputs.additional_pm_data,
    );
    assert(outcome == spec_persist(resolved.0, data, plan, inputs.now));
    lemma_persist_target(resolved.0, data, plan, inputs.now);
    assert(attempt_id != found.payment_attempt.attempt_id);
    lemma_resolve_keeps_other_attempts(
        store,
        cache,
        merchant_account,
        request,
        validated,
        inputs,
        payment_id,
        merchant_id,
        attempt_id,
    );
    lemma_persist_keeps_other_attempts(
        resolved.0,
        data,
        plan,
        inputs.now,
        payment_id,
        merchant_id,
        attempt_id,
    );
}

/// The confirmation of an intent that does not wait for an action is a
/// retry by hand after a failure, and ends on a new attempt. The new attempt
/// bears the next number of the payment and the intent points to it. It is
/// the one row added to the attempts of the store, under an identifier that
/// no attempt of the payment had, so it differs from the attempt before it,
/// which is still found in the store as it was.
pub proof fn law_confirm_retry_ends_on_new_attempt(
    store: MemoryStoreView,
    cache: Seq<(SurchargeKeyView, SurchargeDetails)>,
    merchant_account: MerchantAccountView,
    request: PaymentsRequestView,
    inputs: ConfirmInputsView,
    intent: PaymentIntentView,
)
    requires
        spec_find_intent(
            store,
            chosen_payment_id(request, inputs.generated_payment_id),
            merchant_account.merchant_id,
        ) == Some(intent),
        !intent.status.awaits_action(),
        spec_confirm(store, cache, merchant_account, request, inputs).1 is Ok,
    ensures
        ({
            let after = spec_confirm(store, cache, merchant_account, request, inputs);
            let data = after.1->Ok_0;
            let new_id = data.payment_attempt.attempt_id;
            let before = spec_find_attempt(
                store,
                intent.payment_id,
                intent.merchant_id,
                intent.active_attempt_id,
            );
            &&& intent.status == IntentStatus::Failed
            &&& request.retry_action == Some(RetryAction::ManualRetry)
            &&& new_id == spec_attempt_id(intent.payment_id, (intent.attempt_count + 1) as nat)
            &&& new_id != intent.active_attempt_id
            &&& data.payment_intent.active_attempt_id == new_id
            &&& after.0.attempts.len() == store.attempts.len() + 1
            &&& spec_find_attempt(store, intent.payment_id, intent.merchant_id, new_id).is_none()
            &&& spec_find_attempt(after.0, intent.payment_id, intent.merchant_id, new_id) == Some(
                data.payment_attempt,
            )
            &&& before.is_some()
            &&& spec_find_attempt(
                after.0,
                intent.payment_id,
                intent.merchant_id,
                intent.active_attempt_id,
            ) == before
        }),
{
    let validation = spec_validate_request(request, merchant_account, inputs.generated_payment_id);
    assert(validation is Ok);
    let validated = validation->Ok_0;
    let resolved = spec_resolve(store, cache, merchant_account, request, validated, inputs);
    assert(resolved.1 is Ok);
    lemma_resolved_attempt(store, cache, merchant_account, request, validated, inputs, intent);
    let data = PaymentDataView { frm_message: inputs.frm_message, ..resolved.1->Ok_0 };
    let plan = spec_update_plan(
        data,
        inputs.customer,
        merchant_account.storage_scheme,
        inputs.updated_customer,
        inputs.frm_suggestion,
        inputs.header_payload,
        inputs.additional_pm_data,
    );
    assert(spec_confirm(store, cache, merchant_account, request, inputs) == spec_persist(
        resolved.0,
        data,
        plan,
        inputs.now,
    ));
    lemma_persist_target(resolved.0, data, plan, inputs.now);
    lemma_persist_returns_the_stored_rows(resolved.0, data, plan, inputs.now);
    law_confirm_keeps_other_attempts(
        store,
        cache,
        merchant_account,
        request,
        inputs,
        intent.payment_id,
        intent.merchant_id,
        intent.active_attempt_id,
    );
}

} // verus!
