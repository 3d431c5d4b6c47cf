//! One intent per payment.

use vstd::prelude::*;
use crate::payment_data::PaymentDataView;
use crate::persistence::{spec_update_plan, UpdatePlanView};
use crate::pipeline::{
    spec_confirm, spec_fetch_resources, spec_persist, spec_resolve, spec_version_attempt,
    ConfirmInputsView,
};
use crate::request::PaymentsRequestView;
use crate::resolver::{spec_payment_intent_id, spec_plan_resources};
use crate::storage::{MerchantAccountView, PaymentIntentUpdateView, PaymentIntentView};
use crate::store::{
    intent_key, lemma_first_index_is_first, spec_find_intent, spec_insert_payment_attempt,
    spec_insert_payment_intent, spec_update_intent, MemoryStoreView,
};
use crate::surcharge::{SurchargeDetails, SurchargeKeyView};
use crate::validator::{spec_validate_request, ValidateResultView};
use crate::versioning::{spec_modify_payment_intent_and_payment_attempt, AttemptType};

verus! {

/// No two intents of the store are of the same payment of the same merchant.
pub open spec fn one_intent_per_payment(store: MemoryStoreView) -> bool {
    forall|i: int, j: int|
        0 <= i < j < store.intents.len() ==> !((#[trigger] store.intents[i]).payment_id == (
        #[trigger] store.intents[j]).payment_id && store.intents[i].merchant_id
            == store.intents[j].merchant_id)
}

/// Two stores hold intents of the same payments, in the same places.
pub open spec fn same_payments(a: MemoryStoreView, b: MemoryStoreView) -> bool {
    &&& a.intents.len() == b.intents.len()
    &&& forall|i: int|
        0 <= i < a.intents.len() ==> (#[trigger] a.intents[i]).payment_id == b.intents[i].payment_id
            && a.intents[i].merchant_id == b.intents[i].merchant_id
}

/// Adding an intent to a store that has one intent per payment leaves it
/// with one intent per payment: a second intent of a payment is refused.
pub proof fn law_insert_keeps_one_intent_per_payment(store: MemoryStoreView, row: PaymentIntentView)
    requires
        one_intent_per_payment(store),
    ensures
        match spec_insert_payment_intent(store, row) {
            Ok(after) => one_intent_per_payment(after),
            Err(_) => spec_find_intent(store, row.payment_id, row.merchant_id).is_some(),
        },
{
    let wanted = intent_key(row.payment_id, row.merchant_id);
    lemma_first_index_is_first(store.intents, wanted);
    match spec_insert_payment_intent(store, row) {
        Ok(after) => {
            assert forall|i: int, j: int| 0 <= i < j < after.intents.len() implies !((
            #[trigger] after.intents[i]).payment_id == (#[trigger] after.intents[j]).payment_id
                && after.intents[i].merchant_id == after.intents[j].merchant_id) by {
                if j < store.intents.len() {
                    assert(after.intents[i] == store.intents[i]);
                    assert(after.intents[j] == store.intents[j]);
                } else {
                    assert(after.intents[i] == store.intents[i]);
                    assert(!wanted(store.intents[i]));
                }
            }
        },
        Err(_) => {},
    }
}

/// A change to an intent leaves every intent with its payment.
proof fn lemma_update_intent_keeps_payments(
    store: MemoryStoreView,
    this: PaymentIntentView,
    update: PaymentIntentUpdateView,
    now: i64,
)
    ensures
        match spec_update_intent(store, this, update, now) {
            Some((after, _)) => same_payments(store, after),
            None => true,
        },
{
    lemma_first_index_is_first(
        store.intents,
        intent_key(this.payment_id, this.merchant_id),
    );
}

/// Writing the changes of a confirmation leaves every intent with its
/// payment.
proof fn lemma_persist_keeps_payments(
    store: MemoryStoreView,
    data: PaymentDataView,
    plan: UpdatePlanView,
    now: i64,
)
    ensures
        same_payments(store, spec_persist(store, data, plan, now).0),
{
    lemma_update_intent_keeps_payments(store, data.payment_intent, plan.intent_update, now);
}

/// Resolving the records of a request leaves every intent with its payment.
proof fn lemma_resolve_keeps_payments(
    store: MemoryStoreView,
    cache: Seq<(SurchargeKeyView, SurchargeDetails)>,
    merchant_account: MerchantAccountView,
    request: PaymentsRequestView,
    validated: ValidateResultView,
    inputs: ConfirmInputsView,
)
    ensures
        same_payments(
            store,
            spec_resolve(store, cache, merchant_account, request, validated, inputs).0,
        ),
{
    let after = spec_resolve(store, cache, merchant_account, request, validated, inputs).0;
    if after != store {
        let intent = spec_find_intent(
            store,
            spec_payment_intent_id(validated.payment_id)->Ok_0,
            merchant_account.merchant_id,
        ).unwrap();
        let plan = spec_plan_resources(
            request,
            merchant_account,
            intent,
            inputs.now,
        )->Ok_0;
        let fetched = spec_fetch_resources(
            store,
            plan,
            inputs.shipping_address_id,
            inputs.billing_address_id,
            inputs.now,
        );
        assert(fetched.0.intents == store.intents);
        if fetched.1 is Ok {
            let attempt = (fetched.1->Ok_0).payment_attempt;
            let versioned = spec_version_attempt(
                fetched.0,
                request,
                intent,
                attempt,
                merchant_account.storage_scheme,
                inputs.now,
            );
            if versioned.0.intents != fetched.0.intents {
                let new = spec_modify_payment_intent_and_payment_attempt(
                    AttemptType::New,
                    request,
                    intent,
                    attempt,
                    merchant_account.storage_scheme,
                    inputs.now,
                ).unwrap();
                let inserted = spec_insert_payment_attempt(
                    fetched.0,
                    new.new_attempt,
                )->Ok_0;
                lemma_update_intent_keeps_payments(
                    inserted,
                    intent,
                    PaymentIntentUpdateView::StatusAndAttemptUpdate(new.intent_update),
                    inputs.now,
                );
            }
            assert(same_payments(store, versioned.0));
        }
    }
}

/// A confirmation neither adds nor removes an intent, and leaves every
/// intent with its payment.
pub proof fn law_confirm_keeps_payments(
    store: MemoryStoreView,
    cache: Seq<(SurchargeKeyView, SurchargeDetails)>,
    merchant_account: MerchantAccountView,
    request: PaymentsRequestView,
    inputs: ConfirmInputsView,
)
    ensures
        same_payments(store, spec_confirm(store, cache, merchant_account, request, inputs).0),
        one_intent_per_payment(store) ==> one_intent_per_payment(
            spec_confirm(store, cache, merchant_account, request, inputs).0,
        ),
{
    let after = spec_confirm(store, cache, merchant_account, request, inputs).0;
    let validation = spec_validate_request(request, merchant_account, inputs.generated_payment_id);
    if validation is Ok {
        let validated = validation->Ok_0;
        lemma_resolve_keeps_payments(store, cache, merchant_account, request, validated, inputs);
        let resolved = spec_resolve(store, cache, merchant_account, request, validated, inputs);
        if resolved.1 is Ok {
            let data = PaymentDataView { frm_message: inputs.frm_message, ..resolved.1->Ok_0 };
            let plan = spec_update_plan(
                data,
                inputs.customer,
                merchant_account.storage_scheme,
                inputs.updated_customer,
                inputs.frm_suggestion,
                inputs.header_payload,
                inputs.additional_pm_data,
            );
            lemma_persist_keeps_payments(resolved.0, data, plan, inputs.now);
            assert(after == spec_persist(resolved.0, data, plan, inputs.now).0);
        } else {
            assert(after == resolved.0);
        }
    } else {
        assert(after == store);
    }
    assert(same_payments(store, after));
    if one_intent_per_payment(store) {
        assert forall|i: int, j: int| 0 <= i < j < after.intents.len() implies !((
        #[trigger] after.intents[i]).payment_id == (#[trigger] after.intents[j]).payment_id
            && after.intents[i].merchant_id == after.intents[j].merchant_id) by {
            assert(store.intents[i].payment_id == after.intents[i].payment_id);
            assert(store.intents[j].payment_id == after.intents[j].payment_id);
        }
    }
}

} // verus!
