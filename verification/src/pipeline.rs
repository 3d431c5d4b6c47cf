//! The confirm pipeline run against the in-memory store: validation, the
//! fetches, attempt versioning, reconciliation, the transition and the
//! writes, in this order.

use vstd::prelude::*;
use crate::enums::{FrmSuggestion, MerchantStorageScheme};
use crate::errors::ApiErrorResponse;
use crate::payment_confirm::{reconciled_attempt, spec_get_trackers, PaymentConfirm};
use crate::payment_data::{
    FraudCheck, FraudCheckView, MandateResolutionView, PaymentData, PaymentDataView,
};
use crate::persistence::{spec_update_plan, HeaderPayload, UpdatePlan, UpdatePlanView};
use crate::request::{AddressDetailsView, PaymentsRequest, PaymentsRequestView};
use crate::resolver::{
    get_payment_intent_id, get_token_pm_type_mandate_details, plan_resources, spec_mandate_details,
    spec_payment_intent_id, spec_plan_resources, AddressAction, AddressActionView, ResourcePlan,
    ResourcePlanView, StoredMandate, StoredMandateView,
};
use crate::storage::{
    Address, AddressView, Customer, CustomerUpdate, CustomerUpdateView, CustomerView,
    MerchantAccount, MerchantAccountView, PaymentAttempt, PaymentAttemptView, PaymentIntent,
    PaymentIntentUpdate, PaymentIntentUpdateView, PaymentIntentView,
};
use crate::store::{
    spec_cached_surcharge, spec_find_address, spec_find_attempt, spec_find_intent,
    spec_insert_address, spec_insert_payment_attempt, spec_keep_credentials, spec_update_address,
    spec_update_attempt, spec_update_customer, spec_update_intent, MemoryStore, MemoryStoreView,
    SessionCache,
};
use crate::surcharge::{
    spec_session_surcharge_key, SessionSurcharge, SurchargeDetails, SurchargeKeyView,
};
use crate::validator::{spec_validate_request, ValidateResult, ValidateResultView};
use crate::versioning::{
    get_attempt_type, spec_get_attempt_type, spec_modify_payment_intent_and_payment_attempt,
    AttemptType,
};
use crate::views::{clone_opt_text, opt_view};

verus! {

/// What one confirmation is given from outside the store and the request: fresh
/// identifiers, the mandate that the request names, the customer and the change
/// asked for it, the outcome of the fraud check, what the caller's headers say,
/// what is to be kept of the payment method data, and the time.
#[derive(Debug, PartialEq)]
pub struct ConfirmInputs {
    pub generated_payment_id: String,
    pub shipping_address_id: String,
    pub billing_address_id: String,
    pub stored_mandate: Option<StoredMandate>,
    pub customer: Option<Customer>,
    pub updated_customer: Option<CustomerUpdate>,
    pub frm_suggestion: Option<FrmSuggestion>,
    pub frm_message: Option<FraudCheck>,
    pub header_payload: HeaderPayload,
    pub additional_pm_data: Option<serde_json::Value>,
    pub now: i64,
}

/// The model of [`ConfirmInputs`]: the same fields, with text as sequences of characters.
pub struct ConfirmInputsView {
    pub generated_payment_id: Seq<char>,
    pub shipping_address_id: Seq<char>,
    pub billing_address_id: Seq<char>,
    pub stored_mandate: Option<StoredMandateView>,
    pub customer: Option<CustomerView>,
    pub updated_customer: Option<CustomerUpdateView>,
    pub frm_suggestion: Option<FrmSuggestion>,
    pub frm_message: Option<FraudCheckView>,
    pub header_payload: HeaderPayload,
    pub additional_pm_data: Option<serde_json::Value>,
    pub now: i64,
}

impl View for ConfirmInputs {
    type V = ConfirmInputsView;

    open spec fn view(&self) -> ConfirmInputsView {
        ConfirmInputsView {
            generated_payment_id: self.generated_payment_id@,
            shipping_address_id: self.shipping_address_id@,
            billing_address_id: self.billing_address_id@,
            stored_mandate: opt_view(self.stored_mandate),
            customer: opt_view(self.customer),
            updated_customer: opt_view(self.updated_customer),
            frm_suggestion: self.frm_suggestion,
            frm_message: opt_view(self.frm_message),
            header_payload: self.header_payload,
            additional_pm_data: self.additional_pm_data,
            now: self.now,
        }
    }
}

/// The model of an optional address or the error in its place.
pub open spec fn address_result_view(res: Result<Option<Address>, ApiErrorResponse>) -> Result<
    Option<AddressView>,
    ApiErrorResponse,
> {
    match res {
        Ok(address) => Ok(opt_view(address)),
        Err(e) => Err(e),
    }
}

/// The address that a payment creates from what a request gives.
pub open spec fn spec_new_address(
    details: AddressDetailsView,
    fresh_address_id: Seq<char>,
    merchant_id: Seq<char>,
    customer_id: Option<Seq<char>>,
    payment_id: Seq<char>,
    now: i64,
) -> AddressView {
    AddressView {
        address_id: fresh_address_id,
        merchant_id,
        customer_id,
        payment_id: Some(payment_id),
        details,
        created_at: now,
        modified_at: now,
    }
}

/// The store after an address is resolved, and the address.
///
/// A stored address is read, or overwritten where the request gives one; a
/// stored address that is not there is an error. Without a stored address
/// the request's is created under the fresh identifier. Reading changes
/// nothing.
pub open spec fn spec_resolve_address(
    store: MemoryStoreView,
    action: AddressActionView,
    fresh_address_id: Seq<char>,
    merchant_id: Seq<char>,
    customer_id: Option<Seq<char>>,
    payment_id: Seq<char>,
    now: i64,
) -> (MemoryStoreView, Result<Option<AddressView>, ApiErrorResponse>) {
    match action {
        AddressActionView::Skip => (store, Ok(None)),
        AddressActionView::Find { address_id } => match spec_find_address(
            store,
            merchant_id,
            address_id,
        ) {
            Some(address) => (store, Ok(Some(address))),
            None => (store, Err(ApiErrorResponse::AddressNotFound)),
        },
        AddressActionView::Update { address_id, details } => match spec_update_address(
            store,
            merchant_id,
            address_id,
            details,
            now,
        ) {
            Some((after, address)) => (after, Ok(Some(address))),
            None => (store, Err(ApiErrorResponse::AddressNotFound)),
        },
        AddressActionView::Create { details } => {
            let address = spec_new_address(
                details,
                fresh_address_id,
                merchant_id,
                customer_id,
                payment_id,
                now,
            );
            match spec_insert_address(store, address) {
                Ok(after) => (after, Ok(Some(address))),
                Err(_) => (store, Err(ApiErrorResponse::InternalServerError)),
            }
        },
    }
}

/// Resolves one address of a payment against the store.
pub fn resolve_address(
    store: &mut MemoryStore,
    action: AddressAction,
    fresh_address_id: String,
    merchant_id: &String,
    customer_id: &Option<String>,
    payment_id: &String,
    now: i64,
) -> (res: Result<Option<Address>, ApiErrorResponse>)
    ensures
        (final(store)@, address_result_view(res)) == spec_resolve_address(
            old(store)@,
            action@,
            fresh_address_id@,
            merchant_id@,
            opt_view(*customer_id),
            payment_id@,
            now,
        ),
{
    match action {
        AddressAction::Skip => Ok(None),
        AddressAction::Find { address_id } => {
            match store.find_address_by_merchant_id_address_id(merchant_id, &address_id) {
                Some(address) => Ok(Some(address)),
                None => Err(ApiErrorResponse::AddressNotFound),
            }
        },
        AddressAction::Update { address_id, details } => {
            match store.update_address(merchant_id, &address_id, details, now) {
                Some(address) => Ok(Some(address)),
                None => Err(ApiErrorResponse::AddressNotFound),
            }
        },
        AddressAction::Create { details } => {
            let address = Address {
                address_id: fresh_address_id,
                merchant_id: merchant_id.clone(),
                customer_id: clone_opt_text(customer_id),
                payment_id: Some(payment_id.clone()),
                details,
                created_at: now,
                modified_at: now,
            };
            let out = address.clone();
            match store.insert_address(address) {
                Ok(()) => Ok(Some(out)),
                Err(_) => Err(ApiErrorResponse::InternalServerError),
            }
        },
    }
}

/// The records fetched for an intent.
pub struct Fetched {
    pub payment_attempt: PaymentAttempt,
    pub shipping_address: Option<Address>,
    pub billing_address: Option<Address>,
}

/// The model of [`Fetched`].
pub struct FetchedView {
    pub payment_attempt: PaymentAttemptView,
    pub shipping_address: Option<AddressView>,
    pub billing_address: Option<AddressView>,
}

impl View for Fetched {
    type V = FetchedView;

    open spec fn view(&self) -> FetchedView {
        FetchedView {
            payment_attempt: self.payment_attempt@,
            shipping_address: opt_view(self.shipping_address),
            billing_address: opt_view(self.billing_address),
        }
    }
}

/// The model of what the fetches found, or the error in its place.
pub open spec fn fetched_view(res: Result<Fetched, ApiErrorResponse>) -> Result<
    FetchedView,
    ApiErrorResponse,
> {
    match res {
        Ok(fetched) => Ok(fetched@),
        Err(e) => Err(e),
    }
}

/// The store after the fetches of a plan, and what they found.
///
/// The attempt is read, the two addresses are resolved and the connector
/// credentials of the request are kept, each whatever becomes of the others.
/// The first failure, in this order, is the error of the whole; what the
/// others wrote stays written.
pub open spec fn spec_fetch_resources(
    store: MemoryStoreView,
    plan: ResourcePlanView,
    shipping_address_id: Seq<char>,
    billing_address_id: Seq<char>,
    now: i64,
) -> (MemoryStoreView, Result<FetchedView, ApiErrorResponse>) {
    let attempt = spec_find_attempt(store, plan.payment_id, plan.merchant_id, plan.attempt_id);
    let shipping = spec_resolve_address(
        store,
        plan.shipping,
        shipping_address_id,
        plan.merchant_id,
        plan.customer_id,
        plan.payment_id,
        now,
    );
    let billing = spec_resolve_address(
        shipping.0,
        plan.billing,
        billing_address_id,
        plan.merchant_id,
        plan.customer_id,
        plan.payment_id,
        now,
    );
    (
        match plan.connector_credentials {
            Some(details) => spec_keep_credentials(billing.0, plan.merchant_id, details),
            None => billing.0,
        },
        if attempt.is_none() {
            Err(ApiErrorResponse::PaymentNotFound)
        } else if shipping.1 is Err {
            Err(shipping.1->Err_0)
        } else if billing.1 is Err {
            Err(billing.1->Err_0)
        } else {
            Ok(
                FetchedView {
                    payment_attempt: attempt.unwrap(),
                    shipping_address: shipping.1->Ok_0,
                    billing_address: billing.1->Ok_0,
                },
            )
        },
    )
}

/// Carries out the fetches of a plan against the store.
pub fn fetch_resources(
    store: &mut MemoryStore,
    plan: ResourcePlan,
    shipping_address_id: String,
    billing_address_id: String,
    now: i64,
) -> (res: Result<Fetched, ApiErrorResponse>)
    ensures
        (final(store)@, fetched_view(res)) == spec_fetch_resources(
            old(store)@,
            plan@,
            shipping_address_id@,
            billing_address_id@,
            now,
        ),
{
    let attempt = store.find_payment_attempt_by_payment_id_merchant_id_attempt_id(
        &plan.payment_id,
        &plan.merchant_id,
        &plan.attempt_id,
    );
    let shipping = resolve_address(
        store,
        plan.shipping,
        shipping_address_id,
        &plan.merchant_id,
        &plan.customer_id,
        &plan.payment_id,
        now,
    );
    let billing = resolve_address(
        store,
        plan.billing,
        billing_address_id,
        &plan.merchant_id,
        &plan.customer_id,
        &plan.payment_id,
        now,
    );
    match plan.connector_credentials {
        Some(details) => {
            store.insert_merchant_connector_creds_to_config(&plan.merchant_id, details);
        },
        None => {},
    }
    let payment_attempt = match attempt {
        Some(attempt) => attempt,
        None => {
            return Err(ApiErrorResponse::PaymentNotFound);
        },
    };
    let shipping_address = match shipping {
        Ok(address) => address,
        Err(e) => {
            return Err(e);
        },
    };
    let billing_address = match billing {
        Ok(address) => address,
        Err(e) => {
            return Err(e);
        },
    };
    Ok(Fetched { payment_attempt, shipping_address, billing_address })
}

/// The intent and the attempt that a confirmation goes on with.
pub struct Versioned {
    pub payment_intent: PaymentIntent,
    pub payment_attempt: PaymentAttempt,
}

/// The model of [`Versioned`].
pub struct VersionedView {
    pub payment_intent: PaymentIntentView,
    pub payment_attempt: PaymentAttemptView,
}

impl View for Versioned {
    type V = VersionedView;

    open spec fn view(&self) -> VersionedView {
        VersionedView {
            payment_intent: self.payment_intent@,
            payment_attempt: self.payment_attempt@,
        }
    }
}

/// The model of the settled intent and attempt, or the error in their place.
pub open spec fn versioned_view(res: Result<Versioned, ApiErrorResponse>) -> Result<
    VersionedView,
    ApiErrorResponse,
> {
    match res {
        Ok(versioned) => Ok(versioned@),
        Err(e) => Err(e),
    }
}

/// The store after the attempt of a confirmation is settled, and the intent
/// and attempt to go on with.
///
/// Where the current attempt is carried on, nothing is written. Where a new
/// one is opened, it is added to the store and the intent is linked to it;
/// the rows of the earlier attempts are not touched. An intent whose
/// attempts can no longer be numbered cannot get a new one.
pub open spec fn spec_version_attempt(
    store: MemoryStoreView,
    request: PaymentsRequestView,
    intent: PaymentIntentView,
    attempt: PaymentAttemptView,
    storage_scheme: MerchantStorageScheme,
    now: i64,
) -> (MemoryStoreView, Result<VersionedView, ApiErrorResponse>) {
    match spec_get_attempt_type(intent, attempt, request) {
        Err(e) => (store, Err(e)),
        Ok(AttemptType::SameOld) => (
            store,
            Ok(VersionedView { payment_intent: intent, payment_attempt: attempt }),
        ),
        Ok(AttemptType::New) => if intent.attempt_count == u32::MAX {
            (store, Err(ApiErrorResponse::InternalServerError))
        } else {
            let plan = spec_modify_payment_intent_and_payment_attempt(
                AttemptType::New,
                request,
                intent,
                attempt,
                storage_scheme,
                now,
            ).unwrap();
            match spec_insert_payment_attempt(store, plan.new_attempt) {
                Err(_) => (store, Err(ApiErrorResponse::InternalServerError)),
                Ok(inserted) => match spec_update_intent(
                    inserted,
                    intent,
                    PaymentIntentUpdateView::StatusAndAttemptUpdate(plan.intent_update),
                    now,
                ) {
                    None => (inserted, Err(ApiErrorResponse::PaymentNotFound)),
                    Some((linked, row)) => (
                        linked,
                        Ok(
                            VersionedView {
                                payment_intent: row,
                                payment_attempt: plan.new_attempt,
                            },
                        ),
                    ),
                },
            }
        },
    }
}

/// Settles the attempt of a confirmation against the store.
pub fn version_attempt(
    store: &mut MemoryStore,
    request: &PaymentsRequest,
    payment_intent: PaymentIntent,
    payment_attempt: PaymentAttempt,
    storage_scheme: MerchantStorageScheme,
    now: i64,
) -> (res: Result<Versioned, ApiErrorResponse>)
    ensures
        (final(store)@, versioned_view(res)) == spec_version_attempt(
            old(store)@,
            request@,
            payment_intent@,
            payment_attempt@,
            storage_scheme,
            now,
        ),
{
    let attempt_type = match get_attempt_type(&payment_intent, &payment_attempt, request) {
        Ok(attempt_type) => attempt_type,
        Err(e) => {
            return Err(e);
        },
    };
    match attempt_type {
        AttemptType::SameOld => Ok(Versioned { payment_intent, payment_attempt }),
        AttemptType::New => {
            if payment_intent.attempt_count == u32::MAX {
                return Err(ApiErrorResponse::InternalServerError);
            }
            let plan = match attempt_type.modify_payment_intent_and_payment_attempt(
                request,
                &payment_intent,
                &payment_attempt,
                storage_scheme,
                now,
            ) {
                Some(plan) => plan,
                None => {
                    return Err(ApiErrorResponse::InternalServerError);
                },
            };
            let new_attempt = plan.new_attempt.clone();
            match store.insert_payment_attempt(plan.new_attempt) {
                Err(_) => {
                    return Err(ApiErrorResponse::InternalServerError);
                },
                Ok(()) => {},
            }
            match store.update_payment_intent(
                &payment_intent,
                PaymentIntentUpdate::StatusAndAttemptUpdate(plan.intent_update),
                now,
            ) {
                None => Err(ApiErrorResponse::PaymentNotFound),
                Some(row) => Ok(Versioned { payment_intent: row, payment_attempt: new_attempt }),
            }
        },
    }
}

/// The model of an aggregate, or the error in its place.
pub open spec fn data_view(res: Result<PaymentData, ApiErrorResponse>) -> Result<
    PaymentDataView,
    ApiErrorResponse,
> {
    match res {
        Ok(data) => Ok(data@),
        Err(e) => Err(e),
    }
}

/// The store after the three changes of a confirmation, and the aggregate
/// with the intent and the attempt as the store has them.
///
/// The intent, the attempt and the customer are changed each whatever
/// becomes of the others. A row that is gone or was changed underneath the
/// confirmation makes the whole fail; what the other changes wrote stays
/// written.
pub open spec fn spec_persist(
    store: MemoryStoreView,
    data: PaymentDataView,
    plan: UpdatePlanView,
    now: i64,
) -> (MemoryStoreView, Result<PaymentDataView, ApiErrorResponse>) {
    let intent = spec_update_intent(store, data.payment_intent, plan.intent_update, now);
    let after_intent = match intent {
        Some((after, _)) => after,
        None => store,
    };
    let attempt = spec_update_attempt(
        after_intent,
        data.payment_attempt,
        plan.attempt_update,
        now,
    );
    let after_attempt = match attempt {
        Some((after, _)) => after,
        None => after_intent,
    };
    let customer = match plan.customer_update {
        Some(write) => spec_update_customer(
            after_attempt,
            write.customer_id,
            write.merchant_id,
            write.update,
        ),
        None => None,
    };
    let after_customer = match customer {
        Some((after, _)) => after,
        None => after_attempt,
    };
    (
        after_customer,
        if intent.is_none() {
            Err(ApiErrorResponse::PaymentNotFound)
        } else if attempt.is_none() {
            Err(ApiErrorResponse::PaymentNotFound)
        } else if plan.customer_update.is_some() && customer.is_none() {
            Err(ApiErrorResponse::InternalServerError)
        } else {
            Ok(
                PaymentDataView {
                    payment_intent: intent.unwrap().1,
                    payment_attempt: attempt.unwrap().1,
                    ..data
                },
            )
        },
    )
}

/// Writes the changes of a confirmation to the store.
pub fn persist(
    store: &mut MemoryStore,
    payment_data: PaymentData,
    plan: UpdatePlan,
    now: i64,
) -> (res:
    Result<PaymentData, ApiErrorResponse>)
    ensures
        (final(store)@, data_view(res)) == spec_persist(old(store)@, payment_data@, plan@, now),
{
    let intent = store.update_payment_intent(&payment_data.payment_intent, plan.intent_update, now);
    let attempt = store.update_payment_attempt_with_attempt_id(
        &payment_data.payment_attempt,
        plan.attempt_update,
        now,
    );
    let customer_failed = match plan.customer_update {
        Some(write) => store.update_customer_by_customer_id_merchant_id(
            &write.customer_id,
            &write.merchant_id,
            write.update,
        ).is_none(),
        None => false,
    };
    let payment_intent = match intent {
        Some(row) => row,
        None => {
            return Err(ApiErrorResponse::PaymentNotFound);
        },
    };
    let payment_attempt = match attempt {
        Some(row) => row,
        None => {
            return Err(ApiErrorResponse::PaymentNotFound);
        },
    };
    if customer_failed {
        return Err(ApiErrorResponse::InternalServerError);
    }
    Ok(PaymentConfirm::complete_update(payment_data, payment_intent, payment_attempt))
}

/// What the session cache answers for an attempt, taken as the
/// reconciliation will leave it: the cached surcharge under its key, and a
/// miss where there is nothing to ask.
pub open spec fn spec_session_answer(
    cache: Seq<(SurchargeKeyView, SurchargeDetails)>,
    request: PaymentsRequestView,
    attempt: PaymentAttemptView,
    mandate: MandateResolutionView,
) -> SessionSurcharge {
    match spec_session_surcharge_key(reconciled_attempt(request, attempt, mandate), request) {
        Some(key) => spec_cached_surcharge(cache, key),
        None => SessionSurcharge::NotFound,
    }
}

/// The store after the records of a validated request are resolved, and the
/// aggregate that they come to.
///
/// The intent is read and the mandate resolved; an intent that may not be
/// confirmed stops the confirmation before anything is written. Then the
/// attempt and the addresses are fetched, the attempt is settled, and the
/// request is reconciled with what was found.
pub open spec fn spec_resolve(
    store: MemoryStoreView,
    cache: Seq<(SurchargeKeyView, SurchargeDetails)>,
    merchant_account: MerchantAccountView,
    request: PaymentsRequestView,
    validated: ValidateResultView,
    inputs: ConfirmInputsView,
) -> (MemoryStoreView, Result<PaymentDataView, ApiErrorResponse>) {
    let payment_id = spec_payment_intent_id(validated.payment_id);
    let intent = spec_find_intent(store, payment_id->Ok_0, merchant_account.merchant_id);
    let mandate = spec_mandate_details(request, validated.mandate_type, inputs.stored_mandate);
    let plan = spec_plan_resources(request, merchant_account, intent.unwrap(), inputs.now);
    let fetched = spec_fetch_resources(
        store,
        plan->Ok_0,
        inputs.shipping_address_id,
        inputs.billing_address_id,
        inputs.now,
    );
    let versioned = spec_version_attempt(
        fetched.0,
        request,
        intent.unwrap(),
        (fetched.1->Ok_0).payment_attempt,
        merchant_account.storage_scheme,
        inputs.now,
    );
    let trackers = spec_get_trackers(
        request,
        validated.mandate_type,
        merchant_account,
        (versioned.1->Ok_0).payment_intent,
        (versioned.1->Ok_0).payment_attempt,
        mandate->Ok_0,
        (fetched.1->Ok_0).shipping_address,
        (fetched.1->Ok_0).billing_address,
        spec_session_answer(cache, request, (versioned.1->Ok_0).payment_attempt, mandate->Ok_0),
        inputs.now,
    );
    if payment_id is Err {
        (store, Err(payment_id->Err_0))
    } else if intent.is_none() {
        (store, Err(ApiErrorResponse::PaymentNotFound))
    } else if mandate is Err {
        (store, Err(mandate->Err_0))
    } else if plan is Err {
        (store, Err(plan->Err_0))
    } else if fetched.1 is Err {
        (fetched.0, Err(fetched.1->Err_0))
    } else if versioned.1 is Err {
        (versioned.0, Err(versioned.1->Err_0))
    } else {
        (
            versioned.0,
            match trackers {
                Ok(found) => Ok(found.0),
                Err(e) => Err(e),
            },
        )
    }
}

/// Resolves the records of a validated request against the store and the
/// session cache.
pub fn resolve(
    store: &mut MemoryStore,
    cache: &SessionCache,
    merchant_account: &MerchantAccount,
    request: &PaymentsRequest,
    validated: &ValidateResult,
    inputs: &ConfirmInputs,
) -> (res: Result<PaymentData, ApiErrorResponse>)
    ensures
        (final(store)@, data_view(res)) == spec_resolve(
            old(store)@,
            cache@,
            merchant_account@,
            request@,
            validated@,
            inputs@,
        ),
{
    let payment_id = match get_payment_intent_id(&validated.payment_id) {
        Ok(id) => id,
        Err(e) => {
            return Err(e);
        },
    };
    let payment_intent = match store.find_payment_intent_by_payment_id_merchant_id(
        &payment_id,
        &merchant_account.merchant_id,
    ) {
        Some(intent) => intent,
        None => {
            return Err(ApiErrorResponse::PaymentNotFound);
        },
    };
    let mandate_details = match get_token_pm_type_mandate_details(
        request,
        validated.mandate_type,
        StoredMandate::clone_opt(&inputs.stored_mandate),
    ) {
        Ok(mandate) => mandate,
        Err(e) => {
            return Err(e);
        },
    };
    let plan = match plan_resources(request, merchant_account, &payment_intent, inputs.now) {
        Ok(plan) => plan,
        Err(e) => {
            return Err(e);
        },
    };
    let fetched = match fetch_resources(
        store,
        plan,
        inputs.shipping_address_id.clone(),
        inputs.billing_address_id.clone(),
        inputs.now,
    ) {
        Ok(fetched) => fetched,
        Err(e) => {
            return Err(e);
        },
    };
    let versioned = match version_attempt(
        store,
        request,
        payment_intent,
        fetched.payment_attempt,
        merchant_account.storage_scheme,
        inputs.now,
    ) {
        Ok(versioned) => versioned,
        Err(e) => {
            return Err(e);
        },
    };
    let session = match PaymentConfirm::session_surcharge_key(
        &versioned.payment_attempt,
        request,
        &mandate_details,
    ) {
        Some(key) => cache.get_individual_surcharge_detail(&key),
        None => SessionSurcharge::NotFound,
    };
    let operation = PaymentConfirm;
    match operation.get_trackers(
        request,
        validated.mandate_type,
        merchant_account,
        versioned.payment_intent,
        versioned.payment_attempt,
        mandate_details,
        fetched.shipping_address,
        fetched.billing_address,
        session,
        inputs.now,
    ) {
        Ok((payment_data, _)) => Ok(payment_data),
        Err(e) => Err(e),
    }
}

/// The store after a confirmation, and the aggregate that it ends with.
///
/// A request that does not pass validation, or whose intent may not be
/// confirmed, leaves the store as it was. Otherwise the records are
/// resolved, the outcome of the fraud check is noted on the aggregate, the
/// transition is chosen and the changes are written.
pub open spec fn spec_confirm(
    store: MemoryStoreView,
    cache: Seq<(SurchargeKeyView, SurchargeDetails)>,
    merchant_account: MerchantAccountView,
    request: PaymentsRequestView,
    inputs: ConfirmInputsView,
) -> (MemoryStoreView, Result<PaymentDataView, ApiErrorResponse>) {
    match spec_validate_request(request, merchant_account, inputs.generated_payment_id) {
        Err(e) => (store, Err(e)),
        Ok(validated) => {
            let resolved = spec_resolve(store, cache, merchant_account, request, validated, inputs);
            match resolved.1 {
                Err(e) => (resolved.0, Err(e)),
                Ok(found) => {
                    let data = PaymentDataView { frm_message: inputs.frm_message, ..found };
                    spec_persist(
                        resolved.0,
                        data,
                        spec_update_plan(
                            data,
                            inputs.customer,
                            merchant_account.storage_scheme,
                            inputs.updated_customer,
                            inputs.frm_suggestion,
                            inputs.header_payload,
                            inputs.additional_pm_data,
                        ),
                        inputs.now,
                    )
                },
            }
        },
    }
}

/// Confirms a payment against the store and the session cache.
pub fn confirm(
    store: &mut MemoryStore,
    cache: &SessionCache,
    merchant_account: &MerchantAccount,
    request: &PaymentsRequest,
    inputs: ConfirmInputs,
) -> (res: Result<PaymentData, ApiErrorResponse>)
    ensures
        (final(store)@, data_view(res)) == spec_confirm(
            old(store)@,
            cache@,
            merchant_account@,
            request@,
            inputs@,
        ),
{
    let operation = PaymentConfirm;
    let validated = match operation.validate_request(
        request,
        merchant_account,
        inputs.generated_payment_id.clone(),
    ) {
        Ok(validated) => validated,
        Err(e) => {
            return Err(e);
        },
    };
    let found = match resolve(store, cache, merchant_account, request, &validated, &inputs) {
        Ok(found) => found,
        Err(e) => {
            return Err(e);
        },
    };
    let payment_data = PaymentData { frm_message: inputs.frm_message, ..found };
    let plan = operation.update_trackers(
        &payment_data,
        inputs.customer,
        merchant_account.storage_scheme,
        inputs.updated_customer,
        inputs.frm_suggestion,
        inputs.header_payload,
        inputs.additional_pm_data,
    );
    persist(store, payment_data, plan, inputs.now)
}

} // verus!
