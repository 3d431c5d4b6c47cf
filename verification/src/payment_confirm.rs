//! The confirm operation: the decisions of its phases, from the request to
//! the changes that are written back.

use vstd::prelude::*;
use crate::customer::{
    customer_action, customer_of, spec_customer_action, spec_customer_to_fetch, spec_with_customer,
    CustomerAction,
};
use crate::enums::{FrmSuggestion, MandateTransactionType, MerchantStorageScheme, PaymentFlow};
use crate::errors::{ApiErrorResponse, FieldName, RequestFault};
use crate::helpers::{
    first_of, fulfillment_deadline, get_customer_details_from_request, resolve_return_url,
    spec_customer_details, spec_resolve_return_url, spec_validate_customer_id_mandatory_cases,
    spec_validate_pm_or_token_given, validate_customer_id_mandatory_cases,
    validate_pm_or_token_given,
};
use crate::json::{clone_opt_value, clone_opt_values, clone_value};
use crate::payment_data::{
    CustomerDetails, CustomerDetailsView, MandateResolution, MandateResolutionView, PaymentData,
    PaymentDataView,
};
use crate::persistence::{
    attempt_update, intent_update, spec_update_plan, CustomerWrite, HeaderPayload, UpdatePlan,
};
use crate::request::{
    MandateData, MandateDataType, PaymentMethodData, PaymentMethodDataView, PaymentsRequest,
    PaymentsRequestView, RequestSurchargeDetails,
};
use crate::resolver::{check_confirm_allowed, confirm_refusal};
use crate::storage::{
    Address, AddressView, Customer, CustomerUpdate, MerchantAccount, MerchantAccountView,
    PaymentAttempt, PaymentAttemptView, PaymentIntent, PaymentIntentUpdate, PaymentIntentView,
};
use crate::surcharge::{
    is_surcharge_in_range, spec_resolved_surcharge, spec_session_surcharge_key,
    spec_validate_surcharge, surcharge_in_range, SessionSurcharge, SurchargeDetails, SurchargeKey,
};
use crate::transition::transition;
use crate::views::{clone_opt_text, opt_view, or_else};

verus! {

/// The identifier of an optional address.
pub open spec fn address_id_of(address: Option<AddressView>) -> Option<Seq<char>> {
    match address {
        Some(a) => Some(a.address_id),
        None => None,
    }
}

/// The intent with the request laid over it: what the request supplies wins,
/// what it leaves out stays; the addresses are the resolved ones.
pub open spec fn reconciled_intent(
    request: PaymentsRequestView,
    intent: PaymentIntentView,
    shipping: Option<AddressView>,
    billing: Option<AddressView>,
    return_url: Seq<char>,
) -> PaymentIntentView {
    PaymentIntentView {
        order_details: or_else(request.order_details, intent.order_details),
        setup_future_usage: or_else(request.setup_future_usage, intent.setup_future_usage),
        shipping_address_id: address_id_of(shipping),
        billing_address_id: address_id_of(billing),
        return_url: Some(return_url),
        allowed_payment_method_types: or_else(
            request.allowed_payment_method_types,
            intent.allowed_payment_method_types,
        ),
        connector_metadata: or_else(request.connector_metadata, intent.connector_metadata),
        feature_metadata: or_else(request.feature_metadata, intent.feature_metadata),
        metadata: or_else(request.metadata, intent.metadata),
        ..intent
    }
}

/// The attempt with the request and the resolved payment method laid over it.
pub open spec fn reconciled_attempt(
    request: PaymentsRequestView,
    attempt: PaymentAttemptView,
    mandate: MandateResolutionView,
) -> PaymentAttemptView {
    PaymentAttemptView {
        payment_method: or_else(mandate.payment_method, attempt.payment_method),
        payment_method_type: or_else(mandate.payment_method_type, attempt.payment_method_type),
        payment_experience: or_else(request.payment_experience, attempt.payment_experience),
        capture_method: or_else(request.capture_method, attempt.capture_method),
        browser_info: or_else(request.browser_info, attempt.browser_info),
        business_sub_label: or_else(request.business_sub_label, attempt.business_sub_label),
        ..attempt
    }
}

/// The mandate to set up, with the kind that the attempt already stores
/// taking the place of the requested one.
pub open spec fn reconciled_mandate(
    setup_mandate: Option<MandateData>,
    stored: Option<MandateDataType>,
) -> Option<MandateData> {
    match setup_mandate {
        Some(mandate) => Some(
            MandateData {
                customer_accepted: mandate.customer_accepted,
                mandate_type: or_else(stored, mandate.mandate_type),
            },
        ),
        None => None,
    }
}

/// The identifier under which overriding connector credentials are kept.
pub open spec fn creds_identifier_of(request: PaymentsRequestView) -> Option<Seq<char>> {
    match request.merchant_connector_details {
        Some(details) => Some(details.creds_identifier),
        None => None,
    }
}

/// The token that a confirmation works with: the resolved one, else the one
/// that the attempt stores.
pub open spec fn resolved_token(
    mandate: MandateResolutionView,
    attempt: PaymentAttemptView,
) -> Option<Seq<char>> {
    or_else(mandate.token, attempt.payment_token)
}

/// The customer that a payment belongs to: the intent's, else the request's.
pub open spec fn resolved_customer_id(
    request: PaymentsRequestView,
    intent: PaymentIntentView,
) -> Option<Seq<char>> {
    or_else(intent.customer_id, spec_customer_details(request).customer_id)
}

/// The first error that stops the reconciliation, if any does: an intent
/// that may not be confirmed at `now`, a missing payment method or token, a
/// missing currency, a missing customer where the payment is to be used
/// again, a missing return address, a surcharge that contradicts an earlier
/// one, an amount that with its surcharge and tax lies beyond the integers.
pub open spec fn reconcile_error(
    request: PaymentsRequestView,
    mandate_type: Option<MandateTransactionType>,
    merchant_account: MerchantAccountView,
    intent: PaymentIntentView,
    attempt: PaymentAttemptView,
    mandate: MandateResolutionView,
    session: SessionSurcharge,
    now: i64,
) -> Option<ApiErrorResponse> {
    let refusal = confirm_refusal(request, merchant_account, intent, now);
    let pm = spec_validate_pm_or_token_given(
        request,
        mandate_type,
        resolved_token(mandate, attempt),
    );
    let customer = spec_validate_customer_id_mandatory_cases(
        request.setup_future_usage.is_some(),
        resolved_customer_id(request, intent),
    );
    let return_url = spec_resolve_return_url(
        request.return_url,
        intent.return_url,
        merchant_account.return_url,
    );
    let surcharge = spec_validate_surcharge(
        reconciled_attempt(request, attempt, mandate),
        request,
        session,
    );
    if refusal.is_some() {
        refusal
    } else if pm is Err {
        Some(pm->Err_0)
    } else if attempt.currency.is_none() {
        Some(ApiErrorResponse::MissingRequiredField { field_name: FieldName::Currency })
    } else if customer is Err {
        Some(customer->Err_0)
    } else if return_url is Err {
        Some(return_url->Err_0)
    } else if surcharge is Err {
        Some(surcharge->Err_0)
    } else if !surcharge_in_range(attempt, request) {
        Some(ApiErrorResponse::InvalidRequestData { reason: RequestFault::AmountOutOfRange })
    } else {
        None
    }
}

/// The aggregate that a confirmation works on, where nothing stops the
/// reconciliation. Amount and currency are the attempt's.
pub open spec fn reconciled_payment_data(
    request: PaymentsRequestView,
    merchant_account: MerchantAccountView,
    intent: PaymentIntentView,
    attempt: PaymentAttemptView,
    mandate: MandateResolutionView,
    shipping: Option<AddressView>,
    billing: Option<AddressView>,
) -> PaymentDataView {
    let new_attempt = reconciled_attempt(request, attempt, mandate);
    PaymentDataView {
        flow: PaymentFlow::Authorize,
        payment_intent: reconciled_intent(
            request,
            intent,
            shipping,
            billing,
            spec_resolve_return_url(
                request.return_url,
                intent.return_url,
                merchant_account.return_url,
            )->Ok_0,
        ),
        payment_attempt: new_attempt,
        currency: attempt.currency.unwrap(),
        amount: attempt.amount,
        email: request.email,
        mandate_connector: mandate.mandate_connector,
        setup_mandate: reconciled_mandate(mandate.setup_mandate, attempt.mandate_details),
        token: resolved_token(mandate, attempt),
        shipping,
        billing,
        confirm: request.confirm,
        force_sync: None,
        payment_method_data: request.payment_method_data,
        card_cvc: request.card_cvc,
        creds_identifier: creds_identifier_of(request),
        recurring_mandate_payment_data: mandate.recurring_mandate_payment_data,
        surcharge_details: spec_resolved_surcharge(new_attempt, request),
        frm_message: None,
    }
}

/// What the reconciliation of a request with the records fetched for it
/// gives: the aggregate and the customer details, or the first error.
pub open spec fn spec_get_trackers(
    request: PaymentsRequestView,
    mandate_type: Option<MandateTransactionType>,
    merchant_account: MerchantAccountView,
    intent: PaymentIntentView,
    attempt: PaymentAttemptView,
    mandate: MandateResolutionView,
    shipping: Option<AddressView>,
    billing: Option<AddressView>,
    session: SessionSurcharge,
    now: i64,
) -> Result<(PaymentDataView, CustomerDetailsView), ApiErrorResponse> {
    match reconcile_error(
        request,
        mandate_type,
        merchant_account,
        intent,
        attempt,
        mandate,
        session,
        now,
    ) {
        Some(error) => Err(error),
        None => Ok(
            (
                reconciled_payment_data(
                    request,
                    merchant_account,
                    intent,
                    attempt,
                    mandate,
                    shipping,
                    billing,
                ),
                spec_customer_details(request),
            ),
        ),
    }
}

/// The model of what [`PaymentConfirm::get_trackers`] returns.
pub open spec fn trackers_view(
    res: Result<(PaymentData, CustomerDetails), ApiErrorResponse>,
) -> Result<
    (PaymentDataView, CustomerDetailsView),
    ApiErrorResponse,
> {
    match res {
        Ok((data, customer)) => Ok((data@, customer@)),
        Err(e) => Err(e),
    }
}

/// How the connector of a payment is chosen.
#[derive(Debug, PartialEq)]
pub enum ConnectorChoice {
    /// The routing that the request brings decides.
    StraightThrough(serde_json::Value),
    /// The connector chosen earlier, or else the routing algorithm, decides.
    Decide,
}

/// The connector choice of a request.
pub open spec fn spec_connector_choice(request: PaymentsRequestView) -> ConnectorChoice {
    match request.routing {
        Some(routing) => ConnectorChoice::StraightThrough(routing),
        None => ConnectorChoice::Decide,
    }
}

/// The payment method data of a confirmation: the aggregate's own, else
/// what its token stands for.
pub open spec fn spec_pm_data(
    data: PaymentDataView,
    from_token: Option<PaymentMethodDataView>,
) -> Option<PaymentMethodDataView> {
    or_else(data.payment_method_data, from_token)
}

/// The operation that confirms a payment.
#[derive(Clone, Copy, Debug)]
pub struct PaymentConfirm;

impl PaymentConfirm {
    /// The key under which the session cache is to be asked for a surcharge,
    /// or nothing where there is nothing to ask: then the answer to carry on
    /// with is [`SessionSurcharge::NotFound`]. The attempt is taken as the
    /// reconciliation will leave it.
    pub fn session_surcharge_key(
        payment_attempt: &PaymentAttempt,
        request: &PaymentsRequest,
        mandate_details: &MandateResolution,
    ) -> (res: Option<SurchargeKey>)
        ensures
            opt_view(res) == spec_session_surcharge_key(
                reconciled_attempt(request@, payment_attempt@, mandate_details@),
                request@,
            ),
    {
        if request.surcharge_details.is_none() || payment_attempt.surcharge_amount.is_some() {
            return None;
        }
        match &request.payment_method_data {
            None => None,
            Some(data) => {
                let kind = first_of(
                    data.get_payment_method_type_if_session_token_type(),
                    first_of(
                        mandate_details.payment_method_type,
                        payment_attempt.payment_method_type,
                    ),
                );
                match kind {
                    Some(payment_method_type) => Some(
                        SurchargeKey {
                            payment_method_type,
                            attempt_id: payment_attempt.attempt_id.clone(),
                        },
                    ),
                    None => None,
                }
            },
        }
    }

    /// Holds the surcharge that a request declares against the one fixed
    /// earlier: on the attempt, or else in the session cache, whose answer is
    /// `session`.
    pub fn validate_request_surcharge_details_with_session_surcharge_details(
        payment_attempt: &PaymentAttempt,
        request: &PaymentsRequest,
        session: SessionSurcharge,
    ) -> (res: Result<(), ApiErrorResponse>)
        ensures
            res == spec_validate_surcharge(payment_attempt@, request@, session),
    {
        let declared = match request.surcharge_details {
            Some(declared) => declared,
            None => {
                return Ok(());
            },
        };
        if request.payment_method_data.is_none() {
            return Err(
                ApiErrorResponse::MissingRequiredField { field_name: FieldName::PaymentMethodData },
            );
        }
        let mismatch = ApiErrorResponse::InvalidRequestData {
            reason: RequestFault::SurchargeMismatch,
        };
        match payment_attempt.surcharge_amount {
            Some(stored) => {
                let same_tax = match (declared.tax_amount, payment_attempt.tax_amount) {
                    (Some(a), Some(b)) => a == b,
                    (None, None) => true,
                    _ => false,
                };
                if declared.surcharge_amount == stored && same_tax {
                    Ok(())
                } else {
                    Err(mismatch)
                }
            },
            None => match session {
                SessionSurcharge::Found(cached) => {
                    if cached.is_request_surcharge_matching(declared) {
                        Ok(())
                    } else {
                        Err(mismatch)
                    }
                },
                SessionSurcharge::NotFound => {
                    if declared.is_surcharge_zero() {
                        Ok(())
                    } else {
                        Err(mismatch)
                    }
                },
                SessionSurcharge::Unavailable => Err(ApiErrorResponse::InternalServerError),
            },
        }
    }

    /// The surcharge that the confirmation goes on with: the declared one,
    /// else the one stored on the attempt, else none.
    pub fn get_surcharge_details_from_payment_request_or_payment_attempt(
        payment_request: &PaymentsRequest,
        payment_attempt: &PaymentAttempt,
    ) -> (res: Option<SurchargeDetails>)
        requires
            surcharge_in_range(payment_attempt@, payment_request@),
        ensures
            res == spec_resolved_surcharge(payment_attempt@, payment_request@),
    {
        match payment_request.surcharge_details {
            Some(declared) => Some(declared.get_surcharge_details_object(payment_attempt.amount)),
            None => match payment_attempt.surcharge_amount {
                Some(stored) => {
                    let declared = RequestSurchargeDetails {
                        surcharge_amount: stored,
                        tax_amount: payment_attempt.tax_amount,
                    };
                    Some(declared.get_surcharge_details_object(payment_attempt.amount))
                },
                None => None,
            },
        }
    }
    /// Lays the resolved payment method and the request over an attempt.
    pub fn reconcile_attempt(
        request: &PaymentsRequest,
        payment_attempt: PaymentAttempt,
        mandate_details: &MandateResolution,
    ) -> (res: PaymentAttempt)
        ensures
            res@ == reconciled_attempt(request@, payment_attempt@, mandate_details@),
    {
        PaymentAttempt {
            payment_method: first_of(
                mandate_details.payment_method,
                payment_attempt.payment_method,
            ),
            payment_method_type: first_of(
                mandate_details.payment_method_type,
                payment_attempt.payment_method_type,
            ),
            payment_experience: first_of(
                request.payment_experience,
                payment_attempt.payment_experience,
            ),
            capture_method: first_of(request.capture_method, payment_attempt.capture_method),
            browser_info: first_of(
                clone_opt_value(&request.browser_info),
                payment_attempt.browser_info,
            ),
            business_sub_label: first_of(
                clone_opt_text(&request.business_sub_label),
                payment_attempt.business_sub_label,
            ),
            ..payment_attempt
        }
    }

    /// Lays the request and the resolved addresses over an intent.
    pub fn reconcile_intent(
        request: &PaymentsRequest,
        payment_intent: PaymentIntent,
        shipping_address: &Option<Address>,
        billing_address: &Option<Address>,
        return_url: String,
    ) -> (res: PaymentIntent)
        ensures
            res@ == reconciled_intent(
                request@,
                payment_intent@,
                opt_view(*shipping_address),
                opt_view(*billing_address),
                return_url@,
            ),
    {
        let shipping_address_id = match shipping_address {
            Some(address) => Some(address.address_id.clone()),
            None => None,
        };
        let billing_address_id = match billing_address {
            Some(address) => Some(address.address_id.clone()),
            None => None,
        };
        PaymentIntent {
            order_details: first_of(
                clone_opt_values(&request.order_details),
                payment_intent.order_details,
            ),
            setup_future_usage: first_of(
                request.setup_future_usage,
                payment_intent.setup_future_usage,
            ),
            shipping_address_id,
            billing_address_id,
            return_url: Some(return_url),
            allowed_payment_method_types: first_of(
                clone_opt_value(&request.allowed_payment_method_types),
                payment_intent.allowed_payment_method_types,
            ),
            connector_metadata: first_of(
                clone_opt_value(&request.connector_metadata),
                payment_intent.connector_metadata,
            ),
            feature_metadata: first_of(
                clone_opt_value(&request.feature_metadata),
                payment_intent.feature_metadata,
            ),
            metadata: first_of(clone_opt_value(&request.metadata), payment_intent.metadata),
            ..payment_intent
        }
    }

    /// Reconciles a request with the records fetched for it: the intent, its
    /// current attempt, the resolved mandate details and addresses, and the
    /// session cache's answer. Returns the aggregate that the later phases
    /// work on, with the customer details of the request, or the first error.
    /// An intent that may not be confirmed at `now` is not reconciled.
    pub fn get_trackers(
        &self,
        request: &PaymentsRequest,
        mandate_type: Option<MandateTransactionType>,
        merchant_account: &MerchantAccount,
        payment_intent: PaymentIntent,
        payment_attempt: PaymentAttempt,
        mandate_details: MandateResolution,
        shipping_address: Option<Address>,
        billing_address: Option<Address>,
        session: SessionSurcharge,
        now: i64,
    ) -> (res: Result<(PaymentData, CustomerDetails), ApiErrorResponse>)
        ensures
            trackers_view(res) == spec_get_trackers(
                request@,
                mandate_type,
                merchant_account@,
                payment_intent@,
                payment_attempt@,
                mandate_details@,
                opt_view(shipping_address),
                opt_view(billing_address),
                session,
                now,
            ),
            payment_intent@.status.forbids_confirm() ==> res == Err::<
                (PaymentData, CustomerDetails),
                ApiErrorResponse,
            >(ApiErrorResponse::InvalidState),
            now > fulfillment_deadline(
                payment_intent@.created_at,
                merchant_account@.intent_fulfillment_time,
            ) ==> res is Err,
    {
        match check_confirm_allowed(request, merchant_account, &payment_intent, now) {
            Err(e) => {
                return Err(e);
            },
            Ok(()) => {},
        }
        let customer_details = get_customer_details_from_request(request);
        let token = first_of(
            clone_opt_text(&mandate_details.token),
            clone_opt_text(&payment_attempt.payment_token),
        );
        match validate_pm_or_token_given(request, mandate_type, &token) {
            Err(e) => {
                return Err(e);
            },
            Ok(()) => {},
        }
        let currency = match payment_attempt.currency {
            Some(currency) => currency,
            None => {
                return Err(
                    ApiErrorResponse::MissingRequiredField { field_name: FieldName::Currency },
                );
            },
        };
        let amount = payment_attempt.amount;
        let customer_id = first_of(
            clone_opt_text(&payment_intent.customer_id),
            clone_opt_text(&customer_details.customer_id),
        );
        match validate_customer_id_mandatory_cases(
            request.setup_future_usage.is_some(),
            &customer_id,
        ) {
            Err(e) => {
                return Err(e);
            },
            Ok(()) => {},
        }
        let return_url = match resolve_return_url(
            clone_opt_text(&request.return_url),
            clone_opt_text(&payment_intent.return_url),
            clone_opt_text(&merchant_account.return_url),
        ) {
            Ok(url) => url,
            Err(e) => {
                return Err(e);
            },
        };
        let creds_identifier = match &request.merchant_connector_details {
            Some(details) => Some(details.creds_identifier.clone()),
            None => None,
        };
        let setup_mandate = match mandate_details.setup_mandate {
            Some(mandate) => Some(
                MandateData {
                    customer_accepted: mandate.customer_accepted,
                    mandate_type: first_of(payment_attempt.mandate_details, mandate.mandate_type),
                },
            ),
            None => None,
        };
        let payment_attempt = Self::reconcile_attempt(request, payment_attempt, &mandate_details);
        match Self::validate_request_surcharge_details_with_session_surcharge_details(
            &payment_attempt,
            request,
            session,
        ) {
            Err(e) => {
                return Err(e);
            },
            Ok(()) => {},
        }
        if !is_surcharge_in_range(&payment_attempt, request) {
            return Err(
                ApiErrorResponse::InvalidRequestData { reason: RequestFault::AmountOutOfRange },
            );
        }
        let surcharge_details = Self::get_surcharge_details_from_payment_request_or_payment_attempt(
            request,
            &payment_attempt,
        );
        let payment_intent = Self::reconcile_intent(
            request,
            payment_intent,
            &shipping_address,
            &billing_address,
            return_url,
        );
        let payment_data = PaymentData {
            flow: PaymentFlow::Authorize,
            payment_intent,
            payment_attempt,
            currency,
            amount,
            email: clone_opt_text(&request.email),
            mandate_connector: mandate_details.mandate_connector,
            setup_mandate,
            token,
            shipping: shipping_address,
            billing: billing_address,
            confirm: request.confirm,
            force_sync: None,
            payment_method_data: PaymentMethodData::clone_opt(&request.payment_method_data),
            card_cvc: clone_opt_text(&request.card_cvc),
            creds_identifier,
            recurring_mandate_payment_data: mandate_details.recurring_mandate_payment_data,
            surcharge_details,
            frm_message: None,
        };
        Ok((payment_data, customer_details))
    }
    /// Plans what a confirmation writes back: the transition that the fraud
    /// check's suggestion selects, laid into the change to the attempt and
    /// the change to the intent, and the change to the customer where one
    /// was asked for. `additional_pm_data` is what is to be kept of the
    /// payment method data.
    pub fn update_trackers(
        &self,
        payment_data: &PaymentData,
        customer: Option<Customer>,
        storage_scheme: MerchantStorageScheme,
        updated_customer: Option<CustomerUpdate>,
        frm_suggestion: Option<FrmSuggestion>,
        header_payload: HeaderPayload,
        additional_pm_data: Option<serde_json::Value>,
    ) -> (res: UpdatePlan)
        ensures
            res@ == spec_update_plan(
                payment_data@,
                opt_view(customer),
                storage_scheme,
                opt_view(updated_customer),
                frm_suggestion,
                header_payload,
                additional_pm_data,
            ),
    {
        let step = transition(frm_suggestion, &payment_data.frm_message);
        let intent_change = intent_update(
            payment_data,
            &step,
            &customer,
            storage_scheme,
            header_payload,
        );
        let attempt_change = attempt_update(payment_data, step, storage_scheme, additional_pm_data);
        let customer_update = match (updated_customer, customer) {
            (Some(update), Some(c)) => Some(
                CustomerWrite { customer_id: c.customer_id, merchant_id: c.merchant_id, update },
            ),
            _ => None,
        };
        UpdatePlan {
            attempt_update: attempt_change,
            intent_update: PaymentIntentUpdate::Update(intent_change),
            customer_update,
        }
    }

    /// Puts the intent and the attempt, as the store returned them after the
    /// changes, into the aggregate.
    pub fn complete_update(
        payment_data: PaymentData,
        payment_intent: PaymentIntent,
        payment_attempt: PaymentAttempt,
    ) -> (res: PaymentData)
        ensures
            res@ == (PaymentDataView {
                payment_intent: payment_intent@,
                payment_attempt: payment_attempt@,
                ..payment_data@
            }),
    {
        PaymentData { payment_intent, payment_attempt, ..payment_data }
    }
    /// Says how the connector of a confirmation is chosen: by the routing
    /// that the request brings, where it brings one.
    pub fn get_connector(&self, request: &PaymentsRequest) -> (res: ConnectorChoice)
        ensures
            res == spec_connector_choice(request@),
    {
        match &request.routing {
            Some(routing) => ConnectorChoice::StraightThrough(clone_value(routing)),
            None => ConnectorChoice::Decide,
        }
    }

    /// Settles the payment method data of a confirmation. `from_token` is
    /// what the aggregate's token stands for, as far as that was looked up.
    /// Without data from either side there is nothing to pay with.
    pub fn make_pm_data(
        &self,
        payment_data: &mut PaymentData,
        from_token: Option<PaymentMethodData>,
    ) -> (res: Result<PaymentMethodData, ApiErrorResponse>)
        ensures
            match res {
                Ok(data) => spec_pm_data(old(payment_data)@, opt_view(from_token)) == Some(data@)
                    && final(payment_data)@ == (PaymentDataView {
                    payment_method_data: Some(data@),
                    ..old(payment_data)@
                }),
                Err(e) => e == ApiErrorResponse::PaymentMethodNotFound && spec_pm_data(
                    old(payment_data)@,
                    opt_view(from_token),
                ).is_none() && final(payment_data)@ == old(payment_data)@,
            },
    {
        let chosen = match &payment_data.payment_method_data {
            Some(data) => Some(data.clone()),
            None => from_token,
        };
        match chosen {
            Some(data) => {
                payment_data.payment_method_data = Some(data.clone());
                Ok(data)
            },
            None => Err(ApiErrorResponse::PaymentMethodNotFound),
        }
    }

    /// The customer to look up for a confirmation: the request's, else the
    /// intent's.
    pub fn customer_to_fetch(payment_data: &PaymentData, request: &Option<CustomerDetails>) -> (res:
        Option<String>)
        ensures
            opt_view(res) == spec_customer_to_fetch(payment_data@, opt_view(*request)),
    {
        let requested = match request {
            Some(details) => clone_opt_text(&details.customer_id),
            None => None,
        };
        first_of(requested, clone_opt_text(&payment_data.payment_intent.customer_id))
    }

    /// Decides what becomes of the customer of a confirmation, given the row
    /// that the store has under [`Self::customer_to_fetch`], and notes the
    /// customer on the aggregate.
    pub fn get_or_create_customer_details(
        &self,
        payment_data: &mut PaymentData,
        request: &Option<CustomerDetails>,
        found: Option<Customer>,
        merchant_id: &String,
    ) -> (res: CustomerAction)
        ensures
            res@ == spec_customer_action(
                old(payment_data)@,
                opt_view(*request),
                opt_view(found),
                merchant_id@,
            ),
            final(payment_data)@ == spec_with_customer(old(payment_data)@, res@),
    {
        let action = customer_action(payment_data, request, found, merchant_id);
        match customer_of(&action) {
            Some(customer) => {
                payment_data.payment_intent.customer_id = Some(customer.customer_id.clone());
                payment_data.email = first_of(
                    clone_opt_text(&payment_data.email),
                    clone_opt_text(&customer.email),
                );
            },
            None => {},
        }
        action
    }
}

} // verus!
