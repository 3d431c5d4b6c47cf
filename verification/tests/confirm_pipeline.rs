use router::customer::CustomerAction;
use router::enums::{
    AttemptStatus, CaptureMethod, CountryAlpha2, Currency, FraudCheckStatus, FrmSuggestion, FutureUsage,
    IntentStatus, MerchantStorageScheme, PaymentExperience, PaymentFlow, PaymentMethod,
    PaymentMethodType, PaymentSource, RetryAction,
};
use router::errors::{ApiErrorResponse, FieldName, RequestFault, StorageError, ValidationFailure};
use router::helpers::{authenticate_client_secret, is_past_fulfillment_deadline};
use router::payment_confirm::{ConnectorChoice, PaymentConfirm};
use router::payment_data::{
    CustomerDetails, FraudCheck, MandateResolution, RecurringMandatePaymentData,
};
use router::persistence::HeaderPayload;
use router::pipeline::{confirm, persist, resolve_address, ConfirmInputs};
use router::request::{
    AddressDetails, Card, MandateAmountData, MandateData, MandateDataType,
    MerchantConnectorDetailsWrap, PaymentIdType, PaymentMethodData, PaymentsRequest,
    RequestSurchargeDetails, WalletData,
};
use router::resolver::{
    create_or_find_address_for_payment_by_request, get_payment_intent_id, plan_resources,
    AddressAction, StoredMandate,
};
use router::storage::{
    Address, ConnectorCredentials, Customer, CustomerUpdate, MerchantAccount, PaymentAttempt,
    PaymentAttemptUpdate, PaymentIntent, PaymentIntentUpdate, StatusAndAttemptUpdate,
};
use router::store::{MemoryStore, SessionCache};
use router::surcharge::{SessionSurcharge, SurchargeDetails, SurchargeKey};

#[allow(dead_code)]
fn text(value: &str) -> String {
    value.to_string()
}

#[allow(dead_code)]
fn merchant() -> MerchantAccount {
    MerchantAccount {
        merchant_id: text("merchant_1"),
        storage_scheme: MerchantStorageScheme::PostgresOnly,
        return_url: None,
        intent_fulfillment_time: None,
        publishable_key: Some(text("pk_test_1")),
        merchant_name: Some(text("Shop")),
    }
}

#[allow(dead_code)]
fn intent(status: IntentStatus) -> PaymentIntent {
    PaymentIntent {
        payment_id: text("pay_1"),
        merchant_id: text("merchant_1"),
        status,
        amount: 1000,
        currency: Some(Currency::USD),
        customer_id: None,
        description: None,
        return_url: Some(text("https://shop.example/return")),
        business_country: None,
        business_label: None,
        metadata: None,
        statement_descriptor_name: None,
        statement_descriptor_suffix: None,
        created_at: 1_700_000_000,
        modified_at: 1_700_000_000,
        setup_future_usage: None,
        client_secret: Some(text("pay_1_secret_abc")),
        active_attempt_id: text("pay_1_1"),
        attempt_count: 1,
        order_details: None,
        allowed_payment_method_types: None,
        connector_metadata: None,
        feature_metadata: None,
        shipping_address_id: None,
        billing_address_id: None,
        payment_link_id: None,
        payment_confirm_source: None,
        updated_by: text("postgres_only"),
    }
}

#[allow(dead_code)]
fn attempt(status: AttemptStatus) -> PaymentAttempt {
    PaymentAttempt {
        payment_id: text("pay_1"),
        merchant_id: text("merchant_1"),
        attempt_id: text("pay_1_1"),
        status,
        amount: 1000,
        currency: Some(Currency::USD),
        surcharge_amount: None,
        tax_amount: None,
        payment_method: None,
        payment_method_type: None,
        payment_experience: None,
        capture_method: None,
        authentication_type: None,
        connector: None,
        merchant_connector_id: None,
        browser_info: None,
        payment_token: None,
        payment_method_data: None,
        mandate_id: None,
        mandate_details: None,
        business_sub_label: None,
        straight_through_algorithm: None,
        error_code: None,
        error_message: None,
        amount_capturable: 0,
        created_at: 1_700_000_000,
        modified_at: 1_700_000_000,
        updated_by: text("postgres_only"),
    }
}

#[allow(dead_code)]
fn request() -> PaymentsRequest {
    PaymentsRequest {
        payment_id: Some(PaymentIdType::PaymentIntentId(text("pay_1"))),
        payment_method: Some(PaymentMethod::Card),
        ..PaymentsRequest::default()
    }
}

#[allow(dead_code)]
fn card() -> Card {
    Card {
        card_number: text("4242424242424242"),
        card_exp_month: text("10"),
        card_exp_year: text("30"),
        card_holder_name: Some(text("A Holder")),
        card_cvc: text("123"),
    }
}

#[allow(dead_code)]
fn no_mandate() -> MandateResolution {
    MandateResolution {
        token: None,
        payment_method: Some(PaymentMethod::Card),
        payment_method_type: None,
        setup_mandate: None,
        recurring_mandate_payment_data: None,
        mandate_connector: None,
    }
}

#[allow(dead_code)]
fn inputs(now: i64) -> ConfirmInputs {
    ConfirmInputs {
        generated_payment_id: text("pay_generated"),
        shipping_address_id: text("add_ship"),
        billing_address_id: text("add_bill"),
        stored_mandate: None,
        customer: None,
        updated_customer: None,
        frm_suggestion: None,
        frm_message: None,
        header_payload: HeaderPayload { payment_confirm_source: Some(PaymentSource::MerchantServer) },
        additional_pm_data: None,
        now,
    }
}

#[allow(dead_code)]
fn store_with(intent_row: PaymentIntent, attempt_row: PaymentAttempt) -> MemoryStore {
    let mut store = MemoryStore::new();
    assert_eq!(store.insert_payment_intent(intent_row), Ok(()));
    assert_eq!(store.insert_payment_attempt(attempt_row), Ok(()));
    store
}

#[allow(dead_code)]
fn stored_intent(store: &MemoryStore) -> PaymentIntent {
    store
        .find_payment_intent_by_payment_id_merchant_id(&text("pay_1"), &text("merchant_1"))
        .unwrap()
}

#[allow(dead_code)]
fn stored_attempt(store: &MemoryStore, attempt_id: &str) -> Option<PaymentAttempt> {
    store.find_payment_attempt_by_payment_id_merchant_id_attempt_id(
        &text("pay_1"),
        &text("merchant_1"),
        &text(attempt_id),
    )
}

#[test]
fn confirm_moves_a_payment_to_processing() {
    let mut store = store_with(
        intent(IntentStatus::RequiresConfirmation),
        attempt(AttemptStatus::ConfirmationAwaited),
    );
    let cache = SessionCache::new();
    let data = confirm(&mut store, &cache, &merchant(), &request(), inputs(1_700_000_100)).unwrap();
    assert_eq!(data.payment_intent.status, IntentStatus::Processing);
    assert_eq!(data.payment_attempt.status, AttemptStatus::Pending);
    assert_eq!(data.payment_attempt.amount_capturable, 1000);
    assert_eq!(data.amount, 1000);
    assert_eq!(data.currency, Currency::USD);
    assert_eq!(data.payment_attempt.payment_method, Some(PaymentMethod::Card));
    assert_eq!(data.payment_attempt.error_code, None);
    assert_eq!(data.payment_attempt.error_message, None);
    assert_eq!(data.surcharge_details, None);
    assert_eq!(data.flow, PaymentFlow::Authorize);
    // the store holds what the aggregate ends with
    assert_eq!(stored_intent(&store), data.payment_intent);
    assert_eq!(stored_attempt(&store, "pay_1_1"), Some(data.payment_attempt));
    assert_eq!(stored_intent(&store).modified_at, 1_700_000_100);
    assert_eq!(stored_intent(&store).updated_by, "postgres_only");
    assert_eq!(
        stored_intent(&store).payment_confirm_source,
        Some(PaymentSource::MerchantServer)
    );
}

#[test]
fn confirm_under_manual_review_waits_for_the_merchant() {
    let mut store = store_with(
        intent(IntentStatus::RequiresConfirmation),
        attempt(AttemptStatus::ConfirmationAwaited),
    );
    let cache = SessionCache::new();
    let mut given = inputs(1_700_000_100);
    given.frm_suggestion = Some(FrmSuggestion::FrmManualReview);
    let data = confirm(&mut store, &cache, &merchant(), &request(), given).unwrap();
    assert_eq!(data.payment_intent.status, IntentStatus::RequiresMerchantAction);
    assert_eq!(data.payment_attempt.status, AttemptStatus::Unresolved);
    assert_eq!(data.payment_attempt.error_message, None);
}

#[test]
fn confirm_cancelled_for_fraud_fails_with_the_reason() {
    let mut store = store_with(
        intent(IntentStatus::RequiresConfirmation),
        attempt(AttemptStatus::ConfirmationAwaited),
    );
    let cache = SessionCache::new();
    let mut given = inputs(1_700_000_100);
    given.frm_suggestion = Some(FrmSuggestion::FrmCancelTransaction);
    given.frm_message = Some(FraudCheck {
        frm_status: FraudCheckStatus::Fraud,
        frm_reason: Some(text("stolen_card")),
    });
    let data = confirm(&mut store, &cache, &merchant(), &request(), given).unwrap();
    assert_eq!(data.payment_intent.status, IntentStatus::Failed);
    assert_eq!(data.payment_attempt.status, AttemptStatus::Failure);
    assert!(data.payment_attempt.error_message.clone().unwrap().contains("stolen_card"));
    assert_eq!(data.payment_attempt.error_message, Some(text("stolen_card")));
    assert_eq!(data.payment_attempt.error_code, Some(text("fraud")));
}

#[test]
fn fraud_cancel_without_a_message_notes_no_error() {
    let mut store = store_with(
        intent(IntentStatus::RequiresConfirmation),
        attempt(AttemptStatus::ConfirmationAwaited),
    );
    let cache = SessionCache::new();
    let mut given = inputs(1_700_000_100);
    given.frm_suggestion = Some(FrmSuggestion::FrmCancelTransaction);
    let data = confirm(&mut store, &cache, &merchant(), &request(), given).unwrap();
    assert_eq!(data.payment_intent.status, IntentStatus::Failed);
    assert_eq!(data.payment_attempt.status, AttemptStatus::Failure);
    assert_eq!(data.payment_attempt.error_code, None);
    assert_eq!(data.payment_attempt.error_message, None);
}

#[test]
fn forbidden_statuses_fail_and_write_nothing() {
    let forbidden = [
        IntentStatus::Cancelled,
        IntentStatus::Succeeded,
        IntentStatus::Processing,
        IntentStatus::RequiresCapture,
        IntentStatus::RequiresMerchantAction,
    ];
    for status in forbidden {
        let mut store = store_with(intent(status), attempt(AttemptStatus::Charged));
        let cache = SessionCache::new();
        let mut asked = request();
        // an address in the request would be created if the confirmation got that far
        asked.shipping = Some(AddressDetails {
            line1: Some(text("1 Main Street")),
            city: None,
            state: None,
            zip: None,
            country: None,
            first_name: None,
            last_name: None,
            phone_number: None,
        });
        let res = confirm(&mut store, &cache, &merchant(), &asked, inputs(1_700_000_100));
        assert_eq!(res, Err(ApiErrorResponse::InvalidState));
        assert_eq!(stored_intent(&store), intent(status));
        assert_eq!(stored_attempt(&store, "pay_1_1"), Some(attempt(AttemptStatus::Charged)));
        assert_eq!(stored_attempt(&store, "pay_1_2"), None);
        assert_eq!(
            store.find_address_by_merchant_id_address_id(&text("merchant_1"), &text("add_ship")),
            None
        );
    }
}

#[test]
fn awaiting_action_reuses_the_attempt() {
    let awaiting = [
        IntentStatus::RequiresCustomerAction,
        IntentStatus::RequiresPaymentMethod,
        IntentStatus::RequiresConfirmation,
    ];
    for status in awaiting {
        let mut store = store_with(intent(status), attempt(AttemptStatus::ConfirmationAwaited));
        let cache = SessionCache::new();
        let data =
            confirm(&mut store, &cache, &merchant(), &request(), inputs(1_700_000_100)).unwrap();
        assert_eq!(data.payment_attempt.attempt_id, "pay_1_1");
        assert_eq!(data.payment_intent.active_attempt_id, "pay_1_1");
        assert_eq!(data.payment_intent.attempt_count, 1);
        assert_eq!(stored_attempt(&store, "pay_1_2"), None);
    }
}

#[test]
fn manual_retry_opens_a_new_attempt_and_keeps_the_old() {
    let mut failed = attempt(AttemptStatus::Failure);
    failed.payment_method = Some(PaymentMethod::Card);
    failed.connector = Some(text("stripe"));
    failed.error_message = Some(text("card_declined"));
    let mut store = store_with(intent(IntentStatus::Failed), failed.clone());
    let cache = SessionCache::new();
    let mut asked = request();
    asked.retry_action = Some(RetryAction::ManualRetry);
    asked.payment_method = Some(PaymentMethod::Wallet);
    asked.payment_method_type = Some(PaymentMethodType::Paypal);
    let data = confirm(&mut store, &cache, &merchant(), &asked, inputs(1_700_000_100)).unwrap();
    assert_eq!(data.payment_attempt.attempt_id, "pay_1_2");
    assert_ne!(data.payment_attempt.attempt_id, failed.attempt_id);
    assert_eq!(data.payment_intent.active_attempt_id, "pay_1_2");
    assert_eq!(data.payment_intent.attempt_count, 2);
    assert_eq!(data.payment_attempt.payment_method, Some(PaymentMethod::Wallet));
    assert_eq!(data.payment_attempt.connector, None);
    assert_eq!(data.payment_attempt.error_message, None);
    assert_eq!(data.payment_attempt.amount, 1000);
    assert_eq!(data.payment_attempt.created_at, 1_700_000_100);
    assert_eq!(data.payment_attempt.status, AttemptStatus::Pending);
    assert_eq!(data.payment_intent.status, IntentStatus::Processing);
    // the earlier attempt is still there, as it was
    assert_eq!(stored_attempt(&store, "pay_1_1"), Some(failed));
    assert_eq!(stored_attempt(&store, "pay_1_2"), Some(data.payment_attempt));
}

#[test]
fn failed_intent_without_manual_retry_is_turned_away() {
    let mut store = store_with(intent(IntentStatus::Failed), attempt(AttemptStatus::Failure));
    let cache = SessionCache::new();
    let res = confirm(&mut store, &cache, &merchant(), &request(), inputs(1_700_000_100));
    assert_eq!(res, Err(ApiErrorResponse::InvalidState));
    let mut asked = request();
    asked.retry_action = Some(RetryAction::Requeue);
    let res = confirm(&mut store, &cache, &merchant(), &asked, inputs(1_700_000_100));
    assert_eq!(res, Err(ApiErrorResponse::InvalidState));
    assert_eq!(stored_attempt(&store, "pay_1_2"), None);
}

#[test]
fn manual_retry_depends_on_how_the_attempt_ended() {
    let mut asked = request();
    asked.retry_action = Some(RetryAction::ManualRetry);
    let cache = SessionCache::new();
    let mut store = store_with(intent(IntentStatus::Failed), attempt(AttemptStatus::RouterDeclined));
    assert_eq!(
        confirm(&mut store, &cache, &merchant(), &asked, inputs(1_700_000_100)),
        Err(ApiErrorResponse::InvalidState)
    );
    let mut store = store_with(intent(IntentStatus::Failed), attempt(AttemptStatus::Charged));
    assert_eq!(
        confirm(&mut store, &cache, &merchant(), &asked, inputs(1_700_000_100)),
        Err(ApiErrorResponse::InternalServerError)
    );
    let mut store =
        store_with(intent(IntentStatus::PartiallyCaptured), attempt(AttemptStatus::Failure));
    assert_eq!(
        confirm(&mut store, &cache, &merchant(), &asked, inputs(1_700_000_100)),
        Err(ApiErrorResponse::InvalidState)
    );
}

#[test]
fn an_intent_with_the_last_attempt_number_cannot_be_retried() {
    let mut row = intent(IntentStatus::Failed);
    row.attempt_count = u32::MAX;
    let mut store = store_with(row, attempt(AttemptStatus::Failure));
    let cache = SessionCache::new();
    let mut asked = request();
    asked.retry_action = Some(RetryAction::ManualRetry);
    assert_eq!(
        confirm(&mut store, &cache, &merchant(), &asked, inputs(1_700_000_100)),
        Err(ApiErrorResponse::InternalServerError)
    );
}

#[test]
fn resolving_a_stored_address_twice_gives_the_same_record() {
    let mut store = MemoryStore::new();
    let stored = Address {
        address_id: text("add_1"),
        merchant_id: text("merchant_1"),
        customer_id: Some(text("cus_1")),
        payment_id: Some(text("pay_1")),
        details: AddressDetails {
            line1: Some(text("1 Main Street")),
            city: Some(text("Springfield")),
            state: None,
            zip: Some(text("12345")),
            country: Some(text("US")),
            first_name: Some(text("A")),
            last_name: Some(text("Holder")),
            phone_number: None,
        },
        created_at: 1_700_000_000,
        modified_at: 1_700_000_000,
    };
    assert_eq!(store.insert_address(stored.clone()), Ok(()));
    let action = || create_or_find_address_for_payment_by_request(&None, &Some(text("add_1")));
    assert_eq!(action(), AddressAction::Find { address_id: text("add_1") });
    let first = resolve_address(
        &mut store,
        action(),
        text("add_fresh_1"),
        &text("merchant_1"),
        &Some(text("cus_1")),
        &text("pay_1"),
        1_700_000_100,
    );
    let second = resolve_address(
        &mut store,
        action(),
        text("add_fresh_2"),
        &text("merchant_1"),
        &Some(text("cus_1")),
        &text("pay_1"),
        1_700_000_200,
    );
    assert_eq!(first, Ok(Some(stored.clone())));
    assert_eq!(second, first);
    // nothing was created under either fresh identifier
    assert_eq!(
        store.find_address_by_merchant_id_address_id(&text("merchant_1"), &text("add_fresh_1")),
        None
    );
    assert_eq!(
        store.find_address_by_merchant_id_address_id(&text("merchant_1"), &text("add_fresh_2")),
        None
    );
    assert_eq!(
        store.find_address_by_merchant_id_address_id(&text("merchant_1"), &text("add_1")),
        Some(stored)
    );
}

#[test]
fn addresses_are_created_overwritten_or_missed() {
    let details = |line: &str| AddressDetails {
        line1: Some(text(line)),
        city: None,
        state: None,
        zip: None,
        country: None,
        first_name: None,
        last_name: None,
        phone_number: None,
    };
    let mut store = MemoryStore::new();
    let created = resolve_address(
        &mut store,
        create_or_find_address_for_payment_by_request(&Some(details("1 Main Street")), &None),
        text("add_1"),
        &text("merchant_1"),
        &None,
        &text("pay_1"),
        10,
    )
    .unwrap()
    .unwrap();
    assert_eq!(created.address_id, "add_1");
    assert_eq!(created.payment_id, Some(text("pay_1")));
    assert_eq!(created.created_at, 10);
    let updated = resolve_address(
        &mut store,
        create_or_find_address_for_payment_by_request(
            &Some(details("2 Side Street")),
            &Some(text("add_1")),
        ),
        text("add_2"),
        &text("merchant_1"),
        &None,
        &text("pay_1"),
        20,
    )
    .unwrap()
    .unwrap();
    assert_eq!(updated.address_id, "add_1");
    assert_eq!(updated.details.line1, Some(text("2 Side Street")));
    assert_eq!(updated.created_at, 10);
    assert_eq!(updated.modified_at, 20);
    assert_eq!(
        resolve_address(
            &mut store,
            AddressAction::Find { address_id: text("add_9") },
            text("add_3"),
            &text("merchant_1"),
            &None,
            &text("pay_1"),
            30,
        ),
        Err(ApiErrorResponse::AddressNotFound)
    );
    assert_eq!(
        resolve_address(
            &mut store,
            AddressAction::Create { details: details("3 Back Street") },
            text("add_1"),
            &text("merchant_1"),
            &None,
            &text("pay_1"),
            40,
        ),
        Err(ApiErrorResponse::InternalServerError)
    );
    assert_eq!(
        resolve_address(
            &mut store,
            AddressAction::Skip,
            text("add_4"),
            &text("merchant_1"),
            &None,
            &text("pay_1"),
            50,
        ),
        Ok(None)
    );
}

#[test]
fn confirm_creates_the_address_of_the_request() {
    let mut store = store_with(
        intent(IntentStatus::RequiresConfirmation),
        attempt(AttemptStatus::ConfirmationAwaited),
    );
    let cache = SessionCache::new();
    let mut asked = request();
    asked.billing = Some(AddressDetails {
        line1: Some(text("1 Main Street")),
        city: None,
        state: None,
        zip: None,
        country: None,
        first_name: None,
        last_name: None,
        phone_number: None,
    });
    let data = confirm(&mut store, &cache, &merchant(), &asked, inputs(1_700_000_100)).unwrap();
    assert_eq!(data.payment_intent.billing_address_id, Some(text("add_bill")));
    assert_eq!(data.payment_intent.shipping_address_id, None);
    assert_eq!(data.billing.clone().unwrap().address_id, "add_bill");
    assert_eq!(
        store.find_address_by_merchant_id_address_id(&text("merchant_1"), &text("add_bill")),
        data.billing
    );
}

#[test]
fn confirm_of_an_unknown_payment_is_not_found() {
    let mut store = MemoryStore::new();
    let cache = SessionCache::new();
    assert_eq!(
        confirm(&mut store, &cache, &merchant(), &request(), inputs(1_700_000_100)),
        Err(ApiErrorResponse::PaymentNotFound)
    );
    // an intent without its attempt
    assert_eq!(store.insert_payment_intent(intent(IntentStatus::RequiresConfirmation)), Ok(()));
    assert_eq!(
        confirm(&mut store, &cache, &merchant(), &request(), inputs(1_700_000_100)),
        Err(ApiErrorResponse::PaymentNotFound)
    );
}

#[test]
fn client_secret_must_match_and_be_in_time() {
    let cache = SessionCache::new();
    let mut asked = request();
    asked.client_secret = Some(text("pay_1_secret_abc"));
    // the default window is 900 seconds from creation
    let mut store = store_with(
        intent(IntentStatus::RequiresConfirmation),
        attempt(AttemptStatus::ConfirmationAwaited),
    );
    assert!(confirm(&mut store, &cache, &merchant(), &asked, inputs(1_700_000_900)).is_ok());
    let mut store = store_with(
        intent(IntentStatus::RequiresConfirmation),
        attempt(AttemptStatus::ConfirmationAwaited),
    );
    assert_eq!(
        confirm(&mut store, &cache, &merchant(), &asked, inputs(1_700_000_901)),
        Err(ApiErrorResponse::ClientSecretExpired)
    );
    let mut patient = merchant();
    patient.intent_fulfillment_time = Some(3600);
    assert!(confirm(&mut store, &cache, &patient, &asked, inputs(1_700_003_600)).is_ok());
    let mut store = store_with(
        intent(IntentStatus::RequiresConfirmation),
        attempt(AttemptStatus::ConfirmationAwaited),
    );
    asked.client_secret = Some(text("pay_1_secret_xyz"));
    assert_eq!(
        confirm(&mut store, &cache, &merchant(), &asked, inputs(1_700_000_100)),
        Err(ApiErrorResponse::InvalidRequestData { reason: RequestFault::ClientSecretMismatch })
    );
    let mut spent = intent(IntentStatus::RequiresConfirmation);
    spent.client_secret = None;
    let mut store = store_with(spent, attempt(AttemptStatus::ConfirmationAwaited));
    assert_eq!(
        confirm(&mut store, &cache, &merchant(), &asked, inputs(1_700_000_100)),
        Err(ApiErrorResponse::ClientSecretExpired)
    );
}

#[test]
fn deadline_is_held_within_the_integers() {
    let mut late = intent(IntentStatus::RequiresConfirmation);
    late.created_at = i64::MAX - 10;
    assert_eq!(
        authenticate_client_secret(&Some(text("pay_1_secret_abc")), &late, None, i64::MAX),
        Ok(())
    );
    let mut early = intent(IntentStatus::RequiresConfirmation);
    early.created_at = i64::MIN + 10;
    assert_eq!(
        authenticate_client_secret(
            &Some(text("pay_1_secret_abc")),
            &early,
            Some(-100),
            i64::MIN + 1
        ),
        Err(ApiErrorResponse::ClientSecretExpired)
    );
    assert_eq!(
        authenticate_client_secret(&Some(text("pay_1_secret_abc")), &early, Some(-100), i64::MIN),
        Ok(())
    );
    // a request without a client secret is held to the deadline all the same
    assert_eq!(
        authenticate_client_secret(&None, &early, Some(-100), 0),
        Err(ApiErrorResponse::ClientSecretExpired)
    );
    assert_eq!(authenticate_client_secret(&None, &early, Some(-100), i64::MIN), Ok(()));
    let row = intent(IntentStatus::RequiresConfirmation);
    assert_eq!(authenticate_client_secret(&None, &row, None, 1_700_000_900), Ok(()));
    assert_eq!(
        authenticate_client_secret(&None, &row, None, 1_700_000_901),
        Err(ApiErrorResponse::ClientSecretExpired)
    );
    assert!(!is_past_fulfillment_deadline(1_700_000_000, Some(60), 1_700_000_060));
    assert!(is_past_fulfillment_deadline(1_700_000_000, Some(60), 1_700_000_061));
}

#[test]
fn expired_intent_is_turned_away_before_anything_is_fetched() {
    let cache = SessionCache::new();
    // with no client secret, with the intent's own, and with an intent that has none
    let mut with_secret = request();
    with_secret.client_secret = Some(text("pay_1_secret_abc"));
    let mut spent = intent(IntentStatus::RequiresConfirmation);
    spent.client_secret = None;
    for (asked, row) in [
        (request(), intent(IntentStatus::RequiresConfirmation)),
        (with_secret, intent(IntentStatus::RequiresConfirmation)),
        (request(), spent),
        (request(), intent(IntentStatus::Failed)),
    ] {
        let mut asked = asked;
        asked.billing = Some(AddressDetails {
            line1: Some(text("1 Main Street")),
            city: None,
            state: None,
            zip: None,
            country: None,
            first_name: None,
            last_name: None,
            phone_number: None,
        });
        asked.merchant_connector_details = Some(MerchantConnectorDetailsWrap {
            creds_identifier: text("creds_1"),
            encoded_data: None,
        });
        asked.retry_action = Some(RetryAction::ManualRetry);
        // the attempt is missing: a confirmation that went on to fetch it would not find it
        let mut store = MemoryStore::new();
        assert_eq!(store.insert_payment_intent(row.clone()), Ok(()));
        assert_eq!(
            confirm(&mut store, &cache, &merchant(), &asked, inputs(1_700_000_901)),
            Err(ApiErrorResponse::ClientSecretExpired)
        );
        assert_eq!(stored_intent(&store), row);
        assert_eq!(
            store.find_address_by_merchant_id_address_id(&text("merchant_1"), &text("add_bill")),
            None
        );
        assert_eq!(store.find_merchant_connector_creds(&text("merchant_1"), &text("creds_1")), None);
        assert_eq!(
            plan_resources(&asked, &merchant(), &row, 1_700_000_901),
            Err(ApiErrorResponse::ClientSecretExpired)
        );
        assert!(plan_resources(&asked, &merchant(), &row, 1_700_000_900).is_ok());
    }
    // a forbidden status is noticed before the deadline
    let mut store = store_with(intent(IntentStatus::Succeeded), attempt(AttemptStatus::Charged));
    assert_eq!(
        confirm(&mut store, &cache, &merchant(), &request(), inputs(1_700_000_901)),
        Err(ApiErrorResponse::InvalidState)
    );
}

#[test]
fn reconciliation_turns_away_what_may_not_be_confirmed() {
    let run = |row: PaymentIntent, now: i64| {
        PaymentConfirm.get_trackers(
            &request(),
            None,
            &merchant(),
            row,
            attempt(AttemptStatus::ConfirmationAwaited),
            no_mandate(),
            None,
            None,
            SessionSurcharge::NotFound,
            now,
        )
    };
    for status in [
        IntentStatus::Cancelled,
        IntentStatus::Succeeded,
        IntentStatus::Processing,
        IntentStatus::RequiresCapture,
        IntentStatus::RequiresMerchantAction,
    ] {
        assert_eq!(run(intent(status), 1_700_000_100), Err(ApiErrorResponse::InvalidState));
    }
    assert!(run(intent(IntentStatus::RequiresConfirmation), 1_700_000_900).is_ok());
    assert_eq!(
        run(intent(IntentStatus::RequiresConfirmation), 1_700_000_901),
        Err(ApiErrorResponse::ClientSecretExpired)
    );
}

#[test]
fn amounts_beyond_the_integers_end_the_confirmation() {
    let cache = SessionCache::new();
    let out_of_range =
        Err(ApiErrorResponse::InvalidRequestData { reason: RequestFault::AmountOutOfRange });
    let mut row = attempt(AttemptStatus::ConfirmationAwaited);
    row.amount = i64::MAX;
    row.surcharge_amount = Some(1);
    let mut store = store_with(intent(IntentStatus::RequiresConfirmation), row.clone());
    assert_eq!(
        confirm(&mut store, &cache, &merchant(), &request(), inputs(1_700_000_100)),
        out_of_range
    );
    assert_eq!(stored_intent(&store), intent(IntentStatus::RequiresConfirmation));
    assert_eq!(stored_attempt(&store, "pay_1_1"), Some(row));
    // a declared surcharge that does not fit
    let mut asked = request();
    asked.payment_method_data = Some(PaymentMethodData::Card(card()));
    asked.surcharge_details =
        Some(RequestSurchargeDetails { surcharge_amount: 0, tax_amount: None });
    let mut tried = attempt(AttemptStatus::ConfirmationAwaited);
    tried.amount = i64::MAX;
    let mut store = store_with(intent(IntentStatus::RequiresConfirmation), tried.clone());
    let data = confirm(&mut store, &cache, &merchant(), &asked, inputs(1_700_000_100)).unwrap();
    assert_eq!(data.payment_attempt.amount_capturable, i64::MAX);
    tried.surcharge_amount = Some(i64::MAX);
    asked.surcharge_details =
        Some(RequestSurchargeDetails { surcharge_amount: i64::MAX, tax_amount: None });
    let mut store = store_with(intent(IntentStatus::RequiresConfirmation), tried);
    assert_eq!(
        confirm(&mut store, &cache, &merchant(), &asked, inputs(1_700_000_100)),
        out_of_range
    );
    // an attempt of another payment with such amounts is of no account
    let mut other = attempt(AttemptStatus::Failure);
    other.payment_id = text("pay_2");
    other.attempt_id = text("pay_2_1");
    other.amount = i64::MAX;
    other.surcharge_amount = Some(i64::MAX);
    let mut store = store_with(
        intent(IntentStatus::RequiresConfirmation),
        attempt(AttemptStatus::ConfirmationAwaited),
    );
    assert_eq!(store.insert_payment_attempt(other), Ok(()));
    assert!(confirm(&mut store, &cache, &merchant(), &request(), inputs(1_700_000_100)).is_ok());
}

#[test]
fn retry_never_ends_on_the_attempt_before_it() {
    let cache = SessionCache::new();
    let mut asked = request();
    asked.retry_action = Some(RetryAction::ManualRetry);
    // the attempt before bears an identifier of its own making
    let mut row = intent(IntentStatus::Failed);
    row.active_attempt_id = text("first_try");
    let mut failed = attempt(AttemptStatus::Failure);
    failed.attempt_id = text("first_try");
    let mut store = store_with(row, failed.clone());
    let data = confirm(&mut store, &cache, &merchant(), &asked, inputs(1_700_000_100)).unwrap();
    assert_eq!(data.payment_attempt.attempt_id, "pay_1_2");
    assert_eq!(data.payment_intent.active_attempt_id, "pay_1_2");
    assert_eq!(stored_attempt(&store, "first_try"), Some(failed));
    // the attempt before already bears the identifier that the new one would get
    let mut row = intent(IntentStatus::Failed);
    row.active_attempt_id = text("pay_1_2");
    let mut failed = attempt(AttemptStatus::Failure);
    failed.attempt_id = text("pay_1_2");
    let mut store = store_with(row.clone(), failed.clone());
    assert_eq!(
        confirm(&mut store, &cache, &merchant(), &asked, inputs(1_700_000_100)),
        Err(ApiErrorResponse::InternalServerError)
    );
    assert_eq!(stored_attempt(&store, "pay_1_2"), Some(failed));
    assert_eq!(stored_intent(&store), row);
}

#[test]
fn stored_surcharge_is_added_to_the_capturable_amount() {
    let mut row = attempt(AttemptStatus::ConfirmationAwaited);
    row.surcharge_amount = Some(50);
    row.tax_amount = Some(5);
    let mut store = store_with(intent(IntentStatus::RequiresConfirmation), row);
    let cache = SessionCache::new();
    let data = confirm(&mut store, &cache, &merchant(), &request(), inputs(1_700_000_100)).unwrap();
    assert_eq!(
        data.surcharge_details,
        Some(SurchargeDetails {
            surcharge_amount: 50,
            tax_on_surcharge_amount: 5,
            final_amount: 1055
        })
    );
    assert_eq!(data.payment_attempt.amount_capturable, 1055);
    assert_eq!(data.payment_attempt.amount, 1000);
}

#[test]
fn declared_surcharge_is_held_against_the_stored_one() {
    let mut row = attempt(AttemptStatus::ConfirmationAwaited);
    row.surcharge_amount = Some(50);
    row.tax_amount = Some(5);
    let cache = SessionCache::new();
    let mut asked = request();
    asked.payment_method_data = Some(PaymentMethodData::Card(card()));
    asked.surcharge_details = Some(RequestSurchargeDetails { surcharge_amount: 50, tax_amount: Some(5) });
    let mut store = store_with(intent(IntentStatus::RequiresConfirmation), row.clone());
    let data = confirm(&mut store, &cache, &merchant(), &asked, inputs(1_700_000_100)).unwrap();
    assert_eq!(data.payment_attempt.amount_capturable, 1055);
    asked.surcharge_details = Some(RequestSurchargeDetails { surcharge_amount: 51, tax_amount: Some(5) });
    let mut store = store_with(intent(IntentStatus::RequiresConfirmation), row);
    assert_eq!(
        confirm(&mut store, &cache, &merchant(), &asked, inputs(1_700_000_100)),
        Err(ApiErrorResponse::InvalidRequestData { reason: RequestFault::SurchargeMismatch })
    );
    // the reconciliation stopped before anything was changed
    assert_eq!(stored_intent(&store), intent(IntentStatus::RequiresConfirmation));
}

#[test]
fn declared_surcharge_is_held_against_the_session_cache() {
    let mut asked = request();
    asked.payment_method = Some(PaymentMethod::Wallet);
    asked.payment_method_type = Some(PaymentMethodType::ApplePay);
    asked.payment_method_data = Some(PaymentMethodData::Wallet(WalletData::ApplePay));
    asked.surcharge_details = Some(RequestSurchargeDetails { surcharge_amount: 30, tax_amount: None });
    let mut cache = SessionCache::new();
    // without a cached figure only a zero surcharge passes
    let mut store = store_with(
        intent(IntentStatus::RequiresConfirmation),
        attempt(AttemptStatus::ConfirmationAwaited),
    );
    assert_eq!(
        confirm(&mut store, &cache, &merchant(), &asked, inputs(1_700_000_100)),
        Err(ApiErrorResponse::InvalidRequestData { reason: RequestFault::SurchargeMismatch })
    );
    cache.put(
        SurchargeKey { payment_method_type: PaymentMethodType::ApplePay, attempt_id: text("pay_1_1") },
        SurchargeDetails { surcharge_amount: 30, tax_on_surcharge_amount: 0, final_amount: 1030 },
    );
    cache.put(
        SurchargeKey { payment_method_type: PaymentMethodType::GooglePay, attempt_id: text("pay_1_1") },
        SurchargeDetails { surcharge_amount: 40, tax_on_surcharge_amount: 0, final_amount: 1040 },
    );
    let data = confirm(&mut store, &cache, &merchant(), &asked, inputs(1_700_000_100)).unwrap();
    assert_eq!(data.payment_attempt.amount_capturable, 1030);
    let mut store = store_with(
        intent(IntentStatus::RequiresConfirmation),
        attempt(AttemptStatus::ConfirmationAwaited),
    );
    asked.surcharge_details = Some(RequestSurchargeDetails { surcharge_amount: 40, tax_amount: None });
    assert_eq!(
        confirm(&mut store, &cache, &merchant(), &asked, inputs(1_700_000_100)),
        Err(ApiErrorResponse::InvalidRequestData { reason: RequestFault::SurchargeMismatch })
    );
}

#[test]
fn session_cache_keeps_one_figure_per_key() {
    let key = || SurchargeKey {
        payment_method_type: PaymentMethodType::Klarna,
        attempt_id: text("pay_1_1"),
    };
    let figure = |amount: i64| SurchargeDetails {
        surcharge_amount: amount,
        tax_on_surcharge_amount: 0,
        final_amount: 1000 + amount,
    };
    let mut cache = SessionCache::new();
    assert_eq!(cache.get_individual_surcharge_detail(&key()), SessionSurcharge::NotFound);
    cache.put(key(), figure(10));
    assert_eq!(cache.get_individual_surcharge_detail(&key()), SessionSurcharge::Found(figure(10)));
    cache.put(key(), figure(20));
    assert_eq!(cache.get_individual_surcharge_detail(&key()), SessionSurcharge::Found(figure(20)));
    let other = SurchargeKey {
        payment_method_type: PaymentMethodType::Klarna,
        attempt_id: text("pay_1_2"),
    };
    assert_eq!(cache.get_individual_surcharge_detail(&other), SessionSurcharge::NotFound);
}

#[test]
fn reconciliation_errors_come_in_order() {
    let cache = SessionCache::new();
    // neither a payment method nor a token
    let mut asked = request();
    asked.payment_method = None;
    let mut store = store_with(
        intent(IntentStatus::RequiresConfirmation),
        attempt(AttemptStatus::ConfirmationAwaited),
    );
    assert_eq!(
        confirm(&mut store, &cache, &merchant(), &asked, inputs(1_700_000_100)),
        Err(ApiErrorResponse::PaymentMethodNotFound)
    );
    // a stored token stands in
    let mut with_token = attempt(AttemptStatus::ConfirmationAwaited);
    with_token.payment_token = Some(text("token_1"));
    let mut store = store_with(intent(IntentStatus::RequiresConfirmation), with_token);
    let data = confirm(&mut store, &cache, &merchant(), &asked, inputs(1_700_000_100)).unwrap();
    assert_eq!(data.token, Some(text("token_1")));
    // no currency on the attempt
    let mut no_currency = attempt(AttemptStatus::ConfirmationAwaited);
    no_currency.currency = None;
    let mut store = store_with(intent(IntentStatus::RequiresConfirmation), no_currency);
    assert_eq!(
        confirm(&mut store, &cache, &merchant(), &request(), inputs(1_700_000_100)),
        Err(ApiErrorResponse::MissingRequiredField { field_name: FieldName::Currency })
    );
    // future usage without a customer
    let mut asked = request();
    asked.setup_future_usage = Some(FutureUsage::OffSession);
    let mut store = store_with(
        intent(IntentStatus::RequiresConfirmation),
        attempt(AttemptStatus::ConfirmationAwaited),
    );
    assert_eq!(
        confirm(&mut store, &cache, &merchant(), &asked, inputs(1_700_000_100)),
        Err(ApiErrorResponse::InvalidRequestData { reason: RequestFault::CustomerIdRequired })
    );
    asked.customer_id = Some(text("cus_1"));
    assert!(confirm(&mut store, &cache, &merchant(), &asked, inputs(1_700_000_100)).is_ok());
    // no return address anywhere
    let mut nowhere = intent(IntentStatus::RequiresConfirmation);
    nowhere.return_url = None;
    let mut store = store_with(nowhere, attempt(AttemptStatus::ConfirmationAwaited));
    assert_eq!(
        confirm(&mut store, &cache, &merchant(), &request(), inputs(1_700_000_100)),
        Err(ApiErrorResponse::MissingRequiredField { field_name: FieldName::ReturnUrl })
    );
    let mut with_default = merchant();
    with_default.return_url = Some(text("https://shop.example/default"));
    let data = confirm(&mut store, &cache, &with_default, &request(), inputs(1_700_000_100)).unwrap();
    assert_eq!(data.payment_intent.return_url, Some(text("https://shop.example/default")));
}

#[test]
fn request_values_win_over_stored_ones() {
    let mut row = intent(IntentStatus::RequiresConfirmation);
    row.business_country = Some(CountryAlpha2::DE);
    row.business_label = Some(text("food"));
    row.metadata = Some(serde_json::Value::String(text("stored")));
    row.connector_metadata = Some(serde_json::Value::String(text("kept")));
    let mut tried = attempt(AttemptStatus::ConfirmationAwaited);
    tried.capture_method = Some(CaptureMethod::Automatic);
    tried.payment_experience = Some(PaymentExperience::RedirectToUrl);
    tried.business_sub_label = Some(text("old"));
    let mut store = store_with(row, tried);
    let cache = SessionCache::new();
    let mut asked = request();
    asked.metadata = Some(serde_json::Value::String(text("requested")));
    asked.order_details = Some(vec![serde_json::Value::Bool(true)]);
    asked.return_url = Some(text("https://shop.example/other"));
    asked.capture_method = Some(CaptureMethod::Manual);
    asked.business_sub_label = Some(text("new"));
    asked.browser_info = Some(serde_json::Value::String(text("browser")));
    asked.email = Some(text("a@example.com"));
    asked.confirm = Some(true);
    asked.merchant_connector_details = Some(MerchantConnectorDetailsWrap {
        creds_identifier: text("creds_1"),
        encoded_data: None,
    });
    let data = confirm(&mut store, &cache, &merchant(), &asked, inputs(1_700_000_100)).unwrap();
    assert_eq!(data.payment_intent.business_country, Some(CountryAlpha2::DE));
    assert_eq!(data.payment_intent.business_label, Some(text("food")));
    assert_eq!(data.payment_intent.metadata, Some(serde_json::Value::String(text("requested"))));
    assert_eq!(data.payment_intent.connector_metadata, Some(serde_json::Value::String(text("kept"))));
    assert_eq!(data.payment_intent.order_details, Some(vec![serde_json::Value::Bool(true)]));
    assert_eq!(data.payment_intent.return_url, Some(text("https://shop.example/other")));
    // the change to the attempt carries no capture method: the store keeps its own
    assert_eq!(data.payment_attempt.capture_method, Some(CaptureMethod::Automatic));
    assert_eq!(data.payment_attempt.payment_experience, Some(PaymentExperience::RedirectToUrl));
    assert_eq!(data.payment_attempt.business_sub_label, Some(text("new")));
    assert_eq!(data.payment_attempt.browser_info, Some(serde_json::Value::String(text("browser"))));
    assert_eq!(data.email, Some(text("a@example.com")));
    assert_eq!(data.confirm, Some(true));
    assert_eq!(data.creds_identifier, Some(text("creds_1")));
}

#[test]
fn reconciled_attempt_takes_the_request_capture_method() {
    let mut tried = attempt(AttemptStatus::ConfirmationAwaited);
    tried.capture_method = Some(CaptureMethod::Automatic);
    tried.payment_experience = Some(PaymentExperience::RedirectToUrl);
    let mut asked = request();
    asked.capture_method = Some(CaptureMethod::Manual);
    let reconciled = PaymentConfirm::reconcile_attempt(&asked, tried, &no_mandate());
    assert_eq!(reconciled.capture_method, Some(CaptureMethod::Manual));
    assert_eq!(reconciled.payment_experience, Some(PaymentExperience::RedirectToUrl));
    assert_eq!(reconciled.payment_method, Some(PaymentMethod::Card));
    let (data, customer) = PaymentConfirm
        .get_trackers(
            &asked,
            None,
            &merchant(),
            intent(IntentStatus::RequiresConfirmation),
            attempt(AttemptStatus::ConfirmationAwaited),
            no_mandate(),
            None,
            None,
            SessionSurcharge::NotFound,
            1_700_000_100,
        )
        .unwrap();
    assert_eq!(data.payment_attempt.capture_method, Some(CaptureMethod::Manual));
    assert_eq!(data.payment_attempt.status, AttemptStatus::ConfirmationAwaited);
    assert_eq!(data.payment_intent.status, IntentStatus::RequiresConfirmation);
    assert_eq!(customer.customer_id, None);
}

#[test]
fn recurring_mandate_pays_with_the_stored_method() {
    let cache = SessionCache::new();
    let mut asked = request();
    asked.payment_method = None;
    asked.mandate_id = Some(text("man_1"));
    let mut store = store_with(
        intent(IntentStatus::RequiresConfirmation),
        attempt(AttemptStatus::ConfirmationAwaited),
    );
    assert_eq!(
        confirm(&mut store, &cache, &merchant(), &asked, inputs(1_700_000_100)),
        Err(ApiErrorResponse::MandateNotFound)
    );
    assert_eq!(stored_intent(&store), intent(IntentStatus::RequiresConfirmation));
    let mut given = inputs(1_700_000_100);
    given.stored_mandate = Some(StoredMandate {
        mandate_id: text("man_1"),
        customer_id: text("cus_1"),
        payment_method: PaymentMethod::BankDebit,
        payment_method_type: Some(PaymentMethodType::Sepa),
        connector: text("adyen"),
        payment_token: None,
    });
    let data = confirm(&mut store, &cache, &merchant(), &asked, given).unwrap();
    assert_eq!(data.payment_attempt.payment_method, Some(PaymentMethod::BankDebit));
    assert_eq!(data.payment_attempt.payment_method_type, Some(PaymentMethodType::Sepa));
    assert_eq!(data.mandate_connector, Some(text("adyen")));
    assert_eq!(
        data.recurring_mandate_payment_data,
        Some(RecurringMandatePaymentData { payment_method_type: Some(PaymentMethodType::Sepa) })
    );
    assert_eq!(data.setup_mandate, None);
}

#[test]
fn new_mandate_takes_the_kind_that_the_attempt_stores() {
    let cache = SessionCache::new();
    let mut asked = request();
    asked.mandate_data = Some(MandateData {
        customer_accepted: true,
        mandate_type: Some(MandateDataType::MultiUse(None)),
    });
    let single = MandateDataType::SingleUse(MandateAmountData { amount: 1000, currency: Currency::USD });
    let mut row = attempt(AttemptStatus::ConfirmationAwaited);
    row.mandate_details = Some(single);
    let mut store = store_with(intent(IntentStatus::RequiresConfirmation), row);
    let data = confirm(&mut store, &cache, &merchant(), &asked, inputs(1_700_000_100)).unwrap();
    assert_eq!(
        data.setup_mandate,
        Some(MandateData { customer_accepted: true, mandate_type: Some(single) })
    );
}

#[test]
fn customer_is_changed_only_where_asked() {
    let cache = SessionCache::new();
    let customer = Customer {
        customer_id: text("cus_1"),
        merchant_id: text("merchant_1"),
        name: None,
        email: None,
        phone: None,
        connector_customer: None,
    };
    let change = || CustomerUpdate {
        connector_customer: Some(serde_json::Value::String(text("cus_at_connector"))),
    };
    // the customer is not in the store: the write fails, the others stay written
    let mut store = store_with(
        intent(IntentStatus::RequiresConfirmation),
        attempt(AttemptStatus::ConfirmationAwaited),
    );
    let mut given = inputs(1_700_000_100);
    given.customer = Some(customer.clone());
    given.updated_customer = Some(change());
    assert_eq!(
        confirm(&mut store, &cache, &merchant(), &request(), given),
        Err(ApiErrorResponse::InternalServerError)
    );
    assert_eq!(stored_intent(&store).status, IntentStatus::Processing);
    assert_eq!(stored_intent(&store).customer_id, Some(text("cus_1")));
    // the customer is in the store
    let mut store = store_with(
        intent(IntentStatus::RequiresConfirmation),
        attempt(AttemptStatus::ConfirmationAwaited),
    );
    assert_eq!(store.insert_customer(customer.clone()), Ok(()));
    let mut given = inputs(1_700_000_100);
    given.customer = Some(customer.clone());
    given.updated_customer = Some(change());
    assert!(confirm(&mut store, &cache, &merchant(), &request(), given).is_ok());
    assert_eq!(
        store
            .find_customer_by_customer_id_merchant_id(&text("cus_1"), &text("merchant_1"))
            .unwrap()
            .connector_customer,
        Some(serde_json::Value::String(text("cus_at_connector")))
    );
    // no change asked for
    let mut store = store_with(
        intent(IntentStatus::RequiresConfirmation),
        attempt(AttemptStatus::ConfirmationAwaited),
    );
    assert_eq!(store.insert_customer(customer.clone()), Ok(()));
    let mut given = inputs(1_700_000_100);
    given.customer = Some(customer.clone());
    assert!(confirm(&mut store, &cache, &merchant(), &request(), given).is_ok());
    assert_eq!(
        store.find_customer_by_customer_id_merchant_id(&text("cus_1"), &text("merchant_1")),
        Some(customer)
    );
}

#[test]
fn a_row_changed_underneath_is_not_found() {
    let mut store = store_with(
        intent(IntentStatus::RequiresConfirmation),
        attempt(AttemptStatus::ConfirmationAwaited),
    );
    let mut stale = attempt(AttemptStatus::ConfirmationAwaited);
    stale.modified_at = 1_600_000_000;
    let change = PaymentAttemptUpdate {
        amount: 1000,
        currency: Currency::USD,
        status: AttemptStatus::Pending,
        authentication_type: None,
        payment_method: None,
        browser_info: None,
        connector: None,
        payment_token: None,
        payment_method_data: None,
        payment_method_type: None,
        payment_experience: None,
        business_sub_label: None,
        straight_through_algorithm: None,
        error_code: None,
        error_message: None,
        amount_capturable: None,
        updated_by: text("redis_kv"),
        merchant_connector_id: None,
    };
    assert_eq!(
        store.update_payment_attempt_with_attempt_id(&stale, change.clone(), 1_700_000_100),
        None
    );
    assert_eq!(
        stored_attempt(&store, "pay_1_1"),
        Some(attempt(AttemptStatus::ConfirmationAwaited))
    );
    let fresh = attempt(AttemptStatus::ConfirmationAwaited);
    let updated = store
        .update_payment_attempt_with_attempt_id(&fresh, change.clone(), 1_700_000_100)
        .unwrap();
    assert_eq!(updated.status, AttemptStatus::Pending);
    assert_eq!(updated.modified_at, 1_700_000_100);
    assert_eq!(updated.updated_by, "redis_kv");
    // the second writer lost the race
    assert_eq!(store.update_payment_attempt_with_attempt_id(&fresh, change, 1_700_000_200), None);
    let mut gone = attempt(AttemptStatus::ConfirmationAwaited);
    gone.attempt_id = text("pay_1_7");
    let status_change = PaymentIntentUpdate::StatusAndAttemptUpdate(StatusAndAttemptUpdate {
        status: IntentStatus::RequiresPaymentMethod,
        active_attempt_id: text("pay_1_7"),
        attempt_count: 7,
        updated_by: text("postgres_only"),
    });
    let mut other = intent(IntentStatus::RequiresConfirmation);
    other.payment_id = text("pay_2");
    assert_eq!(store.update_payment_intent(&other, status_change, 1_700_000_100), None);
}

#[test]
fn stale_aggregate_fails_the_write_with_not_found() {
    let mut store = store_with(
        intent(IntentStatus::RequiresConfirmation),
        attempt(AttemptStatus::ConfirmationAwaited),
    );
    let operation = PaymentConfirm;
    let mut stale_intent = intent(IntentStatus::RequiresConfirmation);
    stale_intent.modified_at = 1;
    let (data, _) = operation
        .get_trackers(
            &request(),
            None,
            &merchant(),
            stale_intent,
            attempt(AttemptStatus::ConfirmationAwaited),
            no_mandate(),
            None,
            None,
            SessionSurcharge::NotFound,
            1_700_000_100,
        )
        .unwrap();
    let plan = operation.update_trackers(
        &data,
        None,
        MerchantStorageScheme::PostgresOnly,
        None,
        None,
        HeaderPayload { payment_confirm_source: None },
        None,
    );
    assert_eq!(persist(&mut store, data, plan, 1_700_000_100), Err(ApiErrorResponse::PaymentNotFound));
    // the attempt's change was written all the same
    assert_eq!(stored_attempt(&store, "pay_1_1").unwrap().status, AttemptStatus::Pending);
    assert_eq!(stored_intent(&store).status, IntentStatus::RequiresConfirmation);
}

#[test]
fn rows_are_not_added_twice() {
    let mut store = store_with(
        intent(IntentStatus::RequiresConfirmation),
        attempt(AttemptStatus::ConfirmationAwaited),
    );
    assert_eq!(
        store.insert_payment_intent(intent(IntentStatus::Failed)),
        Err(StorageError::DuplicateValue)
    );
    assert_eq!(
        store.insert_payment_attempt(attempt(AttemptStatus::Failure)),
        Err(StorageError::DuplicateValue)
    );
    assert_eq!(stored_intent(&store).status, IntentStatus::RequiresConfirmation);
    let mut second = attempt(AttemptStatus::Failure);
    second.attempt_id = text("pay_1_2");
    assert_eq!(store.insert_payment_attempt(second.clone()), Ok(()));
    assert_eq!(stored_attempt(&store, "pay_1_2"), Some(second));
    assert_eq!(
        store.find_payment_intent_by_payment_id_merchant_id(&text("pay_1"), &text("merchant_2")),
        None
    );
    assert_eq!(
        store.update_customer_by_customer_id_merchant_id(
            &text("cus_9"),
            &text("merchant_1"),
            CustomerUpdate { connector_customer: None }
        ),
        None
    );
}

#[test]
fn connector_credentials_of_the_request_are_kept() {
    let mut store = store_with(
        intent(IntentStatus::RequiresConfirmation),
        attempt(AttemptStatus::ConfirmationAwaited),
    );
    let cache = SessionCache::new();
    let mut asked = request();
    asked.merchant_connector_details = Some(MerchantConnectorDetailsWrap {
        creds_identifier: text("creds_1"),
        encoded_data: Some(serde_json::Value::String(text("first"))),
    });
    let found = |store: &MemoryStore| {
        store.find_merchant_connector_creds(&text("merchant_1"), &text("creds_1"))
    };
    assert_eq!(found(&store), None);
    assert!(confirm(&mut store, &cache, &merchant(), &asked, inputs(1_700_000_100)).is_ok());
    let kept = ConnectorCredentials {
        merchant_id: text("merchant_1"),
        creds_identifier: text("creds_1"),
        encoded_data: Some(serde_json::Value::String(text("first"))),
    };
    assert_eq!(found(&store), Some(kept.clone()));
    // credentials that are kept stay as they are
    store.insert_merchant_connector_creds_to_config(
        &text("merchant_1"),
        MerchantConnectorDetailsWrap {
            creds_identifier: text("creds_1"),
            encoded_data: Some(serde_json::Value::String(text("second"))),
        },
    );
    assert_eq!(found(&store), Some(kept));
}

#[test]
fn invalid_request_never_reaches_the_store() {
    let mut store = store_with(
        intent(IntentStatus::RequiresConfirmation),
        attempt(AttemptStatus::ConfirmationAwaited),
    );
    let cache = SessionCache::new();
    let mut asked = request();
    asked.merchant_id = Some(text("merchant_2"));
    assert_eq!(
        confirm(&mut store, &cache, &merchant(), &asked, inputs(1_700_000_100)),
        Err(ApiErrorResponse::ValidationError(ValidationFailure::MerchantIdMismatch))
    );
    assert_eq!(stored_intent(&store), intent(IntentStatus::RequiresConfirmation));
}

#[test]
fn connector_is_chosen_by_the_request_routing() {
    let operation = PaymentConfirm;
    assert_eq!(operation.get_connector(&request()), ConnectorChoice::Decide);
    let mut asked = request();
    asked.routing = Some(serde_json::Value::String(text("stripe")));
    assert_eq!(
        operation.get_connector(&asked),
        ConnectorChoice::StraightThrough(serde_json::Value::String(text("stripe")))
    );
}

#[test]
fn payment_method_data_comes_from_the_request_or_the_token() {
    let operation = PaymentConfirm;
    let build = |asked: &PaymentsRequest| {
        PaymentConfirm
            .get_trackers(
                asked,
                None,
                &merchant(),
                intent(IntentStatus::RequiresConfirmation),
                attempt(AttemptStatus::ConfirmationAwaited),
                no_mandate(),
                None,
                None,
                SessionSurcharge::NotFound,
                1_700_000_100,
            )
            .unwrap()
            .0
    };
    let mut data = build(&request());
    assert_eq!(operation.make_pm_data(&mut data, None), Err(ApiErrorResponse::PaymentMethodNotFound));
    assert_eq!(data.payment_method_data, None);
    assert_eq!(
        operation.make_pm_data(&mut data, Some(PaymentMethodData::Card(card()))),
        Ok(PaymentMethodData::Card(card()))
    );
    assert_eq!(data.payment_method_data, Some(PaymentMethodData::Card(card())));
    let mut asked = request();
    asked.payment_method = Some(PaymentMethod::Wallet);
    asked.payment_method_type = Some(PaymentMethodType::GooglePay);
    asked.payment_method_data = Some(PaymentMethodData::Wallet(WalletData::GooglePay));
    let mut data = build(&asked);
    assert_eq!(
        operation.make_pm_data(&mut data, Some(PaymentMethodData::Card(card()))),
        Ok(PaymentMethodData::Wallet(WalletData::GooglePay))
    );
}

#[test]
fn customer_is_added_kept_or_brought_up_to_date() {
    let operation = PaymentConfirm;
    let build = || {
        PaymentConfirm
            .get_trackers(
                &request(),
                None,
                &merchant(),
                intent(IntentStatus::RequiresConfirmation),
                attempt(AttemptStatus::ConfirmationAwaited),
                no_mandate(),
                None,
                None,
                SessionSurcharge::NotFound,
                1_700_000_100,
            )
            .unwrap()
            .0
    };
    let details = |email: Option<&str>| CustomerDetails {
        customer_id: Some(text("cus_1")),
        name: None,
        email: email.map(text),
        phone: None,
        phone_country_code: None,
    };
    let stored = Customer {
        customer_id: text("cus_1"),
        merchant_id: text("merchant_1"),
        name: Some(text("A Holder")),
        email: Some(text("old@example.com")),
        phone: None,
        connector_customer: None,
    };
    let mut data = build();
    assert_eq!(PaymentConfirm::customer_to_fetch(&data, &None), None);
    assert_eq!(
        operation.get_or_create_customer_details(&mut data, &None, None, &text("merchant_1")),
        CustomerAction::Nothing
    );
    assert_eq!(data.payment_intent.customer_id, None);
    assert_eq!(
        PaymentConfirm::customer_to_fetch(&data, &Some(details(None))),
        Some(text("cus_1"))
    );
    let added = operation.get_or_create_customer_details(
        &mut data,
        &Some(details(Some("new@example.com"))),
        None,
        &text("merchant_1"),
    );
    assert_eq!(
        added,
        CustomerAction::Insert(Customer {
            customer_id: text("cus_1"),
            merchant_id: text("merchant_1"),
            name: None,
            email: Some(text("new@example.com")),
            phone: None,
            connector_customer: None,
        })
    );
    assert_eq!(data.payment_intent.customer_id, Some(text("cus_1")));
    assert_eq!(data.email, Some(text("new@example.com")));
    let mut data = build();
    assert_eq!(
        operation.get_or_create_customer_details(
            &mut data,
            &Some(details(None)),
            Some(stored.clone()),
            &text("merchant_1")
        ),
        CustomerAction::Keep(stored.clone())
    );
    assert_eq!(data.email, Some(text("old@example.com")));
    let mut data = build();
    let mut renewed = stored.clone();
    renewed.email = Some(text("new@example.com"));
    assert_eq!(
        operation.get_or_create_customer_details(
            &mut data,
            &Some(details(Some("new@example.com"))),
            Some(stored),
            &text("merchant_1")
        ),
        CustomerAction::Update(renewed)
    );
}

#[test]
fn resource_plan_names_what_to_fetch() {
    let mut row = intent(IntentStatus::RequiresConfirmation);
    row.shipping_address_id = Some(text("add_1"));
    row.customer_id = Some(text("cus_1"));
    let mut asked = request();
    asked.customer_id = Some(text("cus_2"));
    asked.billing = Some(AddressDetails {
        line1: None,
        city: Some(text("Springfield")),
        state: None,
        zip: None,
        country: None,
        first_name: None,
        last_name: None,
        phone_number: None,
    });
    let plan = plan_resources(&asked, &merchant(), &row, 1_700_000_100).unwrap();
    assert_eq!(plan.payment_id, "pay_1");
    assert_eq!(plan.merchant_id, "merchant_1");
    assert_eq!(plan.attempt_id, "pay_1_1");
    assert_eq!(plan.shipping, AddressAction::Find { address_id: text("add_1") });
    assert_eq!(plan.billing, AddressAction::Create { details: asked.billing.clone().unwrap() });
    assert_eq!(plan.customer_id, Some(text("cus_1")));
    assert_eq!(plan.connector_credentials, None);
    assert_eq!(
        get_payment_intent_id(&PaymentIdType::PaymentAttemptId(text("pay_1_1"))),
        Err(ApiErrorResponse::PaymentNotFound)
    );
    assert_eq!(
        get_payment_intent_id(&PaymentIdType::PaymentIntentId(text("pay_1"))),
        Ok(text("pay_1"))
    );
}
