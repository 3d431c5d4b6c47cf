use router::enums::{
    AttemptStatus, Currency, IntentStatus, MandateTransactionType, MerchantStorageScheme,
    PaymentMethod, PaymentMethodType, RetryAction,
};
use router::errors::{ApiErrorResponse, ErrorClass, FieldName, RequestFault, ValidationFailure};
use router::helpers::get_customer_details_from_request;
use router::payment_confirm::PaymentConfirm;
use router::payment_data::{CustomerDetails, MandateResolution};
use router::request::{
    Card, MandateData, PaymentIdType, PaymentMethodData, PaymentsRequest, RequestCustomer,
};
use router::storage::{MerchantAccount, PaymentAttempt, PaymentIntent};
use router::validator::{
    is_valid_card_month, is_well_formed_id, validate_card_data, validate_mandate, ValidateResult,
};

#[allow(dead_code)]
fn text(value: &str) -> String {
    value.to_string()
}

#[allow(dead_code)]
fn merchant() -> MerchantAccount {
    MerchantAccount {
        merchant_id: text("merchant_1"),
        storage_scheme: MerchantStorageScheme::PostgresOnly,
        return_url: None,
        intent_fulfillment_time: None,
        publishable_key: Some(text("pk_test_1")),
        merchant_name: Some(text("Shop")),
    }
}

#[allow(dead_code)]
fn intent(status: IntentStatus) -> PaymentIntent {
    PaymentIntent {
        payment_id: text("pay_1"),
        merchant_id: text("merchant_1"),
        status,
        amount: 1000,
        currency: Some(Currency::USD),
        customer_id: None,
        description: None,
        return_url: Some(text("https://shop.example/return")),
        business_country: None,
        business_label: None,
        metadata: None,
        statement_descriptor_name: None,
        statement_descriptor_suffix: None,
        created_at: 1_700_000_000,
        modified_at: 1_700_000_000,
        setup_future_usage: None,
        client_secret: Some(text("pay_1_secret_abc")),
        active_attempt_id: text("pay_1_1"),
        attempt_count: 1,
        order_details: None,
        allowed_payment_method_types: None,
        connector_metadata: None,
        feature_metadata: None,
        shipping_address_id: None,
        billing_address_id: None,
        payment_link_id: None,
        payment_confirm_source: None,
        updated_by: text("postgres_only"),
    }
}

#[allow(dead_code)]
fn attempt(status: AttemptStatus) -> PaymentAttempt {
    PaymentAttempt {
        payment_id: text("pay_1"),
        merchant_id: text("merchant_1"),
        attempt_id: text("pay_1_1"),
        status,
        amount: 1000,
        currency: Some(Currency::USD),
        surcharge_amount: None,
        tax_amount: None,
        payment_method: None,
        payment_method_type: None,
        payment_experience: None,
        capture_method: None,
        authentication_type: None,
        connector: None,
        merchant_connector_id: None,
        browser_info: None,
        payment_token: None,
        payment_method_data: None,
        mandate_id: None,
        mandate_details: None,
        business_sub_label: None,
        straight_through_algorithm: None,
        error_code: None,
        error_message: None,
        amount_capturable: 0,
        created_at: 1_700_000_000,
        modified_at: 1_700_000_000,
        updated_by: text("postgres_only"),
    }
}

#[allow(dead_code)]
fn request() -> PaymentsRequest {
    PaymentsRequest {
        payment_id: Some(PaymentIdType::PaymentIntentId(text("pay_1"))),
        payment_method: Some(PaymentMethod::Card),
        ..PaymentsRequest::default()
    }
}

#[allow(dead_code)]
fn card() -> Card {
    Card {
        card_number: text("4242424242424242"),
        card_exp_month: text("10"),
        card_exp_year: text("30"),
        card_holder_name: Some(text("A Holder")),
        card_cvc: text("123"),
    }
}

#[allow(dead_code)]
fn no_mandate() -> MandateResolution {
    MandateResolution {
        token: None,
        payment_method: Some(PaymentMethod::Card),
        payment_method_type: None,
        setup_mandate: None,
        recurring_mandate_payment_data: None,
        mandate_connector: None,
    }
}

fn validate(asked: &PaymentsRequest) -> Result<ValidateResult, ApiErrorResponse> {
    PaymentConfirm.validate_request(asked, &merchant(), text("pay_generated"))
}

fn failure(kind: ValidationFailure) -> Result<ValidateResult, ApiErrorResponse> {
    Err(ApiErrorResponse::ValidationError(kind))
}

#[test]
fn valid_request_is_normalised() {
    assert_eq!(
        validate(&request()),
        Ok(ValidateResult {
            merchant_id: text("merchant_1"),
            payment_id: PaymentIdType::PaymentIntentId(text("pay_1")),
            mandate_type: None,
            storage_scheme: MerchantStorageScheme::PostgresOnly,
            requeue: false,
        })
    );
}

#[test]
fn missing_identifier_is_generated() {
    let mut asked = request();
    asked.payment_id = None;
    let validated = validate(&asked).unwrap();
    assert_eq!(validated.payment_id, PaymentIdType::PaymentIntentId(text("pay_generated")));
    // a generated identifier is held to the same form
    assert_eq!(
        PaymentConfirm.validate_request(&asked, &merchant(), text("pay generated")),
        failure(ValidationFailure::MalformedIdentifier)
    );
    // a given identifier makes the generated one irrelevant
    assert!(PaymentConfirm.validate_request(&request(), &merchant(), text("")).is_ok());
}

#[test]
fn malformed_identifiers_are_turned_away() {
    let with_id = |id: PaymentIdType| {
        let mut asked = request();
        asked.payment_id = Some(id);
        asked
    };
    let malformed = failure(ValidationFailure::MalformedIdentifier);
    assert_eq!(validate(&with_id(PaymentIdType::PaymentIntentId(text("")))), malformed);
    assert_eq!(validate(&with_id(PaymentIdType::PaymentIntentId(text("pay 1")))), malformed);
    assert_eq!(validate(&with_id(PaymentIdType::PaymentIntentId(text("pay/1")))), malformed);
    assert_eq!(validate(&with_id(PaymentIdType::PaymentIntentId(text("p\u{e4}y_1")))), malformed);
    assert_eq!(validate(&with_id(PaymentIdType::PaymentAttemptId(text("pay_1_1")))), malformed);
    assert_eq!(validate(&with_id(PaymentIdType::ConnectorTransactionId(text("txn_1")))), malformed);
    assert_eq!(validate(&with_id(PaymentIdType::PreprocessingId(text("pre_1")))), malformed);
    let longest = "a".repeat(64);
    let too_long = "a".repeat(65);
    assert!(validate(&with_id(PaymentIdType::PaymentIntentId(longest))).is_ok());
    assert_eq!(validate(&with_id(PaymentIdType::PaymentIntentId(too_long))), malformed);
    assert!(validate(&with_id(PaymentIdType::PaymentIntentId(text("Pay-1_aZ09")))).is_ok());
}

#[test]
fn identifier_form() {
    assert!(is_well_formed_id("pay_1"));
    assert!(is_well_formed_id("A"));
    assert!(is_well_formed_id("-"));
    assert!(!is_well_formed_id(""));
    assert!(!is_well_formed_id("pay.1"));
    assert!(!is_well_formed_id("pay_1\n"));
    assert!(!is_well_formed_id("{pay}"));
    assert!(!is_well_formed_id("pay@1"));
    assert!(!is_well_formed_id("pay[1"));
    assert!(!is_well_formed_id("pay`1"));
    assert!(!is_well_formed_id("pay:1"));
    assert!(!is_well_formed_id("pay/1"));
}

#[test]
fn conflicting_customer_fields_are_turned_away() {
    let conflict = failure(ValidationFailure::ConflictingCustomerFields);
    let customer = || RequestCustomer {
        id: text("cus_1"),
        name: Some(text("A Holder")),
        email: Some(text("a@example.com")),
        phone: None,
        phone_country_code: Some(text("+1")),
    };
    let mut asked = request();
    asked.customer = Some(customer());
    assert!(validate(&asked).is_ok());
    asked.customer_id = Some(text("cus_1"));
    asked.email = Some(text("a@example.com"));
    asked.phone = Some(text("555"));
    assert!(validate(&asked).is_ok());
    asked.customer_id = Some(text("cus_2"));
    assert_eq!(validate(&asked), conflict);
    asked.customer_id = None;
    asked.email = Some(text("b@example.com"));
    assert_eq!(validate(&asked), conflict);
    asked.email = None;
    asked.name = Some(text("B Holder"));
    assert_eq!(validate(&asked), conflict);
    asked.name = None;
    asked.phone_country_code = Some(text("+44"));
    assert_eq!(validate(&asked), conflict);
    asked.phone_country_code = None;
    let mut with_phone = customer();
    with_phone.phone = Some(text("556"));
    asked.customer = Some(with_phone);
    assert_eq!(validate(&asked), conflict);
    // without a customer object nothing can conflict
    asked.customer = None;
    asked.customer_id = Some(text("cus_2"));
    assert!(validate(&asked).is_ok());
}

#[test]
fn merchant_must_be_the_caller() {
    let mut asked = request();
    asked.merchant_id = Some(text("merchant_1"));
    assert!(validate(&asked).is_ok());
    asked.merchant_id = Some(text("merchant_2"));
    assert_eq!(validate(&asked), failure(ValidationFailure::MerchantIdMismatch));
}

#[test]
fn payment_method_fields_must_be_complete() {
    let missing = failure(ValidationFailure::MissingPaymentMethodFields);
    let mut asked = request();
    asked.payment_method = None;
    assert!(validate(&asked).is_ok());
    asked.payment_method_data = Some(PaymentMethodData::Card(card()));
    assert_eq!(validate(&asked), missing);
    asked.payment_method = Some(PaymentMethod::Card);
    assert!(validate(&asked).is_ok());
    asked.payment_method_data = None;
    asked.payment_method = None;
    asked.payment_method_type = Some(PaymentMethodType::Credit);
    assert_eq!(validate(&asked), missing);
    asked.payment_method = Some(PaymentMethod::Wallet);
    asked.payment_method_type = None;
    assert_eq!(validate(&asked), missing);
    asked.payment_method_type = Some(PaymentMethodType::ApplePay);
    assert!(validate(&asked).is_ok());
}

#[test]
fn card_data_must_have_the_shape_of_a_card() {
    assert!(validate_card_data(&card()));
    let with = |change: fn(&mut Card)| {
        let mut changed = card();
        change(&mut changed);
        validate_card_data(&changed)
    };
    assert!(!with(|c| c.card_number = String::new()));
    assert!(!with(|c| c.card_number = "4242 4242".to_string()));
    assert!(!with(|c| c.card_number = "42424242424242424242".to_string()));
    assert!(with(|c| c.card_number = "4242424242424242424".to_string()));
    assert!(with(|c| c.card_exp_month = "1".to_string()));
    assert!(with(|c| c.card_exp_month = "01".to_string()));
    assert!(with(|c| c.card_exp_month = "12".to_string()));
    assert!(!with(|c| c.card_exp_month = "13".to_string()));
    assert!(!with(|c| c.card_exp_month = "0".to_string()));
    assert!(!with(|c| c.card_exp_month = "00".to_string()));
    assert!(!with(|c| c.card_exp_month = "010".to_string()));
    assert!(!with(|c| c.card_exp_month = String::new()));
    assert!(!with(|c| c.card_exp_month = "1a".to_string()));
    assert!(with(|c| c.card_exp_year = "2030".to_string()));
    assert!(!with(|c| c.card_exp_year = "203".to_string()));
    assert!(!with(|c| c.card_exp_year = "3o".to_string()));
    assert!(with(|c| c.card_cvc = "1234".to_string()));
    assert!(!with(|c| c.card_cvc = "12".to_string()));
    assert!(!with(|c| c.card_cvc = "12345".to_string()));
    assert!(!with(|c| c.card_cvc = "12x".to_string()));
    assert!(is_valid_card_month("9"));
    assert!(!is_valid_card_month("\u{663}"));
    let mut asked = request();
    let mut bad = card();
    bad.card_cvc = text("1");
    asked.payment_method_data = Some(PaymentMethodData::Card(bad));
    assert_eq!(validate(&asked), failure(ValidationFailure::MissingPaymentMethodFields));
}

#[test]
fn mandate_type_is_derived() {
    let mut asked = request();
    assert_eq!(validate_mandate(&asked), None);
    asked.mandate_id = Some(text("man_1"));
    assert_eq!(
        validate(&asked).unwrap().mandate_type,
        Some(MandateTransactionType::RecurringMandateTransaction)
    );
    asked.mandate_data = Some(MandateData { customer_accepted: true, mandate_type: None });
    assert_eq!(
        validate(&asked).unwrap().mandate_type,
        Some(MandateTransactionType::NewMandateTransaction)
    );
}

#[test]
fn requeue_is_taken_from_the_retry_action() {
    let mut asked = request();
    asked.retry_action = Some(RetryAction::Requeue);
    assert!(validate(&asked).unwrap().requeue);
    asked.retry_action = Some(RetryAction::ManualRetry);
    assert!(!validate(&asked).unwrap().requeue);
}

#[test]
fn first_fault_wins() {
    let mut asked = request();
    asked.customer = Some(RequestCustomer {
        id: text("cus_1"),
        name: None,
        email: None,
        phone: None,
        phone_country_code: None,
    });
    asked.customer_id = Some(text("cus_2"));
    asked.payment_id = Some(PaymentIdType::PaymentAttemptId(text("pay_1_1")));
    asked.merchant_id = Some(text("merchant_2"));
    asked.payment_method = None;
    asked.payment_method_type = Some(PaymentMethodType::Credit);
    assert_eq!(validate(&asked), failure(ValidationFailure::ConflictingCustomerFields));
    asked.customer_id = None;
    assert_eq!(validate(&asked), failure(ValidationFailure::MalformedIdentifier));
    asked.payment_id = Some(PaymentIdType::PaymentIntentId(text("pay 1")));
    assert_eq!(validate(&asked), failure(ValidationFailure::MerchantIdMismatch));
    asked.merchant_id = None;
    assert_eq!(validate(&asked), failure(ValidationFailure::MissingPaymentMethodFields));
    asked.payment_method_type = None;
    assert_eq!(validate(&asked), failure(ValidationFailure::MalformedIdentifier));
}

#[test]
fn customer_details_prefer_the_customer_object() {
    let mut asked = request();
    asked.customer_id = Some(text("cus_1"));
    asked.email = Some(text("a@example.com"));
    assert_eq!(
        get_customer_details_from_request(&asked),
        CustomerDetails {
            customer_id: Some(text("cus_1")),
            name: None,
            email: Some(text("a@example.com")),
            phone: None,
            phone_country_code: None,
        }
    );
    asked.customer = Some(RequestCustomer {
        id: text("cus_1"),
        name: Some(text("A Holder")),
        email: None,
        phone: None,
        phone_country_code: None,
    });
    asked.customer_id = None;
    assert_eq!(
        get_customer_details_from_request(&asked),
        CustomerDetails {
            customer_id: Some(text("cus_1")),
            name: Some(text("A Holder")),
            email: Some(text("a@example.com")),
            phone: None,
            phone_country_code: None,
        }
    );
}

#[test]
fn errors_fall_into_families() {
    assert_eq!(
        ApiErrorResponse::ValidationError(ValidationFailure::MalformedIdentifier).class(),
        ErrorClass::ValidationError
    );
    assert_eq!(ApiErrorResponse::InvalidState.class(), ErrorClass::InvalidState);
    assert_eq!(ApiErrorResponse::ClientSecretExpired.class(), ErrorClass::InvalidRequestData);
    assert_eq!(ApiErrorResponse::PaymentNotFound.class(), ErrorClass::NotFound);
    assert_eq!(ApiErrorResponse::PaymentLinkNotFound.class(), ErrorClass::NotFound);
    assert_eq!(ApiErrorResponse::PaymentMethodNotFound.class(), ErrorClass::NotFound);
    assert_eq!(ApiErrorResponse::MandateNotFound.class(), ErrorClass::NotFound);
    assert_eq!(ApiErrorResponse::AddressNotFound.class(), ErrorClass::NotFound);
    assert_eq!(
        ApiErrorResponse::MissingRequiredField { field_name: FieldName::ReturnUrl }.class(),
        ErrorClass::MissingOrInvalidField
    );
    assert_eq!(
        ApiErrorResponse::InvalidDataValue { field_name: FieldName::PaymentLinkConfig }.class(),
        ErrorClass::MissingOrInvalidField
    );
    assert_eq!(
        ApiErrorResponse::InvalidRequestData { reason: RequestFault::SurchargeMismatch }.class(),
        ErrorClass::InvalidRequestData
    );
    assert_eq!(
        ApiErrorResponse::InvalidRequestData { reason: RequestFault::AmountOutOfRange }.class(),
        ErrorClass::InvalidRequestData
    );
    assert_eq!(ApiErrorResponse::InternalServerError.class(), ErrorClass::InternalError);
}
