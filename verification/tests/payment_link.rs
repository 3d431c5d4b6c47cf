use router::enums::{
    AttemptStatus, Currency, IntentStatus, MerchantStorageScheme, PaymentMethod,
};
use router::errors::{ApiErrorResponse, FieldName};
use router::helpers::resolve_return_url;
use router::payment_data::MandateResolution;
use router::payment_link::{
    get_color_scheme_css, get_js_script, get_payment_link_id, intiate_payment_link_flow,
    payment_link_form, retrieve_payment_link, validate_order_details, validate_sdk_requirements,
    OrderDetailsWithAmount, PaymentLinkColorSchema, PaymentLinkConfig, PaymentLinkConfigInput,
    PaymentLinkDetails, PaymentLinkFormData, RetrievePaymentLinkResponse,
};
use router::request::{Card, PaymentIdType, PaymentsRequest};
use router::storage::{MerchantAccount, PaymentAttempt, PaymentIntent, PaymentLink};

#[allow(dead_code)]
fn text(value: &str) -> String {
    value.to_string()
}

#[allow(dead_code)]
fn merchant() -> MerchantAccount {
    MerchantAccount {
        merchant_id: text("merchant_1"),
        storage_scheme: MerchantStorageScheme::PostgresOnly,
        return_url: None,
        intent_fulfillment_time: None,
        publishable_key: Some(text("pk_test_1")),
        merchant_name: Some(text("Shop")),
    }
}

#[allow(dead_code)]
fn intent(status: IntentStatus) -> PaymentIntent {
    PaymentIntent {
        payment_id: text("pay_1"),
        merchant_id: text("merchant_1"),
        status,
        amount: 1000,
        currency: Some(Currency::USD),
        customer_id: None,
        description: None,
        return_url: Some(text("https://shop.example/return")),
        business_country: None,
        business_label: None,
        metadata: None,
        statement_descriptor_name: None,
        statement_descriptor_suffix: None,
        created_at: 1_700_000_000,
        modified_at: 1_700_000_000,
        setup_future_usage: None,
        client_secret: Some(text("pay_1_secret_abc")),
        active_attempt_id: text("pay_1_1"),
        attempt_count: 1,
        order_details: None,
        allowed_payment_method_types: None,
        connector_metadata: None,
        feature_metadata: None,
        shipping_address_id: None,
        billing_address_id: None,
        payment_link_id: None,
        payment_confirm_source: None,
        updated_by: text("postgres_only"),
    }
}

#[allow(dead_code)]
fn attempt(status: AttemptStatus) -> PaymentAttempt {
    PaymentAttempt {
        payment_id: text("pay_1"),
        merchant_id: text("merchant_1"),
        attempt_id: text("pay_1_1"),
        status,
        amount: 1000,
        currency: Some(Currency::USD),
        surcharge_amount: None,
        tax_amount: None,
        payment_method: None,
        payment_method_type: None,
        payment_experience: None,
        capture_method: None,
        authentication_type: None,
        connector: None,
        merchant_connector_id: None,
        browser_info: None,
        payment_token: None,
        payment_method_data: None,
        mandate_id: None,
        mandate_details: None,
        business_sub_label: None,
        straight_through_algorithm: None,
        error_code: None,
        error_message: None,
        amount_capturable: 0,
        created_at: 1_700_000_000,
        modified_at: 1_700_000_000,
        updated_by: text("postgres_only"),
    }
}

#[allow(dead_code)]
fn request() -> PaymentsRequest {
    PaymentsRequest {
        payment_id: Some(PaymentIdType::PaymentIntentId(text("pay_1"))),
        payment_method: Some(PaymentMethod::Card),
        ..PaymentsRequest::default()
    }
}

#[allow(dead_code)]
fn card() -> Card {
    Card {
        card_number: text("4242424242424242"),
        card_exp_month: text("10"),
        card_exp_year: text("30"),
        card_holder_name: Some(text("A Holder")),
        card_cvc: text("123"),
    }
}

#[allow(dead_code)]
fn no_mandate() -> MandateResolution {
    MandateResolution {
        token: None,
        payment_method: Some(PaymentMethod::Card),
        payment_method_type: None,
        setup_mandate: None,
        recurring_mandate_payment_data: None,
        mandate_connector: None,
    }
}

fn link() -> PaymentLink {
    PaymentLink {
        payment_link_id: text("plink_1"),
        payment_id: text("pay_1"),
        merchant_id: text("merchant_1"),
        link_to_pay: text("https://pay.example/plink_1"),
        amount: 1000,
        currency: Some(Currency::USD),
        created_at: 1_700_000_000,
        last_modified_at: 1_700_000_000,
        fulfilment_time: Some(1_700_000_900),
        custom_merchant_name: None,
    }
}

fn linked_intent() -> PaymentIntent {
    let mut row = intent(IntentStatus::RequiresPaymentMethod);
    row.payment_link_id = Some(text("plink_1"));
    row
}

fn line(name: &str, picture: Option<&str>) -> OrderDetailsWithAmount {
    OrderDetailsWithAmount {
        product_name: text(name),
        quantity: 2,
        amount: 500,
        product_img_link: picture.map(text),
    }
}

const MERCHANT_LOGO: &str =
    "https://live.hyperswitch.io/payment-link-assets/Merchant_placeholder.png";
const PRODUCT_IMG: &str = "https://live.hyperswitch.io/payment-link-assets/cart_placeholder.png";

#[test]
fn stored_link_is_retrieved() {
    assert_eq!(
        retrieve_payment_link(Some(link())),
        Ok(RetrievePaymentLinkResponse {
            payment_link_id: text("plink_1"),
            payment_id: text("pay_1"),
            merchant_id: text("merchant_1"),
            link_to_pay: text("https://pay.example/plink_1"),
            amount: 1000,
            currency: Some(Currency::USD),
            created_at: 1_700_000_000,
            link_expiry: Some(1_700_000_900),
        })
    );
    assert_eq!(retrieve_payment_link(None), Err(ApiErrorResponse::PaymentLinkNotFound));
}

#[test]
fn link_of_an_intent_is_named_or_refused() {
    assert_eq!(get_payment_link_id(&Some(linked_intent())), Ok(text("plink_1")));
    assert_eq!(get_payment_link_id(&None), Err(ApiErrorResponse::PaymentNotFound));
    assert_eq!(
        get_payment_link_id(&Some(intent(IntentStatus::RequiresPaymentMethod))),
        Err(ApiErrorResponse::PaymentLinkNotFound)
    );
    for status in [
        IntentStatus::Cancelled,
        IntentStatus::Succeeded,
        IntentStatus::Processing,
        IntentStatus::RequiresCapture,
        IntentStatus::RequiresMerchantAction,
    ] {
        let mut row = linked_intent();
        row.status = status;
        assert_eq!(get_payment_link_id(&Some(row)), Err(ApiErrorResponse::InvalidState));
        // the missing link is noticed before the status
        assert_eq!(
            get_payment_link_id(&Some(intent(status))),
            Err(ApiErrorResponse::PaymentLinkNotFound)
        );
    }
    let mut failed = linked_intent();
    failed.status = IntentStatus::Failed;
    assert_eq!(get_payment_link_id(&Some(failed)), Ok(text("plink_1")));
}

#[test]
fn page_details_without_a_configuration() {
    let details = intiate_payment_link_flow(
        &merchant(),
        Some(linked_intent()),
        Some(link()),
        &PaymentLinkConfigInput::Missing,
        None,
    );
    assert_eq!(
        details,
        Ok(PaymentLinkDetails {
            amount: 1000,
            currency: Currency::USD,
            pub_key: text("pk_test_1"),
            client_secret: text("pay_1_secret_abc"),
            payment_id: text("pay_1"),
            expiry: Some(1_700_000_900),
            merchant_logo: String::new(),
            return_url: text("https://shop.example/return"),
            merchant_name: text("Shop"),
            order_details: None,
            max_items_visible_after_collapse: 3,
            sdk_theme: None,
        })
    );
}

#[test]
fn page_details_with_a_configuration() {
    let config = |logo: Option<&str>, colors: Option<PaymentLinkColorSchema>| {
        PaymentLinkConfigInput::Given(PaymentLinkConfig {
            merchant_logo: logo.map(text),
            color_scheme: colors,
        })
    };
    let run = |given: &PaymentLinkConfigInput, named: Option<&str>| {
        let mut stored = link();
        stored.custom_merchant_name = named.map(text);
        intiate_payment_link_flow(
            &merchant(),
            Some(linked_intent()),
            Some(stored),
            given,
            Some(vec![Some(line("shirt", None)), Some(line("hat", Some("https://img.example/hat.png")))]),
        )
        .unwrap()
    };
    let details = run(&config(None, None), None);
    assert_eq!(details.merchant_logo, MERCHANT_LOGO);
    assert_eq!(details.sdk_theme, None);
    assert_eq!(details.merchant_name, "Shop");
    assert_eq!(
        details.order_details,
        Some(vec![
            line("shirt", Some(PRODUCT_IMG)),
            line("hat", Some("https://img.example/hat.png"))
        ])
    );
    let details = run(
        &config(
            Some("https://img.example/logo.png"),
            Some(PaymentLinkColorSchema { background_primary_color: None, sdk_theme: None }),
        ),
        Some("Shop by Link"),
    );
    assert_eq!(details.merchant_logo, "https://img.example/logo.png");
    assert_eq!(details.sdk_theme, Some(text("#7EA8F6")));
    assert_eq!(details.merchant_name, "Shop by Link");
    let details = run(
        &config(
            None,
            Some(PaymentLinkColorSchema {
                background_primary_color: Some(text("#000000")),
                sdk_theme: Some(text("#FFFFFF")),
            }),
        ),
        None,
    );
    assert_eq!(details.sdk_theme, Some(text("#FFFFFF")));
}

#[test]
fn page_details_are_refused_in_order() {
    let run = |account: &MerchantAccount,
               row: Option<PaymentIntent>,
               stored: Option<PaymentLink>,
               given: PaymentLinkConfigInput,
               lines: Option<Vec<Option<OrderDetailsWithAmount>>>| {
        intiate_payment_link_flow(account, row, stored, &given, lines)
    };
    let unreadable_lines = || Some(vec![Some(line("shirt", None)), None]);
    let mut bare = merchant();
    bare.publishable_key = None;
    let mut poor = linked_intent();
    poor.return_url = None;
    poor.currency = None;
    poor.client_secret = None;
    assert_eq!(
        run(&bare, None, None, PaymentLinkConfigInput::Unreadable, unreadable_lines()),
        Err(ApiErrorResponse::PaymentNotFound)
    );
    let mut unlinked = poor.clone();
    unlinked.payment_link_id = None;
    assert_eq!(
        run(&bare, Some(unlinked), None, PaymentLinkConfigInput::Unreadable, unreadable_lines()),
        Err(ApiErrorResponse::PaymentLinkNotFound)
    );
    let mut done = poor.clone();
    done.status = IntentStatus::Succeeded;
    assert_eq!(
        run(&bare, Some(done), None, PaymentLinkConfigInput::Unreadable, unreadable_lines()),
        Err(ApiErrorResponse::InvalidState)
    );
    assert_eq!(
        run(&bare, Some(poor.clone()), None, PaymentLinkConfigInput::Unreadable, unreadable_lines()),
        Err(ApiErrorResponse::PaymentLinkNotFound)
    );
    assert_eq!(
        run(&bare, Some(poor.clone()), Some(link()), PaymentLinkConfigInput::Unreadable, unreadable_lines()),
        Err(ApiErrorResponse::InvalidDataValue { field_name: FieldName::PaymentLinkConfig })
    );
    assert_eq!(
        run(&bare, Some(poor.clone()), Some(link()), PaymentLinkConfigInput::Missing, unreadable_lines()),
        Err(ApiErrorResponse::InvalidDataValue { field_name: FieldName::OrderDetailsWithAmount })
    );
    assert_eq!(
        run(&bare, Some(poor.clone()), Some(link()), PaymentLinkConfigInput::Missing, None),
        Err(ApiErrorResponse::MissingRequiredField { field_name: FieldName::ReturnUrl })
    );
    bare.return_url = Some(text("https://shop.example/default"));
    assert_eq!(
        run(&bare, Some(poor.clone()), Some(link()), PaymentLinkConfigInput::Missing, None),
        Err(ApiErrorResponse::MissingRequiredField { field_name: FieldName::PubKey })
    );
    bare.publishable_key = Some(text("pk_test_1"));
    assert_eq!(
        run(&bare, Some(poor.clone()), Some(link()), PaymentLinkConfigInput::Missing, None),
        Err(ApiErrorResponse::MissingRequiredField { field_name: FieldName::Currency })
    );
    poor.currency = Some(Currency::EUR);
    assert_eq!(
        run(&bare, Some(poor.clone()), Some(link()), PaymentLinkConfigInput::Missing, None),
        Err(ApiErrorResponse::MissingRequiredField { field_name: FieldName::ClientSecret })
    );
    poor.client_secret = Some(text("secret"));
    bare.merchant_name = None;
    let details =
        run(&bare, Some(poor), Some(link()), PaymentLinkConfigInput::Missing, None).unwrap();
    assert_eq!(details.return_url, "https://shop.example/default");
    assert_eq!(details.currency, Currency::EUR);
    assert_eq!(details.merchant_name, "");
}

#[test]
fn order_lines_get_the_placeholder_picture() {
    assert_eq!(validate_order_details(None), Ok(None));
    assert_eq!(validate_order_details(Some(vec![])), Ok(Some(vec![])));
    assert_eq!(
        validate_order_details(Some(vec![
            Some(line("shirt", None)),
            Some(line("hat", Some("https://img.example/hat.png"))),
            Some(line("socks", None)),
        ])),
        Ok(Some(vec![
            line("shirt", Some(PRODUCT_IMG)),
            line("hat", Some("https://img.example/hat.png")),
            line("socks", Some(PRODUCT_IMG)),
        ]))
    );
    assert_eq!(
        validate_order_details(Some(vec![None])),
        Err(ApiErrorResponse::InvalidDataValue { field_name: FieldName::OrderDetailsWithAmount })
    );
    assert_eq!(
        validate_order_details(Some(vec![Some(line("shirt", None)), Some(line("hat", None)), None])),
        Err(ApiErrorResponse::InvalidDataValue { field_name: FieldName::OrderDetailsWithAmount })
    );
}

#[test]
fn sdk_requirements_are_checked_in_order() {
    assert_eq!(
        validate_sdk_requirements(Some(text("pk")), Some(Currency::GBP), Some(text("secret"))),
        Ok((text("pk"), Currency::GBP, text("secret")))
    );
    assert_eq!(
        validate_sdk_requirements(None, None, None),
        Err(ApiErrorResponse::MissingRequiredField { field_name: FieldName::PubKey })
    );
    assert_eq!(
        validate_sdk_requirements(Some(text("pk")), None, None),
        Err(ApiErrorResponse::MissingRequiredField { field_name: FieldName::Currency })
    );
    assert_eq!(
        validate_sdk_requirements(Some(text("pk")), Some(Currency::GBP), None),
        Err(ApiErrorResponse::MissingRequiredField { field_name: FieldName::ClientSecret })
    );
}

#[test]
fn script_wraps_the_payment_details() {
    assert_eq!(
        get_js_script("{\"amount\":1000}"),
        "window.__PAYMENT_DETAILS = {\"amount\":1000};"
    );
    assert_eq!(get_js_script(""), "window.__PAYMENT_DETAILS = ;");
}

#[test]
fn style_sheet_sets_the_primary_colour() {
    let colors = |color: Option<&str>| {
        Some(PaymentLinkConfig {
            merchant_logo: None,
            color_scheme: Some(PaymentLinkColorSchema {
                background_primary_color: color.map(text),
                sdk_theme: None,
            }),
        })
    };
    assert_eq!(
        get_color_scheme_css(&colors(Some("#FF0000")), text("#212E46")),
        ":root {\n      --primary-color: #FF0000;\n    }"
    );
    assert_eq!(
        get_color_scheme_css(&colors(None), text("#212E46")),
        ":root {\n      --primary-color: #212E46;\n    }"
    );
    assert_eq!(
        get_color_scheme_css(
            &Some(PaymentLinkConfig { merchant_logo: None, color_scheme: None }),
            text("#123456")
        ),
        ":root {\n      --primary-color: #123456;\n    }"
    );
    assert_eq!(
        get_color_scheme_css(&None, text("#123456")),
        ":root {\n      --primary-color: #123456;\n    }"
    );
}

#[test]
fn page_is_put_together() {
    let form = payment_link_form(
        "{}",
        PaymentLinkConfigInput::Missing,
        text("https://sdk.example/loader.js"),
    );
    assert_eq!(
        form,
        PaymentLinkFormData {
            js_script: text("window.__PAYMENT_DETAILS = {};"),
            css_script: text(":root {\n      --primary-color: #212E46;\n    }"),
            sdk_url: text("https://sdk.example/loader.js"),
        }
    );
    let form = payment_link_form(
        "{}",
        PaymentLinkConfigInput::Given(PaymentLinkConfig {
            merchant_logo: None,
            color_scheme: Some(PaymentLinkColorSchema {
                background_primary_color: Some(text("#00FF00")),
                sdk_theme: None,
            }),
        }),
        text("https://sdk.example/loader.js"),
    );
    assert_eq!(form.css_script, ":root {\n      --primary-color: #00FF00;\n    }");
}

#[test]
fn return_address_is_resolved_in_order() {
    assert_eq!(
        resolve_return_url(Some(text("a")), Some(text("b")), Some(text("c"))),
        Ok(text("a"))
    );
    assert_eq!(resolve_return_url(None, Some(text("b")), Some(text("c"))), Ok(text("b")));
    assert_eq!(resolve_return_url(None, None, Some(text("c"))), Ok(text("c")));
    assert_eq!(
        resolve_return_url(None, None, None),
        Err(ApiErrorResponse::MissingRequiredField { field_name: FieldName::ReturnUrl })
    );
}
