//! Payment links: what a caller is told about one, and what the hosted
//! payment page of an intent is given.

use vstd::prelude::*;
use vstd::string::StringExecFns;
use crate::enums::Currency;
use crate::errors::{ApiErrorResponse, FieldName};
use crate::helpers::{
    not_allowed_statuses, resolve_return_url, spec_resolve_return_url,
    validate_payment_status_against_not_allowed_statuses,
};
use crate::storage::{
    MerchantAccount, MerchantAccountView, PaymentIntent, PaymentIntentView, PaymentLink,
    PaymentLinkView,
};
use crate::views::{clone_opt_text, opt_deep_view, opt_view};

verus! {

/// The primary colour of a page whose merchant configures none.
pub open spec fn default_background_color() -> Seq<char> {
    "#212E46"@
}

/// The logo of a page whose configuration names none.
pub open spec fn default_merchant_logo() -> Seq<char> {
    "https://live.hyperswitch.io/payment-link-assets/Merchant_placeholder.png"@
}

/// The picture of an order line that has none.
pub open spec fn default_product_img() -> Seq<char> {
    "https://live.hyperswitch.io/payment-link-assets/cart_placeholder.png"@
}

/// The theme of the payment form where the configured colours name none.
pub open spec fn default_sdk_theme() -> Seq<char> {
    "#7EA8F6"@
}

fn default_background_color_text() -> (res: String)
    ensures
        res@ == default_background_color(),
{
    "#212E46".to_string()
}

fn default_merchant_logo_text() -> (res: String)
    ensures
        res@ == default_merchant_logo(),
{
    "https://live.hyperswitch.io/payment-link-assets/Merchant_placeholder.png".to_string()
}

fn default_product_img_text() -> (res: String)
    ensures
        res@ == default_product_img(),
{
    "https://live.hyperswitch.io/payment-link-assets/cart_placeholder.png".to_string()
}

fn default_sdk_theme_text() -> (res: String)
    ensures
        res@ == default_sdk_theme(),
{
    "#7EA8F6".to_string()
}

/// The lines of an order that a payment page shows before it folds the rest.
pub const MAX_ITEMS_VISIBLE_AFTER_COLLAPSE: i8 = 3;

/// What became of the merchant's page configuration when it was read.
#[derive(Debug, PartialEq)]
pub enum PaymentLinkConfigInput {
    /// The merchant has none.
    Missing,
    /// The merchant has one that cannot be read.
    Unreadable,
    Given(PaymentLinkConfig),
}

/// The model of [`PaymentLinkConfigInput`].
pub enum PaymentLinkConfigInputView {
    Missing,
    Unreadable,
    Given(PaymentLinkConfigView),
}

impl View for PaymentLinkConfigInput {
    type V = PaymentLinkConfigInputView;

    open spec fn view(&self) -> PaymentLinkConfigInputView {
        match self {
            PaymentLinkConfigInput::Missing => PaymentLinkConfigInputView::Missing,
            PaymentLinkConfigInput::Unreadable => PaymentLinkConfigInputView::Unreadable,
            PaymentLinkConfigInput::Given(config) => PaymentLinkConfigInputView::Given(config@),
        }
    }
}

/// The colours of a merchant's payment page.
#[derive(Debug, PartialEq)]
pub struct PaymentLinkColorSchema {
    pub background_primary_color: Option<String>,
    pub sdk_theme: Option<String>,
}

/// The model of [`PaymentLinkColorSchema`]: the same fields, with text as sequences of characters.
pub struct PaymentLinkColorSchemaView {
    pub background_primary_color: Option<Seq<char>>,
    pub sdk_theme: Option<Seq<char>>,
}

impl View for PaymentLinkColorSchema {
    type V = PaymentLinkColorSchemaView;

    open spec fn view(&self) -> PaymentLinkColorSchemaView {
        PaymentLinkColorSchemaView {
            background_primary_color: opt_view(self.background_primary_color),
            sdk_theme: opt_view(self.sdk_theme),
        }
    }
}

impl Clone for PaymentLinkColorSchema {
    fn clone(&self) -> (res: Self)
        ensures
            res@ == self@,
    {
        PaymentLinkColorSchema {
            background_primary_color: clone_opt_text(&self.background_primary_color),
            sdk_theme: clone_opt_text(&self.sdk_theme),
        }
    }
}

impl PaymentLinkColorSchema {
    /// A copy of an optional value.
    pub fn clone_opt(
        value: &Option<PaymentLinkColorSchema>,
    ) -> (res: Option<PaymentLinkColorSchema>)
        ensures
            opt_view(res) == opt_view(*value),
    {
        match value {
            Some(v) => Some(v.clone()),
            None => None,
        }
    }
}

/// How a merchant wants its payment page to look.
#[derive(Debug, PartialEq)]
pub struct PaymentLinkConfig {
    pub merchant_logo: Option<String>,
    pub color_scheme: Option<PaymentLinkColorSchema>,
}

/// The model of [`PaymentLinkConfig`]: the same fields, with text as sequences of characters.
pub struct PaymentLinkConfigView {
    pub merchant_logo: Option<Seq<char>>,
    pub color_scheme: Option<PaymentLinkColorSchemaView>,
}

impl View for PaymentLinkConfig {
    type V = PaymentLinkConfigView;

    open spec fn view(&self) -> PaymentLinkConfigView {
        PaymentLinkConfigView {
            merchant_logo: opt_view(self.merchant_logo),
            color_scheme: opt_view(self.color_scheme),
        }
    }
}

impl Clone for PaymentLinkConfig {
    fn clone(&self) -> (res: Self)
        ensures
            res@ == self@,
    {
        PaymentLinkConfig {
            merchant_logo: clone_opt_text(&self.merchant_logo),
            color_scheme: PaymentLinkColorSchema::clone_opt(&self.color_scheme),
        }
    }
}

/// One line of an order.
#[derive(Debug, PartialEq)]
pub struct OrderDetailsWithAmount {
    pub product_name: String,
    pub quantity: u16,
    pub amount: i64,
    pub product_img_link: Option<String>,
}

/// The model of [`OrderDetailsWithAmount`]: the same fields, with text as sequences of characters.
pub struct OrderDetailsWithAmountView {
    pub product_name: Seq<char>,
    pub quantity: u16,
    pub amount: i64,
    pub product_img_link: Option<Seq<char>>,
}

impl View for OrderDetailsWithAmount {
    type V = OrderDetailsWithAmountView;

    open spec fn view(&self) -> OrderDetailsWithAmountView {
        OrderDetailsWithAmountView {
            product_name: self.product_name@,
            quantity: self.quantity,
            amount: self.amount,
            product_img_link: opt_view(self.product_img_link),
        }
    }
}

impl DeepView for OrderDetailsWithAmount {
    type V = OrderDetailsWithAmountView;

    open spec fn deep_view(&self) -> OrderDetailsWithAmountView {
        self@
    }
}

impl Clone for OrderDetailsWithAmount {
    fn clone(&self) -> (res: Self)
        ensures
            res@ == self@,
    {
        OrderDetailsWithAmount {
            product_name: self.product_name.clone(),
            quantity: self.quantity,
            amount: self.amount,
            product_img_link: clone_opt_text(&self.product_img_link),
        }
    }
}

/// What a payment page is told about its payment.
#[derive(Debug, PartialEq)]
pub struct PaymentLinkDetails {
    pub amount: i64,
    pub currency: Currency,
    pub pub_key: String,
    pub client_secret: String,
    pub payment_id: String,
    pub expiry: Option<i64>,
    pub merchant_logo: String,
    pub return_url: String,
    pub merchant_name: String,
    pub order_details: Option<Vec<OrderDetailsWithAmount>>,
    pub max_items_visible_after_collapse: i8,
    pub sdk_theme: Option<String>,
}

/// The model of [`PaymentLinkDetails`]: the same fields, with text as sequences of characters.
pub struct PaymentLinkDetailsView {
    pub amount: i64,
    pub currency: Currency,
    pub pub_key: Seq<char>,
    pub client_secret: Seq<char>,
    pub payment_id: Seq<char>,
    pub expiry: Option<i64>,
    pub merchant_logo: Seq<char>,
    pub return_url: Seq<char>,
    pub merchant_name: Seq<char>,
    pub order_details: Option<Seq<OrderDetailsWithAmountView>>,
    pub max_items_visible_after_collapse: i8,
    pub sdk_theme: Option<Seq<char>>,
}

impl View for PaymentLinkDetails {
    type V = PaymentLinkDetailsView;

    open spec fn view(&self) -> PaymentLinkDetailsView {
        PaymentLinkDetailsView {
            amount: self.amount,
            currency: self.currency,
            pub_key: self.pub_key@,
            client_secret: self.client_secret@,
            payment_id: self.payment_id@,
            expiry: self.expiry,
            merchant_logo: self.merchant_logo@,
            return_url: self.return_url@,
            merchant_name: self.merchant_name@,
            order_details: opt_deep_view(self.order_details),
            max_items_visible_after_collapse: self.max_items_visible_after_collapse,
            sdk_theme: opt_view(self.sdk_theme),
        }
    }
}

/// The parts that a payment page is put together from.
#[derive(Debug, PartialEq)]
pub struct PaymentLinkFormData {
    pub js_script: String,
    pub css_script: String,
    pub sdk_url: String,
}

/// The model of [`PaymentLinkFormData`]: the same fields, with text as sequences of characters.
pub struct PaymentLinkFormDataView {
    pub js_script: Seq<char>,
    pub css_script: Seq<char>,
    pub sdk_url: Seq<char>,
}

impl View for PaymentLinkFormData {
    type V = PaymentLinkFormDataView;

    open spec fn view(&self) -> PaymentLinkFormDataView {
        PaymentLinkFormDataView {
            js_script: self.js_script@,
            css_script: self.css_script@,
            sdk_url: self.sdk_url@,
        }
    }
}

/// What a caller is told about a payment link.
#[derive(Debug, PartialEq)]
pub struct RetrievePaymentLinkResponse {
    pub payment_link_id: String,
    pub payment_id: String,
    pub merchant_id: String,
    pub link_to_pay: String,
    pub amount: i64,
    pub currency: Option<Currency>,
    pub created_at: i64,
    pub link_expiry: Option<i64>,
}

/// The model of [`RetrievePaymentLinkResponse`]: the same fields, with text as
/// sequences of characters.
pub struct RetrievePaymentLinkResponseView {
    pub payment_link_id: Seq<char>,
    pub payment_id: Seq<char>,
    pub merchant_id: Seq<char>,
    pub link_to_pay: Seq<char>,
    pub amount: i64,
    pub currency: Option<Currency>,
    pub created_at: i64,
    pub link_expiry: Option<i64>,
}

impl View for RetrievePaymentLinkResponse {
    type V = RetrievePaymentLinkResponseView;

    open spec fn view(&self) -> RetrievePaymentLinkResponseView {
        RetrievePaymentLinkResponseView {
            payment_link_id: self.payment_link_id@,
            payment_id: self.payment_id@,
            merchant_id: self.merchant_id@,
            link_to_pay: self.link_to_pay@,
            amount: self.amount,
            currency: self.currency,
            created_at: self.created_at,
            link_expiry: self.link_expiry,
        }
    }
}

/// What a caller is told about a stored link.
pub open spec fn spec_link_response(link: PaymentLinkView) -> RetrievePaymentLinkResponseView {
    RetrievePaymentLinkResponseView {
        payment_link_id: link.payment_link_id,
        payment_id: link.payment_id,
        merchant_id: link.merchant_id,
        link_to_pay: link.link_to_pay,
        amount: link.amount,
        currency: link.currency,
        created_at: link.created_at,
        link_expiry: link.fulfilment_time,
    }
}

/// Answers a request for a payment link with what the store found under its
/// identifier.
pub fn retrieve_payment_link(found: Option<PaymentLink>) -> (res: Result<
    RetrievePaymentLinkResponse,
    ApiErrorResponse,
>)
    ensures
        match found {
            Some(link) => res is Ok && res->Ok_0@ == spec_link_response(link@),
            None => res == Err::<RetrievePaymentLinkResponse, ApiErrorResponse>(
                ApiErrorResponse::PaymentLinkNotFound,
            ),
        },
{
    match found {
        None => Err(ApiErrorResponse::PaymentLinkNotFound),
        Some(link) => Ok(
            RetrievePaymentLinkResponse {
                payment_link_id: link.payment_link_id,
                payment_id: link.payment_id,
                merchant_id: link.merchant_id,
                link_to_pay: link.link_to_pay,
                amount: link.amount,
                currency: link.currency,
                created_at: link.created_at,
                link_expiry: link.fulfilment_time,
            },
        ),
    }
}

/// The link of an intent for which a payment page can be made: the intent
/// exists, has a link, and is in a status that still allows payment.
pub open spec fn spec_payment_link_id(intent: Option<PaymentIntentView>) -> Result<
    Seq<char>,
    ApiErrorResponse,
> {
    match intent {
        None => Err(ApiErrorResponse::PaymentNotFound),
        Some(i) => match i.payment_link_id {
            None => Err(ApiErrorResponse::PaymentLinkNotFound),
            Some(id) => if i.status.forbids_confirm() {
                Err(ApiErrorResponse::InvalidState)
            } else {
                Ok(id)
            },
        },
    }
}

/// Names the link to fetch for the intent that the store found, or says why
/// no payment page can be made.
pub fn get_payment_link_id(found: &Option<PaymentIntent>) -> (res: Result<String, ApiErrorResponse>)
    ensures
        match res {
            Ok(id) => spec_payment_link_id(opt_view(*found)) == Ok::<Seq<char>, ApiErrorResponse>(
                id@,
            ),
            Err(e) => spec_payment_link_id(opt_view(*found)) == Err::<Seq<char>, ApiErrorResponse>(
                e,
            ),
        },
{
    let payment_intent = match found {
        None => {
            return Err(ApiErrorResponse::PaymentNotFound);
        },
        Some(payment_intent) => payment_intent,
    };
    let payment_link_id = match &payment_intent.payment_link_id {
        None => {
            return Err(ApiErrorResponse::PaymentLinkNotFound);
        },
        Some(id) => id.clone(),
    };
    let not_allowed = not_allowed_statuses();
    match validate_payment_status_against_not_allowed_statuses(
        &payment_intent.status,
        not_allowed.as_slice(),
    ) {
        Err(e) => Err(e),
        Ok(()) => Ok(payment_link_id),
    }
}

/// A line of an order with the placeholder picture where it has none.
pub open spec fn with_default_image(
    order: OrderDetailsWithAmountView,
) -> OrderDetailsWithAmountView {
    OrderDetailsWithAmountView {
        product_img_link: match order.product_img_link {
            Some(link) => Some(link),
            None => Some(default_product_img()),
        },
        ..order
    }
}

/// The model of the lines of an order as they were read: a line that could
/// not be read is absent.
pub open spec fn parsed_orders_view(orders: Option<Vec<Option<OrderDetailsWithAmount>>>) -> Option<
    Seq<Option<OrderDetailsWithAmountView>>,
> {
    match orders {
        Some(lines) => Some(
            Seq::new(lines@.len(), |i: int| opt_view(lines@[i])),
        ),
        None => None,
    }
}

/// The lines of an order for a payment page: all of them readable, each with
/// a picture.
pub open spec fn spec_validate_order_details(
    orders: Option<Seq<Option<OrderDetailsWithAmountView>>>,
) -> Result<Option<Seq<OrderDetailsWithAmountView>>, ApiErrorResponse> {
    match orders {
        None => Ok(None),
        Some(lines) => if exists|i: int| 0 <= i < lines.len() && lines[i].is_none() {
            Err(
                ApiErrorResponse::InvalidDataValue {
                    field_name: FieldName::OrderDetailsWithAmount,
                },
            )
        } else {
            Ok(Some(Seq::new(lines.len(), |i: int| with_default_image(lines[i].unwrap()))))
        },
    }
}

/// Checks the lines of an order as they were read from the intent, and gives
/// each line without a picture the placeholder.
pub fn validate_order_details(order_details: Option<Vec<Option<OrderDetailsWithAmount>>>) -> (res:
    Result<Option<Vec<OrderDetailsWithAmount>>, ApiErrorResponse>)
    ensures
        match res {
            Ok(lines) => spec_validate_order_details(parsed_orders_view(order_details)) == Ok::<
                Option<Seq<OrderDetailsWithAmountView>>,
                ApiErrorResponse,
            >(opt_deep_view(lines)),
            Err(e) => spec_validate_order_details(parsed_orders_view(order_details)) == Err::<
                Option<Seq<OrderDetailsWithAmountView>>,
                ApiErrorResponse,
            >(e),
        },
{
    let lines = match &order_details {
        None => {
            return Ok(None);
        },
        Some(lines) => lines,
    };
    let ghost input = lines@;
    let ghost model = Seq::new(input.len(), |i: int| opt_view(input[i]));
    let mut out: Vec<OrderDetailsWithAmount> = Vec::new();
    let mut i: usize = 0;
    while i < lines.len()
        invariant
            i <= lines.len(),
            lines@ == input,
            model.len() == input.len(),
            forall|j: int| 0 <= j < input.len() ==> model[j] == opt_view(input[j]),
            parsed_orders_view(order_details) == Some(model),
            out@.len() == i,
            forall|j: int| 0 <= j < i ==> input[j].is_some(),
            forall|j: int|
                0 <= j < i ==> (#[trigger] out@[j])@ == with_default_image(input[j].unwrap()@),
        decreases lines.len() - i,
    {
        match &lines[i] {
            None => {
                proof {
                    assert(model[i as int].is_none());
                }
                return Err(
                    ApiErrorResponse::InvalidDataValue {
                        field_name: FieldName::OrderDetailsWithAmount,
                    },
                );
            },
            Some(order) => {
                let product_img_link = match &order.product_img_link {
                    Some(link) => Some(link.clone()),
                    None => Some(default_product_img_text()),
                };
                out.push(
                    OrderDetailsWithAmount {
                        product_name: order.product_name.clone(),
                        quantity: order.quantity,
                        amount: order.amount,
                        product_img_link,
                    },
                );
            },
        }
        i = i + 1;
    }
    proof {
        assert forall|j: int| 0 <= j < model.len() implies !model[j].is_none() by {
            assert(input[j].is_some());
        }
        let expected = Seq::new(model.len(), |j: int| with_default_image(model[j].unwrap()));
        assert(out.deep_view() =~= expected);
    }
    Ok(Some(out))
}

/// What a payment page cannot do without: the merchant's publishable key,
/// the currency and the client secret of the intent.
pub open spec fn sdk_requirement_missing(
    pub_key: Option<Seq<char>>,
    currency: Option<Currency>,
    client_secret: Option<Seq<char>>,
) -> Option<ApiErrorResponse> {
    if pub_key.is_none() {
        Some(ApiErrorResponse::MissingRequiredField { field_name: FieldName::PubKey })
    } else if currency.is_none() {
        Some(ApiErrorResponse::MissingRequiredField { field_name: FieldName::Currency })
    } else if client_secret.is_none() {
        Some(ApiErrorResponse::MissingRequiredField { field_name: FieldName::ClientSecret })
    } else {
        None
    }
}

/// Checks that a payment page has what it cannot do without.
pub fn validate_sdk_requirements(
    pub_key: Option<String>,
    currency: Option<Currency>,
    client_secret: Option<String>,
) -> (res: Result<(String, Currency, String), ApiErrorResponse>)
    ensures
        match res {
            Ok((key, cur, secret)) => sdk_requirement_missing(
                opt_view(pub_key),
                currency,
                opt_view(client_secret),
            ).is_none() && opt_view(pub_key) == Some(key@) && currency == Some(cur) && opt_view(
                client_secret,
            ) == Some(secret@),
            Err(e) => sdk_requirement_missing(opt_view(pub_key), currency, opt_view(client_secret))
                == Some(e),
        },
{
    let pub_key = match pub_key {
        Some(key) => key,
        None => {
            return Err(ApiErrorResponse::MissingRequiredField { field_name: FieldName::PubKey });
        },
    };
    let currency = match currency {
        Some(currency) => currency,
        None => {
            return Err(ApiErrorResponse::MissingRequiredField { field_name: FieldName::Currency });
        },
    };
    let client_secret = match client_secret {
        Some(secret) => secret,
        None => {
            return Err(
                ApiErrorResponse::MissingRequiredField { field_name: FieldName::ClientSecret },
            );
        },
    };
    Ok((pub_key, currency, client_secret))
}

/// The script that hands a payment page its payment, given as JSON.
pub open spec fn spec_js_script(payment_details: Seq<char>) -> Seq<char> {
    "window.__PAYMENT_DETAILS = "@ + payment_details + ";"@
}

/// Wraps the JSON form of the payment details into the script of the page.
pub fn get_js_script(payment_details: &str) -> (res: String)
    ensures
        res@ == spec_js_script(payment_details@),
{
    let mut script = "window.__PAYMENT_DETAILS = ".to_string();
    script.append(payment_details);
    script.append(";");
    script
}

/// The primary colour of a page: the configured one, else the default.
pub open spec fn primary_color(
    config: Option<PaymentLinkConfigView>,
    default_primary_color: Seq<char>,
) -> Seq<char> {
    match config {
        Some(PaymentLinkConfigView {
            color_scheme: Some(PaymentLinkColorSchemaView {
                background_primary_color: Some(color),
                ..
            }),
            ..
        }) => color,
        _ => default_primary_color,
    }
}

/// The style sheet that sets the primary colour of a page.
pub open spec fn spec_color_scheme_css(
    config: Option<PaymentLinkConfigView>,
    default_primary_color: Seq<char>,
) -> Seq<char> {
    ":root {\n      --primary-color: "@ + primary_color(config, default_primary_color) + ";\n    }"@
}

/// Writes the style sheet that sets the primary colour of a page.
pub fn get_color_scheme_css(
    payment_link_config: &Option<PaymentLinkConfig>,
    default_primary_color: String,
) -> (res: String)
    ensures
        res@ == spec_color_scheme_css(opt_view(*payment_link_config), default_primary_color@),
{
    let configured = match payment_link_config {
        Some(config) => match &config.color_scheme {
            Some(colors) => clone_opt_text(&colors.background_primary_color),
            None => None,
        },
        None => None,
    };
    let color = match configured {
        Some(color) => color,
        None => default_primary_color,
    };
    let mut css = ":root {\n      --primary-color: ".to_string();
    css.append(color.as_str());
    css.append(";\n    }");
    css
}

/// The configuration that was read, if there is one.
pub open spec fn given_config(config: PaymentLinkConfigInputView) -> Option<PaymentLinkConfigView> {
    match config {
        PaymentLinkConfigInputView::Given(c) => Some(c),
        _ => None,
    }
}

/// The name that a page shows for the merchant: the link's own, else the
/// merchant's, else none.
pub open spec fn page_merchant_name(
    link: PaymentLinkView,
    merchant_account: MerchantAccountView,
) -> Seq<char> {
    match link.custom_merchant_name {
        Some(name) => name,
        None => match merchant_account.merchant_name {
            Some(name) => name,
            None => Seq::empty(),
        },
    }
}

/// The logo that a page shows: the configured one, the placeholder where a
/// configuration names none, and none without a configuration.
pub open spec fn page_merchant_logo(config: Option<PaymentLinkConfigView>) -> Seq<char> {
    match config {
        Some(c) => match c.merchant_logo {
            Some(logo) => logo,
            None => default_merchant_logo(),
        },
        None => Seq::empty(),
    }
}

/// The theme of the payment form: set only where colours are configured, to
/// the configured theme or else the default one.
pub open spec fn page_sdk_theme(config: Option<PaymentLinkConfigView>) -> Option<Seq<char>> {
    match config {
        Some(c) => match c.color_scheme {
            Some(colors) => match colors.sdk_theme {
                Some(theme) => Some(theme),
                None => Some(default_sdk_theme()),
            },
            None => None,
        },
        None => None,
    }
}

/// Why no payment page can be made, if none can: in this order, the intent
/// or its link is missing or the intent's status forbids payment, the link
/// is not stored, the configuration or a line of the order cannot be read, or
/// a return address, the publishable key, the currency or the client secret
/// is missing.
pub open spec fn payment_link_refusal(
    merchant_account: MerchantAccountView,
    intent: Option<PaymentIntentView>,
    link: Option<PaymentLinkView>,
    config: PaymentLinkConfigInputView,
    orders: Option<Seq<Option<OrderDetailsWithAmountView>>>,
) -> Option<ApiErrorResponse> {
    let link_id = spec_payment_link_id(intent);
    let lines = spec_validate_order_details(orders);
    if link_id is Err {
        Some(link_id->Err_0)
    } else if link.is_none() {
        Some(ApiErrorResponse::PaymentLinkNotFound)
    } else if config is Unreadable {
        Some(ApiErrorResponse::InvalidDataValue { field_name: FieldName::PaymentLinkConfig })
    } else if lines is Err {
        Some(lines->Err_0)
    } else if intent.unwrap().return_url.is_none() && merchant_account.return_url.is_none() {
        Some(ApiErrorResponse::MissingRequiredField { field_name: FieldName::ReturnUrl })
    } else {
        sdk_requirement_missing(
            merchant_account.publishable_key,
            intent.unwrap().currency,
            intent.unwrap().client_secret,
        )
    }
}

/// What the page of an intent is told, where a page can be made.
pub open spec fn spec_payment_link_details(
    merchant_account: MerchantAccountView,
    intent: PaymentIntentView,
    link: PaymentLinkView,
    config: PaymentLinkConfigInputView,
    orders: Option<Seq<Option<OrderDetailsWithAmountView>>>,
) -> PaymentLinkDetailsView {
    PaymentLinkDetailsView {
        amount: intent.amount,
        currency: intent.currency.unwrap(),
        pub_key: merchant_account.publishable_key.unwrap(),
        client_secret: intent.client_secret.unwrap(),
        payment_id: intent.payment_id,
        expiry: link.fulfilment_time,
        merchant_logo: page_merchant_logo(given_config(config)),
        return_url: spec_resolve_return_url(
            None,
            intent.return_url,
            merchant_account.return_url,
        )->Ok_0,
        merchant_name: page_merchant_name(link, merchant_account),
        order_details: spec_validate_order_details(orders)->Ok_0,
        max_items_visible_after_collapse: MAX_ITEMS_VISIBLE_AFTER_COLLAPSE,
        sdk_theme: page_sdk_theme(given_config(config)),
    }
}

/// Puts together what the payment page of an intent is told, from the
/// intent and the link as the store found them, the merchant's page
/// configuration and the lines of the order as they were read.
pub fn intiate_payment_link_flow(
    merchant_account: &MerchantAccount,
    payment_intent: Option<PaymentIntent>,
    payment_link: Option<PaymentLink>,
    payment_link_config: &PaymentLinkConfigInput,
    order_details: Option<Vec<Option<OrderDetailsWithAmount>>>,
) -> (res: Result<PaymentLinkDetails, ApiErrorResponse>)
    ensures
        match res {
            Ok(details) => payment_link_refusal(
                merchant_account@,
                opt_view(payment_intent),
                opt_view(payment_link),
                payment_link_config@,
                parsed_orders_view(order_details),
            ).is_none() && details@ == spec_payment_link_details(
                merchant_account@,
                payment_intent.unwrap()@,
                payment_link.unwrap()@,
                payment_link_config@,
                parsed_orders_view(order_details),
            ),
            Err(e) => payment_link_refusal(
                merchant_account@,
                opt_view(payment_intent),
                opt_view(payment_link),
                payment_link_config@,
                parsed_orders_view(order_details),
            ) == Some(e),
        },
{
    match get_payment_link_id(&payment_intent) {
        Err(e) => {
            return Err(e);
        },
        Ok(_) => {},
    }
    let intent = match payment_intent {
        Some(intent) => intent,
        None => {
            return Err(ApiErrorResponse::PaymentNotFound);
        },
    };
    let link = match payment_link {
        Some(link) => link,
        None => {
            return Err(ApiErrorResponse::PaymentLinkNotFound);
        },
    };
    let config: Option<&PaymentLinkConfig> = match payment_link_config {
        PaymentLinkConfigInput::Unreadable => {
            return Err(
                ApiErrorResponse::InvalidDataValue { field_name: FieldName::PaymentLinkConfig },
            );
        },
        PaymentLinkConfigInput::Missing => None,
        PaymentLinkConfigInput::Given(config) => Some(config),
    };
    let order_details = match validate_order_details(order_details) {
        Ok(lines) => lines,
        Err(e) => {
            return Err(e);
        },
    };
    let return_url = match resolve_return_url(
        None,
        intent.return_url,
        clone_opt_text(&merchant_account.return_url),
    ) {
        Ok(url) => url,
        Err(e) => {
            return Err(e);
        },
    };
    let (pub_key, currency, client_secret) = match validate_sdk_requirements(
        clone_opt_text(&merchant_account.publishable_key),
        intent.currency,
        intent.client_secret,
    ) {
        Ok(found) => found,
        Err(e) => {
            return Err(e);
        },
    };
    let merchant_name = match link.custom_merchant_name {
        Some(name) => name,
        None => match &merchant_account.merchant_name {
            Some(name) => name.clone(),
            None => String::new(),
        },
    };
    let merchant_logo = match config {
        Some(c) => match &c.merchant_logo {
            Some(logo) => logo.clone(),
            None => default_merchant_logo_text(),
        },
        None => String::new(),
    };
    let sdk_theme = match config {
        Some(c) => match &c.color_scheme {
            Some(colors) => match &colors.sdk_theme {
                Some(theme) => Some(theme.clone()),
                None => Some(default_sdk_theme_text()),
            },
            None => None,
        },
        None => None,
    };
    Ok(
        PaymentLinkDetails {
            amount: intent.amount,
            currency,
            pub_key,
            client_secret,
            payment_id: intent.payment_id,
            expiry: link.fulfilment_time,
            merchant_logo,
            return_url,
            merchant_name,
            order_details,
            max_items_visible_after_collapse: MAX_ITEMS_VISIBLE_AFTER_COLLAPSE,
            sdk_theme,
        },
    )
}

/// The parts of a payment page.
pub open spec fn spec_payment_link_form(
    payment_details: Seq<char>,
    config: PaymentLinkConfigInputView,
    sdk_url: Seq<char>,
) -> PaymentLinkFormDataView {
    PaymentLinkFormDataView {
        js_script: spec_js_script(payment_details),
        css_script: spec_color_scheme_css(given_config(config), default_background_color()),
        sdk_url,
    }
}

/// Makes the parts of a payment page from the JSON form of its payment
/// details, the merchant's page configuration and the address of the
/// payment form's script.
pub fn payment_link_form(
    payment_details: &str,
    payment_link_config: PaymentLinkConfigInput,
    sdk_url: String,
) -> (res: PaymentLinkFormData)
    ensures
        res@ == spec_payment_link_form(payment_details@, payment_link_config@, sdk_url@),
{
    let config = match payment_link_config {
        PaymentLinkConfigInput::Given(config) => Some(config),
        _ => None,
    };
    PaymentLinkFormData {
        js_script: get_js_script(payment_details),
        css_script: get_color_scheme_css(&config, default_background_color_text()),
        sdk_url,
    }
}

} // verus!
