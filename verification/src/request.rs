//! The confirm request and the values it is made of.

use vstd::prelude::*;
use crate::enums::{
    CaptureMethod, Currency, FutureUsage, PaymentExperience, PaymentMethod, PaymentMethodType,
    RetryAction,
};
use crate::json::{clone_opt_value, clone_opt_values};
use crate::views::{clone_opt_text, opt_view};

verus! {

/// The identifier by which a request names a payment.
#[derive(Debug, PartialEq)]
pub enum PaymentIdType {
    PaymentIntentId(String),
    ConnectorTransactionId(String),
    PaymentAttemptId(String),
    PreprocessingId(String),
}

/// The model of [`PaymentIdType`].
pub enum PaymentIdTypeView {
    PaymentIntentId(Seq<char>),
    ConnectorTransactionId(Seq<char>),
    PaymentAttemptId(Seq<char>),
    PreprocessingId(Seq<char>),
}

impl View for PaymentIdType {
    type V = PaymentIdTypeView;

    open spec fn view(&self) -> PaymentIdTypeView {
        match self {
            PaymentIdType::PaymentIntentId(id) => PaymentIdTypeView::PaymentIntentId(id@),
            PaymentIdType::ConnectorTransactionId(id) => PaymentIdTypeView::ConnectorTransactionId(
                id@,
            ),
            PaymentIdType::PaymentAttemptId(id) => PaymentIdTypeView::PaymentAttemptId(id@),
            PaymentIdType::PreprocessingId(id) => PaymentIdTypeView::PreprocessingId(id@),
        }
    }
}

impl Clone for PaymentIdType {
    fn clone(&self) -> (res: Self)
        ensures
            res@ == self@,
    {
        match self {
            PaymentIdType::PaymentIntentId(id) => PaymentIdType::PaymentIntentId(id.clone()),
            PaymentIdType::ConnectorTransactionId(id) => PaymentIdType::ConnectorTransactionId(
                id.clone(),
            ),
            PaymentIdType::PaymentAttemptId(id) => PaymentIdType::PaymentAttemptId(id.clone()),
            PaymentIdType::PreprocessingId(id) => PaymentIdType::PreprocessingId(id.clone()),
        }
    }
}

/// The wallets that a customer can pay with.
#[derive(Clone, Copy, Debug, PartialEq, Eq, Structural)]
pub enum WalletData {
    ApplePay,
    GooglePay,
    PaypalSdk,
    PaypalRedirect,
    AliPayRedirect,
    WeChatPayRedirect,
}

/// The pay-later schemes that a customer can pay with.
#[derive(Clone, Copy, Debug, PartialEq, Eq, Structural)]
pub enum PayLaterData {
    KlarnaSdk,
    KlarnaRedirect,
    AffirmRedirect,
    AfterpayClearpayRedirect,
}

/// What the customer pays with.
#[derive(Debug, PartialEq)]
pub enum PaymentMethodData {
    Card(Card),
    Wallet(WalletData),
    PayLater(PayLaterData),
    BankRedirect,
    BankDebit,
    BankTransfer,
    Crypto,
    MandatePayment,
    Reward,
    Upi,
    Voucher,
    GiftCard,
}

/// The model of [`PaymentMethodData`].
pub enum PaymentMethodDataView {
    Card(CardView),
    Wallet(WalletData),
    PayLater(PayLaterData),
    BankRedirect,
    BankDebit,
    BankTransfer,
    Crypto,
    MandatePayment,
    Reward,
    Upi,
    Voucher,
    GiftCard,
}

impl View for PaymentMethodData {
    type V = PaymentMethodDataView;

    open spec fn view(&self) -> PaymentMethodDataView {
        match self {
            PaymentMethodData::Card(card) => PaymentMethodDataView::Card(card@),
            PaymentMethodData::Wallet(wallet) => PaymentMethodDataView::Wallet(*wallet),
            PaymentMethodData::PayLater(pay_later) => PaymentMethodDataView::PayLater(*pay_later),
            PaymentMethodData::BankRedirect => PaymentMethodDataView::BankRedirect,
            PaymentMethodData::BankDebit => PaymentMethodDataView::BankDebit,
            PaymentMethodData::BankTransfer => PaymentMethodDataView::BankTransfer,
            PaymentMethodData::Crypto => PaymentMethodDataView::Crypto,
            PaymentMethodData::MandatePayment => PaymentMethodDataView::MandatePayment,
            PaymentMethodData::Reward => PaymentMethodDataView::Reward,
            PaymentMethodData::Upi => PaymentMethodDataView::Upi,
            PaymentMethodData::Voucher => PaymentMethodDataView::Voucher,
            PaymentMethodData::GiftCard => PaymentMethodDataView::GiftCard,
        }
    }
}

impl Clone for PaymentMethodData {
    fn clone(&self) -> (res: Self)
        ensures
            res@ == self@,
    {
        match self {
            PaymentMethodData::Card(card) => PaymentMethodData::Card(card.clone()),
            PaymentMethodData::Wallet(wallet) => PaymentMethodData::Wallet(*wallet),
            PaymentMethodData::PayLater(pay_later) => PaymentMethodData::PayLater(*pay_later),
            PaymentMethodData::BankRedirect => PaymentMethodData::BankRedirect,
            PaymentMethodData::BankDebit => PaymentMethodData::BankDebit,
            PaymentMethodData::BankTransfer => PaymentMethodData::BankTransfer,
            PaymentMethodData::Crypto => PaymentMethodData::Crypto,
            PaymentMethodData::MandatePayment => PaymentMethodData::MandatePayment,
            PaymentMethodData::Reward => PaymentMethodData::Reward,
            PaymentMethodData::Upi => PaymentMethodData::Upi,
            PaymentMethodData::Voucher => PaymentMethodData::Voucher,
            PaymentMethodData::GiftCard => PaymentMethodData::GiftCard,
        }
    }
}

impl PaymentMethodDataView {
    /// The payment method type of data that a session call hands to the
    /// customer's device, if this is such data.
    pub open spec fn session_token_type(self) -> Option<PaymentMethodType> {
        match self {
            PaymentMethodDataView::Wallet(WalletData::ApplePay) => Some(
                PaymentMethodType::ApplePay,
            ),
            PaymentMethodDataView::Wallet(WalletData::GooglePay) => Some(
                PaymentMethodType::GooglePay,
            ),
            PaymentMethodDataView::Wallet(WalletData::PaypalSdk) => Some(PaymentMethodType::Paypal),
            PaymentMethodDataView::PayLater(PayLaterData::KlarnaSdk) => Some(
                PaymentMethodType::Klarna,
            ),
            _ => None,
        }
    }
}

impl PaymentMethodData {
    /// The payment method type of this data, where a session call hands such data out.
    pub fn get_payment_method_type_if_session_token_type(&self) -> (res: Option<PaymentMethodType>)
        ensures
            res == self@.session_token_type(),
    {
        match self {
            PaymentMethodData::Wallet(WalletData::ApplePay) => Some(PaymentMethodType::ApplePay),
            PaymentMethodData::Wallet(WalletData::GooglePay) => Some(PaymentMethodType::GooglePay),
            PaymentMethodData::Wallet(WalletData::PaypalSdk) => Some(PaymentMethodType::Paypal),
            PaymentMethodData::PayLater(PayLaterData::KlarnaSdk) => Some(PaymentMethodType::Klarna),
            _ => None,
        }
    }
}

/// The amount and currency that a mandate is limited to.
#[derive(Clone, Copy, Debug, PartialEq, Eq, Structural)]
pub struct MandateAmountData {
    pub amount: i64,
    pub currency: Currency,
}

/// Whether a mandate may be used once or many times, and up to which amount.
#[derive(Clone, Copy, Debug, PartialEq, Eq, Structural)]
pub enum MandateDataType {
    SingleUse(MandateAmountData),
    MultiUse(Option<MandateAmountData>),
}

/// The mandate that a request asks to set up.
#[derive(Clone, Copy, Debug, PartialEq, Eq, Structural)]
pub struct MandateData {
    pub customer_accepted: bool,
    pub mandate_type: Option<MandateDataType>,
}

/// The surcharge that a request declares.
#[derive(Clone, Copy, Debug, PartialEq, Eq, Structural)]
pub struct RequestSurchargeDetails {
    pub surcharge_amount: i64,
    pub tax_amount: Option<i64>,
}

impl PaymentIdType {
    /// A copy of an optional value.
    pub fn clone_opt(value: &Option<PaymentIdType>) -> (res: Option<PaymentIdType>)
        ensures
            opt_view(res) == opt_view(*value),
    {
        match value {
            Some(v) => Some(v.clone()),
            None => None,
        }
    }
}

impl PaymentMethodData {
    /// A copy of an optional value.
    pub fn clone_opt(value: &Option<PaymentMethodData>) -> (res: Option<PaymentMethodData>)
        ensures
            opt_view(res) == opt_view(*value),
    {
        match value {
            Some(v) => Some(v.clone()),
            None => None,
        }
    }
}






/// A postal address and the person it belongs to, as a request gives it.
#[derive(Debug, PartialEq)]
pub struct AddressDetails {
    pub line1: Option<String>,
    pub city: Option<String>,
    pub state: Option<String>,
    pub zip: Option<String>,
    pub country: Option<String>,
    pub first_name: Option<String>,
    pub last_name: Option<String>,
    pub phone_number: Option<String>,
}

/// The model of [`AddressDetails`]: the same fields, with text as sequences of characters.
pub struct AddressDetailsView {
    pub line1: Option<Seq<char>>,
    pub city: Option<Seq<char>>,
    pub state: Option<Seq<char>>,
    pub zip: Option<Seq<char>>,
    pub country: Option<Seq<char>>,
    pub first_name: Option<Seq<char>>,
    pub last_name: Option<Seq<char>>,
    pub phone_number: Option<Seq<char>>,
}

impl View for AddressDetails {
    type V = AddressDetailsView;

    open spec fn view(&self) -> AddressDetailsView {
        AddressDetailsView {
            line1: opt_view(self.line1),
            city: opt_view(self.city),
            state: opt_view(self.state),
            zip: opt_view(self.zip),
            country: opt_view(self.country),
            first_name: opt_view(self.first_name),
            last_name: opt_view(self.last_name),
            phone_number: opt_view(self.phone_number),
        }
    }
}

impl Clone for AddressDetails {
    fn clone(&self) -> (res: Self)
        ensures
            res@ == self@,
    {
        AddressDetails {
            line1: clone_opt_text(&self.line1),
            city: clone_opt_text(&self.city),
            state: clone_opt_text(&self.state),
            zip: clone_opt_text(&self.zip),
            country: clone_opt_text(&self.country),
            first_name: clone_opt_text(&self.first_name),
            last_name: clone_opt_text(&self.last_name),
            phone_number: clone_opt_text(&self.phone_number),
        }
    }
}

impl AddressDetails {
    /// A copy of an optional value.
    pub fn clone_opt(value: &Option<AddressDetails>) -> (res: Option<AddressDetails>)
        ensures
            opt_view(res) == opt_view(*value),
    {
        match value {
            Some(v) => Some(v.clone()),
            None => None,
        }
    }
}

/// The customer object of a request.
#[derive(Debug, PartialEq)]
pub struct RequestCustomer {
    pub id: String,
    pub name: Option<String>,
    pub email: Option<String>,
    pub phone: Option<String>,
    pub phone_country_code: Option<String>,
}

/// The model of [`RequestCustomer`]: the same fields, with text as sequences of characters.
pub struct RequestCustomerView {
    pub id: Seq<char>,
    pub name: Option<Seq<char>>,
    pub email: Option<Seq<char>>,
    pub phone: Option<Seq<char>>,
    pub phone_country_code: Option<Seq<char>>,
}

impl View for RequestCustomer {
    type V = RequestCustomerView;

    open spec fn view(&self) -> RequestCustomerView {
        RequestCustomerView {
            id: self.id@,
            name: opt_view(self.name),
            email: opt_view(self.email),
            phone: opt_view(self.phone),
            phone_country_code: opt_view(self.phone_country_code),
        }
    }
}

impl Clone for RequestCustomer {
    fn clone(&self) -> (res: Self)
        ensures
            res@ == self@,
    {
        RequestCustomer {
            id: self.id.clone(),
            name: clone_opt_text(&self.name),
            email: clone_opt_text(&self.email),
            phone: clone_opt_text(&self.phone),
            phone_country_code: clone_opt_text(&self.phone_country_code),
        }
    }
}

impl RequestCustomer {
    /// A copy of an optional value.
    pub fn clone_opt(value: &Option<RequestCustomer>) -> (res: Option<RequestCustomer>)
        ensures
            opt_view(res) == opt_view(*value),
    {
        match value {
            Some(v) => Some(v.clone()),
            None => None,
        }
    }
}

/// Card details as the customer entered them.
#[derive(Debug, PartialEq)]
pub struct Card {
    pub card_number: String,
    pub card_exp_month: String,
    pub card_exp_year: String,
    pub card_holder_name: Option<String>,
    pub card_cvc: String,
}

/// The model of [`Card`]: the same fields, with text as sequences of characters.
pub struct CardView {
    pub card_number: Seq<char>,
    pub card_exp_month: Seq<char>,
    pub card_exp_year: Seq<char>,
    pub card_holder_name: Option<Seq<char>>,
    pub card_cvc: Seq<char>,
}

impl View for Card {
    type V = CardView;

    open spec fn view(&self) -> CardView {
        CardView {
            card_number: self.card_number@,
            card_exp_month: self.card_exp_month@,
            card_exp_year: self.card_exp_year@,
            card_holder_name: opt_view(self.card_holder_name),
            card_cvc: self.card_cvc@,
        }
    }
}

impl Clone for Card {
    fn clone(&self) -> (res: Self)
        ensures
            res@ == self@,
    {
        Card {
            card_number: self.card_number.clone(),
            card_exp_month: self.card_exp_month.clone(),
            card_exp_year: self.card_exp_year.clone(),
            card_holder_name: clone_opt_text(&self.card_holder_name),
            card_cvc: self.card_cvc.clone(),
        }
    }
}

/// Connector credentials that override the merchant's stored ones for this payment.
#[derive(Debug, PartialEq)]
pub struct MerchantConnectorDetailsWrap {
    pub creds_identifier: String,
    pub encoded_data: Option<serde_json::Value>,
}

/// The model of [`MerchantConnectorDetailsWrap`]: the same fields, with text as
/// sequences of characters.
pub struct MerchantConnectorDetailsWrapView {
    pub creds_identifier: Seq<char>,
    pub encoded_data: Option<serde_json::Value>,
}

impl View for MerchantConnectorDetailsWrap {
    type V = MerchantConnectorDetailsWrapView;

    open spec fn view(&self) -> MerchantConnectorDetailsWrapView {
        MerchantConnectorDetailsWrapView {
            creds_identifier: self.creds_identifier@,
            encoded_data: self.encoded_data,
        }
    }
}

impl Clone for MerchantConnectorDetailsWrap {
    fn clone(&self) -> (res: Self)
        ensures
            res@ == self@,
    {
        MerchantConnectorDetailsWrap {
            creds_identifier: self.creds_identifier.clone(),
            encoded_data: clone_opt_value(&self.encoded_data),
        }
    }
}

impl MerchantConnectorDetailsWrap {
    /// A copy of an optional value.
    pub fn clone_opt(
        value: &Option<MerchantConnectorDetailsWrap>,
    ) -> (res: Option<MerchantConnectorDetailsWrap>)
        ensures
            opt_view(res) == opt_view(*value),
    {
        match value {
            Some(v) => Some(v.clone()),
            None => None,
        }
    }
}

/// A request to confirm a payment.
#[derive(Debug, PartialEq)]
pub struct PaymentsRequest {
    pub payment_id: Option<PaymentIdType>,
    pub merchant_id: Option<String>,
    pub customer_id: Option<String>,
    pub customer: Option<RequestCustomer>,
    pub email: Option<String>,
    pub name: Option<String>,
    pub phone: Option<String>,
    pub phone_country_code: Option<String>,
    pub payment_method: Option<PaymentMethod>,
    pub payment_method_type: Option<PaymentMethodType>,
    pub payment_method_data: Option<PaymentMethodData>,
    pub payment_token: Option<String>,
    pub payment_experience: Option<PaymentExperience>,
    pub capture_method: Option<CaptureMethod>,
    pub card_cvc: Option<String>,
    pub mandate_data: Option<MandateData>,
    pub mandate_id: Option<String>,
    pub setup_future_usage: Option<FutureUsage>,
    pub shipping: Option<AddressDetails>,
    pub billing: Option<AddressDetails>,
    pub return_url: Option<String>,
    pub surcharge_details: Option<RequestSurchargeDetails>,
    pub browser_info: Option<serde_json::Value>,
    pub routing: Option<serde_json::Value>,
    pub merchant_connector_details: Option<MerchantConnectorDetailsWrap>,
    pub retry_action: Option<RetryAction>,
    pub metadata: Option<serde_json::Value>,
    pub order_details: Option<Vec<serde_json::Value>>,
    pub allowed_payment_method_types: Option<serde_json::Value>,
    pub connector_metadata: Option<serde_json::Value>,
    pub feature_metadata: Option<serde_json::Value>,
    pub client_secret: Option<String>,
    pub confirm: Option<bool>,
    pub business_sub_label: Option<String>,
}

/// The model of [`PaymentsRequest`]: the same fields, with text as sequences of characters.
pub struct PaymentsRequestView {
    pub payment_id: Option<PaymentIdTypeView>,
    pub merchant_id: Option<Seq<char>>,
    pub customer_id: Option<Seq<char>>,
    pub customer: Option<RequestCustomerView>,
    pub email: Option<Seq<char>>,
    pub name: Option<Seq<char>>,
    pub phone: Option<Seq<char>>,
    pub phone_country_code: Option<Seq<char>>,
    pub payment_method: Option<PaymentMethod>,
    pub payment_method_type: Option<PaymentMethodType>,
    pub payment_method_data: Option<PaymentMethodDataView>,
    pub payment_token: Option<Seq<char>>,
    pub payment_experience: Option<PaymentExperience>,
    pub capture_method: Option<CaptureMethod>,
    pub card_cvc: Option<Seq<char>>,
    pub mandate_data: Option<MandateData>,
    pub mandate_id: Option<Seq<char>>,
    pub setup_future_usage: Option<FutureUsage>,
    pub shipping: Option<AddressDetailsView>,
    pub billing: Option<AddressDetailsView>,
    pub return_url: Option<Seq<char>>,
    pub surcharge_details: Option<RequestSurchargeDetails>,
    pub browser_info: Option<serde_json::Value>,
    pub routing: Option<serde_json::Value>,
    pub merchant_connector_details: Option<MerchantConnectorDetailsWrapView>,
    pub retry_action: Option<RetryAction>,
    pub metadata: Option<serde_json::Value>,
    pub order_details: Option<Seq<serde_json::Value>>,
    pub allowed_payment_method_types: Option<serde_json::Value>,
    pub connector_metadata: Option<serde_json::Value>,
    pub feature_metadata: Option<serde_json::Value>,
    pub client_secret: Option<Seq<char>>,
    pub confirm: Option<bool>,
    pub business_sub_label: Option<Seq<char>>,
}

impl View for PaymentsRequest {
    type V = PaymentsRequestView;

    open spec fn view(&self) -> PaymentsRequestView {
        PaymentsRequestView {
            payment_id: opt_view(self.payment_id),
            merchant_id: opt_view(self.merchant_id),
            customer_id: opt_view(self.customer_id),
            customer: opt_view(self.customer),
            email: opt_view(self.email),
            name: opt_view(self.name),
            phone: opt_view(self.phone),
            phone_country_code: opt_view(self.phone_country_code),
            payment_method: self.payment_method,
            payment_method_type: self.payment_method_type,
            payment_method_data: opt_view(self.payment_method_data),
            payment_token: opt_view(self.payment_token),
            payment_experience: self.payment_experience,
            capture_method: self.capture_method,
            card_cvc: opt_view(self.card_cvc),
            mandate_data: self.mandate_data,
            mandate_id: opt_view(self.mandate_id),
            setup_future_usage: self.setup_future_usage,
            shipping: opt_view(self.shipping),
            billing: opt_view(self.billing),
            return_url: opt_view(self.return_url),
            surcharge_details: self.surcharge_details,
            browser_info: self.browser_info,
            routing: self.routing,
            merchant_connector_details: opt_view(self.merchant_connector_details),
            retry_action: self.retry_action,
            metadata: self.metadata,
            order_details: opt_view(self.order_details),
            allowed_payment_method_types: self.allowed_payment_method_types,
            connector_metadata: self.connector_metadata,
            feature_metadata: self.feature_metadata,
            client_secret: opt_view(self.client_secret),
            confirm: self.confirm,
            business_sub_label: opt_view(self.business_sub_label),
        }
    }
}

impl Clone for PaymentsRequest {
    fn clone(&self) -> (res: Self)
        ensures
            res@ == self@,
    {
        PaymentsRequest {
            payment_id: PaymentIdType::clone_opt(&self.payment_id),
            merchant_id: clone_opt_text(&self.merchant_id),
            customer_id: clone_opt_text(&self.customer_id),
            customer: RequestCustomer::clone_opt(&self.customer),
            email: clone_opt_text(&self.email),
            name: clone_opt_text(&self.name),
            phone: clone_opt_text(&self.phone),
            phone_country_code: clone_opt_text(&self.phone_country_code),
            payment_method: self.payment_method,
            payment_method_type: self.payment_method_type,
            payment_method_data: PaymentMethodData::clone_opt(&self.payment_method_data),
            payment_token: clone_opt_text(&self.payment_token),
            payment_experience: self.payment_experience,
            capture_method: self.capture_method,
            card_cvc: clone_opt_text(&self.card_cvc),
            mandate_data: self.mandate_data,
            mandate_id: clone_opt_text(&self.mandate_id),
            setup_future_usage: self.setup_future_usage,
            shipping: AddressDetails::clone_opt(&self.shipping),
            billing: AddressDetails::clone_opt(&self.billing),
            return_url: clone_opt_text(&self.return_url),
            surcharge_details: self.surcharge_details,
            browser_info: clone_opt_value(&self.browser_info),
            routing: clone_opt_value(&self.routing),
            merchant_connector_details: MerchantConnectorDetailsWrap::clone_opt(
                &self.merchant_connector_details,
            ),
            retry_action: self.retry_action,
            metadata: clone_opt_value(&self.metadata),
            order_details: clone_opt_values(&self.order_details),
            allowed_payment_method_types: clone_opt_value(&self.allowed_payment_method_types),
            connector_metadata: clone_opt_value(&self.connector_metadata),
            feature_metadata: clone_opt_value(&self.feature_metadata),
            client_secret: clone_opt_text(&self.client_secret),
            confirm: self.confirm,
            business_sub_label: clone_opt_text(&self.business_sub_label),
        }
    }
}

impl PaymentsRequestView {
    /// The model in which nothing is set.
    pub open spec fn empty() -> PaymentsRequestView {
        PaymentsRequestView {
            payment_id: None,
            merchant_id: None,
            customer_id: None,
            customer: None,
            email: None,
            name: None,
            phone: None,
            phone_country_code: None,
            payment_method: None,
            payment_method_type: None,
            payment_method_data: None,
            payment_token: None,
            payment_experience: None,
            capture_method: None,
            card_cvc: None,
            mandate_data: None,
            mandate_id: None,
            setup_future_usage: None,
            shipping: None,
            billing: None,
            return_url: None,
            surcharge_details: None,
            browser_info: None,
            routing: None,
            merchant_connector_details: None,
            retry_action: None,
            metadata: None,
            order_details: None,
            allowed_payment_method_types: None,
            connector_metadata: None,
            feature_metadata: None,
            client_secret: None,
            confirm: None,
            business_sub_label: None,
        }
    }
}

impl Default for PaymentsRequest {
    fn default() -> (res: Self)
        ensures
            res@ == PaymentsRequestView::empty(),
    {
        PaymentsRequest {
            payment_id: None,
            merchant_id: None,
            customer_id: None,
            customer: None,
            email: None,
            name: None,
            phone: None,
            phone_country_code: None,
            payment_method: None,
            payment_method_type: None,
            payment_method_data: None,
            payment_token: None,
            payment_experience: None,
            capture_method: None,
            card_cvc: None,
            mandate_data: None,
            mandate_id: None,
            setup_future_usage: None,
            shipping: None,
            billing: None,
            return_url: None,
            surcharge_details: None,
            browser_info: None,
            routing: None,
            merchant_connector_details: None,
            retry_action: None,
            metadata: None,
            order_details: None,
            allowed_payment_method_types: None,
            connector_metadata: None,
            feature_metadata: None,
            client_secret: None,
            confirm: None,
            business_sub_label: None,
        }
    }
}
} // verus!
