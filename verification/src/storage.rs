//! The records that the resource store keeps, and the changes made to them.

use vstd::prelude::*;
use crate::enums::{
    AttemptStatus, AuthenticationType, CaptureMethod, CountryAlpha2, Currency, FutureUsage,
    IntentStatus, MerchantStorageScheme, PaymentExperience, PaymentMethod, PaymentMethodType,
    PaymentSource,
};
use crate::json::{clone_opt_value, clone_opt_values};
use crate::request::{AddressDetails, AddressDetailsView, MandateDataType};
use crate::views::{clone_opt_opt_text, clone_opt_text, opt_opt_view, opt_view};

verus! {

/// The durable record of one purchase.
#[derive(Debug, PartialEq)]
pub struct PaymentIntent {
    pub payment_id: String,
    pub merchant_id: String,
    pub status: IntentStatus,
    pub amount: i64,
    pub currency: Option<Currency>,
    pub customer_id: Option<String>,
    pub description: Option<String>,
    pub return_url: Option<String>,
    pub business_country: Option<CountryAlpha2>,
    pub business_label: Option<String>,
    pub metadata: Option<serde_json::Value>,
    pub statement_descriptor_name: Option<String>,
    pub statement_descriptor_suffix: Option<String>,
    pub created_at: i64,
    pub modified_at: i64,
    pub setup_future_usage: Option<FutureUsage>,
    pub client_secret: Option<String>,
    pub active_attempt_id: String,
    pub attempt_count: u32,
    pub order_details: Option<Vec<serde_json::Value>>,
    pub allowed_payment_method_types: Option<serde_json::Value>,
    pub connector_metadata: Option<serde_json::Value>,
    pub feature_metadata: Option<serde_json::Value>,
    pub shipping_address_id: Option<String>,
    pub billing_address_id: Option<String>,
    pub payment_link_id: Option<String>,
    pub payment_confirm_source: Option<PaymentSource>,
    pub updated_by: String,
}

/// The model of [`PaymentIntent`]: the same fields, with text as sequences of characters.
pub struct PaymentIntentView {
    pub payment_id: Seq<char>,
    pub merchant_id: Seq<char>,
    pub status: IntentStatus,
    pub amount: i64,
    pub currency: Option<Currency>,
    pub customer_id: Option<Seq<char>>,
    pub description: Option<Seq<char>>,
    pub return_url: Option<Seq<char>>,
    pub business_country: Option<CountryAlpha2>,
    pub business_label: Option<Seq<char>>,
    pub metadata: Option<serde_json::Value>,
    pub statement_descriptor_name: Option<Seq<char>>,
    pub statement_descriptor_suffix: Option<Seq<char>>,
    pub created_at: i64,
    pub modified_at: i64,
    pub setup_future_usage: Option<FutureUsage>,
    pub client_secret: Option<Seq<char>>,
    pub active_attempt_id: Seq<char>,
    pub attempt_count: u32,
    pub order_details: Option<Seq<serde_json::Value>>,
    pub allowed_payment_method_types: Option<serde_json::Value>,
    pub connector_metadata: Option<serde_json::Value>,
    pub feature_metadata: Option<serde_json::Value>,
    pub shipping_address_id: Option<Seq<char>>,
    pub billing_address_id: Option<Seq<char>>,
    pub payment_link_id: Option<Seq<char>>,
    pub payment_confirm_source: Option<PaymentSource>,
    pub updated_by: Seq<char>,
}

impl View for PaymentIntent {
    type V = PaymentIntentView;

    open spec fn view(&self) -> PaymentIntentView {
        PaymentIntentView {
            payment_id: self.payment_id@,
            merchant_id: self.merchant_id@,
            status: self.status,
            amount: self.amount,
            currency: self.currency,
            customer_id: opt_view(self.customer_id),
            description: opt_view(self.description),
            return_url: opt_view(self.return_url),
            business_country: self.business_country,
            business_label: opt_view(self.business_label),
            metadata: self.metadata,
            statement_descriptor_name: opt_view(self.statement_descriptor_name),
            statement_descriptor_suffix: opt_view(self.statement_descriptor_suffix),
            created_at: self.created_at,
            modified_at: self.modified_at,
            setup_future_usage: self.setup_future_usage,
            client_secret: opt_view(self.client_secret),
            active_attempt_id: self.active_attempt_id@,
            attempt_count: self.attempt_count,
            order_details: opt_view(self.order_details),
            allowed_payment_method_types: self.allowed_payment_method_types,
            connector_metadata: self.connector_metadata,
            feature_metadata: self.feature_metadata,
            shipping_address_id: opt_view(self.shipping_address_id),
            billing_address_id: opt_view(self.billing_address_id),
            payment_link_id: opt_view(self.payment_link_id),
            payment_confirm_source: self.payment_confirm_source,
            updated_by: self.updated_by@,
        }
    }
}

impl DeepView for PaymentIntent {
    type V = PaymentIntentView;

    open spec fn deep_view(&self) -> PaymentIntentView {
        self@
    }
}

impl Clone for PaymentIntent {
    fn clone(&self) -> (res: Self)
        ensures
            res@ == self@,
    {
        PaymentIntent {
            payment_id: self.payment_id.clone(),
            merchant_id: self.merchant_id.clone(),
            status: self.status,
            amount: self.amount,
            currency: self.currency,
            customer_id: clone_opt_text(&self.customer_id),
            description: clone_opt_text(&self.description),
            return_url: clone_opt_text(&self.return_url),
            business_country: self.business_country,
            business_label: clone_opt_text(&self.business_label),
            metadata: clone_opt_value(&self.metadata),
            statement_descriptor_name: clone_opt_text(&self.statement_descriptor_name),
            statement_descriptor_suffix: clone_opt_text(&self.statement_descriptor_suffix),
            created_at: self.created_at,
            modified_at: self.modified_at,
            setup_future_usage: self.setup_future_usage,
            client_secret: clone_opt_text(&self.client_secret),
            active_attempt_id: self.active_attempt_id.clone(),
            attempt_count: self.attempt_count,
            order_details: clone_opt_values(&self.order_details),
            allowed_payment_method_types: clone_opt_value(&self.allowed_payment_method_types),
            connector_metadata: clone_opt_value(&self.connector_metadata),
            feature_metadata: clone_opt_value(&self.feature_metadata),
            shipping_address_id: clone_opt_text(&self.shipping_address_id),
            billing_address_id: clone_opt_text(&self.billing_address_id),
            payment_link_id: clone_opt_text(&self.payment_link_id),
            payment_confirm_source: self.payment_confirm_source,
            updated_by: self.updated_by.clone(),
        }
    }
}

/// One execution of an intent against one connector.
#[derive(Debug, PartialEq)]
pub struct PaymentAttempt {
    pub payment_id: String,
    pub merchant_id: String,
    pub attempt_id: String,
    pub status: AttemptStatus,
    pub amount: i64,
    pub currency: Option<Currency>,
    pub surcharge_amount: Option<i64>,
    pub tax_amount: Option<i64>,
    pub payment_method: Option<PaymentMethod>,
    pub payment_method_type: Option<PaymentMethodType>,
    pub payment_experience: Option<PaymentExperience>,
    pub capture_method: Option<CaptureMethod>,
    pub authentication_type: Option<AuthenticationType>,
    pub connector: Option<String>,
    pub merchant_connector_id: Option<String>,
    pub browser_info: Option<serde_json::Value>,
    pub payment_token: Option<String>,
    pub payment_method_data: Option<serde_json::Value>,
    pub mandate_id: Option<String>,
    pub mandate_details: Option<MandateDataType>,
    pub business_sub_label: Option<String>,
    pub straight_through_algorithm: Option<serde_json::Value>,
    pub error_code: Option<String>,
    pub error_message: Option<String>,
    pub amount_capturable: i64,
    pub created_at: i64,
    pub modified_at: i64,
    pub updated_by: String,
}

/// The model of [`PaymentAttempt`]: the same fields, with text as sequences of characters.
pub struct PaymentAttemptView {
    pub payment_id: Seq<char>,
    pub merchant_id: Seq<char>,
    pub attempt_id: Seq<char>,
    pub status: AttemptStatus,
    pub amount: i64,
    pub currency: Option<Currency>,
    pub surcharge_amount: Option<i64>,
    pub tax_amount: Option<i64>,
    pub payment_method: Option<PaymentMethod>,
    pub payment_method_type: Option<PaymentMethodType>,
    pub payment_experience: Option<PaymentExperience>,
    pub capture_method: Option<CaptureMethod>,
    pub authentication_type: Option<AuthenticationType>,
    pub connector: Option<Seq<char>>,
    pub merchant_connector_id: Option<Seq<char>>,
    pub browser_info: Option<serde_json::Value>,
    pub payment_token: Option<Seq<char>>,
    pub payment_method_data: Option<serde_json::Value>,
    pub mandate_id: Option<Seq<char>>,
    pub mandate_details: Option<MandateDataType>,
    pub business_sub_label: Option<Seq<char>>,
    pub straight_through_algorithm: Option<serde_json::Value>,
    pub error_code: Option<Seq<char>>,
    pub error_message: Option<Seq<char>>,
    pub amount_capturable: i64,
    pub created_at: i64,
    pub modified_at: i64,
    pub updated_by: Seq<char>,
}

impl View for PaymentAttempt {
    type V = PaymentAttemptView;

    open spec fn view(&self) -> PaymentAttemptView {
        PaymentAttemptView {
            payment_id: self.payment_id@,
            merchant_id: self.merchant_id@,
            attempt_id: self.attempt_id@,
            status: self.status,
            amount: self.amount,
            currency: self.currency,
            surcharge_amount: self.surcharge_amount,
            tax_amount: self.tax_amount,
            payment_method: self.payment_method,
            payment_method_type: self.payment_method_type,
            payment_experience: self.payment_experience,
            capture_method: self.capture_method,
            authentication_type: self.authentication_type,
            connector: opt_view(self.connector),
            merchant_connector_id: opt_view(self.merchant_connector_id),
            browser_info: self.browser_info,
            payment_token: opt_view(self.payment_token),
            payment_method_data: self.payment_method_data,
            mandate_id: opt_view(self.mandate_id),
            mandate_details: self.mandate_details,
            business_sub_label: opt_view(self.business_sub_label),
            straight_through_algorithm: self.straight_through_algorithm,
            error_code: opt_view(self.error_code),
            error_message: opt_view(self.error_message),
            amount_capturable: self.amount_capturable,
            created_at: self.created_at,
            modified_at: self.modified_at,
            updated_by: self.updated_by@,
        }
    }
}

impl DeepView for PaymentAttempt {
    type V = PaymentAttemptView;

    open spec fn deep_view(&self) -> PaymentAttemptView {
        self@
    }
}

impl Clone for PaymentAttempt {
    fn clone(&self) -> (res: Self)
        ensures
            res@ == self@,
    {
        PaymentAttempt {
            payment_id: self.payment_id.clone(),
            merchant_id: self.merchant_id.clone(),
            attempt_id: self.attempt_id.clone(),
            status: self.status,
            amount: self.amount,
            currency: self.currency,
            surcharge_amount: self.surcharge_amount,
            tax_amount: self.tax_amount,
            payment_method: self.payment_method,
            payment_method_type: self.payment_method_type,
            payment_experience: self.payment_experience,
            capture_method: self.capture_method,
            authentication_type: self.authentication_type,
            connector: clone_opt_text(&self.connector),
            merchant_connector_id: clone_opt_text(&self.merchant_connector_id),
            browser_info: clone_opt_value(&self.browser_info),
            payment_token: clone_opt_text(&self.payment_token),
            payment_method_data: clone_opt_value(&self.payment_method_data),
            mandate_id: clone_opt_text(&self.mandate_id),
            mandate_details: self.mandate_details,
            business_sub_label: clone_opt_text(&self.business_sub_label),
            straight_through_algorithm: clone_opt_value(&self.straight_through_algorithm),
            error_code: clone_opt_text(&self.error_code),
            error_message: clone_opt_text(&self.error_message),
            amount_capturable: self.amount_capturable,
            created_at: self.created_at,
            modified_at: self.modified_at,
            updated_by: self.updated_by.clone(),
        }
    }
}

/// A stored billing or shipping address.
#[derive(Debug, PartialEq)]
pub struct Address {
    pub address_id: String,
    pub merchant_id: String,
    pub customer_id: Option<String>,
    pub payment_id: Option<String>,
    pub details: AddressDetails,
    pub created_at: i64,
    pub modified_at: i64,
}

/// The model of [`Address`]: the same fields, with text as sequences of characters.
pub struct AddressView {
    pub address_id: Seq<char>,
    pub merchant_id: Seq<char>,
    pub customer_id: Option<Seq<char>>,
    pub payment_id: Option<Seq<char>>,
    pub details: AddressDetailsView,
    pub created_at: i64,
    pub modified_at: i64,
}

impl View for Address {
    type V = AddressView;

    open spec fn view(&self) -> AddressView {
        AddressView {
            address_id: self.address_id@,
            merchant_id: self.merchant_id@,
            customer_id: opt_view(self.customer_id),
            payment_id: opt_view(self.payment_id),
            details: self.details@,
            created_at: self.created_at,
            modified_at: self.modified_at,
        }
    }
}

impl DeepView for Address {
    type V = AddressView;

    open spec fn deep_view(&self) -> AddressView {
        self@
    }
}

impl Clone for Address {
    fn clone(&self) -> (res: Self)
        ensures
            res@ == self@,
    {
        Address {
            address_id: self.address_id.clone(),
            merchant_id: self.merchant_id.clone(),
            customer_id: clone_opt_text(&self.customer_id),
            payment_id: clone_opt_text(&self.payment_id),
            details: self.details.clone(),
            created_at: self.created_at,
            modified_at: self.modified_at,
        }
    }
}

impl Address {
    /// A copy of an optional value.
    pub fn clone_opt(value: &Option<Address>) -> (res: Option<Address>)
        ensures
            opt_view(res) == opt_view(*value),
    {
        match value {
            Some(v) => Some(v.clone()),
            None => None,
        }
    }
}

/// A stored customer.
#[derive(Debug, PartialEq)]
pub struct Customer {
    pub customer_id: String,
    pub merchant_id: String,
    pub name: Option<String>,
    pub email: Option<String>,
    pub phone: Option<String>,
    pub connector_customer: Option<serde_json::Value>,
}

/// The model of [`Customer`]: the same fields, with text as sequences of characters.
pub struct CustomerView {
    pub customer_id: Seq<char>,
    pub merchant_id: Seq<char>,
    pub name: Option<Seq<char>>,
    pub email: Option<Seq<char>>,
    pub phone: Option<Seq<char>>,
    pub connector_customer: Option<serde_json::Value>,
}

impl View for Customer {
    type V = CustomerView;

    open spec fn view(&self) -> CustomerView {
        CustomerView {
            customer_id: self.customer_id@,
            merchant_id: self.merchant_id@,
            name: opt_view(self.name),
            email: opt_view(self.email),
            phone: opt_view(self.phone),
            connector_customer: self.connector_customer,
        }
    }
}

impl DeepView for Customer {
    type V = CustomerView;

    open spec fn deep_view(&self) -> CustomerView {
        self@
    }
}

impl Clone for Customer {
    fn clone(&self) -> (res: Self)
        ensures
            res@ == self@,
    {
        Customer {
            customer_id: self.customer_id.clone(),
            merchant_id: self.merchant_id.clone(),
            name: clone_opt_text(&self.name),
            email: clone_opt_text(&self.email),
            phone: clone_opt_text(&self.phone),
            connector_customer: clone_opt_value(&self.connector_customer),
        }
    }
}

/// A change to a stored customer: what the connectors know the customer as.
#[derive(Debug, PartialEq)]
pub struct CustomerUpdate {
    pub connector_customer: Option<serde_json::Value>,
}

/// The model of [`CustomerUpdate`]: the same fields, with text as sequences of characters.
pub struct CustomerUpdateView {
    pub connector_customer: Option<serde_json::Value>,
}

impl View for CustomerUpdate {
    type V = CustomerUpdateView;

    open spec fn view(&self) -> CustomerUpdateView {
        CustomerUpdateView {
            connector_customer: self.connector_customer,
        }
    }
}

impl Clone for CustomerUpdate {
    fn clone(&self) -> (res: Self)
        ensures
            res@ == self@,
    {
        CustomerUpdate {
            connector_customer: clone_opt_value(&self.connector_customer),
        }
    }
}

/// Connector credentials that a request brought for a merchant, kept under the
/// identifier that the request gave them.
#[derive(Debug, PartialEq)]
pub struct ConnectorCredentials {
    pub merchant_id: String,
    pub creds_identifier: String,
    pub encoded_data: Option<serde_json::Value>,
}

/// The model of [`ConnectorCredentials`]: the same fields, with text as sequences of characters.
pub struct ConnectorCredentialsView {
    pub merchant_id: Seq<char>,
    pub creds_identifier: Seq<char>,
    pub encoded_data: Option<serde_json::Value>,
}

impl View for ConnectorCredentials {
    type V = ConnectorCredentialsView;

    open spec fn view(&self) -> ConnectorCredentialsView {
        ConnectorCredentialsView {
            merchant_id: self.merchant_id@,
            creds_identifier: self.creds_identifier@,
            encoded_data: self.encoded_data,
        }
    }
}

impl DeepView for ConnectorCredentials {
    type V = ConnectorCredentialsView;

    open spec fn deep_view(&self) -> ConnectorCredentialsView {
        self@
    }
}

impl Clone for ConnectorCredentials {
    fn clone(&self) -> (res: Self)
        ensures
            res@ == self@,
    {
        ConnectorCredentials {
            merchant_id: self.merchant_id.clone(),
            creds_identifier: self.creds_identifier.clone(),
            encoded_data: clone_opt_value(&self.encoded_data),
        }
    }
}

/// What the pipeline reads of the merchant on whose behalf it runs.
#[derive(Debug, PartialEq)]
pub struct MerchantAccount {
    pub merchant_id: String,
    pub storage_scheme: MerchantStorageScheme,
    pub return_url: Option<String>,
    pub intent_fulfillment_time: Option<i64>,
    pub publishable_key: Option<String>,
    pub merchant_name: Option<String>,
}

/// The model of [`MerchantAccount`]: the same fields, with text as sequences of characters.
pub struct MerchantAccountView {
    pub merchant_id: Seq<char>,
    pub storage_scheme: MerchantStorageScheme,
    pub return_url: Option<Seq<char>>,
    pub intent_fulfillment_time: Option<i64>,
    pub publishable_key: Option<Seq<char>>,
    pub merchant_name: Option<Seq<char>>,
}

impl View for MerchantAccount {
    type V = MerchantAccountView;

    open spec fn view(&self) -> MerchantAccountView {
        MerchantAccountView {
            merchant_id: self.merchant_id@,
            storage_scheme: self.storage_scheme,
            return_url: opt_view(self.return_url),
            intent_fulfillment_time: self.intent_fulfillment_time,
            publishable_key: opt_view(self.publishable_key),
            merchant_name: opt_view(self.merchant_name),
        }
    }
}

impl Clone for MerchantAccount {
    fn clone(&self) -> (res: Self)
        ensures
            res@ == self@,
    {
        MerchantAccount {
            merchant_id: self.merchant_id.clone(),
            storage_scheme: self.storage_scheme,
            return_url: clone_opt_text(&self.return_url),
            intent_fulfillment_time: self.intent_fulfillment_time,
            publishable_key: clone_opt_text(&self.publishable_key),
            merchant_name: clone_opt_text(&self.merchant_name),
        }
    }
}

/// The change that a confirmation makes to its attempt. An absent value leaves
/// the stored one as it is.
#[derive(Debug, PartialEq)]
pub struct PaymentAttemptUpdate {
    pub amount: i64,
    pub currency: Currency,
    pub status: AttemptStatus,
    pub authentication_type: Option<AuthenticationType>,
    pub payment_method: Option<PaymentMethod>,
    pub browser_info: Option<serde_json::Value>,
    pub connector: Option<String>,
    pub payment_token: Option<String>,
    pub payment_method_data: Option<serde_json::Value>,
    pub payment_method_type: Option<PaymentMethodType>,
    pub payment_experience: Option<PaymentExperience>,
    pub business_sub_label: Option<String>,
    pub straight_through_algorithm: Option<serde_json::Value>,
    pub error_code: Option<Option<String>>,
    pub error_message: Option<Option<String>>,
    pub amount_capturable: Option<i64>,
    pub updated_by: String,
    pub merchant_connector_id: Option<String>,
}

/// The model of [`PaymentAttemptUpdate`]: the same fields, with text as sequences of characters.
pub struct PaymentAttemptUpdateView {
    pub amount: i64,
    pub currency: Currency,
    pub status: AttemptStatus,
    pub authentication_type: Option<AuthenticationType>,
    pub payment_method: Option<PaymentMethod>,
    pub browser_info: Option<serde_json::Value>,
    pub connector: Option<Seq<char>>,
    pub payment_token: Option<Seq<char>>,
    pub payment_method_data: Option<serde_json::Value>,
    pub payment_method_type: Option<PaymentMethodType>,
    pub payment_experience: Option<PaymentExperience>,
    pub business_sub_label: Option<Seq<char>>,
    pub straight_through_algorithm: Option<serde_json::Value>,
    pub error_code: Option<Option<Seq<char>>>,
    pub error_message: Option<Option<Seq<char>>>,
    pub amount_capturable: Option<i64>,
    pub updated_by: Seq<char>,
    pub merchant_connector_id: Option<Seq<char>>,
}

impl View for PaymentAttemptUpdate {
    type V = PaymentAttemptUpdateView;

    open spec fn view(&self) -> PaymentAttemptUpdateView {
        PaymentAttemptUpdateView {
            amount: self.amount,
            currency: self.currency,
            status: self.status,
            authentication_type: self.authentication_type,
            payment_method: self.payment_method,
            browser_info: self.browser_info,
            connector: opt_view(self.connector),
            payment_token: opt_view(self.payment_token),
            payment_method_data: self.payment_method_data,
            payment_method_type: self.payment_method_type,
            payment_experience: self.payment_experience,
            business_sub_label: opt_view(self.business_sub_label),
            straight_through_algorithm: self.straight_through_algorithm,
            error_code: opt_opt_view(self.error_code),
            error_message: opt_opt_view(self.error_message),
            amount_capturable: self.amount_capturable,
            updated_by: self.updated_by@,
            merchant_connector_id: opt_view(self.merchant_connector_id),
        }
    }
}

impl Clone for PaymentAttemptUpdate {
    fn clone(&self) -> (res: Self)
        ensures
            res@ == self@,
    {
        PaymentAttemptUpdate {
            amount: self.amount,
            currency: self.currency,
            status: self.status,
            authentication_type: self.authentication_type,
            payment_method: self.payment_method,
            browser_info: clone_opt_value(&self.browser_info),
            connector: clone_opt_text(&self.connector),
            payment_token: clone_opt_text(&self.payment_token),
            payment_method_data: clone_opt_value(&self.payment_method_data),
            payment_method_type: self.payment_method_type,
            payment_experience: self.payment_experience,
            business_sub_label: clone_opt_text(&self.business_sub_label),
            straight_through_algorithm: clone_opt_value(&self.straight_through_algorithm),
            error_code: clone_opt_opt_text(&self.error_code),
            error_message: clone_opt_opt_text(&self.error_message),
            amount_capturable: self.amount_capturable,
            updated_by: self.updated_by.clone(),
            merchant_connector_id: clone_opt_text(&self.merchant_connector_id),
        }
    }
}

/// The change that a confirmation makes to its intent. An absent value leaves
/// the stored one as it is.
#[derive(Debug, PartialEq)]
pub struct PaymentIntentConfirmUpdate {
    pub amount: i64,
    pub currency: Currency,
    pub setup_future_usage: Option<FutureUsage>,
    pub status: IntentStatus,
    pub customer_id: Option<String>,
    pub shipping_address_id: Option<String>,
    pub billing_address_id: Option<String>,
    pub return_url: Option<String>,
    pub business_country: Option<CountryAlpha2>,
    pub business_label: Option<String>,
    pub description: Option<String>,
    pub statement_descriptor_name: Option<String>,
    pub statement_descriptor_suffix: Option<String>,
    pub order_details: Option<Vec<serde_json::Value>>,
    pub metadata: Option<serde_json::Value>,
    pub payment_confirm_source: Option<PaymentSource>,
    pub updated_by: String,
}

/// The model of [`PaymentIntentConfirmUpdate`]: the same fields, with text as
/// sequences of characters.
pub struct PaymentIntentConfirmUpdateView {
    pub amount: i64,
    pub currency: Currency,
    pub setup_future_usage: Option<FutureUsage>,
    pub status: IntentStatus,
    pub customer_id: Option<Seq<char>>,
    pub shipping_address_id: Option<Seq<char>>,
    pub billing_address_id: Option<Seq<char>>,
    pub return_url: Option<Seq<char>>,
    pub business_country: Option<CountryAlpha2>,
    pub business_label: Option<Seq<char>>,
    pub description: Option<Seq<char>>,
    pub statement_descriptor_name: Option<Seq<char>>,
    pub statement_descriptor_suffix: Option<Seq<char>>,
    pub order_details: Option<Seq<serde_json::Value>>,
    pub metadata: Option<serde_json::Value>,
    pub payment_confirm_source: Option<PaymentSource>,
    pub updated_by: Seq<char>,
}

impl View for PaymentIntentConfirmUpdate {
    type V = PaymentIntentConfirmUpdateView;

    open spec fn view(&self) -> PaymentIntentConfirmUpdateView {
        PaymentIntentConfirmUpdateView {
            amount: self.amount,
            currency: self.currency,
            setup_future_usage: self.setup_future_usage,
            status: self.status,
            customer_id: opt_view(self.customer_id),
            shipping_address_id: opt_view(self.shipping_address_id),
            billing_address_id: opt_view(self.billing_address_id),
            return_url: opt_view(self.return_url),
            business_country: self.business_country,
            business_label: opt_view(self.business_label),
            description: opt_view(self.description),
            statement_descriptor_name: opt_view(self.statement_descriptor_name),
            statement_descriptor_suffix: opt_view(self.statement_descriptor_suffix),
            order_details: opt_view(self.order_details),
            metadata: self.metadata,
            payment_confirm_source: self.payment_confirm_source,
            updated_by: self.updated_by@,
        }
    }
}

impl Clone for PaymentIntentConfirmUpdate {
    fn clone(&self) -> (res: Self)
        ensures
            res@ == self@,
    {
        PaymentIntentConfirmUpdate {
            amount: self.amount,
            currency: self.currency,
            setup_future_usage: self.setup_future_usage,
            status: self.status,
            customer_id: clone_opt_text(&self.customer_id),
            shipping_address_id: clone_opt_text(&self.shipping_address_id),
            billing_address_id: clone_opt_text(&self.billing_address_id),
            return_url: clone_opt_text(&self.return_url),
            business_country: self.business_country,
            business_label: clone_opt_text(&self.business_label),
            description: clone_opt_text(&self.description),
            statement_descriptor_name: clone_opt_text(&self.statement_descriptor_name),
            statement_descriptor_suffix: clone_opt_text(&self.statement_descriptor_suffix),
            order_details: clone_opt_values(&self.order_details),
            metadata: clone_opt_value(&self.metadata),
            payment_confirm_source: self.payment_confirm_source,
            updated_by: self.updated_by.clone(),
        }
    }
}

/// The change that links a new attempt to its intent.
#[derive(Debug, PartialEq)]
pub struct StatusAndAttemptUpdate {
    pub status: IntentStatus,
    pub active_attempt_id: String,
    pub attempt_count: u32,
    pub updated_by: String,
}

/// The model of [`StatusAndAttemptUpdate`]: the same fields, with text as sequences of characters.
pub struct StatusAndAttemptUpdateView {
    pub status: IntentStatus,
    pub active_attempt_id: Seq<char>,
    pub attempt_count: u32,
    pub updated_by: Seq<char>,
}

impl View for StatusAndAttemptUpdate {
    type V = StatusAndAttemptUpdateView;

    open spec fn view(&self) -> StatusAndAttemptUpdateView {
        StatusAndAttemptUpdateView {
            status: self.status,
            active_attempt_id: self.active_attempt_id@,
            attempt_count: self.attempt_count,
            updated_by: self.updated_by@,
        }
    }
}

impl Clone for StatusAndAttemptUpdate {
    fn clone(&self) -> (res: Self)
        ensures
            res@ == self@,
    {
        StatusAndAttemptUpdate {
            status: self.status,
            active_attempt_id: self.active_attempt_id.clone(),
            attempt_count: self.attempt_count,
            updated_by: self.updated_by.clone(),
        }
    }
}

/// A change to a stored intent.
#[derive(Debug, PartialEq)]
pub enum PaymentIntentUpdate {
    Update(PaymentIntentConfirmUpdate),
    StatusAndAttemptUpdate(StatusAndAttemptUpdate),
}

/// The model of [`PaymentIntentUpdate`].
pub enum PaymentIntentUpdateView {
    Update(PaymentIntentConfirmUpdateView),
    StatusAndAttemptUpdate(StatusAndAttemptUpdateView),
}

impl View for PaymentIntentUpdate {
    type V = PaymentIntentUpdateView;

    open spec fn view(&self) -> PaymentIntentUpdateView {
        match self {
            PaymentIntentUpdate::Update(update) => PaymentIntentUpdateView::Update(update@),
            PaymentIntentUpdate::StatusAndAttemptUpdate(update) => {
                PaymentIntentUpdateView::StatusAndAttemptUpdate(update@)
            },
        }
    }
}

impl Clone for PaymentIntentUpdate {
    fn clone(&self) -> (res: Self)
        ensures
            res@ == self@,
    {
        match self {
            PaymentIntentUpdate::Update(update) => PaymentIntentUpdate::Update(update.clone()),
            PaymentIntentUpdate::StatusAndAttemptUpdate(update) => {
                PaymentIntentUpdate::StatusAndAttemptUpdate(update.clone())
            },
        }
    }
}






/// A stored link to a hosted payment page.
#[derive(Debug, PartialEq)]
pub struct PaymentLink {
    pub payment_link_id: String,
    pub payment_id: String,
    pub merchant_id: String,
    pub link_to_pay: String,
    pub amount: i64,
    pub currency: Option<Currency>,
    pub created_at: i64,
    pub last_modified_at: i64,
    pub fulfilment_time: Option<i64>,
    pub custom_merchant_name: Option<String>,
}

/// The model of [`PaymentLink`]: the same fields, with text as sequences of characters.
pub struct PaymentLinkView {
    pub payment_link_id: Seq<char>,
    pub payment_id: Seq<char>,
    pub merchant_id: Seq<char>,
    pub link_to_pay: Seq<char>,
    pub amount: i64,
    pub currency: Option<Currency>,
    pub created_at: i64,
    pub last_modified_at: i64,
    pub fulfilment_time: Option<i64>,
    pub custom_merchant_name: Option<Seq<char>>,
}

impl View for PaymentLink {
    type V = PaymentLinkView;

    open spec fn view(&self) -> PaymentLinkView {
        PaymentLinkView {
            payment_link_id: self.payment_link_id@,
            payment_id: self.payment_id@,
            merchant_id: self.merchant_id@,
            link_to_pay: self.link_to_pay@,
            amount: self.amount,
            currency: self.currency,
            created_at: self.created_at,
            last_modified_at: self.last_modified_at,
            fulfilment_time: self.fulfilment_time,
            custom_merchant_name: opt_view(self.custom_merchant_name),
        }
    }
}

impl DeepView for PaymentLink {
    type V = PaymentLinkView;

    open spec fn deep_view(&self) -> PaymentLinkView {
        self@
    }
}

impl Clone for PaymentLink {
    fn clone(&self) -> (res: Self)
        ensures
            res@ == self@,
    {
        PaymentLink {
            payment_link_id: self.payment_link_id.clone(),
            payment_id: self.payment_id.clone(),
            merchant_id: self.merchant_id.clone(),
            link_to_pay: self.link_to_pay.clone(),
            amount: self.amount,
            currency: self.currency,
            created_at: self.created_at,
            last_modified_at: self.last_modified_at,
            fulfilment_time: self.fulfilment_time,
            custom_merchant_name: clone_opt_text(&self.custom_merchant_name),
        }
    }
}
} // verus!
