//! The request validator: what a confirm request must satisfy before
//! anything is read from the store, and what is derived from it.

use vstd::prelude::*;
use vstd::string::StrSliceExecFns;
use crate::enums::{MandateTransactionType, MerchantStorageScheme, PaymentMethod, RetryAction};
use crate::errors::{ApiErrorResponse, ValidationFailure};
use crate::payment_confirm::PaymentConfirm;
use crate::request::{
    Card, CardView, PaymentIdType, PaymentIdTypeView, PaymentMethodData, PaymentMethodDataView,
    PaymentsRequest, PaymentsRequestView,
};
use crate::storage::{MerchantAccount, MerchantAccountView};
use crate::views::opt_view;

verus! {

/// The greatest length of an identifier.
pub const MAX_ID_LENGTH: usize = 64;

/// What a valid request comes to.
#[derive(Debug, PartialEq)]
pub struct ValidateResult {
    pub merchant_id: String,
    pub payment_id: PaymentIdType,
    pub mandate_type: Option<MandateTransactionType>,
    pub storage_scheme: MerchantStorageScheme,
    pub requeue: bool,
}

/// The model of [`ValidateResult`].
pub struct ValidateResultView {
    pub merchant_id: Seq<char>,
    pub payment_id: PaymentIdTypeView,
    pub mandate_type: Option<MandateTransactionType>,
    pub storage_scheme: MerchantStorageScheme,
    pub requeue: bool,
}

impl View for ValidateResult {
    type V = ValidateResultView;

    open spec fn view(&self) -> ValidateResultView {
        ValidateResultView {
            merchant_id: self.merchant_id@,
            payment_id: self.payment_id@,
            mandate_type: self.mandate_type,
            storage_scheme: self.storage_scheme,
            requeue: self.requeue,
        }
    }
}

/// A decimal digit of ASCII.
pub open spec fn is_digit(c: char) -> bool {
    '0' <= c && c <= '9'
}

/// A character that an identifier may hold: a letter or digit of ASCII, an
/// underscore or a hyphen.
pub open spec fn is_id_char(c: char) -> bool {
    ('a' <= c && c <= 'z') || ('A' <= c && c <= 'Z') || is_digit(c) || c == '_' || c == '-'
}

/// An identifier is well formed when it has between one and
/// [`MAX_ID_LENGTH`] characters, each of them an identifier character.
pub open spec fn well_formed_id(id: Seq<char>) -> bool {
    &&& 1 <= id.len() <= MAX_ID_LENGTH
    &&& forall|i: int| 0 <= i < id.len() ==> is_id_char(#[trigger] id[i])
}

/// A text of decimal digits.
pub open spec fn all_digits(text: Seq<char>) -> bool {
    forall|i: int| 0 <= i < text.len() ==> is_digit(#[trigger] text[i])
}

/// The value of a decimal digit.
pub open spec fn digit_value(c: char) -> int {
    c as int - '0' as int
}

/// A month as a card gives it: one or two digits that name a month.
pub open spec fn is_card_month(text: Seq<char>) -> bool {
    all_digits(text) && (text.len() == 1 && 1 <= digit_value(text[0]) || text.len() == 2 && 1 <= 10
        * digit_value(text[0]) + digit_value(text[1]) <= 12)
}

/// The shape of card details: a number of at most nineteen digits, a month,
/// a year of two or four digits, and a security code of three or four.
pub open spec fn card_shape_ok(card: CardView) -> bool {
    &&& 1 <= card.card_number.len() <= 19
    &&& all_digits(card.card_number)
    &&& is_card_month(card.card_exp_month)
    &&& all_digits(card.card_exp_year)
    &&& (card.card_exp_year.len() == 2 || card.card_exp_year.len() == 4)
    &&& all_digits(card.card_cvc)
    &&& (card.card_cvc.len() == 3 || card.card_cvc.len() == 4)
}

/// The fields of a request that describe the customer twice, once in the
/// customer object and once beside it, say the same where both are given.
pub open spec fn customer_fields_consistent(request: PaymentsRequestView) -> bool {
    match request.customer {
        None => true,
        Some(customer) => {
            &&& agree(request.customer_id, Some(customer.id))
            &&& agree(request.email, customer.email)
            &&& agree(request.name, customer.name)
            &&& agree(request.phone, customer.phone)
            &&& agree(request.phone_country_code, customer.phone_country_code)
        },
    }
}

/// Two optional texts do not contradict each other.
pub open spec fn agree(a: Option<Seq<char>>, b: Option<Seq<char>>) -> bool {
    a.is_none() || b.is_none() || a == b
}

/// The payment method fields of a request are complete: data and a type come
/// with a payment method, a payment method other than a card comes with its
/// type, and card data has the shape of card details.
pub open spec fn payment_method_fields_present(request: PaymentsRequestView) -> bool {
    &&& request.payment_method_data.is_some() ==> request.payment_method.is_some()
    &&& request.payment_method_type.is_some() ==> request.payment_method.is_some()
    &&& (request.payment_method.is_some() && request.payment_method != Some(PaymentMethod::Card))
        ==> request.payment_method_type.is_some()
    &&& match request.payment_method_data {
        Some(PaymentMethodDataView::Card(card)) => card_shape_ok(card),
        _ => true,
    }
}

/// How a request relates to mandates: one that brings mandate data sets a
/// mandate up, one that names a mandate uses it, any other has none.
pub open spec fn spec_mandate_type(request: PaymentsRequestView) -> Option<MandateTransactionType> {
    if request.mandate_data.is_some() {
        Some(MandateTransactionType::NewMandateTransaction)
    } else if request.mandate_id.is_some() {
        Some(MandateTransactionType::RecurringMandateTransaction)
    } else {
        None
    }
}

/// The identifier that a request names its payment by, where it names an
/// intent.
pub open spec fn given_intent_id(request: PaymentsRequestView) -> Option<Seq<char>> {
    match request.payment_id {
        Some(PaymentIdTypeView::PaymentIntentId(id)) => Some(id),
        _ => None,
    }
}

/// The identifier that the confirmation goes on with: the one the request
/// names, else the freshly generated one.
pub open spec fn chosen_payment_id(request: PaymentsRequestView, generated_id: Seq<char>) -> Seq<
    char,
> {
    match given_intent_id(request) {
        Some(id) => id,
        None => generated_id,
    }
}

/// The first fault of a request, if it has one.
pub open spec fn validation_failure(
    request: PaymentsRequestView,
    merchant_account: MerchantAccountView,
    generated_id: Seq<char>,
) -> Option<ValidationFailure> {
    if !customer_fields_consistent(request) {
        Some(ValidationFailure::ConflictingCustomerFields)
    } else if request.payment_id.is_some() && given_intent_id(request).is_none() {
        Some(ValidationFailure::MalformedIdentifier)
    } else if request.merchant_id.is_some() && request.merchant_id != Some(
        merchant_account.merchant_id,
    ) {
        Some(ValidationFailure::MerchantIdMismatch)
    } else if !payment_method_fields_present(request) {
        Some(ValidationFailure::MissingPaymentMethodFields)
    } else if !well_formed_id(chosen_payment_id(request, generated_id)) {
        Some(ValidationFailure::MalformedIdentifier)
    } else {
        None
    }
}

/// What the validation of a request gives.
pub open spec fn spec_validate_request(
    request: PaymentsRequestView,
    merchant_account: MerchantAccountView,
    generated_id: Seq<char>,
) -> Result<ValidateResultView, ApiErrorResponse> {
    match validation_failure(request, merchant_account, generated_id) {
        Some(failure) => Err(ApiErrorResponse::ValidationError(failure)),
        None => Ok(
            ValidateResultView {
                merchant_id: merchant_account.merchant_id,
                payment_id: PaymentIdTypeView::PaymentIntentId(
                    chosen_payment_id(request, generated_id),
                ),
                mandate_type: spec_mandate_type(request),
                storage_scheme: merchant_account.storage_scheme,
                requeue: request.retry_action == Some(RetryAction::Requeue),
            },
        ),
    }
}

/// The model of a validation's outcome.
pub open spec fn validate_view(res: Result<ValidateResult, ApiErrorResponse>) -> Result<
    ValidateResultView,
    ApiErrorResponse,
> {
    match res {
        Ok(v) => Ok(v@),
        Err(e) => Err(e),
    }
}

fn char_is_digit(c: char) -> (res: bool)
    ensures
        res == is_digit(c),
{
    c >= '0' && c <= '9'
}

fn char_is_id_char(c: char) -> (res: bool)
    ensures
        res == is_id_char(c),
{
    (c >= 'a' && c <= 'z') || (c >= 'A' && c <= 'Z') || char_is_digit(c) || c == '_' || c == '-'
}

/// Tests that a text of `len` characters holds digits only.
fn text_all_digits(text: &str, len: usize) -> (res: bool)
    requires
        len == text@.len(),
    ensures
        res == all_digits(text@),
{
    let mut i: usize = 0;
    while i < len
        invariant
            i <= len,
            len == text@.len(),
            forall|j: int| 0 <= j < i ==> is_digit(#[trigger] text@[j]),
        decreases len - i,
    {
        if !char_is_digit(text.get_char(i)) {
            return false;
        }
        i = i + 1;
    }
    true
}

/// Tests [`well_formed_id`].
pub fn is_well_formed_id(id: &str) -> (res: bool)
    ensures
        res == well_formed_id(id@),
{
    let len = id.unicode_len();
    if len < 1 || len > MAX_ID_LENGTH {
        return false;
    }
    let mut i: usize = 0;
    while i < len
        invariant
            i <= len,
            len == id@.len(),
            forall|j: int| 0 <= j < i ==> is_id_char(#[trigger] id@[j]),
        decreases len - i,
    {
        if !char_is_id_char(id.get_char(i)) {
            return false;
        }
        i = i + 1;
    }
    true
}

fn digit_of(c: char) -> (res: u32)
    requires
        is_digit(c),
    ensures
        res == digit_value(c),
        res < 10,
{
    c as u32 - '0' as u32
}

/// Tests [`is_card_month`].
pub fn is_valid_card_month(text: &str) -> (res: bool)
    ensures
        res == is_card_month(text@),
{
    let len = text.unicode_len();
    if !text_all_digits(text, len) {
        return false;
    }
    if len == 1 {
        digit_of(text.get_char(0)) >= 1
    } else if len == 2 {
        let month: u32 = 10 * digit_of(text.get_char(0)) + digit_of(text.get_char(1));
        1 <= month && month <= 12
    } else {
        false
    }
}

/// Tests [`card_shape_ok`].
pub fn validate_card_data(card: &Card) -> (res: bool)
    ensures
        res == card_shape_ok(card@),
{
    let number = card.card_number.as_str();
    let number_len = number.unicode_len();
    if number_len < 1 || number_len > 19 || !text_all_digits(number, number_len) {
        return false;
    }
    if !is_valid_card_month(card.card_exp_month.as_str()) {
        return false;
    }
    let year = card.card_exp_year.as_str();
    let year_len = year.unicode_len();
    if !text_all_digits(year, year_len) || !(year_len == 2 || year_len == 4) {
        return false;
    }
    let cvc = card.card_cvc.as_str();
    let cvc_len = cvc.unicode_len();
    text_all_digits(cvc, cvc_len) && (cvc_len == 3 || cvc_len == 4)
}

fn texts_agree(a: &Option<String>, b: &Option<String>) -> (res: bool)
    ensures
        res == agree(opt_view(*a), opt_view(*b)),
{
    match (a, b) {
        (Some(x), Some(y)) => *x == *y,
        _ => true,
    }
}

/// Tests [`customer_fields_consistent`].
pub fn validate_customer_details_in_request(request: &PaymentsRequest) -> (res: bool)
    ensures
        res == customer_fields_consistent(request@),
{
    match &request.customer {
        None => true,
        Some(customer) => {
            let id_agrees = match &request.customer_id {
                Some(id) => *id == customer.id,
                None => true,
            };
            id_agrees && texts_agree(&request.email, &customer.email) && texts_agree(
                &request.name,
                &customer.name,
            ) && texts_agree(&request.phone, &customer.phone) && texts_agree(
                &request.phone_country_code,
                &customer.phone_country_code,
            )
        },
    }
}

/// Tests [`payment_method_fields_present`].
pub fn validate_payment_method_fields_present(request: &PaymentsRequest) -> (res: bool)
    ensures
        res == payment_method_fields_present(request@),
{
    if request.payment_method_data.is_some() && request.payment_method.is_none() {
        return false;
    }
    if request.payment_method_type.is_some() && request.payment_method.is_none() {
        return false;
    }
    let needs_type = match request.payment_method {
        Some(PaymentMethod::Card) => false,
        Some(_) => true,
        None => false,
    };
    if needs_type && request.payment_method_type.is_none() {
        return false;
    }
    match &request.payment_method_data {
        Some(PaymentMethodData::Card(card)) => validate_card_data(card),
        _ => true,
    }
}

/// Derives the mandate type of a request.
pub fn validate_mandate(request: &PaymentsRequest) -> (res: Option<MandateTransactionType>)
    ensures
        res == spec_mandate_type(request@),
{
    if request.mandate_data.is_some() {
        Some(MandateTransactionType::NewMandateTransaction)
    } else if request.mandate_id.is_some() {
        Some(MandateTransactionType::RecurringMandateTransaction)
    } else {
        None
    }
}

impl PaymentConfirm {
    /// Validates a confirm request made on behalf of `merchant_account`.
    /// `generated_id` is a fresh identifier, used where the request names no
    /// payment. Nothing is read from the store or written to it.
    pub fn validate_request(
        &self,
        request: &PaymentsRequest,
        merchant_account: &MerchantAccount,
        generated_id: String,
    ) -> (res: Result<ValidateResult, ApiErrorResponse>)
        ensures
            validate_view(res) == spec_validate_request(request@, merchant_account@, generated_id@),
            res is Ok ==> well_formed_id(res->Ok_0@.payment_id->PaymentIntentId_0),
    {
        if !validate_customer_details_in_request(request) {
            return Err(
                ApiErrorResponse::ValidationError(ValidationFailure::ConflictingCustomerFields),
            );
        }
        let given_payment_id = match &request.payment_id {
            Some(PaymentIdType::PaymentIntentId(id)) => Some(id.clone()),
            Some(_) => {
                return Err(
                    ApiErrorResponse::ValidationError(ValidationFailure::MalformedIdentifier),
                );
            },
            None => None,
        };
        match &request.merchant_id {
            Some(merchant_id) => {
                if *merchant_id != merchant_account.merchant_id {
                    return Err(
                        ApiErrorResponse::ValidationError(ValidationFailure::MerchantIdMismatch),
                    );
                }
            },
            None => {},
        }
        if !validate_payment_method_fields_present(request) {
            return Err(
                ApiErrorResponse::ValidationError(ValidationFailure::MissingPaymentMethodFields),
            );
        }
        let mandate_type = validate_mandate(request);
        let payment_id = match given_payment_id {
            Some(id) => id,
            None => generated_id,
        };
        if !is_well_formed_id(payment_id.as_str()) {
            return Err(ApiErrorResponse::ValidationError(ValidationFailure::MalformedIdentifier));
        }
        let requeue = match request.retry_action {
            Some(RetryAction::Requeue) => true,
            _ => false,
        };
        Ok(
            ValidateResult {
                merchant_id: merchant_account.merchant_id.clone(),
                payment_id: PaymentIdType::PaymentIntentId(payment_id),
                mandate_type,
                storage_scheme: merchant_account.storage_scheme,
                requeue,
            },
        )
    }
}

} // verus!
