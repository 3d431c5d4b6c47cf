//! The errors that a confirmation or a payment-link request can end in.

use vstd::prelude::*;

verus! {

/// Why a request was turned away before anything was read from the store.
#[derive(Clone, Copy, Debug, PartialEq, Eq, Structural)]
pub enum ValidationFailure {
    MalformedIdentifier,
    ConflictingCustomerFields,
    MissingPaymentMethodFields,
    MerchantIdMismatch,
}

/// A field that an operation cannot do without, or whose value it cannot read.
#[derive(Clone, Copy, Debug, PartialEq, Eq, Structural)]
pub enum FieldName {
    ReturnUrl,
    PaymentMethodData,
    Currency,
    PubKey,
    ClientSecret,
    PaymentLinkConfig,
    OrderDetailsWithAmount,
}

/// A request that contradicts itself or what an earlier call fixed.
#[derive(Clone, Copy, Debug, PartialEq, Eq, Structural)]
pub enum RequestFault {
    /// The declared surcharge is not the one fixed earlier.
    SurchargeMismatch,
    /// The client secret is not the intent's.
    ClientSecretMismatch,
    /// The payment is to be used again and has no customer.
    CustomerIdRequired,
    /// The amount with its surcharge and tax lies beyond the integers.
    AmountOutOfRange,
}

/// Why the store did not do what it was asked.
#[derive(Clone, Copy, Debug, PartialEq, Eq, Structural)]
pub enum StorageError {
    ValueNotFound,
    DuplicateValue,
}

/// The error that an operation ends in.
#[derive(Clone, Copy, Debug, PartialEq, Eq, Structural)]
pub enum ApiErrorResponse {
    ValidationError(ValidationFailure),
    InvalidState,
    ClientSecretExpired,
    PaymentNotFound,
    PaymentLinkNotFound,
    PaymentMethodNotFound,
    MandateNotFound,
    AddressNotFound,
    MissingRequiredField { field_name: FieldName },
    InvalidDataValue { field_name: FieldName },
    InvalidRequestData { reason: RequestFault },
    InternalServerError,
}

/// The families into which the errors fall.
#[derive(Clone, Copy, Debug, PartialEq, Eq, Structural)]
pub enum ErrorClass {
    ValidationError,
    InvalidState,
    NotFound,
    MissingOrInvalidField,
    InvalidRequestData,
    InternalError,
}

impl ApiErrorResponse {
    /// The family of an error.
    pub open spec fn spec_class(self) -> ErrorClass {
        match self {
            ApiErrorResponse::ValidationError(_) => ErrorClass::ValidationError,
            ApiErrorResponse::InvalidState => ErrorClass::InvalidState,
            ApiErrorResponse::ClientSecretExpired => ErrorClass::InvalidRequestData,
            ApiErrorResponse::PaymentNotFound => ErrorClass::NotFound,
            ApiErrorResponse::PaymentLinkNotFound => ErrorClass::NotFound,
            ApiErrorResponse::PaymentMethodNotFound => ErrorClass::NotFound,
            ApiErrorResponse::MandateNotFound => ErrorClass::NotFound,
            ApiErrorResponse::AddressNotFound => ErrorClass::NotFound,
            ApiErrorResponse::MissingRequiredField { .. } => ErrorClass::MissingOrInvalidField,
            ApiErrorResponse::InvalidDataValue { .. } => ErrorClass::MissingOrInvalidField,
            ApiErrorResponse::InvalidRequestData { .. } => ErrorClass::InvalidRequestData,
            ApiErrorResponse::InternalServerError => ErrorClass::InternalError,
        }
    }

    /// The family of this error.
    pub fn class(&self) -> (res: ErrorClass)
        ensures
            res == self.spec_class(),
    {
        match self {
            ApiErrorResponse::ValidationError(_) => ErrorClass::ValidationError,
            ApiErrorResponse::InvalidState => ErrorClass::InvalidState,
            ApiErrorResponse::ClientSecretExpired => ErrorClass::InvalidRequestData,
            ApiErrorResponse::PaymentNotFound => ErrorClass::NotFound,
            ApiErrorResponse::PaymentLinkNotFound => ErrorClass::NotFound,
            ApiErrorResponse::PaymentMethodNotFound => ErrorClass::NotFound,
            ApiErrorResponse::MandateNotFound => ErrorClass::NotFound,
            ApiErrorResponse::AddressNotFound => ErrorClass::NotFound,
            ApiErrorResponse::MissingRequiredField { .. } => ErrorClass::MissingOrInvalidField,
            ApiErrorResponse::InvalidDataValue { .. } => ErrorClass::MissingOrInvalidField,
            ApiErrorResponse::InvalidRequestData { .. } => ErrorClass::InvalidRequestData,
            ApiErrorResponse::InternalServerError => ErrorClass::InternalError,
        }
    }
}

} // verus!
