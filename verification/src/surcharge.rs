//! Surcharges: what a request declares, what an attempt stores, and what an
//! earlier session call computed.

use vstd::prelude::*;
use crate::enums::PaymentMethodType;
use crate::errors::{ApiErrorResponse, FieldName, RequestFault};
use crate::request::{PaymentsRequest, PaymentsRequestView, RequestSurchargeDetails};
use crate::storage::{PaymentAttempt, PaymentAttemptView};
use crate::views::or_else;

verus! {

/// A surcharge, its tax, and the amount that includes both.
#[derive(Clone, Copy, Debug, PartialEq, Eq, Structural)]
pub struct SurchargeDetails {
    pub surcharge_amount: i64,
    pub tax_on_surcharge_amount: i64,
    pub final_amount: i64,
}

/// What the session cache answered when asked for the surcharge that an
/// earlier session call computed. A miss is an answer, not a failure.
#[derive(Clone, Copy, Debug, PartialEq, Eq, Structural)]
pub enum SessionSurcharge {
    Found(SurchargeDetails),
    NotFound,
    Unavailable,
}

/// The key under which the session cache holds a surcharge.
#[derive(Debug, PartialEq)]
pub struct SurchargeKey {
    pub payment_method_type: PaymentMethodType,
    pub attempt_id: String,
}

/// The model of [`SurchargeKey`].
pub struct SurchargeKeyView {
    pub payment_method_type: PaymentMethodType,
    pub attempt_id: Seq<char>,
}

impl View for SurchargeKey {
    type V = SurchargeKeyView;

    open spec fn view(&self) -> SurchargeKeyView {
        SurchargeKeyView {
            payment_method_type: self.payment_method_type,
            attempt_id: self.attempt_id@,
        }
    }
}

/// An absent tax counts as no tax.
pub open spec fn tax_or_zero(tax: Option<i64>) -> int {
    match tax {
        Some(t) => t as int,
        None => 0,
    }
}

/// The amount that includes a surcharge and its tax.
pub open spec fn amount_with_surcharge(amount: i64, surcharge: i64, tax: Option<i64>) -> int {
    amount + surcharge + tax_or_zero(tax)
}

/// A number lies within the 64-bit integers.
pub open spec fn fits_i64(n: int) -> bool {
    i64::MIN <= n <= i64::MAX
}

impl RequestSurchargeDetails {
    /// Neither a surcharge nor a tax on it is declared.
    pub open spec fn spec_is_surcharge_zero(self) -> bool {
        self.surcharge_amount == 0 && tax_or_zero(self.tax_amount) == 0
    }

    /// The declared surcharge laid on an amount.
    pub open spec fn spec_surcharge_details_object(self, base_amount: i64) -> SurchargeDetails {
        SurchargeDetails {
            surcharge_amount: self.surcharge_amount,
            tax_on_surcharge_amount: tax_or_zero(self.tax_amount) as i64,
            final_amount: amount_with_surcharge(
                base_amount,
                self.surcharge_amount,
                self.tax_amount,
            ) as i64,
        }
    }

    /// Neither a surcharge nor a tax on it is declared.
    pub fn is_surcharge_zero(&self) -> (res: bool)
        ensures
            res == self.spec_is_surcharge_zero(),
    {
        let tax: i64 = match self.tax_amount {
            Some(t) => t,
            None => 0,
        };
        self.surcharge_amount == 0 && tax == 0
    }

    /// The declared surcharge laid on an amount.
    pub fn get_surcharge_details_object(&self, base_amount: i64) -> (res: SurchargeDetails)
        requires
            fits_i64(amount_with_surcharge(base_amount, self.surcharge_amount, self.tax_amount)),
        ensures
            res == self.spec_surcharge_details_object(base_amount),
            res.final_amount == base_amount + self.surcharge_amount + tax_or_zero(
                self.tax_amount,
            ),
    {
        let tax: i64 = match self.tax_amount {
            Some(t) => t,
            None => 0,
        };
        let total: i128 = base_amount as i128 + self.surcharge_amount as i128 + tax as i128;
        SurchargeDetails {
            surcharge_amount: self.surcharge_amount,
            tax_on_surcharge_amount: tax,
            final_amount: total as i64,
        }
    }
}

impl SurchargeDetails {
    /// A declared surcharge names the same figures as this one.
    pub open spec fn spec_is_request_surcharge_matching(
        self,
        declared: RequestSurchargeDetails,
    ) -> bool {
        declared.surcharge_amount == self.surcharge_amount && tax_or_zero(declared.tax_amount)
            == self.tax_on_surcharge_amount
    }

    /// A declared surcharge names the same figures as this one.
    pub fn is_request_surcharge_matching(&self, declared: RequestSurchargeDetails) -> (res: bool)
        ensures
            res == self.spec_is_request_surcharge_matching(declared),
    {
        let tax: i64 = match declared.tax_amount {
            Some(t) => t,
            None => 0,
        };
        declared.surcharge_amount == self.surcharge_amount && tax == self.tax_on_surcharge_amount
    }
}

/// The error of a declared surcharge that contradicts an earlier figure.
pub open spec fn surcharge_mismatch() -> ApiErrorResponse {
    ApiErrorResponse::InvalidRequestData { reason: RequestFault::SurchargeMismatch }
}

/// A session surcharge has to be looked up: the request declares a surcharge
/// and brings payment method data, and the attempt stores no surcharge.
pub open spec fn needs_session_surcharge(
    attempt: PaymentAttemptView,
    request: PaymentsRequestView,
) -> bool {
    request.surcharge_details.is_some() && request.payment_method_data.is_some()
        && attempt.surcharge_amount.is_none()
}

/// The payment method type under which a session surcharge would be cached:
/// that of the data, where a session call hands such data out, else the
/// attempt's own.
pub open spec fn session_surcharge_type(
    attempt: PaymentAttemptView,
    request: PaymentsRequestView,
) -> Option<PaymentMethodType> {
    match request.payment_method_data {
        Some(data) => or_else(data.session_token_type(), attempt.payment_method_type),
        None => None,
    }
}

/// The key to look up, if there is anything to look up.
pub open spec fn spec_session_surcharge_key(
    attempt: PaymentAttemptView,
    request: PaymentsRequestView,
) -> Option<SurchargeKeyView> {
    if needs_session_surcharge(attempt, request) && session_surcharge_type(
        attempt,
        request,
    ).is_some() {
        Some(
            SurchargeKeyView {
                payment_method_type: session_surcharge_type(attempt, request).unwrap(),
                attempt_id: attempt.attempt_id,
            },
        )
    } else {
        None
    }
}

/// Whether a declared surcharge agrees with what is already fixed.
///
/// A surcharge stored on the attempt must be declared again to the unit, tax
/// included. Without a stored one the session cache decides: a cached figure
/// must match, and without a cached figure only a zero surcharge passes. A
/// surcharge declared without payment method data is incomplete.
pub open spec fn spec_validate_surcharge(
    attempt: PaymentAttemptView,
    request: PaymentsRequestView,
    session: SessionSurcharge,
) -> Result<(), ApiErrorResponse> {
    match request.surcharge_details {
        None => Ok(()),
        Some(declared) => if request.payment_method_data.is_none() {
            Err(ApiErrorResponse::MissingRequiredField { field_name: FieldName::PaymentMethodData })
        } else {
            match attempt.surcharge_amount {
                Some(stored) => if declared.surcharge_amount == stored && declared.tax_amount
                    == attempt.tax_amount {
                    Ok(())
                } else {
                    Err(surcharge_mismatch())
                },
                None => match session {
                    SessionSurcharge::Found(cached) => if cached.spec_is_request_surcharge_matching(
                        declared,
                    ) {
                        Ok(())
                    } else {
                        Err(surcharge_mismatch())
                    },
                    SessionSurcharge::NotFound => if declared.spec_is_surcharge_zero() {
                        Ok(())
                    } else {
                        Err(surcharge_mismatch())
                    },
                    SessionSurcharge::Unavailable => Err(ApiErrorResponse::InternalServerError),
                },
            }
        },
    }
}

/// The surcharge that a confirmation goes on with: the declared one, else the
/// stored one, else none.
pub open spec fn spec_resolved_surcharge(
    attempt: PaymentAttemptView,
    request: PaymentsRequestView,
) -> Option<SurchargeDetails> {
    match request.surcharge_details {
        Some(declared) => Some(declared.spec_surcharge_details_object(attempt.amount)),
        None => match attempt.surcharge_amount {
            Some(stored) => Some(
                SurchargeDetails {
                    surcharge_amount: stored,
                    tax_on_surcharge_amount: tax_or_zero(attempt.tax_amount) as i64,
                    final_amount: amount_with_surcharge(attempt.amount, stored, attempt.tax_amount)
                        as i64,
                },
            ),
            None => None,
        },
    }
}

/// The amounts that a confirmation adds up stay within the machine's integers.
pub open spec fn surcharge_in_range(
    attempt: PaymentAttemptView,
    request: PaymentsRequestView,
) -> bool {
    match request.surcharge_details {
        Some(declared) => fits_i64(
            amount_with_surcharge(attempt.amount, declared.surcharge_amount, declared.tax_amount),
        ),
        None => match attempt.surcharge_amount {
            Some(stored) => fits_i64(
                amount_with_surcharge(attempt.amount, stored, attempt.tax_amount),
            ),
            None => true,
        },
    }
}

/// The amount that a confirmation authorises: the surcharge-inclusive amount
/// where a surcharge is resolved, else the attempt's amount.
pub open spec fn spec_authorized_amount(surcharge: Option<SurchargeDetails>, amount: i64) -> i64 {
    match surcharge {
        Some(details) => details.final_amount,
        None => amount,
    }
}

/// Tests [`surcharge_in_range`].
pub fn is_surcharge_in_range(attempt: &PaymentAttempt, request: &PaymentsRequest) -> (res: bool)
    ensures
        res == surcharge_in_range(attempt@, request@),
{
    let (surcharge, tax): (i64, Option<i64>) = match request.surcharge_details {
        Some(declared) => (declared.surcharge_amount, declared.tax_amount),
        None => match attempt.surcharge_amount {
            Some(stored) => (stored, attempt.tax_amount),
            None => {
                return true;
            },
        },
    };
    let tax_value: i64 = match tax {
        Some(t) => t,
        None => 0,
    };
    let total: i128 = attempt.amount as i128 + surcharge as i128 + tax_value as i128;
    -9223372036854775808i128 <= total && total <= 9223372036854775807i128
}

} // verus!
