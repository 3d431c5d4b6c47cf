//! The transition engine: the statuses that a confirmation moves its intent
//! and attempt to, chosen by the outcome of the fraud check.

use vstd::prelude::*;
use crate::enums::{AttemptStatus, FrmSuggestion, IntentStatus};
use crate::payment_data::{FraudCheck, FraudCheckView};
use crate::views::{clone_opt_text, opt_opt_view, opt_view};

verus! {

/// The statuses to move to, and the error to note on the attempt. An absent
/// error field is left as the attempt has it.
#[derive(Debug, PartialEq)]
pub struct Transition {
    pub intent_status: IntentStatus,
    pub attempt_status: AttemptStatus,
    pub error_code: Option<Option<String>>,
    pub error_message: Option<Option<String>>,
}

/// The model of [`Transition`].
pub struct TransitionView {
    pub intent_status: IntentStatus,
    pub attempt_status: AttemptStatus,
    pub error_code: Option<Option<Seq<char>>>,
    pub error_message: Option<Option<Seq<char>>>,
}

impl View for Transition {
    type V = TransitionView;

    open spec fn view(&self) -> TransitionView {
        TransitionView {
            intent_status: self.intent_status,
            attempt_status: self.attempt_status,
            error_code: opt_opt_view(self.error_code),
            error_message: opt_opt_view(self.error_message),
        }
    }
}

/// The status that a signal moves the intent to.
pub open spec fn next_intent_status(signal: Option<FrmSuggestion>) -> IntentStatus {
    match signal {
        None => IntentStatus::Processing,
        Some(FrmSuggestion::FrmCancelTransaction) => IntentStatus::Failed,
        Some(FrmSuggestion::FrmManualReview) => IntentStatus::RequiresMerchantAction,
    }
}

/// The status that a signal moves the attempt to.
pub open spec fn next_attempt_status(signal: Option<FrmSuggestion>) -> AttemptStatus {
    match signal {
        None => AttemptStatus::Pending,
        Some(FrmSuggestion::FrmCancelTransaction) => AttemptStatus::Failure,
        Some(FrmSuggestion::FrmManualReview) => AttemptStatus::Unresolved,
    }
}

/// The transition for a signal. Only a cancellation notes an error, and only
/// where the fraud check left a message: its verdict becomes the error code
/// and its reason the error message.
pub open spec fn spec_transition(
    signal: Option<FrmSuggestion>,
    frm_message: Option<FraudCheckView>,
) -> TransitionView {
    TransitionView {
        intent_status: next_intent_status(signal),
        attempt_status: next_attempt_status(signal),
        error_code: match (signal, frm_message) {
            (Some(FrmSuggestion::FrmCancelTransaction), Some(check)) => Some(
                Some(check.frm_status.spec_text()),
            ),
            _ => None,
        },
        error_message: match (signal, frm_message) {
            (Some(FrmSuggestion::FrmCancelTransaction), Some(check)) => Some(check.frm_reason),
            _ => None,
        },
    }
}

/// Computes the transition for a signal.
pub fn transition(signal: Option<FrmSuggestion>, frm_message: &Option<FraudCheck>) -> (res:
    Transition)
    ensures
        res@ == spec_transition(signal, opt_view(*frm_message)),
{
    match signal {
        Some(FrmSuggestion::FrmCancelTransaction) => {
            let (error_code, error_message) = match frm_message {
                Some(check) => (
                    Some(Some(check.frm_status.text())),
                    Some(clone_opt_text(&check.frm_reason)),
                ),
                None => (None, None),
            };
            Transition {
                intent_status: IntentStatus::Failed,
                attempt_status: AttemptStatus::Failure,
                error_code,
                error_message,
            }
        },
        Some(FrmSuggestion::FrmManualReview) => Transition {
            intent_status: IntentStatus::RequiresMerchantAction,
            attempt_status: AttemptStatus::Unresolved,
            error_code: None,
            error_message: None,
        },
        None => Transition {
            intent_status: IntentStatus::Processing,
            attempt_status: AttemptStatus::Pending,
            error_code: None,
            error_message: None,
        },
    }
}

} // verus!
