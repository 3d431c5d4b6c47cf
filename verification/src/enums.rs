//! Closed vocabularies shared by intents, attempts and requests.

use vstd::prelude::*;

verus! {

/// Lifecycle status of a payment intent.
#[derive(Clone, Copy, Debug, PartialEq, Eq, Structural)]
pub enum IntentStatus {
    Succeeded,
    Failed,
    Cancelled,
    Processing,
    RequiresCustomerAction,
    RequiresMerchantAction,
    RequiresPaymentMethod,
    RequiresConfirmation,
    RequiresCapture,
    PartiallyCaptured,
}

impl IntentStatus {
    /// Statuses in which an intent may not be confirmed.
    pub open spec fn forbids_confirm(self) -> bool {
        self == IntentStatus::Cancelled || self == IntentStatus::Succeeded || self
            == IntentStatus::Processing || self == IntentStatus::RequiresCapture || self
            == IntentStatus::RequiresMerchantAction
    }

    /// Statuses in which the intent waits for somebody to act and its current
    /// attempt is carried on.
    pub open spec fn awaits_action(self) -> bool {
        self == IntentStatus::RequiresCustomerAction || self
            == IntentStatus::RequiresMerchantAction || self == IntentStatus::RequiresPaymentMethod
            || self == IntentStatus::RequiresConfirmation
    }

    /// Tests [`IntentStatus::forbids_confirm`].
    pub fn confirm_is_forbidden(&self) -> (res: bool)
        ensures
            res == self.forbids_confirm(),
    {
        match self {
            IntentStatus::Cancelled
            | IntentStatus::Succeeded
            | IntentStatus::Processing
            | IntentStatus::RequiresCapture
            | IntentStatus::RequiresMerchantAction => true,
            _ => false,
        }
    }

    /// Tests [`IntentStatus::awaits_action`].
    pub fn is_awaiting_action(&self) -> (res: bool)
        ensures
            res == self.awaits_action(),
    {
        match self {
            IntentStatus::RequiresCustomerAction
            | IntentStatus::RequiresMerchantAction
            | IntentStatus::RequiresPaymentMethod
            | IntentStatus::RequiresConfirmation => true,
            _ => false,
        }
    }
}

/// Status of one execution attempt.
#[derive(Clone, Copy, Debug, PartialEq, Eq, Structural)]
pub enum AttemptStatus {
    Started,
    AuthenticationFailed,
    RouterDeclined,
    AuthenticationPending,
    AuthenticationSuccessful,
    Authorized,
    AuthorizationFailed,
    Charged,
    Authorizing,
    CodInitiated,
    Voided,
    VoidInitiated,
    CaptureInitiated,
    CaptureFailed,
    VoidFailed,
    AutoRefunded,
    PartialCharged,
    Unresolved,
    Pending,
    Failure,
    PaymentMethodAwaited,
    ConfirmationAwaited,
    DeviceDataCollectionPending,
}

impl AttemptStatus {
    /// The attempt ended in a failure after which a new attempt may be made.
    pub open spec fn allows_retry(self) -> bool {
        self == AttemptStatus::AuthenticationFailed || self == AttemptStatus::AuthorizationFailed
            || self == AttemptStatus::Failure
    }

    /// Tests [`AttemptStatus::allows_retry`].
    pub fn can_be_retried(&self) -> (res: bool)
        ensures
            res == self.allows_retry(),
    {
        match self {
            AttemptStatus::AuthenticationFailed
            | AttemptStatus::AuthorizationFailed
            | AttemptStatus::Failure => true,
            _ => false,
        }
    }
}

/// The currencies that payments are made in.
#[derive(Clone, Copy, Debug, PartialEq, Eq, Structural)]
pub enum Currency {
    AUD,
    CAD,
    EUR,
    GBP,
    INR,
    JPY,
    SGD,
    USD,
}

/// The countries that a merchant does business in.
#[derive(Clone, Copy, Debug, PartialEq, Eq, Structural)]
pub enum CountryAlpha2 {
    AU,
    CA,
    DE,
    FR,
    GB,
    IN,
    JP,
    NL,
    SG,
    US,
}

/// The families of payment methods.
#[derive(Clone, Copy, Debug, PartialEq, Eq, Structural)]
pub enum PaymentMethod {
    Card,
    CardRedirect,
    PayLater,
    Wallet,
    BankRedirect,
    BankTransfer,
    Crypto,
    BankDebit,
    Reward,
    Upi,
    Voucher,
    GiftCard,
}

/// The payment methods within their families.
#[derive(Clone, Copy, Debug, PartialEq, Eq, Structural)]
pub enum PaymentMethodType {
    Credit,
    Debit,
    ApplePay,
    GooglePay,
    Paypal,
    Klarna,
    Affirm,
    Ideal,
    Sofort,
    Ach,
    Sepa,
    UpiCollect,
}

/// How the customer is led through a payment.
#[derive(Clone, Copy, Debug, PartialEq, Eq, Structural)]
pub enum PaymentExperience {
    RedirectToUrl,
    InvokeSdkClient,
    DisplayQrCode,
    OneClick,
    LinkWallet,
    InvokePaymentApp,
    DisplayWaitScreen,
}

/// When the authorised amount is captured.
#[derive(Clone, Copy, Debug, PartialEq, Eq, Structural)]
pub enum CaptureMethod {
    Automatic,
    Manual,
    ManualMultiple,
    Scheduled,
}

/// Whether the customer is authenticated with 3-D Secure.
#[derive(Clone, Copy, Debug, PartialEq, Eq, Structural)]
pub enum AuthenticationType {
    ThreeDs,
    NoThreeDs,
}

/// Whether the payment method is to be used again, and in whose presence.
#[derive(Clone, Copy, Debug, PartialEq, Eq, Structural)]
pub enum FutureUsage {
    OffSession,
    OnSession,
}

/// What the caller asks for when a confirmation follows an earlier outcome.
#[derive(Clone, Copy, Debug, PartialEq, Eq, Structural)]
pub enum RetryAction {
    ManualRetry,
    Requeue,
}

/// What a fraud check advises; the absence of a suggestion is the third signal.
#[derive(Clone, Copy, Debug, PartialEq, Eq, Structural)]
pub enum FrmSuggestion {
    FrmCancelTransaction,
    FrmManualReview,
}

/// Verdict recorded by a fraud check.
#[derive(Clone, Copy, Debug, PartialEq, Eq, Structural)]
pub enum FraudCheckStatus {
    Fraud,
    ManualReview,
    Pending,
    Legit,
    TransactionFailure,
}

impl FraudCheckStatus {
    /// The name of a verdict.
    pub open spec fn spec_text(self) -> Seq<char> {
        match self {
            FraudCheckStatus::Fraud => "fraud"@,
            FraudCheckStatus::ManualReview => "manual_review"@,
            FraudCheckStatus::Pending => "pending"@,
            FraudCheckStatus::Legit => "legit"@,
            FraudCheckStatus::TransactionFailure => "transaction_failure"@,
        }
    }

    /// The verdict as it is written into an attempt's error code.
    pub fn text(&self) -> (res: String)
        ensures
            res@ == self.spec_text(),
    {
        match self {
            FraudCheckStatus::Fraud => "fraud".to_string(),
            FraudCheckStatus::ManualReview => "manual_review".to_string(),
            FraudCheckStatus::Pending => "pending".to_string(),
            FraudCheckStatus::Legit => "legit".to_string(),
            FraudCheckStatus::TransactionFailure => "transaction_failure".to_string(),
        }
    }
}

/// How a request relates to mandates.
#[derive(Clone, Copy, Debug, PartialEq, Eq, Structural)]
pub enum MandateTransactionType {
    NewMandateTransaction,
    RecurringMandateTransaction,
}

/// The store's concurrency-control tag: the scheme under which a merchant's
/// rows are written, handed to every conditional update and recorded on the
/// row as its last writer.
#[derive(Clone, Copy, Debug, PartialEq, Eq, Structural)]
pub enum MerchantStorageScheme {
    PostgresOnly,
    RedisKv,
}

impl MerchantStorageScheme {
    /// The name of a scheme.
    pub open spec fn spec_text(self) -> Seq<char> {
        match self {
            MerchantStorageScheme::PostgresOnly => "postgres_only"@,
            MerchantStorageScheme::RedisKv => "redis_kv"@,
        }
    }

    /// The name of the scheme as it is recorded on a row.
    pub fn text(&self) -> (res: String)
        ensures
            res@ == self.spec_text(),
    {
        match self {
            MerchantStorageScheme::PostgresOnly => "postgres_only".to_string(),
            MerchantStorageScheme::RedisKv => "redis_kv".to_string(),
        }
    }
}

/// Where a confirmation came from.
#[derive(Clone, Copy, Debug, PartialEq, Eq, Structural)]
pub enum PaymentSource {
    MerchantServer,
    Postman,
    Dashboard,
    Sdk,
}

/// The payment flow that an aggregate belongs to.
#[derive(Clone, Copy, Debug, PartialEq, Eq, Structural)]
pub enum PaymentFlow {
    Authorize,
    Capture,
    Cancel,
    Sync,
}

} // verus!
