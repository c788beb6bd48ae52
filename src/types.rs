//! The payment engine's canonical, gateway-independent records and statuses,
//! as this connector reads and fills them.

use vstd::prelude::*;

verus! {

/// Canonical lifecycle state of a payment authorization attempt.
#[derive(Debug, Clone, Copy, PartialEq, Eq, Structural)]
pub enum AttemptStatus {
    Started,
    AuthenticationFailed,
    AuthorizationFailed,
    Authorized,
    Charged,
    Voided,
    VoidFailed,
    Failure,
    Pending,
}

/// Canonical lifecycle state of a refund.
#[derive(Debug, Clone, Copy, PartialEq, Eq, Structural)]
pub enum RefundStatus {
    Pending,
    Success,
    Failure,
    ManualReview,
}

/// Card details of a card payment. Every field is sensitive.
#[derive(Debug, Clone, PartialEq, Eq)]
pub struct Card {
    pub card_number: String,
    pub card_exp_month: String,
    pub card_exp_year: String,
    pub card_holder_name: String,
    pub card_cvc: String,
}

/// The payment method of an authorization; only `Card` is accepted by this
/// gateway.
#[derive(Debug, Clone, PartialEq, Eq)]
pub enum PaymentMethod {
    Card(Card),
    Wallet,
    BankTransfer,
    PayLater,
}

/// The name under which a payment method is reported in errors.
pub open spec fn payment_method_name(m: PaymentMethod) -> Seq<char> {
    match m {
        PaymentMethod::Card(_) => seq!['c', 'a', 'r', 'd'],
        PaymentMethod::Wallet => seq!['w', 'a', 'l', 'l', 'e', 't'],
        PaymentMethod::BankTransfer => seq![
            'b', 'a', 'n', 'k', '_', 't', 'r', 'a', 'n', 's', 'f', 'e', 'r',
        ],
        PaymentMethod::PayLater => seq!['p', 'a', 'y', '_', 'l', 'a', 't', 'e', 'r'],
    }
}

impl PaymentMethod {
    /// The method's name, as it appears in an `UnsupportedPaymentMethod` error.
    pub fn name(&self) -> (r: String)
        ensures
            r@ == payment_method_name(*self),
    {
        let s: &str = match self {
            PaymentMethod::Card(_) => "card",
            PaymentMethod::Wallet => "wallet",
            PaymentMethod::BankTransfer => "bank_transfer",
            PaymentMethod::PayLater => "pay_later",
        };
        proof {
            reveal_strlit("card");
            reveal_strlit("wallet");
            reveal_strlit("bank_transfer");
            reveal_strlit("pay_later");
        }
        String::from_str(s)
    }
}

/// A credential for a connector, in one of the shapes the engine stores.
#[derive(Debug, Clone, PartialEq, Eq)]
pub enum ConnectorAuthType {
    HeaderKey { api_key: String },
    BodyKey { api_key: String, key1: String },
    SignatureKey { api_key: String, key1: String, api_secret: String },
    NoKey,
}

/// Errors of the request side of the connector.
#[derive(Debug, Clone, PartialEq, Eq)]
pub enum ConnectorError {
    /// The payment method is not one this gateway takes; names the method.
    UnsupportedPaymentMethod { method: String },
    /// The credential is not of the variant this gateway needs.
    AuthTypeError,
    /// The operation is not offered by this binding; names the operation.
    NotImplemented(String),
}

/// Error of the response side: the gateway's answer did not have the
/// expected shape.
#[derive(Debug, Clone, Copy, PartialEq, Eq, Structural)]
pub enum ParsingError {
    UnexpectedShape,
}

/// The data of a card payment authorization.
#[derive(Debug, Clone, PartialEq, Eq)]
pub struct AuthorizeOperation {
    pub payment_id: String,
    /// Amount in minor units.
    pub amount: i64,
    pub currency: String,
    pub description: Option<String>,
    pub payment_method: PaymentMethod,
}

/// The data of a capture; `None` captures the full amount.
#[derive(Debug, Clone, Copy, PartialEq, Eq, Structural)]
pub struct CaptureOperation {
    pub amount_to_capture: Option<i64>,
}

/// The data of a cancellation.
#[derive(Debug, Clone, PartialEq, Eq)]
pub struct CancelOperation {
    pub payment_id: String,
}

/// The data of a refund.
#[derive(Debug, Clone, PartialEq, Eq)]
pub struct RefundOperation {
    pub currency: String,
    /// Amount in minor units.
    pub refund_amount: i64,
}

/// How the gateway identified a processed payment.
#[derive(Debug, Clone, PartialEq, Eq)]
pub enum ResponseId {
    ConnectorTransactionId(String),
    NoResponseId,
}

/// The canonical outcome of a payment call.
#[derive(Debug, Clone, PartialEq, Eq)]
pub struct TransactionResponse {
    pub resource_id: ResponseId,
    pub redirection_data: Option<String>,
    pub redirect: bool,
    pub mandate_reference: Option<String>,
    pub connector_metadata: Option<String>,
}

/// An error reported by a gateway, as the engine records it.
#[derive(Debug, Clone, PartialEq, Eq)]
pub struct ErrorResponse {
    pub code: String,
    pub message: String,
}

/// The canonical outcome of a refund call.
#[derive(Debug, Clone, PartialEq, Eq)]
pub struct RefundsResponseData {
    pub connector_refund_id: String,
    pub refund_status: RefundStatus,
}

/// The engine's in-flight record of a payment, handed to a response parser
/// and returned with `status` and `response` filled.
#[derive(Debug, PartialEq, Eq)]
pub struct PaymentsRouterData {
    pub payment_id: String,
    pub status: AttemptStatus,
    pub response: Result<TransactionResponse, ErrorResponse>,
}

/// The engine's in-flight record of a refund, handed to a response parser
/// and returned with `response` filled.
#[derive(Debug, PartialEq, Eq)]
pub struct RefundsRouterData {
    pub refund_id: String,
    pub status: AttemptStatus,
    pub response: Result<RefundsResponseData, ErrorResponse>,
}

/// A gateway response together with the in-flight record it answers.
pub struct ResponseRouterData<R, D> {
    pub response: R,
    pub data: D,
}

} // verus!
