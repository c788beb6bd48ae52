//! The MultiSafepay gateway's request and response shapes, the builders that
//! fill them from canonical operations, and the parsers that turn gateway
//! answers back into canonical records.

use crate::decimal::{amount_text, decimal_text, digits_of, unsigned_text};
use crate::types::{
    AttemptStatus, AuthorizeOperation, CancelOperation, CaptureOperation, Card,
    ConnectorAuthType, ConnectorError, ParsingError, PaymentMethod, PaymentsRouterData,
    RefundOperation, RefundStatus, RefundsResponseData, RefundsRouterData,
    ResponseId, ResponseRouterData, TransactionResponse, payment_method_name,
};
use vstd::prelude::*;

verus! {

/// The view of an optional string.
pub open spec fn opt_view(o: Option<String>) -> Option<Seq<char>> {
    match o {
        Some(s) => Some(s@),
        None => None,
    }
}

fn clone_opt_string(o: &Option<String>) -> (r: Option<String>)
    ensures
        opt_view(r) == opt_view(*o),
{
    match o {
        Some(s) => Some(s.clone()),
        None => None,
    }
}

// ----- Authorize -----

/// A direct card payment, in the gateway's request shape.
#[derive(Debug, PartialEq, Eq)]
pub struct MultisafepayPaymentsRequest {
    /// Sent as `type`.
    pub stype: String,
    pub gateway: MultisafeGateway,
    pub order_id: String,
    pub currency: String,
    /// The amount in minor units, as decimal text.
    pub amount: String,
    pub description: Option<String>,
    pub gateway_info: MultisafepayGatewayInfo,
}

/// The gateway and card-brand tags of the gateway.
#[derive(Debug, Clone, Copy, Default, PartialEq, Eq, Structural)]
pub enum MultisafeGateway {
    #[default]
    VISA,
    AMEX,
    CREDITCARD,
    MAESTRO,
    MASTERCARD,
}

/// The card part of a direct payment request.
#[derive(Debug, Clone, PartialEq, Eq)]
pub struct MultisafepayGatewayInfo {
    pub card_number: String,
    /// `month/year`.
    pub card_expiry_date: String,
    pub card_holder_name: String,
    pub card_cvc: String,
}

/// The expiry date as the gateway takes it: month, a slash, year.
pub open spec fn expiry_text(card: Card) -> Seq<char> {
    card.card_exp_month@ + seq!['/'] + card.card_exp_year@
}

/// `r` is the direct credit-card request for `item`, paid with `card`.
pub open spec fn is_card_request(
    r: MultisafepayPaymentsRequest,
    item: AuthorizeOperation,
    card: Card,
) -> bool {
    &&& r.stype@ == "direct"@
    &&& r.gateway == MultisafeGateway::CREDITCARD
    &&& r.order_id@ == item.payment_id@
    &&& r.currency@ == item.currency@
    &&& r.amount@ == decimal_text(item.amount as int)
    &&& opt_view(r.description) == opt_view(item.description)
    &&& r.gateway_info.card_number@ == card.card_number@
    &&& r.gateway_info.card_expiry_date@ == expiry_text(card)
    &&& r.gateway_info.card_holder_name@ == card.card_holder_name@
    &&& r.gateway_info.card_cvc@ == card.card_cvc@
}

impl MultisafepayPaymentsRequest {
    /// Builds the direct credit-card request of an authorization. Any payment
    /// method but a card is refused, naming the method.
    pub fn try_from(item: &AuthorizeOperation) -> (r: Result<Self, ConnectorError>)
        ensures
            item.payment_method matches PaymentMethod::Card(card) ==> (r matches Ok(req)
                && is_card_request(req, *item, card)),
            !(item.payment_method is Card) ==> (r matches Err(
                ConnectorError::UnsupportedPaymentMethod { method },
            ) && method@ == payment_method_name(item.payment_method)),
    {
        match &item.payment_method {
            PaymentMethod::Card(ccard) => {
                let mut expiry = ccard.card_exp_month.clone();
                expiry.append("/");
                expiry.append(ccard.card_exp_year.as_str());
                proof {
                    reveal_strlit("/");
                    reveal_strlit("direct");
                }
                let payment_request = MultisafepayPaymentsRequest {
                    gateway: MultisafeGateway::CREDITCARD,
                    stype: String::from_str("direct"),
                    order_id: item.payment_id.clone(),
                    currency: item.currency.clone(),
                    amount: amount_text(item.amount),
                    description: clone_opt_string(&item.description),
                    gateway_info: MultisafepayGatewayInfo {
                        card_number: ccard.card_number.clone(),
                        card_expiry_date: expiry,
                        card_holder_name: ccard.card_holder_name.clone(),
                        card_cvc: ccard.card_cvc.clone(),
                    },
                };
                assert(payment_request.gateway_info.card_expiry_date@ == expiry_text(*ccard));
                Ok(payment_request)
            },
            _ => Err(ConnectorError::UnsupportedPaymentMethod { method: item.payment_method.name() }),
        }
    }
}

// ----- Capture -----

/// A capture, in the gateway's request shape.
#[derive(Debug, PartialEq, Eq)]
pub struct MultisafepayCaptureRequest {
    /// `None` captures the full amount.
    pub amount: Option<i64>,
    pub new_order_status: String,
}

impl MultisafepayCaptureRequest {
    /// Builds a capture request: the amount is passed on as it is, and the
    /// order is marked completed. Never fails.
    pub fn try_from(item: &CaptureOperation) -> (r: Result<Self, ConnectorError>)
        ensures
            r matches Ok(req) && req.amount == item.amount_to_capture
                && req.new_order_status@ == "completed"@,
    {
        proof {
            reveal_strlit("completed");
        }
        Ok(MultisafepayCaptureRequest {
            amount: item.amount_to_capture,
            new_order_status: String::from_str("completed"),
        })
    }
}

// ----- Auth -----

/// The credential this gateway takes: one API key, sent in a header.
#[derive(Debug, PartialEq, Eq)]
pub struct MultisafepayAuthType {
    pub api_key: String,
}

impl MultisafepayAuthType {
    /// Takes the API key out of a header-key credential; every other kind of
    /// credential is refused.
    pub fn try_from(auth_type: &ConnectorAuthType) -> (r: Result<Self, ConnectorError>)
        ensures
            auth_type matches ConnectorAuthType::HeaderKey { api_key } ==> (r matches Ok(auth)
                && auth.api_key@ == api_key@),
            !(auth_type is HeaderKey) ==> r matches Err(ConnectorError::AuthTypeError),
    {
        if let ConnectorAuthType::HeaderKey { api_key } = auth_type {
            Ok(MultisafepayAuthType { api_key: api_key.clone() })
        } else {
            Err(ConnectorError::AuthTypeError)
        }
    }
}

// ----- Payment response -----

/// The status of a payment as the gateway reports it.
#[derive(Debug, Clone, Copy, Default, PartialEq, Eq, Structural)]
pub enum MultisafepayPaymentStatus {
    Initialized,
    Uncleared,
    Completed,
    Void,
    Expired,
    #[default]
    Declined,
}

/// The canonical attempt status of each gateway payment status.
pub open spec fn attempt_status_of(s: MultisafepayPaymentStatus) -> AttemptStatus {
    match s {
        MultisafepayPaymentStatus::Initialized => AttemptStatus::Started,
        MultisafepayPaymentStatus::Uncleared => AttemptStatus::AuthorizationFailed,
        MultisafepayPaymentStatus::Completed => AttemptStatus::Charged,
        MultisafepayPaymentStatus::Void => AttemptStatus::Voided,
        MultisafepayPaymentStatus::Expired => AttemptStatus::Failure,
        MultisafepayPaymentStatus::Declined => AttemptStatus::AuthenticationFailed,
    }
}

impl From<MultisafepayPaymentStatus> for AttemptStatus {
    fn from(item: MultisafepayPaymentStatus) -> (r: AttemptStatus) {
        match item {
            MultisafepayPaymentStatus::Initialized => AttemptStatus::Started,
            MultisafepayPaymentStatus::Uncleared => AttemptStatus::AuthorizationFailed,
            MultisafepayPaymentStatus::Completed => AttemptStatus::Charged,
            MultisafepayPaymentStatus::Void => AttemptStatus::Voided,
            MultisafepayPaymentStatus::Expired => AttemptStatus::Failure,
            MultisafepayPaymentStatus::Declined => AttemptStatus::AuthenticationFailed,
        }
    }
}

impl vstd::std_specs::convert::FromSpecImpl<MultisafepayPaymentStatus> for AttemptStatus {
    open spec fn obeys_from_spec() -> bool {
        true
    }

    open spec fn from_spec(v: MultisafepayPaymentStatus) -> AttemptStatus {
        attempt_status_of(v)
    }
}

/// Maps a gateway payment status to the canonical attempt status.
pub fn map_status(status: MultisafepayPaymentStatus) -> (r: AttemptStatus)
    ensures
        r == attempt_status_of(status),
{
    AttemptStatus::from(status)
}

/// The gateway's answer to a payment call.
#[derive(Debug, Clone, PartialEq, Eq)]
pub struct MultisafepayPaymentsResponse {
    pub success: bool,
    pub data: MultisafepayPaymentsData,
}

/// The payload of the gateway's answer to a payment call.
#[derive(Debug, Clone, PartialEq, Eq)]
pub struct MultisafepayPaymentsData {
    pub transaction_id: String,
    pub order_id: String,
    pub status: MultisafepayPaymentStatus,
}

/// `resp` records a processed payment identified by `id`, and nothing else.
pub open spec fn is_transaction_response(resp: TransactionResponse, id: Option<Seq<char>>) -> bool {
    &&& match resp.resource_id {
        ResponseId::ConnectorTransactionId(t) => id == Some(t@),
        ResponseId::NoResponseId => id is None,
    }
    &&& resp.redirection_data is None
    &&& !resp.redirect
    &&& resp.mandate_reference is None
    &&& resp.connector_metadata is None
}

impl PaymentsRouterData {
    /// Fills a payment record from the gateway's answer to a payment call:
    /// the status is mapped, and the gateway's order id becomes the resource
    /// id. The rest of the record is kept.
    pub fn from_payments_response(
        item: ResponseRouterData<MultisafepayPaymentsResponse, PaymentsRouterData>,
    ) -> (r: Result<PaymentsRouterData, ParsingError>)
        ensures
            ({
                &&& r matches Ok(rec)
                &&& rec.status == attempt_status_of(item.response.data.status)
                &&& rec.payment_id@ == item.data.payment_id@
                &&& rec.response matches Ok(resp)
                &&& is_transaction_response(resp, Some(item.response.data.order_id@))
            }),
    {
        let ResponseRouterData { response, data } = item;
        let status = AttemptStatus::from(response.data.status);
        Ok(PaymentsRouterData {
            status,
            response: Ok(TransactionResponse {
                resource_id: ResponseId::ConnectorTransactionId(response.data.order_id),
                redirection_data: None,
                redirect: false,
                mandate_reference: None,
                connector_metadata: None,
            }),
            payment_id: data.payment_id,
        })
    }
}

// ----- Cancel -----

/// A cancellation, in the gateway's request shape.
#[derive(Debug, PartialEq, Eq)]
pub struct MultisafepayCancelRequest {
    pub status: String,
}

impl MultisafepayCancelRequest {
    /// Builds a cancel request, which marks the order cancelled. Never fails.
    pub fn try_from(_item: &CancelOperation) -> (r: Result<Self, ParsingError>)
        ensures
            r matches Ok(req) && req.status@ == "cancelled"@,
    {
        proof {
            reveal_strlit("cancelled");
        }
        Ok(MultisafepayCancelRequest { status: String::from_str("cancelled") })
    }
}

/// The gateway's answer to a cancellation.
#[derive(Debug, Clone, Copy, PartialEq, Eq, Structural)]
pub struct MultisafepayCancelResponse {
    pub success: bool,
}

/// The canonical attempt status after a cancellation that succeeded or not.
pub open spec fn void_status_of(success: bool) -> AttemptStatus {
    if success {
        AttemptStatus::Voided
    } else {
        AttemptStatus::VoidFailed
    }
}

impl PaymentsRouterData {
    /// Fills a payment record from the gateway's answer to a cancellation:
    /// voided on success, void failed otherwise, with no resource id. The
    /// rest of the record is kept.
    pub fn from_cancel_response(
        item: ResponseRouterData<MultisafepayCancelResponse, PaymentsRouterData>,
    ) -> (r: Result<PaymentsRouterData, ParsingError>)
        ensures
            ({
                &&& r matches Ok(rec)
                &&& rec.status == void_status_of(item.response.success)
                &&& rec.payment_id@ == item.data.payment_id@
                &&& rec.response matches Ok(resp)
                &&& is_transaction_response(resp, None)
            }),
    {
        let void_status = match item.response.success {
            true => AttemptStatus::Voided,
            false => AttemptStatus::VoidFailed,
        };
        Ok(PaymentsRouterData {
            status: void_status,
            response: Ok(TransactionResponse {
                resource_id: ResponseId::NoResponseId,
                redirection_data: None,
                redirect: false,
                mandate_reference: None,
                connector_metadata: None,
            }),
            payment_id: item.data.payment_id,
        })
    }
}

// ----- Refund -----

/// A refund, in the gateway's request shape.
#[derive(Debug, PartialEq, Eq)]
pub struct MultisafepayRefundRequest {
    pub currency: String,
    /// Amount in minor units.
    pub amount: i64,
}

impl MultisafepayRefundRequest {
    /// Builds a refund request: currency and amount are copied as they are.
    /// Never fails.
    pub fn try_from(item: &RefundOperation) -> (r: Result<Self, ParsingError>)
        ensures
            r matches Ok(req) && req.currency@ == item.currency@ && req.amount
                == item.refund_amount,
    {
        Ok(MultisafepayRefundRequest { currency: item.currency.clone(), amount: item.refund_amount })
    }
}

/// The gateway's answer to a refund.
#[derive(Debug, Clone, Copy, PartialEq, Eq, Structural)]
pub struct RefundResponse {
    pub success: bool,
    pub data: RefundResponseData,
}

/// The payload of the gateway's answer to a refund.
#[derive(Debug, Clone, Copy, PartialEq, Eq, Structural)]
pub struct RefundResponseData {
    pub transaction_id: u32,
    pub refund_id: u32,
}

/// The canonical refund status after a refund that the gateway took or not.
pub open spec fn refund_status_of(success: bool) -> RefundStatus {
    if success {
        RefundStatus::Pending
    } else {
        RefundStatus::Failure
    }
}

impl RefundsRouterData {
    /// Fills a refund record from the gateway's answer to a refund: pending
    /// when the gateway took it, failed otherwise, identified by the gateway's
    /// refund id in decimal. The rest of the record is kept.
    pub fn from_refund_response(
        item: ResponseRouterData<RefundResponse, RefundsRouterData>,
    ) -> (r: Result<RefundsRouterData, ParsingError>)
        ensures
            ({
                &&& r matches Ok(rec)
                &&& rec.refund_id@ == item.data.refund_id@
                &&& rec.status == item.data.status
                &&& rec.response matches Ok(resp)
                &&& resp.refund_status == refund_status_of(item.response.success)
                &&& resp.connector_refund_id@ == digits_of(item.response.data.refund_id as nat)
            }),
    {
        let refund_status = match item.response.success {
            true => RefundStatus::Pending,
            false => RefundStatus::Failure,
        };
        Ok(RefundsRouterData {
            response: Ok(RefundsResponseData {
                connector_refund_id: unsigned_text(item.response.data.refund_id as u64),
                refund_status,
            }),
            refund_id: item.data.refund_id,
            status: item.data.status,
        })
    }
}

// ----- Refund sync -----

/// The status of a refund as the gateway reports it.
#[derive(Debug, Clone, Copy, Default, PartialEq, Eq, Structural)]
pub enum RefundSyncStatus {
    Reserved,
    Declined,
    #[default]
    Completed,
}

/// The canonical refund status of each gateway refund status.
pub open spec fn refund_sync_status_of(s: RefundSyncStatus) -> RefundStatus {
    match s {
        RefundSyncStatus::Reserved => RefundStatus::Pending,
        RefundSyncStatus::Completed => RefundStatus::Success,
        RefundSyncStatus::Declined => RefundStatus::Failure,
    }
}

impl From<RefundSyncStatus> for RefundStatus {
    fn from(item: RefundSyncStatus) -> (r: RefundStatus) {
        match item {
            RefundSyncStatus::Reserved => RefundStatus::Pending,
            RefundSyncStatus::Completed => RefundStatus::Success,
            RefundSyncStatus::Declined => RefundStatus::Failure,
        }
    }
}

impl vstd::std_specs::convert::FromSpecImpl<RefundSyncStatus> for RefundStatus {
    open spec fn obeys_from_spec() -> bool {
        true
    }

    open spec fn from_spec(v: RefundSyncStatus) -> RefundStatus {
        refund_sync_status_of(v)
    }
}

/// The gateway's answer to a refund status query.
#[derive(Debug, Clone, PartialEq, Eq)]
pub struct RefundSyncResponse {
    pub success: bool,
    pub data: RefundSyncResponseData,
}

/// The payload of the gateway's answer to a refund status query.
#[derive(Debug, Clone, PartialEq, Eq)]
pub struct RefundSyncResponseData {
    pub transaction_id: u32,
    pub order_id: String,
    pub status: RefundSyncStatus,
}

impl RefundsRouterData {
    /// Fills a refund record from the gateway's answer to a status query: the
    /// status is mapped, and the gateway's order id identifies the refund.
    /// The rest of the record is kept.
    pub fn from_refund_sync_response(
        item: ResponseRouterData<RefundSyncResponse, RefundsRouterData>,
    ) -> (r: Result<RefundsRouterData, ParsingError>)
        ensures
            ({
                &&& r matches Ok(rec)
                &&& rec.refund_id@ == item.data.refund_id@
                &&& rec.status == item.data.status
                &&& rec.response matches Ok(resp)
                &&& resp.refund_status == refund_sync_status_of(item.response.data.status)
                &&& resp.connector_refund_id@ == item.response.data.order_id@
            }),
    {
        let ResponseRouterData { response, data } = item;
        let refund_status = RefundStatus::from(response.data.status);
        Ok(RefundsRouterData {
            response: Ok(RefundsResponseData {
                connector_refund_id: response.data.order_id,
                refund_status,
            }),
            refund_id: data.refund_id,
            status: data.status,
        })
    }
}

// ----- Errors -----

/// The gateway's error envelope; it carries nothing this connector reads.
#[derive(Debug, Clone, Copy, Default, PartialEq, Eq, Structural)]
pub struct MultisafepayErrorResponse {}

} // verus!
