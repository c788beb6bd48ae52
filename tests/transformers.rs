use multisafepay::decimal::amount_text;
use multisafepay::transformers::{
    map_status, MultisafeGateway, MultisafepayAuthType, MultisafepayCancelRequest,
    MultisafepayCancelResponse, MultisafepayCaptureRequest, MultisafepayPaymentStatus,
    MultisafepayPaymentsData, MultisafepayPaymentsRequest, MultisafepayPaymentsResponse,
    MultisafepayRefundRequest, RefundResponse, RefundResponseData, RefundSyncResponse,
    RefundSyncResponseData, RefundSyncStatus,
};
use multisafepay::types::{
    AttemptStatus, AuthorizeOperation, CancelOperation, CaptureOperation, Card,
    ConnectorAuthType, ConnectorError, PaymentMethod, PaymentsRouterData, RefundOperation,
    RefundStatus, RefundsRouterData, ResponseId, ResponseRouterData,
};

fn visa_card() -> Card {
    Card {
        card_number: "4111111111111111".to_string(),
        card_exp_month: "12".to_string(),
        card_exp_year: "2030".to_string(),
        card_holder_name: "Jane Doe".to_string(),
        card_cvc: "123".to_string(),
    }
}

fn authorize(method: PaymentMethod) -> AuthorizeOperation {
    AuthorizeOperation {
        payment_id: "pay_1".to_string(),
        amount: 1000,
        currency: "EUR".to_string(),
        description: Some("order".to_string()),
        payment_method: method,
    }
}

fn payment_record() -> PaymentsRouterData {
    PaymentsRouterData {
        payment_id: "pay_1".to_string(),
        status: AttemptStatus::Pending,
        response: Err(multisafepay::types::ErrorResponse {
            code: "none".to_string(),
            message: "not yet".to_string(),
        }),
    }
}

fn refund_record() -> RefundsRouterData {
    RefundsRouterData {
        refund_id: "ref_1".to_string(),
        status: AttemptStatus::Charged,
        response: Err(multisafepay::types::ErrorResponse {
            code: "none".to_string(),
            message: "not yet".to_string(),
        }),
    }
}

#[test]
fn status_table_is_exhaustive() {
    let cases = [
        (MultisafepayPaymentStatus::Initialized, AttemptStatus::Started),
        (MultisafepayPaymentStatus::Uncleared, AttemptStatus::AuthorizationFailed),
        (MultisafepayPaymentStatus::Completed, AttemptStatus::Charged),
        (MultisafepayPaymentStatus::Void, AttemptStatus::Voided),
        (MultisafepayPaymentStatus::Expired, AttemptStatus::Failure),
        (MultisafepayPaymentStatus::Declined, AttemptStatus::AuthenticationFailed),
    ];
    for (gateway, canonical) in cases {
        assert_eq!(map_status(gateway), canonical);
        assert_eq!(AttemptStatus::from(gateway), canonical);
    }
}

#[test]
fn card_authorize_builds_direct_request() {
    let req = MultisafepayPaymentsRequest::try_from(&authorize(PaymentMethod::Card(visa_card())))
        .unwrap();
    assert_eq!(req.stype, "direct");
    assert_eq!(req.gateway, MultisafeGateway::CREDITCARD);
    assert_eq!(req.order_id, "pay_1");
    assert_eq!(req.currency, "EUR");
    assert_eq!(req.amount, "1000");
    assert_eq!(req.description, Some("order".to_string()));
    assert_eq!(req.gateway_info.card_number, "4111111111111111");
    assert_eq!(req.gateway_info.card_expiry_date, "12/2030");
    assert_eq!(req.gateway_info.card_holder_name, "Jane Doe");
    assert_eq!(req.gateway_info.card_cvc, "123");
}

#[test]
fn card_authorize_without_description() {
    let mut op = authorize(PaymentMethod::Card(visa_card()));
    op.description = None;
    op.amount = -250;
    let req = MultisafepayPaymentsRequest::try_from(&op).unwrap();
    assert_eq!(req.description, None);
    assert_eq!(req.amount, "-250");
}

#[test]
fn non_card_authorize_is_refused() {
    let cases = [
        (PaymentMethod::Wallet, "wallet"),
        (PaymentMethod::BankTransfer, "bank_transfer"),
        (PaymentMethod::PayLater, "pay_later"),
    ];
    for (method, name) in cases {
        let r = MultisafepayPaymentsRequest::try_from(&authorize(method));
        assert_eq!(
            r,
            Err(ConnectorError::UnsupportedPaymentMethod { method: name.to_string() })
        );
    }
}

#[test]
fn amount_text_is_decimal() {
    assert_eq!(amount_text(0), "0");
    assert_eq!(amount_text(7), "7");
    assert_eq!(amount_text(1000), "1000");
    assert_eq!(amount_text(-42), "-42");
    assert_eq!(amount_text(i64::MAX), "9223372036854775807");
    assert_eq!(amount_text(i64::MIN), "-9223372036854775808");
}

#[test]
fn auth_header_key_is_taken() {
    let auth = ConnectorAuthType::HeaderKey { api_key: "sk_test_123".to_string() };
    let r = MultisafepayAuthType::try_from(&auth).unwrap();
    assert_eq!(r.api_key, "sk_test_123");
}

#[test]
fn auth_other_variants_are_refused() {
    let cases = [
        ConnectorAuthType::BodyKey { api_key: "a".to_string(), key1: "b".to_string() },
        ConnectorAuthType::SignatureKey {
            api_key: "a".to_string(),
            key1: "b".to_string(),
            api_secret: "c".to_string(),
        },
        ConnectorAuthType::NoKey,
    ];
    for auth in cases {
        assert_eq!(MultisafepayAuthType::try_from(&auth), Err(ConnectorError::AuthTypeError));
    }
}

#[test]
fn capture_passes_amount_through() {
    let r = MultisafepayCaptureRequest::try_from(&CaptureOperation { amount_to_capture: Some(500) })
        .unwrap();
    assert_eq!(r.amount, Some(500));
    assert_eq!(r.new_order_status, "completed");
    let full = MultisafepayCaptureRequest::try_from(&CaptureOperation { amount_to_capture: None })
        .unwrap();
    assert_eq!(full.amount, None);
    assert_eq!(full.new_order_status, "completed");
}

#[test]
fn cancel_request_is_cancelled() {
    let r = MultisafepayCancelRequest::try_from(&CancelOperation { payment_id: "p".to_string() })
        .unwrap();
    assert_eq!(r.status, "cancelled");
}

#[test]
fn refund_request_copies_fields() {
    let r = MultisafepayRefundRequest::try_from(&RefundOperation {
        currency: "USD".to_string(),
        refund_amount: 321,
    })
    .unwrap();
    assert_eq!(r.currency, "USD");
    assert_eq!(r.amount, 321);
}

#[test]
fn completed_payment_response_is_charged() {
    let response = MultisafepayPaymentsResponse {
        success: true,
        data: MultisafepayPaymentsData {
            transaction_id: "t1".to_string(),
            order_id: "o1".to_string(),
            status: MultisafepayPaymentStatus::Completed,
        },
    };
    let rec = PaymentsRouterData::from_payments_response(ResponseRouterData {
        response,
        data: payment_record(),
    })
    .unwrap();
    assert_eq!(rec.status, AttemptStatus::Charged);
    assert_eq!(rec.payment_id, "pay_1");
    let resp = rec.response.unwrap();
    assert_eq!(resp.resource_id, ResponseId::ConnectorTransactionId("o1".to_string()));
    assert_eq!(resp.redirection_data, None);
    assert!(!resp.redirect);
    assert_eq!(resp.mandate_reference, None);
    assert_eq!(resp.connector_metadata, None);
}

#[test]
fn failed_cancel_response_is_void_failed() {
    let rec = PaymentsRouterData::from_cancel_response(ResponseRouterData {
        response: MultisafepayCancelResponse { success: false },
        data: payment_record(),
    })
    .unwrap();
    assert_eq!(rec.status, AttemptStatus::VoidFailed);
    assert_eq!(rec.response.unwrap().resource_id, ResponseId::NoResponseId);
}

#[test]
fn successful_cancel_response_is_voided() {
    let rec = PaymentsRouterData::from_cancel_response(ResponseRouterData {
        response: MultisafepayCancelResponse { success: true },
        data: payment_record(),
    })
    .unwrap();
    assert_eq!(rec.status, AttemptStatus::Voided);
}

#[test]
fn refund_response_status_and_id() {
    let ok = RefundsRouterData::from_refund_response(ResponseRouterData {
        response: RefundResponse {
            success: true,
            data: RefundResponseData { transaction_id: 9, refund_id: 40213 },
        },
        data: refund_record(),
    })
    .unwrap();
    assert_eq!(ok.refund_id, "ref_1");
    assert_eq!(ok.status, AttemptStatus::Charged);
    let resp = ok.response.unwrap();
    assert_eq!(resp.refund_status, RefundStatus::Pending);
    assert_eq!(resp.connector_refund_id, "40213");

    let failed = RefundsRouterData::from_refund_response(ResponseRouterData {
        response: RefundResponse {
            success: false,
            data: RefundResponseData { transaction_id: 9, refund_id: 0 },
        },
        data: refund_record(),
    })
    .unwrap();
    let resp = failed.response.unwrap();
    assert_eq!(resp.refund_status, RefundStatus::Failure);
    assert_eq!(resp.connector_refund_id, "0");
}

fn sync_response(status: RefundSyncStatus) -> RefundSyncResponse {
    RefundSyncResponse {
        success: true,
        data: RefundSyncResponseData {
            transaction_id: 1,
            order_id: "o7".to_string(),
            status,
        },
    }
}

#[test]
fn reserved_refund_sync_is_pending() {
    let rec = RefundsRouterData::from_refund_sync_response(ResponseRouterData {
        response: sync_response(RefundSyncStatus::Reserved),
        data: refund_record(),
    })
    .unwrap();
    let resp = rec.response.unwrap();
    assert_eq!(resp.refund_status, RefundStatus::Pending);
    assert_eq!(resp.connector_refund_id, "o7");
    assert_eq!(rec.refund_id, "ref_1");
}

#[test]
fn refund_sync_table() {
    assert_eq!(RefundStatus::from(RefundSyncStatus::Reserved), RefundStatus::Pending);
    assert_eq!(RefundStatus::from(RefundSyncStatus::Completed), RefundStatus::Success);
    assert_eq!(RefundStatus::from(RefundSyncStatus::Declined), RefundStatus::Failure);
    let rec = RefundsRouterData::from_refund_sync_response(ResponseRouterData {
        response: sync_response(RefundSyncStatus::Declined),
        data: refund_record(),
    })
    .unwrap();
    assert_eq!(rec.response.unwrap().refund_status, RefundStatus::Failure);
}

#[test]
fn payment_method_names() {
    assert_eq!(PaymentMethod::Card(visa_card()).name(), "card");
    assert_eq!(PaymentMethod::Wallet.name(), "wallet");
}
