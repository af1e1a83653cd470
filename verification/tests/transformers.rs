use std::marker::PhantomData;

use iugu_connector::{
    AttemptStatus, Authorize, Capture, CaptureMethod, Card, CardNumber, ConnectorAuthType,
    ConnectorError, Email, ErrorResponse, Execute, IuguAuthType, IuguChargeRequest,
    IuguInvoiceRequest, IuguInvoiceResponse, IuguInvoiceStatus, IuguPaymentStatus,
    IuguPaymentsRequest, IuguPaymentsResponse, IuguPixDetails, IuguRefundRequest, IuguRouterData,
    Method, PSync, PaymentMethodData, PaymentsAuthorizeData, PaymentsAuthorizeRouterData,
    PaymentsCancelData, PaymentsCaptureData, PaymentsResponseData, PaymentsSyncData, RedirectForm,
    RefundStatus, RefundsData, RefundsResponseData, RefundsRouterData, ResponseId,
    ResponseRouterData, RouterData, Secret, StringMinorUnit, Void,
};

fn router_data<F, T, R>(request: T) -> RouterData<F, T, R> {
    RouterData {
        flow: PhantomData,
        merchant_id: "merchant_1".to_string(),
        customer_id: Some("cus_9".to_string()),
        connector: "iugu".to_string(),
        payment_id: "pay_42".to_string(),
        attempt_id: "pay_42_1".to_string(),
        status: AttemptStatus::Started,
        connector_auth_type: ConnectorAuthType::HeaderKey {
            api_key: Secret::new("key_abc".to_string()),
        },
        description: Some("order of shoes".to_string()),
        connector_request_reference_id: "ref_77".to_string(),
        request,
        response: Err(ErrorResponse {
            code: "none".to_string(),
            message: "no reply yet".to_string(),
            reason: None,
            status_code: 0,
        }),
    }
}

fn card() -> Card {
    Card {
        card_number: CardNumber::new("4111111111111111".to_string()),
        card_exp_month: Secret::new("03".to_string()),
        card_exp_year: Secret::new("2030".to_string()),
        card_cvc: Secret::new("737".to_string()),
        card_holder_name: Some(Secret::new("Ana Souza".to_string())),
    }
}

fn authorize(
    payment_method_data: PaymentMethodData,
    capture_method: Option<CaptureMethod>,
    email: Option<&str>,
) -> PaymentsAuthorizeRouterData {
    router_data(PaymentsAuthorizeData {
        payment_method_data,
        amount: 1500,
        currency: "BRL".to_string(),
        capture_method,
        email: email.map(|e| Email::new(e.to_string())),
        customer_name: None,
    })
}

fn invoice(status: IuguInvoiceStatus, secure_url: Option<&str>) -> IuguInvoiceResponse {
    IuguInvoiceResponse {
        id: "inv_123".to_string(),
        status,
        secure_url: secure_url.map(|u| u.to_string()),
        pdf: None,
        pix: Some(IuguPixDetails {
            qrcode: Some("qr".to_string()),
            qrcode_text: None,
            expires_at: None,
        }),
        error: None,
        errors: Some(serde_json::Value::Null),
    }
}

fn assert_transaction(response: &PaymentsResponseData, id: &str, url: Option<&str>) {
    match response {
        PaymentsResponseData::TransactionResponse {
            resource_id,
            redirection_data,
            mandate_reference,
            connector_metadata,
            network_txn_id,
            connector_response_reference_id,
            incremental_authorization_allowed,
        } => {
            assert_eq!(*resource_id, ResponseId::ConnectorTransactionId(id.to_string()));
            match url {
                None => assert!(redirection_data.is_none()),
                Some(u) => assert_eq!(
                    **redirection_data,
                    Some(RedirectForm::Form {
                        endpoint: u.to_string(),
                        method: Method::Get,
                        form_fields: vec![],
                    })
                ),
            }
            assert!(mandate_reference.is_none());
            assert!(connector_metadata.is_none());
            assert!(network_txn_id.is_none());
            assert!(connector_response_reference_id.is_none());
            assert!(incremental_authorization_allowed.is_none());
        }
        other => panic!("unexpected response {:?}", other),
    }
}

fn assert_kept<F, T: std::fmt::Debug, R>(rd: &RouterData<F, T, R>) {
    assert_eq!(rd.merchant_id, "merchant_1");
    assert_eq!(rd.customer_id.as_deref(), Some("cus_9"));
    assert_eq!(rd.connector, "iugu");
    assert_eq!(rd.payment_id, "pay_42");
    assert_eq!(rd.attempt_id, "pay_42_1");
    assert_eq!(rd.connector_request_reference_id, "ref_77");
    assert_eq!(rd.description.as_deref(), Some("order of shoes"));
}

#[test]
fn payment_status_reads_as_attempt_status() {
    assert_eq!(AttemptStatus::from(IuguPaymentStatus::Succeeded), AttemptStatus::Charged);
    assert_eq!(AttemptStatus::from(IuguPaymentStatus::Failed), AttemptStatus::Failure);
    assert_eq!(AttemptStatus::from(IuguPaymentStatus::Processing), AttemptStatus::Authorizing);
}

#[test]
fn invoice_status_reads_as_attempt_status() {
    let cases = [
        (IuguInvoiceStatus::Paid, AttemptStatus::Charged),
        (IuguInvoiceStatus::Refunded, AttemptStatus::Charged),
        (IuguInvoiceStatus::Pending, AttemptStatus::Pending),
        (IuguInvoiceStatus::InAnalysis, AttemptStatus::Pending),
        (IuguInvoiceStatus::PartiallyPaid, AttemptStatus::Pending),
        (IuguInvoiceStatus::Canceled, AttemptStatus::Voided),
        (IuguInvoiceStatus::Expired, AttemptStatus::Failure),
    ];
    for (invoice_status, attempt_status) in cases {
        assert_eq!(AttemptStatus::from(invoice_status), attempt_status);
    }
}

#[test]
fn default_statuses_claim_no_charge() {
    assert_eq!(IuguPaymentStatus::default(), IuguPaymentStatus::Processing);
    assert_eq!(IuguInvoiceStatus::default(), IuguInvoiceStatus::Pending);
    assert_eq!(AttemptStatus::from(IuguPaymentStatus::default()), AttemptStatus::Authorizing);
    assert_eq!(AttemptStatus::from(IuguInvoiceStatus::default()), AttemptStatus::Pending);
}

#[test]
fn router_data_pairs_amount_and_data() {
    let item = IuguRouterData::from((StringMinorUnit::new("1500".to_string()), 7u8));
    assert_eq!(item.amount.get_amount_as_string(), "1500");
    assert_eq!(item.router_data, 7u8);
}

#[test]
fn auth_type_takes_header_key() {
    let auth = ConnectorAuthType::HeaderKey { api_key: Secret::new("key_abc".to_string()) };
    let parsed = IuguAuthType::try_from(&auth).unwrap();
    assert_eq!(parsed.api_key.peek(), "key_abc");
}

#[test]
fn auth_type_refuses_other_credentials() {
    let body = ConnectorAuthType::BodyKey {
        api_key: Secret::new("a".to_string()),
        key1: Secret::new("b".to_string()),
    };
    assert_eq!(IuguAuthType::try_from(&body), Err(ConnectorError::FailedToObtainAuthType));
    assert_eq!(
        IuguAuthType::try_from(&ConnectorAuthType::NoKey),
        Err(ConnectorError::FailedToObtainAuthType)
    );
}

#[test]
fn card_charge_with_automatic_capture_is_complete() {
    for method in [None, Some(CaptureMethod::Automatic), Some(CaptureMethod::SequentialAutomatic)] {
        let data = authorize(PaymentMethodData::Card(card()), method, Some("ana@example.com"));
        let item = IuguRouterData::from((StringMinorUnit::new("1500".to_string()), &data));
        let req = IuguPaymentsRequest::try_from(&item).unwrap();
        assert_eq!(req.amount.get_amount_as_string(), "1500");
        assert_eq!(req.card.number.peek(), "4111111111111111");
        assert_eq!(req.card.expiry_month.peek(), "03");
        assert_eq!(req.card.expiry_year.peek(), "2030");
        assert_eq!(req.card.cvc.peek(), "737");
        assert!(req.card.complete);
    }
}

#[test]
fn card_charge_with_manual_capture_is_not_complete() {
    let data = authorize(PaymentMethodData::Card(card()), Some(CaptureMethod::Manual), None);
    let item = IuguRouterData::from((StringMinorUnit::new("990".to_string()), &data));
    let req = IuguPaymentsRequest::try_from(&item).unwrap();
    assert_eq!(req.amount.get_amount_as_string(), "990");
    assert!(!req.card.complete);
}

#[test]
fn card_charge_refuses_unsupported_capture_method() {
    for method in [CaptureMethod::ManualMultiple, CaptureMethod::Scheduled] {
        let data = authorize(PaymentMethodData::Card(card()), Some(method), None);
        let item = IuguRouterData::from((StringMinorUnit::new("990".to_string()), &data));
        assert_eq!(
            IuguPaymentsRequest::try_from(&item),
            Err(ConnectorError::CaptureMethodNotSupported)
        );
    }
}

#[test]
fn card_charge_refuses_other_payment_methods() {
    let data = authorize(PaymentMethodData::BankTransfer, None, Some("ana@example.com"));
    let item = IuguRouterData::from((StringMinorUnit::new("990".to_string()), &data));
    assert_eq!(
        IuguPaymentsRequest::try_from(&item),
        Err(ConnectorError::NotImplemented("Payment method"))
    );
}

#[test]
fn refund_request_carries_amount() {
    let data: RefundsRouterData<Execute> = router_data(RefundsData {
        refund_id: "ref_1".to_string(),
        connector_transaction_id: "inv_123".to_string(),
        refund_amount: 500,
        currency: "BRL".to_string(),
        reason: None,
    });
    let item = IuguRouterData::from((StringMinorUnit::new("500".to_string()), &data));
    let req = IuguRefundRequest::try_from(&item).unwrap();
    assert_eq!(req.amount.get_amount_as_string(), "500");
    let _unused = RefundsResponseData {
        connector_refund_id: "r".to_string(),
        refund_status: RefundStatus::Pending,
    };
}

#[test]
fn charge_request_uses_email_and_reference() {
    let data = authorize(PaymentMethodData::Wallet, None, Some("ana@example.com"));
    let req = IuguChargeRequest::try_from(&data).unwrap();
    assert_eq!(req.email, "ana@example.com");
    assert_eq!(req.order_id.as_deref(), Some("ref_77"));
    assert!(req.token.is_none());
    assert!(req.customer_payment_method_id.is_none());
    assert!(req.payer.is_none());
    assert!(req.invoice_id.is_none());
    assert!(req.items.is_none());
}

#[test]
fn charge_request_needs_email() {
    let data = authorize(PaymentMethodData::Wallet, None, None);
    assert_eq!(
        IuguChargeRequest::try_from(&data),
        Err(ConnectorError::MissingRequiredField { field_name: "email" })
    );
}

#[test]
fn invoice_request_is_bank_slip_for_email() {
    let data = authorize(PaymentMethodData::Voucher, None, Some("ana@example.com"));
    let inv = IuguInvoiceRequest::try_from(&data).unwrap();
    assert_eq!(inv.email, "ana@example.com");
    assert_eq!(inv.payable_with, vec!["bank_slip".to_string()]);
    assert!(inv.items.is_empty());
    assert!(inv.due_date.is_none());
    assert!(inv.payer.is_none());
    assert!(inv.ensure_workday_due_date.is_none());
    assert!(inv.splits.is_none());
    assert_eq!(inv.order_id.as_deref(), Some("ref_77"));
    let charge = IuguChargeRequest::try_from(&data).unwrap();
    assert_eq!(charge.email, inv.email);
    assert_eq!(charge.order_id, inv.order_id);
}

#[test]
fn invoice_request_needs_email() {
    let data = authorize(PaymentMethodData::Voucher, None, None);
    assert_eq!(
        IuguInvoiceRequest::try_from(&data),
        Err(ConnectorError::MissingRequiredField { field_name: "email" })
    );
}

#[test]
fn charge_reply_sets_status_and_transaction() {
    let data: RouterData<Authorize, PaymentsAuthorizeData, PaymentsResponseData> =
        authorize(PaymentMethodData::Card(card()), None, None);
    let item = ResponseRouterData {
        response: IuguPaymentsResponse {
            status: IuguPaymentStatus::Succeeded,
            id: "ch_1".to_string(),
        },
        data,
        http_code: 200,
    };
    let rd = RouterData::try_from(item).unwrap();
    assert_eq!(rd.status, AttemptStatus::Charged);
    assert_transaction(rd.response.as_ref().unwrap(), "ch_1", None);
    assert_kept(&rd);
    assert_eq!(rd.request.amount, 1500);
}

#[test]
fn authorize_invoice_reply_redirects_to_payment_page() {
    let data = authorize(PaymentMethodData::Voucher, None, Some("ana@example.com"));
    let item = ResponseRouterData {
        response: invoice(IuguInvoiceStatus::Pending, Some("https://faturas.iugu.com/inv_123")),
        data,
        http_code: 200,
    };
    let rd = RouterData::try_from(item).unwrap();
    assert_eq!(rd.status, AttemptStatus::Pending);
    assert_transaction(
        rd.response.as_ref().unwrap(),
        "inv_123",
        Some("https://faturas.iugu.com/inv_123"),
    );
    assert_kept(&rd);
}

#[test]
fn authorize_invoice_reply_without_page_does_not_redirect() {
    let data = authorize(PaymentMethodData::Voucher, None, Some("ana@example.com"));
    let item =
        ResponseRouterData { response: invoice(IuguInvoiceStatus::Paid, None), data, http_code: 200 };
    let rd = RouterData::try_from(item).unwrap();
    assert_eq!(rd.status, AttemptStatus::Charged);
    assert_transaction(rd.response.as_ref().unwrap(), "inv_123", None);
}

#[test]
fn sync_invoice_reply() {
    let data: RouterData<PSync, PaymentsSyncData, PaymentsResponseData> =
        router_data(PaymentsSyncData {
            connector_transaction_id: ResponseId::ConnectorTransactionId("inv_123".to_string()),
            capture_method: None,
        });
    let item = ResponseRouterData {
        response: invoice(IuguInvoiceStatus::Expired, Some("https://faturas.iugu.com/inv_123")),
        data,
        http_code: 200,
    };
    let rd = RouterData::try_from(item).unwrap();
    assert_eq!(rd.status, AttemptStatus::Failure);
    assert_transaction(rd.response.as_ref().unwrap(), "inv_123", None);
    assert_kept(&rd);
}

#[test]
fn capture_invoice_reply() {
    let data: RouterData<Capture, PaymentsCaptureData, PaymentsResponseData> =
        router_data(PaymentsCaptureData {
            amount_to_capture: 1500,
            currency: "BRL".to_string(),
            connector_transaction_id: "inv_123".to_string(),
        });
    let item =
        ResponseRouterData { response: invoice(IuguInvoiceStatus::Paid, None), data, http_code: 200 };
    let rd = RouterData::try_from(item).unwrap();
    assert_eq!(rd.status, AttemptStatus::Charged);
    assert_transaction(rd.response.as_ref().unwrap(), "inv_123", None);
    assert_kept(&rd);
    assert_eq!(rd.request.amount_to_capture, 1500);
}

#[test]
fn void_invoice_reply() {
    let data: RouterData<Void, PaymentsCancelData, PaymentsResponseData> =
        router_data(PaymentsCancelData {
            connector_transaction_id: "inv_123".to_string(),
            cancellation_reason: Some("customer asked".to_string()),
        });
    let item = ResponseRouterData {
        response: invoice(IuguInvoiceStatus::Canceled, None),
        data,
        http_code: 200,
    };
    let rd = RouterData::try_from(item).unwrap();
    assert_eq!(rd.status, AttemptStatus::Voided);
    assert_transaction(rd.response.as_ref().unwrap(), "inv_123", None);
    assert_kept(&rd);
    assert_eq!(rd.request.cancellation_reason.as_deref(), Some("customer asked"));
}

#[test]
fn flows_agree_on_the_same_invoice_reply() {
    let sync: RouterData<PSync, PaymentsSyncData, PaymentsResponseData> =
        router_data(PaymentsSyncData {
            connector_transaction_id: ResponseId::NoResponseId,
            capture_method: None,
        });
    let void: RouterData<Void, PaymentsCancelData, PaymentsResponseData> =
        router_data(PaymentsCancelData {
            connector_transaction_id: "inv_123".to_string(),
            cancellation_reason: None,
        });
    let a = RouterData::try_from(ResponseRouterData {
        response: invoice(IuguInvoiceStatus::Refunded, None),
        data: sync,
        http_code: 200,
    })
    .unwrap();
    let b = RouterData::try_from(ResponseRouterData {
        response: invoice(IuguInvoiceStatus::Refunded, None),
        data: void,
        http_code: 200,
    })
    .unwrap();
    assert_eq!(a.status, b.status);
    assert_eq!(format!("{:?}", a.response), format!("{:?}", b.response));
}
