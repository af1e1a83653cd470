//! Iugu's requests and replies, and the conversions between them and the
//! payment router's data.
use vstd::prelude::*;
use vstd::std_specs::convert::{FromSpecImpl, TryFromSpecImpl};

use crate::domain::{
    spec_is_auto_capture, with_outcome, updates_only_outcome, Authorize, Capture, CardNumber,
    ConnectorAuthType, ConnectorError, MandateReference, Method, PSync, PaymentMethodData,
    PaymentsAuthorizeData, PaymentsAuthorizeRouterData, PaymentsCancelData, PaymentsCaptureData,
    PaymentsResponseData, PaymentsSyncData, RedirectForm, RefundsRouterData, ResponseId,
    ResponseRouterData, RouterData, Secret, StringMinorUnit, Void,
};
use crate::status::{
    invoice_status_to_attempt, payment_status_to_attempt, AttemptStatus, IuguInvoiceStatus,
    IuguPaymentStatus,
};

verus! {

// ---------------------------------------------------------------------------
// Replies
// ---------------------------------------------------------------------------

/// A transaction reply that names the connector's transaction `id`, sends the
/// customer on to `redirection` when there is one, and carries nothing else.
pub open spec fn transaction_response(
    id: String,
    redirection: Option<RedirectForm>,
) -> PaymentsResponseData {
    PaymentsResponseData::TransactionResponse {
        resource_id: ResponseId::ConnectorTransactionId(id),
        redirection_data: Box::new(redirection),
        mandate_reference: Box::new(None),
        connector_metadata: None,
        network_txn_id: None,
        connector_response_reference_id: None,
        incremental_authorization_allowed: None,
    }
}

/// `form` sends the customer to `url` with a GET and no form fields when
/// there is a `url`, and there is no form when there is none.
pub open spec fn redirects_to(form: Option<RedirectForm>, url: Option<String>) -> bool {
    match url {
        None => form is None,
        Some(u) => form matches Some(RedirectForm::Form { endpoint, method, form_fields }) && {
            &&& endpoint == u
            &&& method == Method::Get
            &&& form_fields@.len() == 0
        },
    }
}

/// `response` is a transaction reply that names the connector's transaction
/// `id`, redirects as [`redirects_to`] says for `url`, and carries nothing else.
pub open spec fn reports_transaction(
    response: PaymentsResponseData,
    id: String,
    url: Option<String>,
) -> bool {
    match response {
        PaymentsResponseData::TransactionResponse {
            resource_id,
            redirection_data,
            mandate_reference,
            connector_metadata,
            network_txn_id,
            connector_response_reference_id,
            incremental_authorization_allowed,
        } => {
            &&& resource_id == ResponseId::ConnectorTransactionId(id)
            &&& redirects_to(*redirection_data, url)
            &&& *mandate_reference == None::<MandateReference>
            &&& connector_metadata is None
            &&& network_txn_id is None
            &&& connector_response_reference_id is None
            &&& incremental_authorization_allowed is None
        },
        _ => false,
    }
}

/// Iugu's reply to a direct charge.
#[derive(Debug, Clone, PartialEq, Eq)]
pub struct IuguPaymentsResponse {
    pub status: IuguPaymentStatus,
    pub id: String,
}

/// What the router records of a charge reply: the attempt state that the
/// charge state stands for and the charge's id, with the rest of the router
/// data kept.
pub open spec fn payments_reply<F, T>(
    item: ResponseRouterData<F, IuguPaymentsResponse, T, PaymentsResponseData>,
) -> RouterData<F, T, PaymentsResponseData> {
    with_outcome(
        item.data,
        payment_status_to_attempt(item.response.status),
        transaction_response(item.response.id, None),
    )
}

impl<F, T> TryFrom<ResponseRouterData<F, IuguPaymentsResponse, T, PaymentsResponseData>> for RouterData<F, T, PaymentsResponseData> {
    type Error = ConnectorError;

    fn try_from(
        item: ResponseRouterData<F, IuguPaymentsResponse, T, PaymentsResponseData>,
    ) -> (r: Result<Self, ConnectorError>) {
        let status = AttemptStatus::from(item.response.status);
        Ok(RouterData {
            status,
            response: Ok(
                PaymentsResponseData::TransactionResponse {
                    resource_id: ResponseId::ConnectorTransactionId(item.response.id),
                    redirection_data: Box::new(None),
                    mandate_reference: Box::new(None),
                    connector_metadata: None,
                    network_txn_id: None,
                    connector_response_reference_id: None,
                    incremental_authorization_allowed: None,
                },
            ),
            ..item.data
        })
    }
}

impl<F, T> TryFromSpecImpl<ResponseRouterData<F, IuguPaymentsResponse, T, PaymentsResponseData>> for RouterData<F, T, PaymentsResponseData> {
    open spec fn obeys_try_from_spec() -> bool {
        true
    }

    open spec fn try_from_spec(
        v: ResponseRouterData<F, IuguPaymentsResponse, T, PaymentsResponseData>,
    ) -> Result<Self, ConnectorError> {
        Ok(payments_reply(v))
    }
}

/// The Pix details of an invoice.
#[derive(Debug, Clone, PartialEq, Eq)]
pub struct IuguPixDetails {
    pub qrcode: Option<String>,
    pub qrcode_text: Option<String>,
    pub expires_at: Option<String>,
}

/// Iugu's reply about an invoice.
#[derive(Debug)]
pub struct IuguInvoiceResponse {
    pub id: String,
    pub status: IuguInvoiceStatus,
    pub secure_url: Option<String>,
    pub pdf: Option<String>,
    pub pix: Option<IuguPixDetails>,
    pub error: Option<String>,
    pub errors: Option<serde_json::Value>,
}

/// What the router records of an invoice reply outside authorization: the
/// attempt state that the invoice state stands for and the invoice's id, with
/// the rest of the router data kept.
pub open spec fn invoice_reply<F, T>(
    item: ResponseRouterData<F, IuguInvoiceResponse, T, PaymentsResponseData>,
) -> RouterData<F, T, PaymentsResponseData> {
    with_outcome(
        item.data,
        invoice_status_to_attempt(item.response.status),
        transaction_response(item.response.id, None),
    )
}

/// The router data that records an invoice reply in a flow that does not
/// redirect the customer (synchronization, capture, cancellation).
fn record_invoice_reply<F, T>(
    item: ResponseRouterData<F, IuguInvoiceResponse, T, PaymentsResponseData>,
) -> (r: RouterData<F, T, PaymentsResponseData>)
    ensures
        r == invoice_reply(item),
{
    let status = AttemptStatus::from(item.response.status);
    let resource_id = ResponseId::ConnectorTransactionId(item.response.id);
    let payments_response = PaymentsResponseData::TransactionResponse {
        resource_id,
        redirection_data: Box::new(None),
        mandate_reference: Box::new(None),
        connector_metadata: None,
        network_txn_id: None,
        connector_response_reference_id: None,
        incremental_authorization_allowed: None,
    };
    RouterData { response: Ok(payments_response), status, ..item.data }
}

impl TryFrom<ResponseRouterData<PSync, IuguInvoiceResponse, PaymentsSyncData, PaymentsResponseData>> for RouterData<PSync, PaymentsSyncData, PaymentsResponseData> {
    type Error = ConnectorError;

    fn try_from(
        item: ResponseRouterData<PSync, IuguInvoiceResponse, PaymentsSyncData, PaymentsResponseData>,
    ) -> (r: Result<Self, ConnectorError>) {
        Ok(record_invoice_reply(item))
    }
}

impl TryFromSpecImpl<ResponseRouterData<PSync, IuguInvoiceResponse, PaymentsSyncData, PaymentsResponseData>> for RouterData<PSync, PaymentsSyncData, PaymentsResponseData> {
    open spec fn obeys_try_from_spec() -> bool {
        true
    }

    open spec fn try_from_spec(
        v: ResponseRouterData<PSync, IuguInvoiceResponse, PaymentsSyncData, PaymentsResponseData>,
    ) -> Result<Self, ConnectorError> {
        Ok(invoice_reply(v))
    }
}

impl TryFrom<ResponseRouterData<Capture, IuguInvoiceResponse, PaymentsCaptureData, PaymentsResponseData>> for RouterData<Capture, PaymentsCaptureData, PaymentsResponseData> {
    type Error = ConnectorError;

    fn try_from(
        item: ResponseRouterData<Capture, IuguInvoiceResponse, PaymentsCaptureData, PaymentsResponseData>,
    ) -> (r: Result<Self, ConnectorError>) {
        Ok(record_invoice_reply(item))
    }
}

impl TryFromSpecImpl<ResponseRouterData<Capture, IuguInvoiceResponse, PaymentsCaptureData, PaymentsResponseData>> for RouterData<Capture, PaymentsCaptureData, PaymentsResponseData> {
    open spec fn obeys_try_from_spec() -> bool {
        true
    }

    open spec fn try_from_spec(
        v: ResponseRouterData<Capture, IuguInvoiceResponse, PaymentsCaptureData, PaymentsResponseData>,
    ) -> Result<Self, ConnectorError> {
        Ok(invoice_reply(v))
    }
}

impl TryFrom<ResponseRouterData<Void, IuguInvoiceResponse, PaymentsCancelData, PaymentsResponseData>> for RouterData<Void, PaymentsCancelData, PaymentsResponseData> {
    type Error = ConnectorError;

    fn try_from(
        item: ResponseRouterData<Void, IuguInvoiceResponse, PaymentsCancelData, PaymentsResponseData>,
    ) -> (r: Result<Self, ConnectorError>) {
        Ok(record_invoice_reply(item))
    }
}

impl TryFromSpecImpl<ResponseRouterData<Void, IuguInvoiceResponse, PaymentsCancelData, PaymentsResponseData>> for RouterData<Void, PaymentsCancelData, PaymentsResponseData> {
    open spec fn obeys_try_from_spec() -> bool {
        true
    }

    open spec fn try_from_spec(
        v: ResponseRouterData<Void, IuguInvoiceResponse, PaymentsCancelData, PaymentsResponseData>,
    ) -> Result<Self, ConnectorError> {
        Ok(invoice_reply(v))
    }
}

/// The form that sends the customer to an invoice's payment page.
fn redirect_form(url: &String) -> (r: RedirectForm)
    ensures
        redirects_to(Some(r), Some(*url)),
{
    RedirectForm::Form { endpoint: url.clone(), method: Method::Get, form_fields: Vec::new() }
}

/// `rd` records the invoice reply `item` to an authorization: the attempt
/// state that the invoice state stands for, the invoice's id and, where the
/// invoice has a payment page, a redirection of the customer to it; the rest
/// of the router data is kept.
pub open spec fn is_authorize_invoice_reply(
    rd: RouterData<Authorize, PaymentsAuthorizeData, PaymentsResponseData>,
    item: ResponseRouterData<Authorize, IuguInvoiceResponse, PaymentsAuthorizeData, PaymentsResponseData>,
) -> bool {
    &&& updates_only_outcome(rd, item.data)
    &&& rd.status == invoice_status_to_attempt(item.response.status)
    &&& rd.response matches Ok(p) && reports_transaction(p, item.response.id, item.response.secure_url)
}

impl TryFrom<ResponseRouterData<Authorize, IuguInvoiceResponse, PaymentsAuthorizeData, PaymentsResponseData>> for RouterData<Authorize, PaymentsAuthorizeData, PaymentsResponseData> {
    type Error = ConnectorError;

    /// Records an invoice reply to an authorization; it always succeeds.
    fn try_from(
        item: ResponseRouterData<Authorize, IuguInvoiceResponse, PaymentsAuthorizeData, PaymentsResponseData>,
    ) -> (r: Result<Self, ConnectorError>)
        ensures
            r matches Ok(rd) && is_authorize_invoice_reply(rd, item),
    {
        let status = AttemptStatus::from(item.response.status);
        let redirection_data = match &item.response.secure_url {
            Some(url) => Box::new(Some(redirect_form(url))),
            None => Box::new(None),
        };
        let resource_id = ResponseId::ConnectorTransactionId(item.response.id);
        let payments_response = PaymentsResponseData::TransactionResponse {
            resource_id,
            redirection_data,
            mandate_reference: Box::new(None),
            connector_metadata: None,
            network_txn_id: None,
            connector_response_reference_id: None,
            incremental_authorization_allowed: None,
        };
        Ok(RouterData { response: Ok(payments_response), status, ..item.data })
    }
}

/// The reply's form carries a list of fields, which no spec term can name; so
/// this conversion claims nothing through `TryFromSpec`, and its contract
/// stands on the `try_from` above.
impl TryFromSpecImpl<ResponseRouterData<Authorize, IuguInvoiceResponse, PaymentsAuthorizeData, PaymentsResponseData>> for RouterData<Authorize, PaymentsAuthorizeData, PaymentsResponseData> {
    open spec fn obeys_try_from_spec() -> bool {
        false
    }

    open spec fn try_from_spec(
        v: ResponseRouterData<Authorize, IuguInvoiceResponse, PaymentsAuthorizeData, PaymentsResponseData>,
    ) -> Result<Self, ConnectorError> {
        arbitrary()
    }
}

// ---------------------------------------------------------------------------
// Requests
// ---------------------------------------------------------------------------

/// Router data paired with the amount in the form Iugu accepts.
#[derive(Debug)]
pub struct IuguRouterData<T> {
    pub amount: StringMinorUnit,
    pub router_data: T,
}

impl<T> From<(StringMinorUnit, T)> for IuguRouterData<T> {
    fn from(pair: (StringMinorUnit, T)) -> (r: Self) {
        let (amount, item) = pair;
        IuguRouterData { amount, router_data: item }
    }
}

impl<T> FromSpecImpl<(StringMinorUnit, T)> for IuguRouterData<T> {
    open spec fn obeys_from_spec() -> bool {
        true
    }

    open spec fn from_spec(v: (StringMinorUnit, T)) -> IuguRouterData<T> {
        IuguRouterData { amount: v.0, router_data: v.1 }
    }
}

/// The card of a direct charge. `complete` asks Iugu to capture at once.
#[derive(Debug, PartialEq, Eq)]
pub struct IuguCard {
    pub number: CardNumber,
    pub expiry_month: Secret,
    pub expiry_year: Secret,
    pub cvc: Secret,
    pub complete: bool,
}

/// A direct card charge.
#[derive(Debug, PartialEq, Eq)]
pub struct IuguPaymentsRequest {
    pub amount: StringMinorUnit,
    pub card: IuguCard,
}

/// The charge request for an authorization: only card payments are charged
/// directly; the card details and the amount are passed on, and the charge is
/// complete exactly when the payment is captured automatically. A capture
/// method that a one-shot charge cannot honour is refused.
pub open spec fn payments_request(
    item: IuguRouterData<&PaymentsAuthorizeRouterData>,
) -> Result<IuguPaymentsRequest, ConnectorError> {
    match item.router_data.request.payment_method_data {
        PaymentMethodData::Card(c) => match spec_is_auto_capture(
            item.router_data.request.capture_method,
        ) {
            Ok(complete) => Ok(
                IuguPaymentsRequest {
                    amount: item.amount,
                    card: IuguCard {
                        number: c.card_number,
                        expiry_month: c.card_exp_month,
                        expiry_year: c.card_exp_year,
                        cvc: c.card_cvc,
                        complete,
                    },
                },
            ),
            Err(e) => Err(e),
        },
        _ => Err(ConnectorError::NotImplemented("Payment method")),
    }
}

impl<'a, 'b> TryFrom<&'a IuguRouterData<&'b PaymentsAuthorizeRouterData>> for IuguPaymentsRequest {
    type Error = ConnectorError;

    fn try_from(item: &'a IuguRouterData<&'b PaymentsAuthorizeRouterData>) -> (r: Result<Self, ConnectorError>) {
        match &item.router_data.request.payment_method_data {
            PaymentMethodData::Card(req_card) => {
                let complete = match item.router_data.request.is_auto_capture() {
                    Ok(b) => b,
                    Err(e) => {
                        return Err(e);
                    },
                };
                let card = IuguCard {
                    number: req_card.card_number.clone(),
                    expiry_month: req_card.card_exp_month.clone(),
                    expiry_year: req_card.card_exp_year.clone(),
                    cvc: req_card.card_cvc.clone(),
                    complete,
                };
                Ok(IuguPaymentsRequest { amount: item.amount.clone(), card })
            },
            _ => Err(ConnectorError::NotImplemented("Payment method")),
        }
    }
}

impl<'a, 'b> TryFromSpecImpl<&'a IuguRouterData<&'b PaymentsAuthorizeRouterData>> for IuguPaymentsRequest {
    open spec fn obeys_try_from_spec() -> bool {
        true
    }

    open spec fn try_from_spec(v: &'a IuguRouterData<&'b PaymentsAuthorizeRouterData>) -> Result<Self, ConnectorError> {
        payments_request(*v)
    }
}

/// The key that authenticates the merchant with Iugu.
#[derive(Debug, PartialEq, Eq)]
pub struct IuguAuthType {
    pub api_key: Secret,
}

/// Iugu authenticates with a single key sent in a header; any other kind of
/// credentials is refused.
pub open spec fn auth_type(auth: ConnectorAuthType) -> Result<IuguAuthType, ConnectorError> {
    match auth {
        ConnectorAuthType::HeaderKey { api_key } => Ok(IuguAuthType { api_key }),
        _ => Err(ConnectorError::FailedToObtainAuthType),
    }
}

impl<'a> TryFrom<&'a ConnectorAuthType> for IuguAuthType {
    type Error = ConnectorError;

    fn try_from(auth_type: &'a ConnectorAuthType) -> (r: Result<Self, ConnectorError>) {
        match auth_type {
            ConnectorAuthType::HeaderKey { api_key } => Ok(IuguAuthType { api_key: api_key.clone() }),
            _ => Err(ConnectorError::FailedToObtainAuthType),
        }
    }
}

impl<'a> TryFromSpecImpl<&'a ConnectorAuthType> for IuguAuthType {
    open spec fn obeys_try_from_spec() -> bool {
        true
    }

    open spec fn try_from_spec(v: &'a ConnectorAuthType) -> Result<Self, ConnectorError> {
        auth_type(*v)
    }
}

/// A refund of (part of) a charge.
#[derive(Debug, PartialEq, Eq)]
pub struct IuguRefundRequest {
    pub amount: StringMinorUnit,
}

/// The refund request for a refund: the amount in the form Iugu accepts.
pub open spec fn refund_request<F>(item: IuguRouterData<&RefundsRouterData<F>>) -> IuguRefundRequest {
    IuguRefundRequest { amount: item.amount }
}

impl<'a, 'b, F> TryFrom<&'a IuguRouterData<&'b RefundsRouterData<F>>> for IuguRefundRequest {
    type Error = ConnectorError;

    fn try_from(item: &'a IuguRouterData<&'b RefundsRouterData<F>>) -> (r: Result<Self, ConnectorError>) {
        Ok(IuguRefundRequest { amount: item.amount.clone() })
    }
}

impl<'a, 'b, F> TryFromSpecImpl<&'a IuguRouterData<&'b RefundsRouterData<F>>> for IuguRefundRequest {
    open spec fn obeys_try_from_spec() -> bool {
        true
    }

    open spec fn try_from_spec(v: &'a IuguRouterData<&'b RefundsRouterData<F>>) -> Result<Self, ConnectorError> {
        Ok(refund_request(*v))
    }
}

/// An error reply of Iugu.
#[derive(Debug, PartialEq, Eq)]
pub struct IuguErrorResponse {
    pub status_code: u16,
    pub code: String,
    pub message: String,
    pub reason: Option<String>,
}

/// An item of an invoice or of a charge.
#[derive(Debug, PartialEq, Eq)]
pub struct IuguItem {
    pub description: String,
    pub quantity: u32,
    pub price_cents: u64,
}

/// A postal address of a payer.
#[derive(Debug, PartialEq, Eq)]
pub struct IuguAddress {
    pub street: Option<String>,
    pub number: Option<String>,
    pub district: Option<String>,
    pub city: Option<String>,
    pub state: Option<String>,
    pub country: Option<String>,
    pub zip_code: Option<String>,
}

/// Who pays an invoice or a charge.
#[derive(Debug, PartialEq, Eq)]
pub struct IuguPayerInfo {
    pub name: String,
    pub cpf_cnpj: String,
    pub email: Option<String>,
    pub phone_prefix: Option<String>,
    pub phone: Option<String>,
    pub address: Option<IuguAddress>,
}

/// A share of an invoice paid out to another Iugu account.
/// `percentage_bits` holds the share in percent as the bit pattern of an
/// IEEE 754 double (`f64::to_bits`), which the library passes on untouched.
#[derive(Debug, PartialEq, Eq)]
pub struct IuguSplitRule {
    pub recipient_account_id: String,
    pub percentage_bits: Option<u64>,
    pub amount_cents: Option<u64>,
    pub liable: Option<bool>,
    pub charge_fee: Option<bool>,
}

/// A charge against a token, a saved payment method or an invoice.
#[derive(Debug, PartialEq, Eq)]
pub struct IuguChargeRequest {
    pub token: Option<String>,
    pub customer_payment_method_id: Option<String>,
    pub email: String,
    pub order_id: Option<String>,
    pub payer: Option<IuguPayerInfo>,
    pub invoice_id: Option<String>,
    pub items: Option<Vec<IuguItem>>,
}

/// The charge request for an authorization: the customer's e-mail is
/// required; the order is the router's reference of the payment; nothing else
/// is filled in.
pub open spec fn charge_request(
    item: PaymentsAuthorizeRouterData,
) -> Result<IuguChargeRequest, ConnectorError> {
    match item.request.email {
        None => Err(ConnectorError::MissingRequiredField { field_name: "email" }),
        Some(email) => Ok(
            IuguChargeRequest {
                token: None,
                customer_payment_method_id: None,
                email: email.text(),
                order_id: Some(item.connector_request_reference_id),
                payer: None,
                invoice_id: None,
                items: None,
            },
        ),
    }
}

impl<'a> TryFrom<&'a PaymentsAuthorizeRouterData> for IuguChargeRequest {
    type Error = ConnectorError;

    fn try_from(item: &'a PaymentsAuthorizeRouterData) -> (r: Result<Self, ConnectorError>) {
        let email = match &item.request.email {
            Some(email) => email,
            None => {
                return Err(ConnectorError::MissingRequiredField { field_name: "email" });
            },
        };
        let order_id = item.connector_request_reference_id.clone();
        Ok(IuguChargeRequest {
            token: None,
            customer_payment_method_id: None,
            email: email.to_string(),
            order_id: Some(order_id),
            payer: None,
            invoice_id: None,
            items: None,
        })
    }
}

impl<'a> TryFromSpecImpl<&'a PaymentsAuthorizeRouterData> for IuguChargeRequest {
    open spec fn obeys_try_from_spec() -> bool {
        true
    }

    open spec fn try_from_spec(v: &'a PaymentsAuthorizeRouterData) -> Result<Self, ConnectorError> {
        charge_request(*v)
    }
}

/// An invoice that the customer pays on Iugu's payment page.
#[derive(Debug, PartialEq, Eq)]
pub struct IuguInvoiceRequest {
    pub email: String,
    pub due_date: Option<String>,
    pub payable_with: Vec<String>,
    pub items: Vec<IuguItem>,
    pub payer: Option<IuguPayerInfo>,
    pub ensure_workday_due_date: Option<bool>,
    pub splits: Option<Vec<IuguSplitRule>>,
    pub order_id: Option<String>,
}

/// `inv` is the invoice for the authorization `item`: it goes to the
/// customer's e-mail, is payable by bank slip only, has no items yet, and its
/// order is the router's reference of the payment; nothing else is filled in.
pub open spec fn is_invoice_request_for(
    inv: IuguInvoiceRequest,
    item: PaymentsAuthorizeRouterData,
) -> bool {
    &&& item.request.email matches Some(email) && inv.email == email.text()
    &&& inv.due_date is None
    &&& inv.payable_with@.len() == 1
    &&& inv.payable_with@[0]@ == "bank_slip"@
    &&& inv.items@.len() == 0
    &&& inv.payer is None
    &&& inv.ensure_workday_due_date is None
    &&& inv.splits is None
    &&& inv.order_id == Some(item.connector_request_reference_id)
}

impl<'a> TryFrom<&'a PaymentsAuthorizeRouterData> for IuguInvoiceRequest {
    type Error = ConnectorError;

    /// The invoice for an authorization; the customer's e-mail is required.
    fn try_from(item: &'a PaymentsAuthorizeRouterData) -> (r: Result<Self, ConnectorError>)
        ensures
            item.request.email is None ==> r == Err::<Self, ConnectorError>(
                ConnectorError::MissingRequiredField { field_name: "email" },
            ),
            item.request.email is Some ==> (r matches Ok(inv) && is_invoice_request_for(inv, *item)),
    {
        let email = match &item.request.email {
            Some(email) => email,
            None => {
                return Err(ConnectorError::MissingRequiredField { field_name: "email" });
            },
        };
        let order_id = item.connector_request_reference_id.clone();
        let payable_with = vec!["bank_slip".to_owned()];
        let items = Vec::new();
        Ok(IuguInvoiceRequest {
            email: email.to_string(),
            due_date: None,
            payable_with,
            items,
            payer: None,
            ensure_workday_due_date: None,
            splits: None,
            order_id: Some(order_id),
        })
    }
}

/// The invoice holds lists, which no spec term can name; so this conversion
/// claims nothing through `TryFromSpec`, and its contract stands on the
/// `try_from` above.
impl<'a> TryFromSpecImpl<&'a PaymentsAuthorizeRouterData> for IuguInvoiceRequest {
    open spec fn obeys_try_from_spec() -> bool {
        false
    }

    open spec fn try_from_spec(v: &'a PaymentsAuthorizeRouterData) -> Result<Self, ConnectorError> {
        arbitrary()
    }
}

} // verus!
