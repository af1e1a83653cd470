//! The payment router's own data that a connector reads and fills: amounts,
//! card details, credentials, request payloads and the router data record
//! that travels through every flow.
use vstd::prelude::*;
use core::marker::PhantomData;

use crate::status::AttemptStatus;

verus! {

/// An amount in the currency's minor unit, written as a decimal string.
#[derive(Debug, PartialEq, Eq)]
pub struct StringMinorUnit {
    value: String,
}

impl StringMinorUnit {
    pub closed spec fn spec_value(&self) -> Seq<char> {
        self.value@
    }

    pub fn new(value: String) -> (r: Self)
        ensures
            r.spec_value() == value@,
    {
        StringMinorUnit { value }
    }

    pub fn get_amount_as_string(&self) -> (r: String)
        ensures
            r@ == self.spec_value(),
    {
        self.value.clone()
    }
}

impl Clone for StringMinorUnit {
    fn clone(&self) -> (r: Self)
        ensures
            r == *self,
    {
        StringMinorUnit { value: self.value.clone() }
    }
}

/// A value that must not be logged: a key, a card's security code.
#[derive(Debug, PartialEq, Eq)]
pub struct Secret {
    inner: String,
}

impl Secret {
    pub closed spec fn spec_inner(&self) -> Seq<char> {
        self.inner@
    }

    pub fn new(inner: String) -> (r: Self)
        ensures
            r.spec_inner() == inner@,
    {
        Secret { inner }
    }

    pub fn peek(&self) -> (r: &String)
        ensures
            r@ == self.spec_inner(),
    {
        &self.inner
    }
}

impl Clone for Secret {
    fn clone(&self) -> (r: Self)
        ensures
            r == *self,
    {
        Secret { inner: self.inner.clone() }
    }
}

/// A card's primary account number.
#[derive(Debug, PartialEq, Eq)]
pub struct CardNumber {
    number: String,
}

impl CardNumber {
    pub closed spec fn spec_number(&self) -> Seq<char> {
        self.number@
    }

    pub fn new(number: String) -> (r: Self)
        ensures
            r.spec_number() == number@,
    {
        CardNumber { number }
    }

    pub fn peek(&self) -> (r: &String)
        ensures
            r@ == self.spec_number(),
    {
        &self.number
    }
}

impl Clone for CardNumber {
    fn clone(&self) -> (r: Self)
        ensures
            r == *self,
    {
        CardNumber { number: self.number.clone() }
    }
}

/// A customer's e-mail address.
#[derive(Debug, PartialEq, Eq)]
pub struct Email {
    address: String,
}

impl Email {
    /// The address as the text it was made from.
    pub closed spec fn text(&self) -> String {
        self.address
    }

    pub fn new(address: String) -> (r: Self)
        ensures
            r.text() == address,
    {
        Email { address }
    }

    /// The address as text.
    pub fn to_string(&self) -> (r: String)
        ensures
            r == self.text(),
    {
        self.address.clone()
    }
}

/// The card details of a card payment.
#[derive(Debug, PartialEq, Eq)]
pub struct Card {
    pub card_number: CardNumber,
    pub card_exp_month: Secret,
    pub card_exp_year: Secret,
    pub card_cvc: Secret,
    pub card_holder_name: Option<Secret>,
}

/// How the customer pays.
#[derive(Debug, PartialEq, Eq)]
pub enum PaymentMethodData {
    Card(Card),
    Wallet,
    PayLater,
    BankRedirect,
    BankDebit,
    BankTransfer,
    Crypto,
    Upi,
    Voucher,
    GiftCard,
}

/// When the funds of an authorized payment are captured.
#[derive(Debug, Clone, Copy, PartialEq, Eq, Structural)]
pub enum CaptureMethod {
    Automatic,
    Manual,
    ManualMultiple,
    Scheduled,
    SequentialAutomatic,
}

/// HTTP methods of a redirection.
#[derive(Debug, Clone, Copy, PartialEq, Eq, Structural)]
pub enum Method {
    Get,
    Post,
    Put,
    Delete,
    Patch,
}

/// Why a connector could not build a request or read a reply.
#[derive(Debug, PartialEq, Eq)]
pub enum ConnectorError {
    NotImplemented(&'static str),
    FailedToObtainAuthType,
    MissingRequiredField { field_name: &'static str },
    CaptureMethodNotSupported,
}

/// The credentials a merchant configured for a connector.
#[derive(Debug, PartialEq, Eq)]
pub enum ConnectorAuthType {
    TemporaryAuth,
    HeaderKey { api_key: Secret },
    BodyKey { api_key: Secret, key1: Secret },
    SignatureKey { api_key: Secret, key1: Secret, api_secret: Secret },
    MultiAuthKey { api_key: Secret, key1: Secret, api_secret: Secret, key2: Secret },
    CertificateAuth { certificate: Secret, private_key: Secret },
    NoKey,
}

/// Request data of an authorization.
#[derive(Debug)]
pub struct PaymentsAuthorizeData {
    pub payment_method_data: PaymentMethodData,
    pub amount: i64,
    pub currency: String,
    pub capture_method: Option<CaptureMethod>,
    pub email: Option<Email>,
    pub customer_name: Option<Secret>,
}

/// The spec counterpart of `is_auto_capture`.
pub open spec fn spec_is_auto_capture(capture_method: Option<CaptureMethod>) -> Result<bool, ConnectorError> {
    match capture_method {
        None => Ok(true),
        Some(CaptureMethod::Automatic) => Ok(true),
        Some(CaptureMethod::SequentialAutomatic) => Ok(true),
        Some(CaptureMethod::Manual) => Ok(false),
        Some(CaptureMethod::ManualMultiple) => Err(ConnectorError::CaptureMethodNotSupported),
        Some(CaptureMethod::Scheduled) => Err(ConnectorError::CaptureMethodNotSupported),
    }
}

impl PaymentsAuthorizeData {
    /// Whether the payment is captured together with its authorization.
    /// No capture method means automatic capture; manual capture means two
    /// steps; the other methods are not supported by a one-shot charge.
    pub fn is_auto_capture(&self) -> (r: Result<bool, ConnectorError>)
        ensures
            r == spec_is_auto_capture(self.capture_method),
    {
        match self.capture_method {
            None => Ok(true),
            Some(CaptureMethod::Automatic) => Ok(true),
            Some(CaptureMethod::SequentialAutomatic) => Ok(true),
            Some(CaptureMethod::Manual) => Ok(false),
            Some(CaptureMethod::ManualMultiple) => Err(ConnectorError::CaptureMethodNotSupported),
            Some(CaptureMethod::Scheduled) => Err(ConnectorError::CaptureMethodNotSupported),
        }
    }
}

/// Request data of a payment status synchronization.
#[derive(Debug)]
pub struct PaymentsSyncData {
    pub connector_transaction_id: ResponseId,
    pub capture_method: Option<CaptureMethod>,
}

/// Request data of a capture.
#[derive(Debug)]
pub struct PaymentsCaptureData {
    pub amount_to_capture: i64,
    pub currency: String,
    pub connector_transaction_id: String,
}

/// Request data of a cancellation.
#[derive(Debug)]
pub struct PaymentsCancelData {
    pub connector_transaction_id: String,
    pub cancellation_reason: Option<String>,
}

/// Request data of a refund.
#[derive(Debug)]
pub struct RefundsData {
    pub refund_id: String,
    pub connector_transaction_id: String,
    pub refund_amount: i64,
    pub currency: String,
    pub reason: Option<String>,
}

/// How a connector identifies a transaction in its reply.
#[derive(Debug, PartialEq, Eq)]
pub enum ResponseId {
    ConnectorTransactionId(String),
    EncodedData(String),
    NoResponseId,
}

/// Where and how the customer is sent to finish a payment.
#[derive(Debug, PartialEq, Eq)]
pub enum RedirectForm {
    Form { endpoint: String, method: Method, form_fields: Vec<(String, String)> },
    Html { html_data: String },
}

/// A mandate that the connector set up for later payments.
#[derive(Debug, PartialEq, Eq)]
pub struct MandateReference {
    pub connector_mandate_id: Option<String>,
    pub payment_method_id: Option<String>,
}

/// What a connector reports of a payment.
#[derive(Debug)]
pub enum PaymentsResponseData {
    TransactionResponse {
        resource_id: ResponseId,
        redirection_data: Box<Option<RedirectForm>>,
        mandate_reference: Box<Option<MandateReference>>,
        connector_metadata: Option<serde_json::Value>,
        network_txn_id: Option<String>,
        connector_response_reference_id: Option<String>,
        incremental_authorization_allowed: Option<bool>,
    },
    TransactionUnresolvedResponse {
        resource_id: ResponseId,
        reason: Option<String>,
        connector_response_reference_id: Option<String>,
    },
}

/// What a connector reports of a refund.
#[derive(Debug, PartialEq, Eq)]
pub struct RefundsResponseData {
    pub connector_refund_id: String,
    pub refund_status: RefundStatus,
}

/// The state of a refund.
#[derive(Debug, Clone, Copy, PartialEq, Eq, Structural)]
pub enum RefundStatus {
    Failure,
    ManualReview,
    Pending,
    Success,
    TransactionFailure,
}

/// An error reply of a connector, as the router records it.
#[derive(Debug, PartialEq, Eq)]
pub struct ErrorResponse {
    pub code: String,
    pub message: String,
    pub reason: Option<String>,
    pub status_code: u16,
}

/// The authorization flow.
#[derive(Debug, Clone, Copy)]
pub struct Authorize;

/// The payment synchronization flow.
#[derive(Debug, Clone, Copy)]
pub struct PSync;

/// The capture flow.
#[derive(Debug, Clone, Copy)]
pub struct Capture;

/// The cancellation flow.
#[derive(Debug, Clone, Copy)]
pub struct Void;

/// The refund flow.
#[derive(Debug, Clone, Copy)]
pub struct Execute;

/// The refund synchronization flow.
#[derive(Debug, Clone, Copy)]
pub struct RSync;

/// Everything the router knows of one step of a payment: who pays whom, the
/// request handed to the connector, and (once it answered) the reply.
#[derive(Debug)]
pub struct RouterData<F, T, R> {
    pub flow: PhantomData<F>,
    pub merchant_id: String,
    pub customer_id: Option<String>,
    pub connector: String,
    pub payment_id: String,
    pub attempt_id: String,
    pub status: AttemptStatus,
    pub connector_auth_type: ConnectorAuthType,
    pub description: Option<String>,
    pub connector_request_reference_id: String,
    pub request: T,
    pub response: Result<R, ErrorResponse>,
}

/// Router data of an authorization.
pub type PaymentsAuthorizeRouterData = RouterData<Authorize, PaymentsAuthorizeData, PaymentsResponseData>;

/// Router data of a refund.
pub type RefundsRouterData<F> = RouterData<F, RefundsData, RefundsResponseData>;

/// `data` with its status and its response replaced, everything else kept.
pub open spec fn with_outcome<F, T, R>(
    data: RouterData<F, T, R>,
    status: AttemptStatus,
    response: R,
) -> RouterData<F, T, R> {
    RouterData { status, response: Ok(response), ..data }
}

/// `after` agrees with `before` in everything but the status and the response.
pub open spec fn updates_only_outcome<F, T, R>(
    after: RouterData<F, T, R>,
    before: RouterData<F, T, R>,
) -> bool {
    &&& after.flow == before.flow
    &&& after.merchant_id == before.merchant_id
    &&& after.customer_id == before.customer_id
    &&& after.connector == before.connector
    &&& after.payment_id == before.payment_id
    &&& after.attempt_id == before.attempt_id
    &&& after.connector_auth_type == before.connector_auth_type
    &&& after.description == before.description
    &&& after.connector_request_reference_id == before.connector_request_reference_id
    &&& after.request == before.request
}

/// A connector's decoded reply together with the router data of its flow.
#[derive(Debug)]
pub struct ResponseRouterData<F, R, T, PR> {
    pub response: R,
    pub data: RouterData<F, T, PR>,
    pub http_code: u16,
}

} // verus!
