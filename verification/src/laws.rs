//! What holds of the connector as a whole: how states read, what a reply
//! changes in the router data, and how the requests agree with each other.
use vstd::prelude::*;
use vstd::std_specs::convert::FromSpec;

use crate::domain::{
    updates_only_outcome, Authorize, MandateReference, PaymentMethodData, ResponseId, CaptureMethod, ConnectorAuthType, ConnectorError,
    PaymentsAuthorizeData, PaymentsAuthorizeRouterData, PaymentsResponseData,
    RefundsRouterData, ResponseRouterData, RouterData, StringMinorUnit,
};
use crate::status::{
    invoice_status_to_attempt, payment_status_to_attempt, AttemptStatus, IuguInvoiceStatus,
    IuguPaymentStatus,
};
use crate::transformers::{
    auth_type, charge_request, invoice_reply, is_authorize_invoice_reply, is_invoice_request_for,
    payments_reply, payments_request, refund_request, IuguChargeRequest, IuguInvoiceRequest,
    IuguInvoiceResponse, IuguPaymentsResponse, IuguRouterData,
};

verus! {

/// An invoice reads as charged exactly when Iugu reports it paid or refunded,
/// as voided exactly when it was canceled, as failed exactly when it expired,
/// and as pending in every other state.
pub proof fn law_invoice_status_reading(s: IuguInvoiceStatus)
    ensures
        (invoice_status_to_attempt(s) == AttemptStatus::Charged) <==> (s == IuguInvoiceStatus::Paid
            || s == IuguInvoiceStatus::Refunded),
        (invoice_status_to_attempt(s) == AttemptStatus::Voided) <==> (s
            == IuguInvoiceStatus::Canceled),
        (invoice_status_to_attempt(s) == AttemptStatus::Failure) <==> (s
            == IuguInvoiceStatus::Expired),
        (invoice_status_to_attempt(s) == AttemptStatus::Pending) <==> (s
            == IuguInvoiceStatus::Pending || s == IuguInvoiceStatus::InAnalysis || s
            == IuguInvoiceStatus::PartiallyPaid),
{
}

/// Distinct charge states read as distinct attempt states: a succeeded charge
/// is charged, a failed one failed, one still processing is authorizing.
pub proof fn law_payment_status_reading(s: IuguPaymentStatus, t: IuguPaymentStatus)
    ensures
        payment_status_to_attempt(s) == payment_status_to_attempt(t) <==> s == t,
        (payment_status_to_attempt(s) == AttemptStatus::Charged) <==> (s
            == IuguPaymentStatus::Succeeded),
{
}

/// Recording a charge reply or an invoice reply changes only the status and
/// the response of the router data.
pub proof fn law_replies_change_only_outcome<F, T>(
    charge: ResponseRouterData<F, IuguPaymentsResponse, T, PaymentsResponseData>,
    invoice: ResponseRouterData<F, IuguInvoiceResponse, T, PaymentsResponseData>,
)
    ensures
        updates_only_outcome(payments_reply(charge), charge.data),
        updates_only_outcome(invoice_reply(invoice), invoice.data),
{
}

/// Synchronization, capture and cancellation read the same invoice reply the
/// same way, whatever their flow and their request.
pub proof fn law_invoice_flows_agree<F1, T1, F2, T2>(
    a: ResponseRouterData<F1, IuguInvoiceResponse, T1, PaymentsResponseData>,
    b: ResponseRouterData<F2, IuguInvoiceResponse, T2, PaymentsResponseData>,
)
    requires
        a.response == b.response,
    ensures
        invoice_reply(a).status == invoice_reply(b).status,
        invoice_reply(a).response == invoice_reply(b).response,
{
}

/// An authorization reads an invoice reply as the other flows do; it differs
/// from them only by the redirection to the payment page, so where the invoice
/// has no payment page its record is the one the other flows make.
pub proof fn law_authorize_agrees_with_other_flows<F, T>(
    rd: RouterData<Authorize, PaymentsAuthorizeData, PaymentsResponseData>,
    item: ResponseRouterData<Authorize, IuguInvoiceResponse, PaymentsAuthorizeData, PaymentsResponseData>,
    other: ResponseRouterData<F, IuguInvoiceResponse, T, PaymentsResponseData>,
)
    requires
        is_authorize_invoice_reply(rd, item),
        other.response == item.response,
    ensures
        rd.status == invoice_reply(other).status,
        item.response.secure_url is None ==> rd.response == invoice_reply(other).response,
{
}

/// A direct charge and an invoice can be requested for the same
/// authorizations (those with the customer's e-mail), and they agree on the
/// e-mail, the order and the payer.
pub proof fn law_charge_and_invoice_agree(item: PaymentsAuthorizeRouterData, inv: IuguInvoiceRequest)
    requires
        is_invoice_request_for(inv, item),
    ensures
        charge_request(item) matches Ok(c) && {
            &&& c.email == inv.email
            &&& c.order_id == inv.order_id
            &&& c.payer == inv.payer
        },
{
}

/// A direct charge request is refused exactly when the customer's e-mail is
/// missing, and then for that reason.
pub proof fn law_charge_needs_email(item: PaymentsAuthorizeRouterData)
    ensures
        charge_request(item) is Ok <==> item.request.email is Some,
        charge_request(item) is Err ==> charge_request(item) == Err::<IuguChargeRequest, ConnectorError>(
            ConnectorError::MissingRequiredField { field_name: "email" },
        ),
{
}

/// A card charge is built exactly for card payments whose capture method a
/// one-shot charge can honour, and it asks Iugu to capture at once exactly
/// when the payment is captured automatically.
pub proof fn law_card_charge_completes_iff_auto_capture(
    item: IuguRouterData<&PaymentsAuthorizeRouterData>,
)
    ensures
        payments_request(item) is Ok <==> {
            &&& item.router_data.request.payment_method_data is Card
            &&& item.router_data.request.capture_method != Some(CaptureMethod::ManualMultiple)
            &&& item.router_data.request.capture_method != Some(CaptureMethod::Scheduled)
        },
        payments_request(item) matches Ok(req) ==> (req.card.complete <==> (
        item.router_data.request.capture_method is None
            || item.router_data.request.capture_method == Some(CaptureMethod::Automatic)
            || item.router_data.request.capture_method == Some(
            CaptureMethod::SequentialAutomatic,
        ))),
{
}

/// The amount that the router hands to the connector reaches the card charge
/// and the refund unchanged.
pub proof fn law_amount_reaches_requests<F>(
    amount: StringMinorUnit,
    payment: &PaymentsAuthorizeRouterData,
    refund: &RefundsRouterData<F>,
)
    ensures
        payments_request(
            <IuguRouterData<&PaymentsAuthorizeRouterData> as FromSpec<
                (StringMinorUnit, &PaymentsAuthorizeRouterData),
            >>::from_spec((amount, payment)),
        ) matches Ok(req) ==> req.amount == amount,
        refund_request(
            <IuguRouterData<&RefundsRouterData<F>> as FromSpec<
                (StringMinorUnit, &RefundsRouterData<F>),
            >>::from_spec((amount, refund)),
        ).amount == amount,
{
}

/// Only a single header key authenticates with Iugu, and it is used as given.
pub proof fn law_auth_is_header_key(auth: ConnectorAuthType)
    ensures
        auth_type(auth) is Ok <==> auth is HeaderKey,
        auth_type(auth) matches Ok(t) ==> auth == (ConnectorAuthType::HeaderKey {
            api_key: t.api_key,
        }),
{
}

/// A charge state reads as one definite attempt state: a succeeded charge is
/// charged, a failed one failed, and one still processing is authorizing.
pub proof fn law_payment_status_values(s: IuguPaymentStatus)
    ensures
        s == IuguPaymentStatus::Succeeded ==> payment_status_to_attempt(s)
            == AttemptStatus::Charged,
        s == IuguPaymentStatus::Failed ==> payment_status_to_attempt(s)
            == AttemptStatus::Failure,
        s == IuguPaymentStatus::Processing ==> payment_status_to_attempt(s)
            == AttemptStatus::Authorizing,
{
}

/// The status recorded from a charge reply is the attempt state of the charge
/// state: charged exactly when the charge succeeded, failed when it failed,
/// authorizing while it is processing.
pub proof fn law_charge_reply_status<F, T>(
    item: ResponseRouterData<F, IuguPaymentsResponse, T, PaymentsResponseData>,
)
    ensures
        (payments_reply(item).status == AttemptStatus::Charged) <==> (item.response.status
            == IuguPaymentStatus::Succeeded),
        item.response.status == IuguPaymentStatus::Succeeded ==> payments_reply(item).status
            == AttemptStatus::Charged,
        item.response.status == IuguPaymentStatus::Failed ==> payments_reply(item).status
            == AttemptStatus::Failure,
        item.response.status == IuguPaymentStatus::Processing ==> payments_reply(item).status
            == AttemptStatus::Authorizing,
{
}

/// The response recorded from a charge reply names Iugu's charge id, whatever
/// the charge state, and carries nothing else.
pub proof fn law_charge_reply_names_charge<F, T>(
    item: ResponseRouterData<F, IuguPaymentsResponse, T, PaymentsResponseData>,
)
    ensures
        payments_reply(item).response matches Ok(
            PaymentsResponseData::TransactionResponse {
                resource_id,
                redirection_data,
                mandate_reference,
                connector_metadata,
                network_txn_id,
                connector_response_reference_id,
                incremental_authorization_allowed,
            },
        ) && {
            &&& resource_id == ResponseId::ConnectorTransactionId(item.response.id)
            &&& *redirection_data is None
            &&& *mandate_reference == None::<MandateReference>
            &&& connector_metadata is None
            &&& network_txn_id is None
            &&& connector_response_reference_id is None
            &&& incremental_authorization_allowed is None
        },
{
}

/// Two charge replies with the same charge id record the same response, and
/// replies in the same charge state record the same status, whatever the
/// rest of the reply or of the router data.
pub proof fn law_charge_replies_compare<F1, T1, F2, T2>(
    a: ResponseRouterData<F1, IuguPaymentsResponse, T1, PaymentsResponseData>,
    b: ResponseRouterData<F2, IuguPaymentsResponse, T2, PaymentsResponseData>,
)
    ensures
        a.response.id == b.response.id ==> payments_reply(a).response == payments_reply(
            b,
        ).response,
        a.response.status == b.response.status ==> payments_reply(a).status == payments_reply(
            b,
        ).status,
{
}

/// The status recorded from an invoice reply outside authorization is the
/// attempt state of the invoice state, with explicit values.
pub proof fn law_invoice_reply_status<F, T>(
    item: ResponseRouterData<F, IuguInvoiceResponse, T, PaymentsResponseData>,
)
    ensures
        (invoice_reply(item).status == AttemptStatus::Charged) <==> (item.response.status
            == IuguInvoiceStatus::Paid || item.response.status == IuguInvoiceStatus::Refunded),
        (invoice_reply(item).status == AttemptStatus::Voided) <==> (item.response.status
            == IuguInvoiceStatus::Canceled),
        (invoice_reply(item).status == AttemptStatus::Failure) <==> (item.response.status
            == IuguInvoiceStatus::Expired),
        (invoice_reply(item).status == AttemptStatus::Pending) <==> (item.response.status
            == IuguInvoiceStatus::Pending || item.response.status == IuguInvoiceStatus::InAnalysis
            || item.response.status == IuguInvoiceStatus::PartiallyPaid),
{
}

/// Recording an invoice reply outside authorization names the invoice's own
/// id, never redirects (with or without a payment page), and carries nothing
/// else.
pub proof fn law_invoice_reply_names_invoice<F, T>(
    item: ResponseRouterData<F, IuguInvoiceResponse, T, PaymentsResponseData>,
)
    ensures
        invoice_reply(item).response matches Ok(
            PaymentsResponseData::TransactionResponse {
                resource_id,
                redirection_data,
                mandate_reference,
                connector_metadata,
                network_txn_id,
                connector_response_reference_id,
                incremental_authorization_allowed,
            },
        ) && {
            &&& resource_id == ResponseId::ConnectorTransactionId(item.response.id)
            &&& *redirection_data is None
            &&& *mandate_reference == None::<MandateReference>
            &&& connector_metadata is None
            &&& network_txn_id is None
            &&& connector_response_reference_id is None
            &&& incremental_authorization_allowed is None
        },
{
}

/// Two invoice replies with the same invoice id record the same response
/// outside authorization, whatever their state, payment page or other details.
pub proof fn law_invoice_replies_compare<F1, T1, F2, T2>(
    a: ResponseRouterData<F1, IuguInvoiceResponse, T1, PaymentsResponseData>,
    b: ResponseRouterData<F2, IuguInvoiceResponse, T2, PaymentsResponseData>,
)
    ensures
        a.response.id == b.response.id ==> invoice_reply(a).response == invoice_reply(
            b,
        ).response,
        a.response.status == b.response.status ==> invoice_reply(a).status == invoice_reply(
            b,
        ).status,
{
}

/// Recording an invoice reply to an authorization names the invoice's own id,
/// reads its state explicitly, and redirects with a GET to the payment page
/// exactly when there is one.
pub proof fn law_authorize_reply_values(
    rd: RouterData<Authorize, PaymentsAuthorizeData, PaymentsResponseData>,
    item: ResponseRouterData<Authorize, IuguInvoiceResponse, PaymentsAuthorizeData, PaymentsResponseData>,
)
    requires
        is_authorize_invoice_reply(rd, item),
    ensures
        rd.response matches Ok(
            PaymentsResponseData::TransactionResponse { resource_id, redirection_data, .. },
        ) && {
            &&& resource_id == ResponseId::ConnectorTransactionId(item.response.id)
            &&& (*redirection_data is Some) == (item.response.secure_url is Some)
            &&& item.response.secure_url matches Some(u) ==> *redirection_data matches Some(
                crate::domain::RedirectForm::Form { endpoint, method, .. },
            ) && endpoint == u && method == crate::domain::Method::Get
        },
        (rd.status == AttemptStatus::Charged) <==> (item.response.status == IuguInvoiceStatus::Paid
            || item.response.status == IuguInvoiceStatus::Refunded),
        (rd.status == AttemptStatus::Voided) <==> (item.response.status
            == IuguInvoiceStatus::Canceled),
        (rd.status == AttemptStatus::Failure) <==> (item.response.status
            == IuguInvoiceStatus::Expired),
        rd.merchant_id == item.data.merchant_id,
        rd.customer_id == item.data.customer_id,
        rd.connector == item.data.connector,
        rd.payment_id == item.data.payment_id,
        rd.attempt_id == item.data.attempt_id,
        rd.connector_auth_type == item.data.connector_auth_type,
        rd.description == item.data.description,
        rd.connector_request_reference_id == item.data.connector_request_reference_id,
        rd.request == item.data.request,
{
}

/// Recording a reply keeps who pays whom, the request and the router's
/// reference: only the status and the response change.
pub proof fn law_replies_keep_router_fields<F, T>(
    charge: ResponseRouterData<F, IuguPaymentsResponse, T, PaymentsResponseData>,
    invoice: ResponseRouterData<F, IuguInvoiceResponse, T, PaymentsResponseData>,
)
    ensures
        payments_reply(charge).merchant_id == charge.data.merchant_id,
        payments_reply(charge).customer_id == charge.data.customer_id,
        payments_reply(charge).connector == charge.data.connector,
        payments_reply(charge).payment_id == charge.data.payment_id,
        payments_reply(charge).attempt_id == charge.data.attempt_id,
        payments_reply(charge).connector_auth_type == charge.data.connector_auth_type,
        payments_reply(charge).description == charge.data.description,
        payments_reply(charge).connector_request_reference_id
            == charge.data.connector_request_reference_id,
        payments_reply(charge).request == charge.data.request,
        invoice_reply(invoice).merchant_id == invoice.data.merchant_id,
        invoice_reply(invoice).customer_id == invoice.data.customer_id,
        invoice_reply(invoice).connector == invoice.data.connector,
        invoice_reply(invoice).payment_id == invoice.data.payment_id,
        invoice_reply(invoice).attempt_id == invoice.data.attempt_id,
        invoice_reply(invoice).connector_auth_type == invoice.data.connector_auth_type,
        invoice_reply(invoice).description == invoice.data.description,
        invoice_reply(invoice).connector_request_reference_id
            == invoice.data.connector_request_reference_id,
        invoice_reply(invoice).request == invoice.data.request,
{
}

/// A card charge carries the card's own number, expiry month, expiry year and
/// security code, and the router's amount, whatever the capture method.
pub proof fn law_card_charge_carries_card(item: IuguRouterData<&PaymentsAuthorizeRouterData>)
    ensures
        item.router_data.request.payment_method_data matches PaymentMethodData::Card(c) ==> (
        payments_request(item) matches Ok(req) ==> {
            &&& req.card.number == c.card_number
            &&& req.card.expiry_month == c.card_exp_month
            &&& req.card.expiry_year == c.card_exp_year
            &&& req.card.cvc == c.card_cvc
            &&& req.amount == item.amount
        }),
{
}

/// Two authorizations that differ only in capture method give card charges
/// that differ only in `complete`.
pub proof fn law_card_charge_capture_only_sets_complete(
    a: IuguRouterData<&PaymentsAuthorizeRouterData>,
    b: IuguRouterData<&PaymentsAuthorizeRouterData>,
)
    requires
        a.amount == b.amount,
        a.router_data.request.payment_method_data == b.router_data.request.payment_method_data,
    ensures
        payments_request(a) matches Ok(ra) ==> (payments_request(b) matches Ok(rb) ==> {
            &&& ra.amount == rb.amount
            &&& ra.card.number == rb.card.number
            &&& ra.card.expiry_month == rb.card.expiry_month
            &&& ra.card.expiry_year == rb.card.expiry_year
            &&& ra.card.cvc == rb.card.cvc
        }),
{
}

/// A charge request fills in only the customer's e-mail and the router's
/// reference as the order, whatever the payment method or the customer.
pub proof fn law_charge_request_fields(item: PaymentsAuthorizeRouterData)
    ensures
        item.request.email matches Some(e) ==> (charge_request(item) matches Ok(c) && {
            &&& c.email == e.text()
            &&& c.order_id == Some(item.connector_request_reference_id)
            &&& c.token is None
            &&& c.customer_payment_method_id is None
            &&& c.payer is None
            &&& c.invoice_id is None
            &&& c.items is None
        }),
{
}

/// Two authorizations with the same e-mail and reference give the same charge
/// request, whatever else differs (payment method, customer, amount).
pub proof fn law_charge_request_depends_on_email_and_reference(
    a: PaymentsAuthorizeRouterData,
    b: PaymentsAuthorizeRouterData,
)
    requires
        a.request.email == b.request.email,
        a.connector_request_reference_id == b.connector_request_reference_id,
    ensures
        charge_request(a) == charge_request(b),
{
}

/// An invoice request fills in the customer's e-mail and the router's
/// reference, is payable by bank slip only and fills in nothing else.
pub proof fn law_invoice_request_fields(inv: IuguInvoiceRequest, item: PaymentsAuthorizeRouterData)
    requires
        is_invoice_request_for(inv, item),
    ensures
        item.request.email matches Some(e) && inv.email == e.text(),
        inv.order_id == Some(item.connector_request_reference_id),
        inv.payable_with@.len() == 1 && inv.payable_with@[0]@ == "bank_slip"@,
        inv.items@.len() == 0,
        inv.due_date is None,
        inv.payer is None,
        inv.ensure_workday_due_date is None,
        inv.splits is None,
{
}

} // verus!
