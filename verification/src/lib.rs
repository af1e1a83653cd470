//! The Iugu connector of a payment router: it turns the router's
//! authorization, capture, cancellation, synchronization and refund data into
//! Iugu's requests, and Iugu's replies back into the router's data.

mod domain;
mod json;
mod laws;
mod status;
mod transformers;

pub use domain::{
    spec_is_auto_capture, updates_only_outcome, with_outcome, Authorize, Capture, CaptureMethod,
    Card, CardNumber, ConnectorAuthType, ConnectorError, Email, ErrorResponse, Execute,
    MandateReference, Method, PSync, PaymentMethodData, PaymentsAuthorizeData,
    PaymentsAuthorizeRouterData, PaymentsCancelData, PaymentsCaptureData, PaymentsResponseData,
    PaymentsSyncData, RSync, RedirectForm, RefundStatus, RefundsData, RefundsResponseData,
    RefundsRouterData, ResponseId, ResponseRouterData, RouterData, Secret, StringMinorUnit, Void,
};
pub use laws::{
    law_amount_reaches_requests, law_auth_is_header_key, law_authorize_agrees_with_other_flows,
    law_card_charge_completes_iff_auto_capture, law_charge_and_invoice_agree,
    law_charge_needs_email, law_invoice_flows_agree, law_invoice_status_reading,
    law_payment_status_reading, law_replies_change_only_outcome, law_payment_status_values,
    law_charge_reply_status, law_charge_reply_names_charge, law_charge_replies_compare,
    law_invoice_reply_status, law_invoice_reply_names_invoice, law_invoice_replies_compare,
    law_authorize_reply_values, law_replies_keep_router_fields, law_card_charge_carries_card,
    law_card_charge_capture_only_sets_complete, law_charge_request_fields,
    law_charge_request_depends_on_email_and_reference, law_invoice_request_fields,
};
pub use status::{
    invoice_status_to_attempt, payment_status_to_attempt, AttemptStatus, IuguInvoiceStatus,
    IuguPaymentStatus,
};
pub use transformers::{
    auth_type, charge_request, invoice_reply, is_authorize_invoice_reply, is_invoice_request_for,
    payments_reply, payments_request, redirects_to, refund_request, reports_transaction,
    transaction_response, IuguAddress, IuguAuthType, IuguCard, IuguChargeRequest, IuguErrorResponse,
    IuguInvoiceRequest, IuguInvoiceResponse, IuguItem, IuguPayerInfo, IuguPaymentsRequest,
    IuguPaymentsResponse, IuguPixDetails, IuguRefundRequest, IuguRouterData, IuguSplitRule,
};
