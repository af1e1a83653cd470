//! Iugu's payment and invoice states, and how each one reads as the state of
//! a payment attempt.
use vstd::prelude::*;
use vstd::std_specs::convert::FromSpecImpl;

verus! {

/// The state of a payment attempt as the payment router tracks it.
#[derive(Debug, Clone, Copy, PartialEq, Eq, Structural)]
pub enum AttemptStatus {
    Started,
    AuthenticationFailed,
    RouterDeclined,
    AuthenticationPending,
    AuthenticationSuccessful,
    Authorized,
    AuthorizationFailed,
    Charged,
    Authorizing,
    CodInitiated,
    Voided,
    VoidInitiated,
    CaptureInitiated,
    CaptureFailed,
    VoidFailed,
    AutoRefunded,
    PartialCharged,
    PartialChargedAndChargeable,
    Unresolved,
    Pending,
    Failure,
    PaymentMethodAwaited,
    ConfirmationAwaited,
    DeviceDataCollectionPending,
}

/// The state of a direct charge as Iugu reports it.
#[derive(Debug, Clone, Copy, PartialEq, Eq, Structural)]
pub enum IuguPaymentStatus {
    Succeeded,
    Failed,
    Processing,
}

/// The state of an invoice as Iugu reports it.
#[derive(Debug, Clone, Copy, PartialEq, Eq, Structural)]
pub enum IuguInvoiceStatus {
    Pending,
    Paid,
    Canceled,
    Expired,
    Refunded,
    InAnalysis,
    PartiallyPaid,
}

/// The attempt state that a charge state stands for.
pub open spec fn payment_status_to_attempt(s: IuguPaymentStatus) -> AttemptStatus {
    match s {
        IuguPaymentStatus::Succeeded => AttemptStatus::Charged,
        IuguPaymentStatus::Failed => AttemptStatus::Failure,
        IuguPaymentStatus::Processing => AttemptStatus::Authorizing,
    }
}

/// The attempt state that an invoice state stands for: a paid invoice and a
/// refunded one were both charged; an invoice that is still open, under
/// analysis or paid in part is pending; a canceled one is voided and an
/// expired one failed.
pub open spec fn invoice_status_to_attempt(s: IuguInvoiceStatus) -> AttemptStatus {
    match s {
        IuguInvoiceStatus::Paid => AttemptStatus::Charged,
        IuguInvoiceStatus::Refunded => AttemptStatus::Charged,
        IuguInvoiceStatus::Pending => AttemptStatus::Pending,
        IuguInvoiceStatus::InAnalysis => AttemptStatus::Pending,
        IuguInvoiceStatus::PartiallyPaid => AttemptStatus::Pending,
        IuguInvoiceStatus::Canceled => AttemptStatus::Voided,
        IuguInvoiceStatus::Expired => AttemptStatus::Failure,
    }
}

impl From<IuguPaymentStatus> for AttemptStatus {
    fn from(item: IuguPaymentStatus) -> (r: Self) {
        match item {
            IuguPaymentStatus::Succeeded => AttemptStatus::Charged,
            IuguPaymentStatus::Failed => AttemptStatus::Failure,
            IuguPaymentStatus::Processing => AttemptStatus::Authorizing,
        }
    }
}

impl FromSpecImpl<IuguPaymentStatus> for AttemptStatus {
    open spec fn obeys_from_spec() -> bool {
        true
    }

    open spec fn from_spec(v: IuguPaymentStatus) -> AttemptStatus {
        payment_status_to_attempt(v)
    }
}

impl From<IuguInvoiceStatus> for AttemptStatus {
    fn from(item: IuguInvoiceStatus) -> (r: Self) {
        match item {
            IuguInvoiceStatus::Paid => AttemptStatus::Charged,
            IuguInvoiceStatus::Refunded => AttemptStatus::Charged,
            IuguInvoiceStatus::Pending
            | IuguInvoiceStatus::InAnalysis
            | IuguInvoiceStatus::PartiallyPaid => AttemptStatus::Pending,
            IuguInvoiceStatus::Canceled => AttemptStatus::Voided,
            IuguInvoiceStatus::Expired => AttemptStatus::Failure,
        }
    }
}

impl FromSpecImpl<IuguInvoiceStatus> for AttemptStatus {
    open spec fn obeys_from_spec() -> bool {
        true
    }

    open spec fn from_spec(v: IuguInvoiceStatus) -> AttemptStatus {
        invoice_status_to_attempt(v)
    }
}

impl Default for IuguPaymentStatus {
    /// A charge that Iugu has not decided on yet.
    fn default() -> (r: Self)
        ensures
            r == IuguPaymentStatus::Processing,
    {
        IuguPaymentStatus::Processing
    }
}

impl Default for IuguInvoiceStatus {
    /// An invoice that has not been paid yet.
    fn default() -> (r: Self)
        ensures
            r == IuguInvoiceStatus::Pending,
    {
        IuguInvoiceStatus::Pending
    }
}

} // verus!
