//! The platform's canonical, gateway-agnostic payment model: request data,
//! response data, credentials, statuses and the error taxonomy that every
//! connector adapter translates to and from.

use vstd::prelude::*;

verus! {

/// Convention for the integer amounts a gateway expects: whole currency
/// units or the smallest denomination (e.g. cents).
#[derive(Clone, Copy, Debug, PartialEq, Eq, Structural)]
pub enum CurrencyUnit {
    Base,
    Minor,
}

/// Currencies the platform can route to a connector.
#[derive(Clone, Copy, Debug, PartialEq, Eq, Structural)]
pub enum Currency {
    USD,
    EUR,
    GBP,
    SEK,
    NOK,
    DKK,
}

/// Canonical description of where a payment attempt stands.
#[derive(Clone, Copy, Debug, PartialEq, Eq, Structural)]
pub enum AttemptStatus {
    Authorizing,
    Charged,
    Pending,
    Failure,
}

/// Canonical error taxonomy for connector transformations. Every
/// transformer reports failure through one of these variants; none panics.
#[derive(Clone, Debug, PartialEq, Eq)]
pub enum ConnectorError {
    /// A structurally required canonical field was absent from the request.
    MissingRequiredField { field_name: String },
    /// The supplied credential is not the variant this connector accepts.
    FailedToObtainAuthType,
}

/// Generic container for connector credentials; each connector narrows it
/// to the one shape it accepts.
#[derive(Clone, Debug, PartialEq, Eq)]
pub enum ConnectorAuthType {
    HeaderKey { api_key: String },
    BodyKey { api_key: String, key1: String },
    SignatureKey { api_key: String, key1: String, api_secret: String },
}

/// One order line of the canonical request. The unit amount is in minor
/// currency units. No line total is carried here: connectors recompute it
/// from quantity and unit amount, never trusting a caller-supplied value.
#[derive(Clone, Debug, PartialEq, Eq)]
pub struct OrderDetails {
    pub product_name: String,
    pub quantity: u16,
    pub amount: i64,
}

/// Sum of the line subtotals `quantity * unit amount` of canonical order
/// lines.
pub open spec fn line_subtotal_sum(details: Seq<OrderDetails>) -> int
    decreases details.len(),
{
    if details.len() == 0 {
        0
    } else {
        line_subtotal_sum(details.drop_last()) + details.last().quantity as int
            * details.last().amount as int
    }
}

/// Canonical payment-authorization request data.
#[derive(Clone, Debug, PartialEq, Eq)]
pub struct PaymentsAuthorizeData {
    pub amount: i64,
    pub currency: Currency,
    pub order_details: Option<Vec<OrderDetails>>,
}

/// Invariant of a canonical authorization request: when order lines are
/// present, the request amount equals the sum of the line subtotals.
pub open spec fn authorize_request_wf(request: PaymentsAuthorizeData) -> bool {
    request.order_details matches Some(details) ==> request.amount as int == line_subtotal_sum(
        details@,
    )
}

/// Canonical session-creation request data.
#[derive(Clone, Debug, PartialEq, Eq)]
pub struct PaymentsSessionData {
    pub amount: i64,
    pub currency: Currency,
    pub order_details: Option<Vec<OrderDetails>>,
}

/// Invariant of a canonical session request: when order lines are present,
/// the request amount equals the sum of the line subtotals.
pub open spec fn session_request_wf(request: PaymentsSessionData) -> bool {
    request.order_details matches Some(details) ==> request.amount as int == line_subtotal_sum(
        details@,
    )
}

/// Session credentials returned by the Klarna gateway, in canonical form.
#[derive(Clone, Debug, PartialEq, Eq)]
pub struct KlarnaSessionTokenResponse {
    pub session_token: String,
    pub session_id: String,
}

/// Session token handed back to the platform, tagged with the gateway that
/// issued it.
#[derive(Clone, Debug, PartialEq, Eq)]
pub enum SessionToken {
    Klarna(KlarnaSessionTokenResponse),
    NoSessionToken,
}

/// Identifier a gateway assigned to a transaction, when it assigned one.
#[derive(Clone, Debug, PartialEq, Eq)]
pub enum ResponseId {
    ConnectorTransactionId(String),
    NoResponseId,
}

/// Canonical payment response data: either the outcome of a transaction or
/// the token of a freshly created session. Optional metadata fields are
/// explicitly absent unless the gateway supplied them.
#[derive(Clone, Debug, PartialEq, Eq)]
pub enum PaymentsResponseData {
    TransactionResponse {
        resource_id: ResponseId,
        redirection_data: Option<String>,
        mandate_reference: Option<String>,
        connector_metadata: Option<String>,
        network_txn_id: Option<String>,
        connector_response_reference_id: Option<String>,
    },
    SessionResponse { session_token: SessionToken },
}

/// Canonical shape of a gateway error payload, carrying the original code
/// and messages for observability. No semantic interpretation happens here.
#[derive(Clone, Debug, PartialEq, Eq)]
pub struct ErrorResponse {
    pub code: String,
    pub messages: Vec<String>,
    pub reason: Option<String>,
}

/// Canonical state of one authorization attempt: the request as the
/// platform built it, together with the current outcome.
#[derive(Debug, PartialEq, Eq)]
pub struct PaymentsAuthorizeRouterData {
    pub request: PaymentsAuthorizeData,
    pub status: AttemptStatus,
    pub response: Result<PaymentsResponseData, ErrorResponse>,
}

/// Canonical state of one session-creation attempt.
#[derive(Debug, PartialEq, Eq)]
pub struct PaymentsSessionRouterData {
    pub request: PaymentsSessionData,
    pub status: AttemptStatus,
    pub response: Result<PaymentsResponseData, ErrorResponse>,
}

/// A deserialized gateway response paired with the canonical data of the
/// authorization attempt it answers.
#[derive(Debug, PartialEq, Eq)]
pub struct PaymentsResponseRouterData<R> {
    pub response: R,
    pub data: PaymentsAuthorizeRouterData,
}

/// A deserialized gateway response paired with the canonical data of the
/// session attempt it answers.
#[derive(Debug, PartialEq, Eq)]
pub struct PaymentsSessionResponseRouterData<R> {
    pub response: R,
    pub data: PaymentsSessionRouterData,
}

} // verus!
