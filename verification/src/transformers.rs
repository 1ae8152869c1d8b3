//! Klarna wire model and the transformers between it and the canonical
//! payment model: request building, response mapping, status translation,
//! credential narrowing and error-payload translation.

use vstd::prelude::*;

use crate::canonical::authorize_request_wf;
use crate::canonical::line_subtotal_sum;
use crate::canonical::session_request_wf;
use crate::canonical::AttemptStatus;
use crate::canonical::ConnectorAuthType;
use crate::canonical::ConnectorError;
use crate::canonical::Currency;
use crate::canonical::CurrencyUnit;
use crate::canonical::ErrorResponse;
use crate::canonical::KlarnaSessionTokenResponse;
use crate::canonical::OrderDetails;
use crate::canonical::PaymentsAuthorizeData;
use crate::canonical::PaymentsAuthorizeRouterData;
use crate::canonical::PaymentsResponseData;
use crate::canonical::PaymentsResponseRouterData;
use crate::canonical::PaymentsSessionData;
use crate::canonical::PaymentsSessionResponseRouterData;
use crate::canonical::PaymentsSessionRouterData;
use crate::canonical::ResponseId;
use crate::canonical::SessionToken;

verus! {

/// Pairs the canonical data of one attempt with the amount, in the units
/// this gateway expects, and the platform-issued request reference, ready
/// for request transformation.
#[derive(Debug)]
pub struct KlarnaRouterData<T> {
    pub amount: i64,
    pub connector_request_reference_id: String,
    pub router_data: T,
}

/// One order line in the gateway's wire shape. `total_amount` is always
/// recomputed as `quantity * unit_price`.
#[derive(Clone, Debug, PartialEq, Eq)]
pub struct OrderLines {
    pub name: String,
    pub quantity: u16,
    pub unit_price: i64,
    pub total_amount: i64,
}

/// Wire shape of a payment-authorization request to the gateway.
#[derive(Debug)]
pub struct KlarnaPaymentsRequest {
    pub order_lines: Vec<OrderLines>,
    pub order_amount: i64,
    pub purchase_country: String,
    pub purchase_currency: Currency,
    pub connector_request_reference_id: String,
}

/// Wire shape of the gateway's answer to an authorization request.
#[derive(Debug)]
pub struct KlarnaPaymentsResponse {
    pub order_id: String,
    pub fraud_status: KlarnaFraudStatus,
    pub connector_request_reference_id: String,
}

/// Wire shape of a session-creation request to the gateway.
#[derive(Debug)]
pub struct KlarnaSessionRequest {
    pub intent: KlarnaSessionIntent,
    pub purchase_country: String,
    pub purchase_currency: Currency,
    pub locale: String,
    pub order_amount: i64,
    pub order_lines: Vec<OrderLines>,
}

/// Wire shape of the gateway's answer to a session-creation request.
#[derive(Clone, Debug, PartialEq, Eq)]
pub struct KlarnaSessionResponse {
    pub client_token: String,
    pub session_id: String,
}

/// What a created session may be used for, in the gateway's vocabulary.
#[derive(Clone, Copy, Debug, PartialEq, Eq, Structural)]
pub enum KlarnaSessionIntent {
    Buy,
    Tokenize,
    BuyAndTokenize,
}

/// Credential shape this gateway requires: a single basic-auth token.
#[derive(Clone, Debug, PartialEq, Eq)]
pub struct KlarnaAuthType {
    pub basic_token: String,
}

/// Wire shape of a gateway error payload.
#[derive(Clone, Debug, PartialEq, Eq)]
pub struct KlarnaErrorResponse {
    pub error_code: String,
    pub error_messages: Option<Vec<String>>,
    pub error_message: Option<String>,
}

/// Fraud/authorization vocabulary of the Klarna gateway. On the wire the
/// variants appear in upper case; an absent or unrecognized value falls
/// back to the conservative `Pending`.
#[derive(Clone, Copy, Debug, PartialEq, Eq, Structural)]
pub enum KlarnaFraudStatus {
    Accepted,
    Pending,
}

impl Default for KlarnaFraudStatus {
    /// The conservative fallback for an absent or unrecognized status.
    fn default() -> (r: Self)
        ensures
            r == KlarnaFraudStatus::Pending,
    {
        KlarnaFraudStatus::Pending
    }
}

/// The one canonical attempt status each gateway fraud status stands for.
pub open spec fn attempt_status_of(s: KlarnaFraudStatus) -> AttemptStatus {
    match s {
        KlarnaFraudStatus::Accepted => AttemptStatus::Charged,
        KlarnaFraudStatus::Pending => AttemptStatus::Authorizing,
    }
}

impl core::convert::From<KlarnaFraudStatus> for AttemptStatus {
    fn from(item: KlarnaFraudStatus) -> Self {
        match item {
            KlarnaFraudStatus::Accepted => AttemptStatus::Charged,
            KlarnaFraudStatus::Pending => AttemptStatus::Authorizing,
        }
    }
}

impl vstd::std_specs::convert::FromSpecImpl<KlarnaFraudStatus> for AttemptStatus {
    open spec fn obeys_from_spec() -> bool {
        true
    }

    open spec fn from_spec(v: KlarnaFraudStatus) -> Self {
        attempt_status_of(v)
    }
}

/// The gateway status mapping is total and stable: every declared fraud
/// status maps to exactly one canonical attempt status, and the
/// conservative fallback maps to a non-success state.
pub proof fn lemma_attempt_status_mapping_total(s: KlarnaFraudStatus)
    ensures
        s == KlarnaFraudStatus::Accepted ==> attempt_status_of(s) == AttemptStatus::Charged,
        s == KlarnaFraudStatus::Pending ==> attempt_status_of(s) == AttemptStatus::Authorizing,
        attempt_status_of(KlarnaFraudStatus::Pending) != AttemptStatus::Charged,
{
}

/// A wire order line carries exactly the data of a canonical order line,
/// with the line total recomputed from quantity and unit amount.
pub open spec fn line_matches(l: OrderLines, d: OrderDetails) -> bool {
    &&& l.name@ == d.product_name@
    &&& l.quantity == d.quantity
    &&& l.unit_price == d.amount
    &&& l.total_amount == d.quantity as int * d.amount as int
}

/// Every line total `quantity * unit amount` fits in the wire field.
pub open spec fn line_totals_fit(details: Seq<OrderDetails>) -> bool {
    forall|i: int|
        #![trigger details[i]]
        0 <= i < details.len() ==> i64::MIN <= details[i].quantity as int * details[i].amount as int
            <= i64::MAX
}

/// Machine limit on a canonical request: if order lines are present, each
/// recomputed line total fits in the wire field.
pub open spec fn order_details_fit(order_details: Option<Vec<OrderDetails>>) -> bool {
    order_details matches Some(details) ==> line_totals_fit(details@)
}

/// Sum of the recomputed line totals of wire order lines.
pub open spec fn wire_line_total_sum(lines: Seq<OrderLines>) -> int
    decreases lines.len(),
{
    if lines.len() == 0 {
        0
    } else {
        wire_line_total_sum(lines.drop_last()) + lines.last().total_amount as int
    }
}

/// Wire order lines that match canonical order lines one to one have their
/// recomputed totals summing to the canonical line subtotal sum.
pub proof fn lemma_line_total_sum_matches(lines: Seq<OrderLines>, details: Seq<OrderDetails>)
    requires
        lines.len() == details.len(),
        forall|i: int| 0 <= i < details.len() ==> line_matches(#[trigger] lines[i], details[i]),
    ensures
        wire_line_total_sum(lines) == line_subtotal_sum(details),
    decreases details.len(),
{
    if details.len() > 0 {
        assert forall|i: int| 0 <= i < details.drop_last().len() implies line_matches(
            #[trigger] lines.drop_last()[i],
            details.drop_last()[i],
        ) by {
            assert(lines.drop_last()[i] == lines[i]);
            assert(details.drop_last()[i] == details[i]);
        }
        lemma_line_total_sum_matches(lines.drop_last(), details.drop_last());
        assert(line_matches(lines[details.len() - 1], details[details.len() - 1]));
    }
}

/// The documented invariant of the canonical request carries over to the
/// wire: a well-formed authorization request (its amount equals the sum of
/// its line subtotals) transformed by the authorization request
/// transformer yields a wire request whose order amount equals the sum of
/// its recomputed line totals.
pub proof fn lemma_order_amount_is_line_total_sum(
    w: KlarnaPaymentsRequest,
    request: PaymentsAuthorizeData,
)
    requires
        authorize_request_wf(request),
        request.order_details is Some,
        w.order_lines@.len() == request.order_details->Some_0@.len(),
        forall|i: int|
            0 <= i < request.order_details->Some_0@.len() ==> line_matches(
                #[trigger] w.order_lines@[i],
                request.order_details->Some_0@[i],
            ),
        w.order_amount == request.amount,
    ensures
        w.order_amount as int == wire_line_total_sum(w.order_lines@),
{
    lemma_line_total_sum_matches(w.order_lines@, request.order_details->Some_0@);
}

/// The same invariant carries over for session creation: a well-formed
/// session request transformed by the session request transformer yields a
/// wire request whose order amount equals the sum of its recomputed line
/// totals.
pub proof fn lemma_session_order_amount_is_line_total_sum(
    w: KlarnaSessionRequest,
    request: PaymentsSessionData,
)
    requires
        session_request_wf(request),
        request.order_details is Some,
        w.order_lines@.len() == request.order_details->Some_0@.len(),
        forall|i: int|
            0 <= i < request.order_details->Some_0@.len() ==> line_matches(
                #[trigger] w.order_lines@[i],
                request.order_details->Some_0@[i],
            ),
        w.order_amount == request.amount,
    ensures
        w.order_amount as int == wire_line_total_sum(w.order_lines@),
{
    lemma_line_total_sum_matches(w.order_lines@, request.order_details->Some_0@);
}

/// Maps canonical order lines one to one into the wire shape, recomputing
/// each line total.
fn map_order_lines(details: &Vec<OrderDetails>) -> (r: Vec<OrderLines>)
    requires
        line_totals_fit(details@),
    ensures
        r@.len() == details@.len(),
        forall|i: int| 0 <= i < details@.len() ==> line_matches(#[trigger] r@[i], details@[i]),
{
    let mut lines: Vec<OrderLines> = Vec::new();
    let mut idx: usize = 0;
    while idx < details.len()
        invariant
            idx <= details@.len(),
            lines@.len() == idx,
            forall|i: int| 0 <= i < idx ==> line_matches(#[trigger] lines@[i], details@[i]),
            line_totals_fit(details@),
        decreases details@.len() - idx,
    {
        let data = &details[idx];
        let total_amount: i64 = (data.quantity as i64) * data.amount;
        lines.push(
            OrderLines {
                name: data.product_name.clone(),
                quantity: data.quantity,
                unit_price: data.amount,
                total_amount,
            },
        );
        idx += 1;
    }
    lines
}

impl<T> KlarnaRouterData<T> {
    /// Builds the normalizer value: pairs the canonical data with the
    /// amount and the platform-issued reference. The currency-unit
    /// convention and the currency select no conversion for this gateway,
    /// which takes minor units as the platform does; construction cannot
    /// fail.
    pub fn try_from(item: (&CurrencyUnit, Currency, i64, T, String)) -> (r: Result<
        KlarnaRouterData<T>,
        ConnectorError,
    >)
        ensures
            r matches Ok(d) && d.amount == item.2 && d.router_data == item.3
                && d.connector_request_reference_id@ == item.4@,
    {
        let (_currency_unit, _currency, amount, router_data, connector_request_reference_id) =
            item;
        Ok(
            KlarnaRouterData {
                amount,
                connector_request_reference_id,
                router_data,
            },
        )
    }
}

impl KlarnaPaymentsRequest {
    /// Builds the gateway's authorization request. The gateway mandates
    /// itemized order lines: a request without order details is rejected,
    /// naming the first structurally required line field. Purchase country
    /// is a gateway-mandated constant the canonical model does not carry
    /// yet.
    pub fn try_from(item: &KlarnaRouterData<PaymentsAuthorizeRouterData>) -> (r: Result<
        Self,
        ConnectorError,
    >)
        requires
            order_details_fit(item.router_data.request.order_details),
        ensures
            item.router_data.request.order_details is None ==> (r matches Err(e) && e matches
                ConnectorError::MissingRequiredField { field_name } && field_name@
                == "product_name"@),
            item.router_data.request.order_details matches Some(details) ==> r matches Ok(w)
                && w.order_amount == item.router_data.request.amount && w.purchase_country@
                == "US"@ && w.purchase_currency == item.router_data.request.currency
                && w.connector_request_reference_id@ == item.connector_request_reference_id@
                && w.order_lines@.len() == details@.len() && (forall|i: int|
                0 <= i < details@.len() ==> line_matches(#[trigger] w.order_lines@[i], details@[i])),
    {
        let request = &item.router_data.request;
        match &request.order_details {
            Some(order_details) => Ok(
                Self {
                    purchase_country: "US".to_owned(),
                    purchase_currency: request.currency,
                    connector_request_reference_id: item.connector_request_reference_id.clone(),
                    order_amount: request.amount,
                    order_lines: map_order_lines(order_details),
                },
            ),
            None => Err(
                ConnectorError::MissingRequiredField { field_name: "product_name".to_owned() },
            ),
        }
    }
}

impl KlarnaSessionRequest {
    /// Builds the gateway's session-creation request, with the `Buy`
    /// intent. Validation and line mapping follow the authorization
    /// transformer; purchase country and locale are gateway-mandated
    /// constants the canonical model does not carry yet.
    pub fn try_from(item: &PaymentsSessionRouterData) -> (r: Result<Self, ConnectorError>)
        requires
            order_details_fit(item.request.order_details),
        ensures
            item.request.order_details is None ==> (r matches Err(e) && e matches
                ConnectorError::MissingRequiredField { field_name } && field_name@
                == "product_name"@),
            item.request.order_details matches Some(details) ==> r matches Ok(w) && w.intent
                == KlarnaSessionIntent::Buy && w.order_amount == item.request.amount
                && w.purchase_country@ == "US"@ && w.purchase_currency == item.request.currency
                && w.locale@ == "en-US"@ && w.order_lines@.len() == details@.len() && (forall|
                i: int,
            |
                0 <= i < details@.len() ==> line_matches(#[trigger] w.order_lines@[i], details@[i])),
    {
        let request = &item.request;
        match &request.order_details {
            Some(order_details) => Ok(
                Self {
                    intent: KlarnaSessionIntent::Buy,
                    purchase_country: "US".to_owned(),
                    purchase_currency: request.currency,
                    order_amount: request.amount,
                    locale: "en-US".to_owned(),
                    order_lines: map_order_lines(order_details),
                },
            ),
            None => Err(
                ConnectorError::MissingRequiredField { field_name: "product_name".to_owned() },
            ),
        }
    }
}

impl PaymentsAuthorizeRouterData {
    /// Maps the gateway's authorization response back into the canonical
    /// model: the transaction id is the gateway's order id, the canonical
    /// status translates the fraud status, the echoed reference becomes the
    /// connector response reference, and every other optional metadata
    /// field is explicitly absent. The rest of the attempt's data is kept
    /// unchanged; a response that deserialized cannot fail here.
    pub fn try_from(item: PaymentsResponseRouterData<KlarnaPaymentsResponse>) -> (r: Result<
        Self,
        ConnectorError,
    >)
        ensures
            r matches Ok(d) && d.request == item.data.request,
            r matches Ok(d) && d.status == attempt_status_of(item.response.fraud_status),
            r matches Ok(d) && d.response matches Ok(p) && p == (
            PaymentsResponseData::TransactionResponse {
                resource_id: ResponseId::ConnectorTransactionId(item.response.order_id),
                redirection_data: None,
                mandate_reference: None,
                connector_metadata: None,
                network_txn_id: None,
                connector_response_reference_id: Some(
                    item.response.connector_request_reference_id,
                ),
            }),
    {
        let PaymentsResponseRouterData { response, data } = item;
        Ok(
            Self {
                response: Ok(
                    PaymentsResponseData::TransactionResponse {
                        resource_id: ResponseId::ConnectorTransactionId(response.order_id),
                        redirection_data: None,
                        mandate_reference: None,
                        connector_metadata: None,
                        network_txn_id: None,
                        connector_response_reference_id: Some(
                            response.connector_request_reference_id,
                        ),
                    },
                ),
                status: AttemptStatus::from(response.fraud_status),
                request: data.request,
            },
        )
    }
}

impl PaymentsSessionRouterData {
    /// Maps the gateway's session response back into the canonical model:
    /// the client token and session id become the session token tagged for
    /// this gateway, and everything else of the attempt's data is kept
    /// unchanged. A response that deserialized cannot fail here.
    pub fn try_from(item: PaymentsSessionResponseRouterData<KlarnaSessionResponse>) -> (r: Result<
        Self,
        ConnectorError,
    >)
        ensures
            r matches Ok(d) && d.request == item.data.request,
            r matches Ok(d) && d.status == item.data.status,
            r matches Ok(d) && d.response matches Ok(p) && p == (
            PaymentsResponseData::SessionResponse {
                session_token: SessionToken::Klarna(
                    KlarnaSessionTokenResponse {
                        session_token: item.response.client_token,
                        session_id: item.response.session_id,
                    },
                ),
            }),
    {
        let PaymentsSessionResponseRouterData { response, data } = item;
        Ok(
            Self {
                response: Ok(
                    PaymentsResponseData::SessionResponse {
                        session_token: SessionToken::Klarna(
                            KlarnaSessionTokenResponse {
                                session_token: response.client_token,
                                session_id: response.session_id,
                            },
                        ),
                    },
                ),
                status: data.status,
                request: data.request,
            },
        )
    }
}

impl KlarnaAuthType {
    /// Narrows the generic credential container to the single header key
    /// this gateway accepts; any other variant is rejected. The extracted
    /// token is returned unchanged.
    pub fn try_from(auth_type: &ConnectorAuthType) -> (r: Result<Self, ConnectorError>)
        ensures
            auth_type matches ConnectorAuthType::HeaderKey { api_key } ==> (r matches Ok(a)
                && a.basic_token@ == api_key@),
            !(auth_type matches ConnectorAuthType::HeaderKey { .. }) ==> (r matches Err(e) && e
                == ConnectorError::FailedToObtainAuthType),
    {
        if let ConnectorAuthType::HeaderKey { api_key } = auth_type {
            Ok(Self { basic_token: api_key.clone() })
        } else {
            Err(ConnectorError::FailedToObtainAuthType)
        }
    }
}

impl ErrorResponse {
    /// Translates a gateway error payload into the canonical error shape,
    /// carrying the original code and messages over unchanged; no semantic
    /// interpretation of the code happens here.
    pub fn from_gateway_error(error: KlarnaErrorResponse) -> (r: ErrorResponse)
        ensures
            r.code == error.error_code,
            error.error_messages matches Some(messages) ==> r.messages == messages,
            error.error_messages is None ==> r.messages@ == Seq::<String>::empty(),
            r.reason == error.error_message,
    {
        let messages: Vec<String> = match error.error_messages {
            Some(messages) => messages,
            None => Vec::new(),
        };
        ErrorResponse { code: error.error_code, messages, reason: error.error_message }
    }
}

} // verus!
