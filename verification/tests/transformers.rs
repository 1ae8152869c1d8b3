use klarna_adapter::canonical::AttemptStatus;
use klarna_adapter::canonical::ConnectorAuthType;
use klarna_adapter::canonical::ConnectorError;
use klarna_adapter::canonical::Currency;
use klarna_adapter::canonical::CurrencyUnit;
use klarna_adapter::canonical::ErrorResponse;
use klarna_adapter::canonical::KlarnaSessionTokenResponse;
use klarna_adapter::canonical::OrderDetails;
use klarna_adapter::canonical::PaymentsAuthorizeData;
use klarna_adapter::canonical::PaymentsAuthorizeRouterData;
use klarna_adapter::canonical::PaymentsResponseData;
use klarna_adapter::canonical::PaymentsResponseRouterData;
use klarna_adapter::canonical::PaymentsSessionData;
use klarna_adapter::canonical::PaymentsSessionResponseRouterData;
use klarna_adapter::canonical::PaymentsSessionRouterData;
use klarna_adapter::canonical::ResponseId;
use klarna_adapter::canonical::SessionToken;
use klarna_adapter::transformers::KlarnaAuthType;
use klarna_adapter::transformers::KlarnaErrorResponse;
use klarna_adapter::transformers::KlarnaFraudStatus;
use klarna_adapter::transformers::KlarnaPaymentsRequest;
use klarna_adapter::transformers::KlarnaPaymentsResponse;
use klarna_adapter::transformers::KlarnaRouterData;
use klarna_adapter::transformers::KlarnaSessionIntent;
use klarna_adapter::transformers::KlarnaSessionRequest;
use klarna_adapter::transformers::KlarnaSessionResponse;

fn line(name: &str, quantity: u16, amount: i64) -> OrderDetails {
    OrderDetails {
        product_name: name.to_owned(),
        quantity,
        amount,
    }
}

fn placeholder_outcome() -> Result<PaymentsResponseData, ErrorResponse> {
    Err(ErrorResponse {
        code: String::new(),
        messages: Vec::new(),
        reason: None,
    })
}

fn authorize_data(
    amount: i64,
    currency: Currency,
    order_details: Option<Vec<OrderDetails>>,
) -> PaymentsAuthorizeRouterData {
    PaymentsAuthorizeRouterData {
        request: PaymentsAuthorizeData {
            amount,
            currency,
            order_details,
        },
        status: AttemptStatus::Pending,
        response: placeholder_outcome(),
    }
}

fn session_data(
    amount: i64,
    currency: Currency,
    order_details: Option<Vec<OrderDetails>>,
) -> PaymentsSessionRouterData {
    PaymentsSessionRouterData {
        request: PaymentsSessionData {
            amount,
            currency,
            order_details,
        },
        status: AttemptStatus::Pending,
        response: placeholder_outcome(),
    }
}

fn wrap(
    data: PaymentsAuthorizeRouterData,
    amount: i64,
    reference: &str,
) -> KlarnaRouterData<PaymentsAuthorizeRouterData> {
    KlarnaRouterData::try_from((
        &CurrencyUnit::Minor,
        Currency::USD,
        amount,
        data,
        reference.to_owned(),
    ))
    .expect("normalizer construction cannot fail")
}

#[test]
fn router_data_pairs_amount_and_reference() {
    let wrapped = wrap(authorize_data(750, Currency::EUR, None), 750, "ref_42");
    assert_eq!(wrapped.amount, 750);
    assert_eq!(wrapped.connector_request_reference_id, "ref_42");
    assert_eq!(wrapped.router_data.request.amount, 750);
}

#[test]
fn payments_request_recomputes_line_totals() {
    let details = vec![line("Widget", 3, 250), line("Gadget", 1, 99)];
    let wrapped = wrap(authorize_data(849, Currency::USD, Some(details)), 849, "ref_1");
    let request = KlarnaPaymentsRequest::try_from(&wrapped).expect("order details are present");
    assert_eq!(request.order_lines.len(), 2);
    assert_eq!(request.order_lines[0].total_amount, 750);
    assert_eq!(request.order_lines[1].total_amount, 99);
    assert_eq!(request.order_lines[0].name, "Widget");
    assert_eq!(request.order_lines[0].quantity, 3);
    assert_eq!(request.order_lines[0].unit_price, 250);
}

#[test]
fn payments_request_example_widget() {
    let details = vec![line("Widget", 2, 500)];
    let wrapped = wrap(authorize_data(1000, Currency::USD, Some(details)), 1000, "ref_1");
    let request = KlarnaPaymentsRequest::try_from(&wrapped).expect("order details are present");
    assert_eq!(request.order_amount, 1000);
    assert_eq!(request.order_lines.len(), 1);
    assert_eq!(request.order_lines[0].total_amount, 1000);
    assert_eq!(request.purchase_country, "US");
    assert_eq!(request.purchase_currency, Currency::USD);
    assert_eq!(request.connector_request_reference_id, "ref_1");
}

#[test]
fn payments_request_rejects_missing_order_details() {
    let wrapped = wrap(authorize_data(1000, Currency::USD, None), 1000, "ref_1");
    let error = KlarnaPaymentsRequest::try_from(&wrapped).expect_err("order details are absent");
    assert_eq!(
        error,
        ConnectorError::MissingRequiredField {
            field_name: "product_name".to_owned()
        }
    );
}

#[test]
fn payments_request_accepts_empty_order_details() {
    let wrapped = wrap(authorize_data(0, Currency::USD, Some(Vec::new())), 0, "ref_1");
    let request = KlarnaPaymentsRequest::try_from(&wrapped).expect("order details are present");
    assert!(request.order_lines.is_empty());
    assert_eq!(request.order_amount, 0);
}

#[test]
fn session_request_example() {
    let details = vec![line("Widget", 2, 500)];
    let data = session_data(1000, Currency::SEK, Some(details));
    let request = KlarnaSessionRequest::try_from(&data).expect("order details are present");
    assert_eq!(request.intent, KlarnaSessionIntent::Buy);
    assert_eq!(request.purchase_country, "US");
    assert_eq!(request.locale, "en-US");
    assert_eq!(request.purchase_currency, Currency::SEK);
    assert_eq!(request.order_amount, 1000);
    assert_eq!(request.order_lines.len(), 1);
    assert_eq!(request.order_lines[0].total_amount, 1000);
}

#[test]
fn session_request_rejects_missing_order_details() {
    let data = session_data(1000, Currency::SEK, None);
    let error = KlarnaSessionRequest::try_from(&data).expect_err("order details are absent");
    assert_eq!(
        error,
        ConnectorError::MissingRequiredField {
            field_name: "product_name".to_owned()
        }
    );
}

#[test]
fn status_mapping_is_total() {
    assert_eq!(AttemptStatus::from(KlarnaFraudStatus::Accepted), AttemptStatus::Charged);
    assert_eq!(AttemptStatus::from(KlarnaFraudStatus::Pending), AttemptStatus::Authorizing);
}

#[test]
fn fraud_status_defaults_to_pending() {
    assert_eq!(KlarnaFraudStatus::default(), KlarnaFraudStatus::Pending);
    assert_ne!(
        AttemptStatus::from(KlarnaFraudStatus::default()),
        AttemptStatus::Charged
    );
}

#[test]
fn authorize_response_example_pending() {
    let item = PaymentsResponseRouterData {
        response: KlarnaPaymentsResponse {
            order_id: "ord_1".to_owned(),
            fraud_status: KlarnaFraudStatus::Pending,
            connector_request_reference_id: "ref_1".to_owned(),
        },
        data: authorize_data(1000, Currency::USD, None),
    };
    let updated = PaymentsAuthorizeRouterData::try_from(item).expect("response mapping cannot fail");
    assert_eq!(updated.status, AttemptStatus::Authorizing);
    let payload = updated.response.expect("mapped response is a success");
    match payload {
        PaymentsResponseData::TransactionResponse {
            resource_id,
            redirection_data,
            mandate_reference,
            connector_metadata,
            network_txn_id,
            connector_response_reference_id,
        } => {
            assert_eq!(
                resource_id,
                ResponseId::ConnectorTransactionId("ord_1".to_owned())
            );
            assert_eq!(redirection_data, None);
            assert_eq!(mandate_reference, None);
            assert_eq!(connector_metadata, None);
            assert_eq!(network_txn_id, None);
            assert_eq!(connector_response_reference_id, Some("ref_1".to_owned()));
        }
        PaymentsResponseData::SessionResponse { .. } => {
            panic!("authorization response mapped to a session payload")
        }
    }
}

#[test]
fn authorize_response_accepted_is_charged() {
    let item = PaymentsResponseRouterData {
        response: KlarnaPaymentsResponse {
            order_id: "ord_2".to_owned(),
            fraud_status: KlarnaFraudStatus::Accepted,
            connector_request_reference_id: "ref_2".to_owned(),
        },
        data: authorize_data(500, Currency::GBP, None),
    };
    let updated = PaymentsAuthorizeRouterData::try_from(item).expect("response mapping cannot fail");
    assert_eq!(updated.status, AttemptStatus::Charged);
}

#[test]
fn authorize_response_preserves_request() {
    let details = vec![line("Widget", 2, 500)];
    let item = PaymentsResponseRouterData {
        response: KlarnaPaymentsResponse {
            order_id: "ord_3".to_owned(),
            fraud_status: KlarnaFraudStatus::Accepted,
            connector_request_reference_id: "ref_3".to_owned(),
        },
        data: authorize_data(1000, Currency::USD, Some(details)),
    };
    let updated = PaymentsAuthorizeRouterData::try_from(item).expect("response mapping cannot fail");
    assert_eq!(updated.request.amount, 1000);
    assert_eq!(updated.request.currency, Currency::USD);
    let details = updated.request.order_details.expect("order details are preserved");
    assert_eq!(details.len(), 1);
    assert_eq!(details[0].product_name, "Widget");
}

#[test]
fn session_response_maps_token() {
    let item = PaymentsSessionResponseRouterData {
        response: KlarnaSessionResponse {
            client_token: "tok_abc".to_owned(),
            session_id: "sess_1".to_owned(),
        },
        data: session_data(1000, Currency::USD, None),
    };
    let updated = PaymentsSessionRouterData::try_from(item).expect("response mapping cannot fail");
    assert_eq!(updated.status, AttemptStatus::Pending);
    assert_eq!(updated.request.amount, 1000);
    let payload = updated.response.expect("mapped response is a success");
    assert_eq!(
        payload,
        PaymentsResponseData::SessionResponse {
            session_token: SessionToken::Klarna(KlarnaSessionTokenResponse {
                session_token: "tok_abc".to_owned(),
                session_id: "sess_1".to_owned(),
            }),
        }
    );
}

#[test]
fn auth_type_accepts_header_key() {
    let auth = ConnectorAuthType::HeaderKey {
        api_key: "basic_auth_token_1".to_owned(),
    };
    let extracted = KlarnaAuthType::try_from(&auth).expect("header key is the accepted variant");
    assert_eq!(extracted.basic_token, "basic_auth_token_1");
}

#[test]
fn auth_type_rejects_other_variants() {
    let auth = ConnectorAuthType::BodyKey {
        api_key: "basic_auth_token_1".to_owned(),
        key1: "merchant_1".to_owned(),
    };
    let error = KlarnaAuthType::try_from(&auth).expect_err("body key is not accepted");
    assert_eq!(error, ConnectorError::FailedToObtainAuthType);
}

#[test]
fn error_translation_carries_payload() {
    let gateway_error = KlarnaErrorResponse {
        error_code: "BAD_VALUE".to_owned(),
        error_messages: Some(vec!["amount invalid".to_owned(), "currency invalid".to_owned()]),
        error_message: Some("amount invalid".to_owned()),
    };
    let canonical = ErrorResponse::from_gateway_error(gateway_error);
    assert_eq!(canonical.code, "BAD_VALUE");
    assert_eq!(
        canonical.messages,
        vec!["amount invalid".to_owned(), "currency invalid".to_owned()]
    );
    assert_eq!(canonical.reason, Some("amount invalid".to_owned()));
}

#[test]
fn error_translation_defaults_absent_messages() {
    let gateway_error = KlarnaErrorResponse {
        error_code: "UNKNOWN".to_owned(),
        error_messages: None,
        error_message: None,
    };
    let canonical = ErrorResponse::from_gateway_error(gateway_error);
    assert_eq!(canonical.code, "UNKNOWN");
    assert!(canonical.messages.is_empty());
    assert_eq!(canonical.reason, None);
}
