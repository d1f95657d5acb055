use lightning_liquidity::id_map::RequestIdMap;
use lightning_liquidity::jsonrpc::{
	JsonRpcError, JsonRpcField, JsonRpcFields, JsonRpcKey, JSONRPC_INVALID_MESSAGE_ERROR_CODE,
};
use lightning_liquidity::method::LSPSMethod;
use lightning_liquidity::msgs::{
	JsonPayload, LSPS0Message, LSPS0Request, LSPS0Response, LSPS1Message, LSPS1Request,
	LSPS1Response, LSPS2Message, LSPS2Request, LSPS2Response, LSPS5Message, LSPS5Notification,
	LSPS5Request, LSPS5Response, LSPSMessage, ListProtocolsRequest, RequestId, ResponseError,
};

fn id(s: &str) -> RequestId {
	RequestId(s.to_string())
}

fn payload(s: &str) -> JsonPayload {
	JsonPayload::from_json(s.to_string()).unwrap()
}

fn text(s: &str) -> String {
	s.to_string()
}

fn error(code: i32, message: &str, data: Option<&str>) -> ResponseError {
	ResponseError { code, message: message.to_string(), data: data.map(|d| d.to_string()) }
}

fn sample_requests() -> Vec<LSPSMessage> {
	vec![
		LSPSMessage::LSPS0(LSPS0Message::Request(
			id("r0"),
			LSPS0Request::ListProtocols(ListProtocolsRequest {}),
		)),
		LSPSMessage::LSPS1(LSPS1Message::Request(id("r1"), LSPS1Request::GetInfo(payload("{}")))),
		LSPSMessage::LSPS1(LSPS1Message::Request(
			id("r2"),
			LSPS1Request::CreateOrder(payload("{\"lsp_balance_sat\":\"5000\"}")),
		)),
		LSPSMessage::LSPS1(LSPS1Message::Request(
			id("r3"),
			LSPS1Request::GetOrder(payload("{\"order_id\":\"x\"}")),
		)),
		LSPSMessage::LSPS2(LSPS2Message::Request(id("r4"), LSPS2Request::GetInfo(payload("{}")))),
		LSPSMessage::LSPS2(LSPS2Message::Request(id("r5"), LSPS2Request::Buy(payload("{}")))),
		LSPSMessage::LSPS5(LSPS5Message::Request(
			id("r6"),
			LSPS5Request::SetWebhook(payload("{\"app_name\":\"a\"}")),
		)),
		LSPSMessage::LSPS5(LSPS5Message::Request(
			id("r7"),
			LSPS5Request::ListWebhooks(payload("{}")),
		)),
		LSPSMessage::LSPS5(LSPS5Message::Request(
			id("r8"),
			LSPS5Request::RemoveWebhook(payload("{}")),
		)),
	]
}

fn sample_responses() -> Vec<(LSPSMessage, LSPSMethod)> {
	let e = || error(1, "rejected", Some("why"));
	vec![
		(
			LSPSMessage::LSPS0(LSPS0Message::Response(
				id("a"),
				LSPS0Response::ListProtocols(payload("{\"protocols\":[1,2]}")),
			)),
			LSPSMethod::LSPS0ListProtocols,
		),
		(
			LSPSMessage::LSPS0(LSPS0Message::Response(id("b"), LSPS0Response::ListProtocolsError(e()))),
			LSPSMethod::LSPS0ListProtocols,
		),
		(
			LSPSMessage::LSPS1(LSPS1Message::Response(id("c"), LSPS1Response::GetInfo(payload("{}")))),
			LSPSMethod::LSPS1GetInfo,
		),
		(
			LSPSMessage::LSPS1(LSPS1Message::Response(id("d"), LSPS1Response::GetInfoError(e()))),
			LSPSMethod::LSPS1GetInfo,
		),
		(
			LSPSMessage::LSPS1(LSPS1Message::Response(
				id("e"),
				LSPS1Response::CreateOrder(payload("{}")),
			)),
			LSPSMethod::LSPS1CreateOrder,
		),
		(
			LSPSMessage::LSPS1(LSPS1Message::Response(id("f"), LSPS1Response::CreateOrderError(e()))),
			LSPSMethod::LSPS1CreateOrder,
		),
		(
			LSPSMessage::LSPS1(LSPS1Message::Response(id("g"), LSPS1Response::GetOrder(payload("{}")))),
			LSPSMethod::LSPS1GetOrder,
		),
		(
			LSPSMessage::LSPS1(LSPS1Message::Response(id("h"), LSPS1Response::GetOrderError(e()))),
			LSPSMethod::LSPS1GetOrder,
		),
		(
			LSPSMessage::LSPS2(LSPS2Message::Response(id("i"), LSPS2Response::GetInfo(payload("{}")))),
			LSPSMethod::LSPS2GetInfo,
		),
		(
			LSPSMessage::LSPS2(LSPS2Message::Response(id("j"), LSPS2Response::GetInfoError(e()))),
			LSPSMethod::LSPS2GetInfo,
		),
		(
			LSPSMessage::LSPS2(LSPS2Message::Response(id("k"), LSPS2Response::Buy(payload("{}")))),
			LSPSMethod::LSPS2Buy,
		),
		(
			LSPSMessage::LSPS2(LSPS2Message::Response(id("l"), LSPS2Response::BuyError(e()))),
			LSPSMethod::LSPS2Buy,
		),
		(
			LSPSMessage::LSPS5(LSPS5Message::Response(id("m"), LSPS5Response::SetWebhook(payload("{}")))),
			LSPSMethod::LSPS5SetWebhook,
		),
		(
			LSPSMessage::LSPS5(LSPS5Message::Response(id("n"), LSPS5Response::SetWebhookError(e()))),
			LSPSMethod::LSPS5SetWebhook,
		),
		(
			LSPSMessage::LSPS5(LSPS5Message::Response(
				id("o"),
				LSPS5Response::ListWebhooks(payload("{\"app_names\":[]}")),
			)),
			LSPSMethod::LSPS5ListWebhooks,
		),
		(
			LSPSMessage::LSPS5(LSPS5Message::Response(
				id("p"),
				LSPS5Response::RemoveWebhook(payload("{}")),
			)),
			LSPSMethod::LSPS5RemoveWebhook,
		),
		(
			LSPSMessage::LSPS5(LSPS5Message::Response(id("q"), LSPS5Response::RemoveWebhookError(e()))),
			LSPSMethod::LSPS5RemoveWebhook,
		),
	]
}

fn sample_notifications() -> Vec<LSPSMessage> {
	let n = |x: LSPS5Notification| LSPSMessage::LSPS5(LSPS5Message::Notification(x));
	vec![
		n(LSPS5Notification::WebhookRegistered(payload("{}"))),
		n(LSPS5Notification::PaymentIncoming(payload("{}"))),
		n(LSPS5Notification::ExpirySoon(payload("{\"timeout\":720000}"))),
		n(LSPS5Notification::LiquidityManagementRequest(payload("{}"))),
		n(LSPS5Notification::FeesChangeIncoming(payload("{}"))),
		n(LSPS5Notification::OnionMessageIncoming(payload("{}"))),
	]
}

#[test]
fn request_fields_in_order() {
	let m = LSPSMessage::LSPS1(LSPS1Message::Request(
		id("abc"),
		LSPS1Request::GetOrder(payload("{\"order_id\":\"x\"}")),
	));
	assert_eq!(
		m.jsonrpc_fields(),
		vec![
			JsonRpcField::JsonRpc,
			JsonRpcField::Id(Some(id("abc"))),
			JsonRpcField::Method(LSPSMethod::LSPS1GetOrder),
			JsonRpcField::Params(text("{\"order_id\":\"x\"}")),
		]
	);
}

#[test]
fn list_protocols_request_has_empty_params() {
	let m = LSPSMessage::LSPS0(LSPS0Message::Request(
		id("1"),
		LSPS0Request::ListProtocols(ListProtocolsRequest {}),
	));
	assert_eq!(
		m.jsonrpc_fields(),
		vec![
			JsonRpcField::JsonRpc,
			JsonRpcField::Id(Some(id("1"))),
			JsonRpcField::Method(LSPSMethod::LSPS0ListProtocols),
			JsonRpcField::Params(text("{}")),
		]
	);
}

#[test]
fn response_fields_in_order() {
	let ok = LSPSMessage::LSPS2(LSPS2Message::Response(id("7"), LSPS2Response::Buy(payload("{}"))));
	assert_eq!(
		ok.jsonrpc_fields(),
		vec![JsonRpcField::JsonRpc, JsonRpcField::Id(Some(id("7"))), JsonRpcField::Result(text("{}"))]
	);
	let err = LSPSMessage::LSPS2(LSPS2Message::Response(
		id("8"),
		LSPS2Response::BuyError(error(2, "no", None)),
	));
	assert_eq!(
		err.jsonrpc_fields(),
		vec![
			JsonRpcField::JsonRpc,
			JsonRpcField::Id(Some(id("8"))),
			JsonRpcField::Error(error(2, "no", None)),
		]
	);
}

#[test]
fn notification_and_invalid_fields_in_order() {
	let n = LSPSMessage::LSPS5(LSPS5Message::Notification(LSPS5Notification::ExpirySoon(
		payload("{\"timeout\":1}"),
	)));
	assert_eq!(
		n.jsonrpc_fields(),
		vec![
			JsonRpcField::JsonRpc,
			JsonRpcField::Method(LSPSMethod::LSPS5ExpirySoon),
			JsonRpcField::Params(text("{\"timeout\":1}")),
		]
	);
	let inv = LSPSMessage::Invalid(error(-32700, "parse error", None));
	assert_eq!(
		inv.jsonrpc_fields(),
		vec![
			JsonRpcField::JsonRpc,
			JsonRpcField::Id(None),
			JsonRpcField::Error(error(-32700, "parse error", None)),
		]
	);
}

#[test]
fn field_keys() {
	assert_eq!(JsonRpcField::JsonRpc.key(), "jsonrpc");
	assert_eq!(JsonRpcField::Id(None).key(), "id");
	assert_eq!(JsonRpcField::Method(LSPSMethod::LSPS2Buy).key(), "method");
	assert_eq!(JsonRpcField::Params(text("{}")).key(), "params");
	assert_eq!(JsonRpcField::Result(text("{}")).key(), "result");
	assert_eq!(JsonRpcField::Error(error(0, "", None)).key(), "error");
	assert_eq!(JsonRpcKey::from_key("id"), Some(JsonRpcKey::Id));
	assert_eq!(JsonRpcKey::from_key("method"), Some(JsonRpcKey::Method));
	assert_eq!(JsonRpcKey::from_key("params"), Some(JsonRpcKey::Params));
	assert_eq!(JsonRpcKey::from_key("result"), Some(JsonRpcKey::Result));
	assert_eq!(JsonRpcKey::from_key("error"), Some(JsonRpcKey::Error));
	assert_eq!(JsonRpcKey::from_key("jsonrpc"), None);
	assert_eq!(JsonRpcKey::from_key("ID"), None);
}

#[test]
fn requests_read_back() {
	for m in sample_requests() {
		let mut map = RequestIdMap::new();
		map.insert(id("other"), LSPSMethod::LSPS2Buy);
		let back = LSPSMessage::from_jsonrpc(m.jsonrpc_fields(), &mut map);
		assert_eq!(back, Ok(m));
		assert_eq!(map.len(), 1);
	}
}

#[test]
fn responses_read_back_and_leave_the_map() {
	for (m, method) in sample_responses() {
		let (rid, _) = match m.jsonrpc_fields()[1].clone() {
			JsonRpcField::Id(Some(i)) => (i, ()),
			_ => panic!("response without id"),
		};
		let mut map = RequestIdMap::new();
		map.insert(rid.clone(), method);
		map.insert(id("other"), LSPSMethod::LSPS2Buy);
		let back = LSPSMessage::from_jsonrpc(m.jsonrpc_fields(), &mut map);
		assert_eq!(back, Ok(m));
		assert_eq!(map.get(&rid), None);
		assert_eq!(map.get(&id("other")), Some(LSPSMethod::LSPS2Buy));
		assert_eq!(map.len(), 1);
	}
}

#[test]
fn notifications_read_back() {
	for m in sample_notifications() {
		let mut map = RequestIdMap::new();
		assert_eq!(LSPSMessage::from_jsonrpc(m.jsonrpc_fields(), &mut map), Ok(m));
	}
}

#[test]
fn invalid_message_reads_back_with_parse_error_code() {
	let m = LSPSMessage::Invalid(error(JSONRPC_INVALID_MESSAGE_ERROR_CODE, "parse error", None));
	let mut map = RequestIdMap::new();
	assert_eq!(LSPSMessage::from_jsonrpc(m.jsonrpc_fields(), &mut map), Ok(m));
}

#[test]
fn get_request_id_and_method_of_requests_only() {
	for m in sample_requests() {
		let fields = m.jsonrpc_fields();
		let (rid, method) = m.get_request_id_and_method().unwrap();
		assert_eq!(fields[1], JsonRpcField::Id(Some(rid)));
		assert_eq!(fields[2], JsonRpcField::Method(method));
	}
	for (m, _) in sample_responses() {
		assert_eq!(m.get_request_id_and_method(), None);
	}
	for m in sample_notifications() {
		assert_eq!(m.get_request_id_and_method(), None);
	}
	assert_eq!(LSPSMessage::Invalid(error(-32700, "parse error", None)).get_request_id_and_method(), None);
}

#[test]
fn missing_params_read_as_empty_object() {
	let mut map = RequestIdMap::new();
	let fields = vec![
		JsonRpcField::Id(Some(id("5"))),
		JsonRpcField::Method(LSPSMethod::LSPS2GetInfo),
	];
	assert_eq!(
		LSPSMessage::from_jsonrpc(fields, &mut map),
		Ok(LSPSMessage::LSPS2(LSPS2Message::Request(id("5"), LSPS2Request::GetInfo(payload("{}")))))
	);
	let fields = vec![JsonRpcField::Method(LSPSMethod::LSPS5PaymentIncoming)];
	assert_eq!(
		LSPSMessage::from_jsonrpc(fields, &mut map),
		Ok(LSPSMessage::LSPS5(LSPS5Message::Notification(LSPS5Notification::PaymentIncoming(
			payload("{}")
		))))
	);
}

#[test]
fn list_protocols_params_are_not_read() {
	let mut map = RequestIdMap::new();
	let fields = vec![
		JsonRpcField::Id(Some(id("5"))),
		JsonRpcField::Method(LSPSMethod::LSPS0ListProtocols),
		JsonRpcField::Params(text("[1,2,3]")),
	];
	assert_eq!(
		LSPSMessage::from_jsonrpc(fields, &mut map),
		Ok(LSPSMessage::LSPS0(LSPS0Message::Request(
			id("5"),
			LSPS0Request::ListProtocols(ListProtocolsRequest {})
		)))
	);
}

#[test]
fn later_members_override_earlier_ones() {
	let mut noted = JsonRpcFields::new();
	noted.record(JsonRpcField::Id(Some(id("1"))));
	noted.record(JsonRpcField::Params(text("{\"a\":1}")));
	noted.record(JsonRpcField::Params(text("{\"a\":2}")));
	noted.record(JsonRpcField::Id(None));
	noted.record(JsonRpcField::JsonRpc);
	assert_eq!(noted.id, None);
	assert_eq!(noted.params, Some(text("{\"a\":2}")));
	assert_eq!(noted.method, None);
}

#[test]
fn error_is_taken_before_result() {
	let mut map = RequestIdMap::new();
	map.insert(id("9"), LSPSMethod::LSPS1GetInfo);
	let fields = vec![
		JsonRpcField::Id(Some(id("9"))),
		JsonRpcField::Result(text("{}")),
		JsonRpcField::Error(error(3, "bad", None)),
	];
	assert_eq!(
		LSPSMessage::from_jsonrpc(fields, &mut map),
		Ok(LSPSMessage::LSPS1(LSPS1Message::Response(
			id("9"),
			LSPS1Response::GetInfoError(error(3, "bad", None))
		)))
	);
}

#[test]
fn list_webhooks_response_ignores_error() {
	let mut map = RequestIdMap::new();
	map.insert(id("9"), LSPSMethod::LSPS5ListWebhooks);
	let fields = vec![
		JsonRpcField::Id(Some(id("9"))),
		JsonRpcField::Result(text("{}")),
		JsonRpcField::Error(error(3, "bad", None)),
	];
	assert_eq!(
		LSPSMessage::from_jsonrpc(fields, &mut map),
		Ok(LSPSMessage::LSPS5(LSPS5Message::Response(id("9"), LSPS5Response::ListWebhooks(payload("{}")))))
	);
	map.insert(id("10"), LSPSMethod::LSPS5ListWebhooks);
	let fields = vec![JsonRpcField::Id(Some(id("10"))), JsonRpcField::Error(error(3, "bad", None))];
	assert_eq!(LSPSMessage::from_jsonrpc(fields, &mut map), Err(JsonRpcError::MissingResultOrError));
}

#[test]
fn error_invalid_method() {
	let mut map = RequestIdMap::new();
	let fields = vec![
		JsonRpcField::Id(Some(id("1"))),
		JsonRpcField::Method(LSPSMethod::LSPS5ExpirySoon),
	];
	let res = LSPSMessage::from_jsonrpc(fields, &mut map);
	assert_eq!(res, Err(JsonRpcError::InvalidMethod));
	assert_eq!(res.unwrap_err().message(), "invalid method");
}

#[test]
fn error_missing_result_or_error_still_consumes_id() {
	let mut map = RequestIdMap::new();
	map.insert(id("1"), LSPSMethod::LSPS2Buy);
	let fields = vec![JsonRpcField::JsonRpc, JsonRpcField::Id(Some(id("1")))];
	let res = LSPSMessage::from_jsonrpc(fields, &mut map);
	assert_eq!(res, Err(JsonRpcError::MissingResultOrError));
	assert_eq!(
		res.unwrap_err().message(),
		"Received invalid JSON-RPC object: one of method, result, or error required"
	);
	assert_eq!(map.len(), 0);
}

#[test]
fn error_method_not_recognized() {
	let mut map = RequestIdMap::new();
	map.insert(id("1"), LSPSMethod::LSPS5WebhookRegistered);
	let fields = vec![JsonRpcField::Id(Some(id("1"))), JsonRpcField::Result(text("{}"))];
	let res = LSPSMessage::from_jsonrpc(fields, &mut map);
	assert_eq!(res, Err(JsonRpcError::MethodNotRecognized));
	assert_eq!(
		res.unwrap_err().message(),
		"Received invalid JSON-RPC object: method not recognized"
	);
	assert_eq!(map.len(), 0);
}

#[test]
fn error_unknown_request_id() {
	let mut map = RequestIdMap::new();
	map.insert(id("known"), LSPSMethod::LSPS2Buy);
	let fields = vec![JsonRpcField::Id(Some(id("stranger"))), JsonRpcField::Result(text("{}"))];
	let res = LSPSMessage::from_jsonrpc(fields, &mut map);
	assert_eq!(res, Err(JsonRpcError::UnknownRequestId(id("stranger"))));
	assert_eq!(res.unwrap_err().message(), "Received response for unknown request id: stranger");
	assert_eq!(map.get(&id("known")), Some(LSPSMethod::LSPS2Buy));
}

#[test]
fn error_unknown_notification() {
	let mut map = RequestIdMap::new();
	let fields = vec![JsonRpcField::Method(LSPSMethod::LSPS1GetInfo)];
	let res = LSPSMessage::from_jsonrpc(fields, &mut map);
	assert_eq!(res, Err(JsonRpcError::UnknownNotification(LSPSMethod::LSPS1GetInfo)));
	assert_eq!(res.unwrap_err().message(), "Received unknown notification: LSPS1GetInfo");
}

#[test]
fn error_unknown_error_message() {
	let mut map = RequestIdMap::new();
	let res = LSPSMessage::from_jsonrpc(vec![JsonRpcField::JsonRpc], &mut map);
	assert_eq!(res, Err(JsonRpcError::UnknownErrorMessage));
	assert_eq!(res.unwrap_err().message(), "Received unknown error message");
	let fields = vec![JsonRpcField::Id(None), JsonRpcField::Error(error(-32603, "Internal error", None))];
	assert_eq!(LSPSMessage::from_jsonrpc(fields, &mut map), Err(JsonRpcError::UnknownErrorMessage));
}

#[test]
fn payloads_are_json_objects_or_arrays() {
	assert!(JsonPayload::from_json(text("{}")).is_some());
	assert!(JsonPayload::from_json(text(" [1, {\"a\": null}] ")).is_some());
	for bad in ["42", "\"s\"", "null", "true", "not json", "{", ""] {
		assert_eq!(JsonPayload::from_json(text(bad)), None, "{}", bad);
	}
	assert_eq!(payload("{\"k\": 1}").text(), "{\"k\": 1}");
}

#[test]
fn error_invalid_params_of_request() {
	let mut map = RequestIdMap::new();
	let fields = vec![
		JsonRpcField::Id(Some(id("a"))),
		JsonRpcField::Method(LSPSMethod::LSPS1GetInfo),
		JsonRpcField::Params(text("42")),
	];
	let res = LSPSMessage::from_jsonrpc(fields, &mut map);
	assert_eq!(res, Err(JsonRpcError::InvalidParams(LSPSMethod::LSPS1GetInfo)));
	assert_eq!(
		res.unwrap_err().message(),
		"invalid type: params of lsps1.get_info are not a JSON object or array"
	);
	let fields = vec![
		JsonRpcField::Id(Some(id("a"))),
		JsonRpcField::Method(LSPSMethod::LSPS2Buy),
		JsonRpcField::Params(text("[1,2]")),
	];
	assert_eq!(
		LSPSMessage::from_jsonrpc(fields, &mut map),
		Ok(LSPSMessage::LSPS2(LSPS2Message::Request(id("a"), LSPS2Request::Buy(payload("[1,2]")))))
	);
}

#[test]
fn error_invalid_params_of_notification() {
	let mut map = RequestIdMap::new();
	let fields = vec![
		JsonRpcField::Method(LSPSMethod::LSPS5ExpirySoon),
		JsonRpcField::Params(text("42")),
	];
	assert_eq!(
		LSPSMessage::from_jsonrpc(fields, &mut map),
		Err(JsonRpcError::InvalidParams(LSPSMethod::LSPS5ExpirySoon))
	);
}

#[test]
fn error_invalid_result() {
	let mut map = RequestIdMap::new();
	map.insert(id("r"), LSPSMethod::LSPS2GetInfo);
	let fields = vec![JsonRpcField::Id(Some(id("r"))), JsonRpcField::Result(text("null"))];
	let res = LSPSMessage::from_jsonrpc(fields, &mut map);
	assert_eq!(res, Err(JsonRpcError::InvalidResult(LSPSMethod::LSPS2GetInfo)));
	assert_eq!(
		res.unwrap_err().message(),
		"invalid type: result of lsps2.get_info is not a JSON object or array"
	);
	assert_eq!(map.len(), 0);
}

#[test]
fn ignored_members_are_not_checked() {
	let mut map = RequestIdMap::new();
	let fields = vec![
		JsonRpcField::Id(Some(id("a"))),
		JsonRpcField::Method(LSPSMethod::LSPS2GetInfo),
		JsonRpcField::Result(text("42")),
	];
	assert_eq!(
		LSPSMessage::from_jsonrpc(fields, &mut map),
		Ok(LSPSMessage::LSPS2(LSPS2Message::Request(id("a"), LSPS2Request::GetInfo(payload("{}")))))
	);
}
