//! The members of the JSON-RPC 2.0 object that carries an LSPS message: which
//! members a message is written as, how the members of a received object are
//! gathered, and which message the gathered members stand for.

use vstd::prelude::*;

use crate::id_map::RequestIdMap;
use crate::method::LSPSMethod;
use crate::msgs::{
    empty_params, json_object_or_array, JsonPayload, LSPS0Message, LSPS0Request, LSPS0Response, LSPS1Message,
    LSPS1Request, LSPS1Response, LSPS2Message, LSPS2Request, LSPS2Response, LSPS5Message,
    LSPS5Notification, LSPS5Request, LSPS5Response, LSPSMessage, ListProtocolsRequest,
    MessageView, RequestId, ResponseBody, ResponseError, ResponseErrorView,
};

verus! {

/// The value of the `jsonrpc` member.
pub const JSONRPC_FIELD_VALUE: &'static str = "2.0";

/// The error code of a message that could not be parsed.
pub const JSONRPC_INVALID_MESSAGE_ERROR_CODE: i32 = -32700;

/// The error message of a message that could not be parsed.
pub const JSONRPC_INVALID_MESSAGE_ERROR_MESSAGE: &'static str = "parse error";

/// The error code of an internal error.
pub const JSONRPC_INTERNAL_ERROR_ERROR_CODE: i32 = -32603;

/// The error message of an internal error.
pub const JSONRPC_INTERNAL_ERROR_ERROR_MESSAGE: &'static str = "Internal error";

/// The error code with which an LSPS0 service rejects a client.
pub const LSPS0_CLIENT_REJECTED_ERROR_CODE: i32 = 1;

/// One member of a JSON-RPC object, as a message is written to it or read from it.
#[derive(Clone, Debug, PartialEq, Eq)]
pub enum JsonRpcField {
    /// `"jsonrpc": "2.0"`.
    JsonRpc,
    /// `"id"`: a string, or `null`.
    Id(Option<RequestId>),
    /// `"method"`: the wire name of a method.
    Method(LSPSMethod),
    /// `"params"`: JSON text.
    Params(String),
    /// `"result"`: JSON text.
    Result(String),
    /// `"error"`: an error object.
    Error(ResponseError),
}

/// The abstract value of a `JsonRpcField`.
pub enum FieldView {
    JsonRpc,
    Id(Option<Seq<char>>),
    Method(LSPSMethod),
    Params(Seq<char>),
    Result(Seq<char>),
    Error(ResponseErrorView),
}

impl View for JsonRpcField {
    type V = FieldView;

    open spec fn view(&self) -> FieldView {
        match self {
            JsonRpcField::JsonRpc => FieldView::JsonRpc,
            JsonRpcField::Id(id) => FieldView::Id(
                match id {
                    Some(i) => Some(i@),
                    None => None,
                },
            ),
            JsonRpcField::Method(m) => FieldView::Method(*m),
            JsonRpcField::Params(p) => FieldView::Params(p@),
            JsonRpcField::Result(r) => FieldView::Result(r@),
            JsonRpcField::Error(e) => FieldView::Error(e@),
        }
    }
}

/// The member keys that a reader of a JSON-RPC object takes note of; any
/// other member, `jsonrpc` among them, is read and dropped.
#[derive(Copy, Clone, Debug, PartialEq, Eq, Structural)]
pub enum JsonRpcKey {
    Id,
    Method,
    Params,
    Result,
    Error,
}

impl JsonRpcKey {
    /// The member name of the key.
    pub open spec fn name(self) -> Seq<char> {
        match self {
            JsonRpcKey::Id => "id"@,
            JsonRpcKey::Method => "method"@,
            JsonRpcKey::Params => "params"@,
            JsonRpcKey::Result => "result"@,
            JsonRpcKey::Error => "error"@,
        }
    }

    /// The key that a member name stands for, if any.
    pub open spec fn named(s: Seq<char>) -> Option<JsonRpcKey> {
        if s == "id"@ {
            Some(JsonRpcKey::Id)
        } else if s == "method"@ {
            Some(JsonRpcKey::Method)
        } else if s == "params"@ {
            Some(JsonRpcKey::Params)
        } else if s == "result"@ {
            Some(JsonRpcKey::Result)
        } else if s == "error"@ {
            Some(JsonRpcKey::Error)
        } else {
            None
        }
    }

    /// Recognizes a member name.
    pub fn from_key(key: &str) -> (res: Option<JsonRpcKey>)
        ensures
            res == JsonRpcKey::named(key@),
    {
        if crate::method::same_text(key, "id") {
            Some(JsonRpcKey::Id)
        } else if crate::method::same_text(key, "method") {
            Some(JsonRpcKey::Method)
        } else if crate::method::same_text(key, "params") {
            Some(JsonRpcKey::Params)
        } else if crate::method::same_text(key, "result") {
            Some(JsonRpcKey::Result)
        } else if crate::method::same_text(key, "error") {
            Some(JsonRpcKey::Error)
        } else {
            None
        }
    }
}

impl FieldView {
    /// The member name under which the field is written.
    pub open spec fn key_name(self) -> Seq<char> {
        match self {
            FieldView::JsonRpc => "jsonrpc"@,
            FieldView::Id(_) => JsonRpcKey::Id.name(),
            FieldView::Method(_) => JsonRpcKey::Method.name(),
            FieldView::Params(_) => JsonRpcKey::Params.name(),
            FieldView::Result(_) => JsonRpcKey::Result.name(),
            FieldView::Error(_) => JsonRpcKey::Error.name(),
        }
    }

    /// The key under which a reader takes note of the field; none for `jsonrpc`.
    pub open spec fn key(self) -> Option<JsonRpcKey> {
        match self {
            FieldView::JsonRpc => None,
            FieldView::Id(_) => Some(JsonRpcKey::Id),
            FieldView::Method(_) => Some(JsonRpcKey::Method),
            FieldView::Params(_) => Some(JsonRpcKey::Params),
            FieldView::Result(_) => Some(JsonRpcKey::Result),
            FieldView::Error(_) => Some(JsonRpcKey::Error),
        }
    }
}

impl JsonRpcField {
    /// The member name under which the field is written.
    pub fn key(&self) -> (name: &'static str)
        ensures
            name@ == self@.key_name(),
    {
        match self {
            JsonRpcField::JsonRpc => "jsonrpc",
            JsonRpcField::Id(_) => "id",
            JsonRpcField::Method(_) => "method",
            JsonRpcField::Params(_) => "params",
            JsonRpcField::Result(_) => "result",
            JsonRpcField::Error(_) => "error",
        }
    }
}

/// A reader recognizes the member name of every field by the key of that
/// field, and takes no note of the `jsonrpc` member.
pub proof fn lemma_field_keys_recognized(f: FieldView)
    ensures
        JsonRpcKey::named(f.key_name()) == f.key(),
{
    reveal_strlit("jsonrpc");
    reveal_strlit("id");
    reveal_strlit("method");
    reveal_strlit("params");
    reveal_strlit("result");
    reveal_strlit("error");
    assert("jsonrpc"@.len() == 7 && "jsonrpc"@[0] == 'j');
    assert("id"@.len() == 2 && "id"@[0] == 'i');
    assert("method"@.len() == 6 && "method"@[0] == 'm');
    assert("params"@.len() == 6 && "params"@[0] == 'p');
    assert("result"@.len() == 6 && "result"@[0] == 'r');
    assert("error"@.len() == 5 && "error"@[0] == 'e');
}

/// The members that a reader has taken note of, as the abstract values of a `JsonRpcFields`.
pub struct FieldsView {
    pub id: Option<Seq<char>>,
    pub method: Option<LSPSMethod>,
    pub params: Option<Seq<char>>,
    pub result: Option<Seq<char>>,
    pub error: Option<ResponseErrorView>,
}

impl FieldsView {
    /// No member read yet.
    pub open spec fn empty() -> FieldsView {
        FieldsView { id: None, method: None, params: None, result: None, error: None }
    }

    /// The members after one more has been read: a later member overrides an
    /// earlier one under the same key, and an `id` of `null` clears the id.
    pub open spec fn with(self, f: FieldView) -> FieldsView {
        match f {
            FieldView::JsonRpc => self,
            FieldView::Id(id) => FieldsView { id: id, ..self },
            FieldView::Method(m) => FieldsView { method: Some(m), ..self },
            FieldView::Params(p) => FieldsView { params: Some(p), ..self },
            FieldView::Result(r) => FieldsView { result: Some(r), ..self },
            FieldView::Error(e) => FieldsView { error: Some(e), ..self },
        }
    }
}

/// The members noted after reading the fields in order.
pub open spec fn collect(fields: Seq<FieldView>) -> FieldsView
    decreases fields.len(),
{
    if fields.len() == 0 {
        FieldsView::empty()
    } else {
        collect(fields.drop_last()).with(fields.last())
    }
}

/// The abstract values of a sequence of fields.
pub open spec fn field_views(fields: Seq<JsonRpcField>) -> Seq<FieldView> {
    fields.map_values(|f: JsonRpcField| f@)
}

/// The members of a JSON-RPC object that a reader has taken note of.
#[derive(Clone, Debug, PartialEq, Eq)]
pub struct JsonRpcFields {
    pub id: Option<RequestId>,
    pub method: Option<LSPSMethod>,
    pub params: Option<String>,
    pub result: Option<String>,
    pub error: Option<ResponseError>,
}

impl View for JsonRpcFields {
    type V = FieldsView;

    open spec fn view(&self) -> FieldsView {
        FieldsView {
            id: match self.id {
                Some(i) => Some(i@),
                None => None,
            },
            method: self.method,
            params: match self.params {
                Some(p) => Some(p@),
                None => None,
            },
            result: match self.result {
                Some(r) => Some(r@),
                None => None,
            },
            error: match self.error {
                Some(e) => Some(e@),
                None => None,
            },
        }
    }
}

impl JsonRpcFields {
    /// No member read yet.
    pub fn new() -> (fields: JsonRpcFields)
        ensures
            fields@ == FieldsView::empty(),
    {
        JsonRpcFields { id: None, method: None, params: None, result: None, error: None }
    }

    /// Takes note of one more member.
    pub fn record(&mut self, field: JsonRpcField)
        ensures
            final(self)@ == old(self)@.with(field@),
    {
        match field {
            JsonRpcField::JsonRpc => {},
            JsonRpcField::Id(id) => {
                self.id = id;
            },
            JsonRpcField::Method(m) => {
                self.method = Some(m);
            },
            JsonRpcField::Params(p) => {
                self.params = Some(p);
            },
            JsonRpcField::Result(r) => {
                self.result = Some(r);
            },
            JsonRpcField::Error(e) => {
                self.error = Some(e);
            },
        }
    }

    /// Takes note of the members in order.
    pub fn from_fields(fields: Vec<JsonRpcField>) -> (noted: JsonRpcFields)
        ensures
            noted@ == collect(field_views(fields@)),
    {
        let ghost all = field_views(fields@);
        let mut noted = JsonRpcFields::new();
        let n = fields.len();
        assert(all.len() == n);
        let mut rest = fields;
        let mut k: usize = 0;
        assert(all.take(0) =~= Seq::<FieldView>::empty());
        while rest.len() > 0
            invariant
                0 <= k <= all.len(),
                all.len() == k + rest@.len(),
                all.len() <= usize::MAX,
                field_views(rest@) =~= all.skip(k as int),
                noted@ == collect(all.take(k as int)),
            decreases rest@.len(),
        {
            let ghost before = rest@;
            let f = rest.remove(0);
            assert(f@ == all[k as int]) by {
                assert(field_views(before)[0] == before[0]@);
                assert(field_views(before)[0] == all.skip(k as int)[0]);
            }
            noted.record(f);
            assert(all.take(k + 1).drop_last() =~= all.take(k as int));
            assert(field_views(rest@) =~= all.skip(k + 1)) by {
                assert(rest@ =~= before.subrange(1, before.len() as int));
                assert forall|j: int| 0 <= j < rest@.len() implies field_views(rest@)[j]
                    == all.skip(k + 1)[j] by {
                    assert(field_views(rest@)[j] == rest@[j]@);
                    assert(rest@[j] == before[j + 1]);
                    assert(field_views(before)[j + 1] == before[j + 1]@);
                    assert(field_views(before)[j + 1] == all.skip(k as int)[j + 1]);
                }
            }
            k = k + 1;
        }
        assert(all.take(k as int) =~= all);
        noted
    }
}

/// The members a message is written as, in order.
pub open spec fn encode_view(m: MessageView) -> Seq<FieldView> {
    match m {
        MessageView::Request { id, method, params } => seq![
            FieldView::JsonRpc,
            FieldView::Id(Some(id)),
            FieldView::Method(method),
            FieldView::Params(params),
        ],
        MessageView::Response { id, body, .. } => match body {
            ResponseBody::Result(r) => seq![FieldView::JsonRpc, FieldView::Id(Some(id)), FieldView::Result(r)],
            ResponseBody::Error(e) => seq![FieldView::JsonRpc, FieldView::Id(Some(id)), FieldView::Error(e)],
        },
        MessageView::Notification { method, params } => seq![
            FieldView::JsonRpc,
            FieldView::Method(method),
            FieldView::Params(params),
        ],
        MessageView::Invalid { error } => seq![FieldView::JsonRpc, FieldView::Id(None), FieldView::Error(error)],
    }
}

fn list_protocols_request_fields(id: &RequestId) -> (fields: Vec<JsonRpcField>)
    ensures
        field_views(fields@) == encode_view(
            MessageView::Request { id: id@, method: LSPSMethod::LSPS0ListProtocols, params: empty_params() },
        ),
{
    let fields = vec![
        JsonRpcField::JsonRpc,
        JsonRpcField::Id(Some(id.duplicate())),
        JsonRpcField::Method(LSPSMethod::LSPS0ListProtocols),
        JsonRpcField::Params(String::from_str("{}")),
    ];
    assert(field_views(fields@) =~= encode_view(
        MessageView::Request { id: id@, method: LSPSMethod::LSPS0ListProtocols, params: empty_params() },
    ));
    fields
}

fn request_fields(id: &RequestId, method: LSPSMethod, params: &JsonPayload) -> (fields: Vec<JsonRpcField>)
    ensures
        field_views(fields@) == encode_view(MessageView::Request { id: id@, method, params: params@ }),
        json_object_or_array(params@),
{
    let fields = vec![
        JsonRpcField::JsonRpc,
        JsonRpcField::Id(Some(id.duplicate())),
        JsonRpcField::Method(method),
        JsonRpcField::Params(params.text().clone()),
    ];
    assert(field_views(fields@) =~= encode_view(MessageView::Request { id: id@, method, params: params@ }));
    fields
}

fn result_fields(id: &RequestId, result: &JsonPayload) -> (fields: Vec<JsonRpcField>)
    ensures
        forall|method: LSPSMethod| field_views(fields@) == encode_view(
            MessageView::Response { id: id@, method, body: ResponseBody::Result(result@) },
        ),
        json_object_or_array(result@),
{
    let fields = vec![
        JsonRpcField::JsonRpc,
        JsonRpcField::Id(Some(id.duplicate())),
        JsonRpcField::Result(result.text().clone()),
    ];
    assert(field_views(fields@) =~= seq![
        FieldView::JsonRpc,
        FieldView::Id(Some(id@)),
        FieldView::Result(result@),
    ]);
    fields
}

fn error_fields(id: Option<&RequestId>, error: &ResponseError) -> (fields: Vec<JsonRpcField>)
    ensures
        field_views(fields@) == seq![
            FieldView::JsonRpc,
            FieldView::Id(
                match id {
                    Some(i) => Some(i@),
                    None => None,
                },
            ),
            FieldView::Error(error@),
        ],
{
    let id_field = match id {
        Some(i) => JsonRpcField::Id(Some(i.duplicate())),
        None => JsonRpcField::Id(None),
    };
    let fields = vec![JsonRpcField::JsonRpc, id_field, JsonRpcField::Error(error.duplicate())];
    assert(field_views(fields@) =~= seq![
        FieldView::JsonRpc,
        FieldView::Id(
            match id {
                Some(i) => Some(i@),
                None => None,
            },
        ),
        FieldView::Error(error@),
    ]);
    fields
}

fn notification_fields(method: LSPSMethod, params: &JsonPayload) -> (fields: Vec<JsonRpcField>)
    ensures
        field_views(fields@) == encode_view(MessageView::Notification { method, params: params@ }),
        json_object_or_array(params@),
{
    let fields = vec![
        JsonRpcField::JsonRpc,
        JsonRpcField::Method(method),
        JsonRpcField::Params(params.text().clone()),
    ];
    assert(field_views(fields@) =~= encode_view(MessageView::Notification { method, params: params@ }));
    fields
}

/// Whether the parameters and results that a message carries are JSON objects
/// or arrays; the parameters of `lsps0.list_protocols` are an empty object.
pub open spec fn payloads_structured(m: MessageView) -> bool {
    match m {
        MessageView::Request { method, params, .. } => method == LSPSMethod::LSPS0ListProtocols
            || json_object_or_array(params),
        MessageView::Response { body, .. } => match body {
            ResponseBody::Result(r) => json_object_or_array(r),
            ResponseBody::Error(_) => true,
        },
        MessageView::Notification { params, .. } => json_object_or_array(params),
        MessageView::Invalid { .. } => true,
    }
}

impl LSPSMessage {
    /// The members of the JSON-RPC object that the message is written as, in
    /// the order in which they are written.
    pub fn jsonrpc_fields(&self) -> (fields: Vec<JsonRpcField>)
        ensures
            field_views(fields@) == encode_view(self@),
            payloads_structured(self@),
    {
        match self {
            LSPSMessage::LSPS0(LSPS0Message::Request(request_id, request)) => {
                match request {
                    LSPS0Request::ListProtocols(_) => list_protocols_request_fields(request_id),
                }
            },
            LSPSMessage::LSPS0(LSPS0Message::Response(request_id, response)) => {
                match response {
                    LSPS0Response::ListProtocols(result) => result_fields(request_id, result),
                    LSPS0Response::ListProtocolsError(error) => error_fields(Some(request_id), error),
                }
            },
            LSPSMessage::LSPS1(LSPS1Message::Request(request_id, request)) => {
                let method = LSPSMethod::from(request);
                match request {
                    LSPS1Request::GetInfo(params) => request_fields(request_id, method, params),
                    LSPS1Request::CreateOrder(params) => request_fields(request_id, method, params),
                    LSPS1Request::GetOrder(params) => request_fields(request_id, method, params),
                }
            },
            LSPSMessage::LSPS1(LSPS1Message::Response(request_id, response)) => {
                match response {
                    LSPS1Response::GetInfo(result) => result_fields(request_id, result),
                    LSPS1Response::GetInfoError(error) => error_fields(Some(request_id), error),
                    LSPS1Response::CreateOrder(result) => result_fields(request_id, result),
                    LSPS1Response::CreateOrderError(error) => error_fields(Some(request_id), error),
                    LSPS1Response::GetOrder(result) => result_fields(request_id, result),
                    LSPS1Response::GetOrderError(error) => error_fields(Some(request_id), error),
                }
            },
            LSPSMessage::LSPS2(LSPS2Message::Request(request_id, request)) => {
                let method = LSPSMethod::from(request);
                match request {
                    LSPS2Request::GetInfo(params) => request_fields(request_id, method, params),
                    LSPS2Request::Buy(params) => request_fields(request_id, method, params),
                }
            },
            LSPSMessage::LSPS2(LSPS2Message::Response(request_id, response)) => {
                match response {
                    LSPS2Response::GetInfo(result) => result_fields(request_id, result),
                    LSPS2Response::GetInfoError(error) => error_fields(Some(request_id), error),
                    LSPS2Response::Buy(result) => result_fields(request_id, result),
                    LSPS2Response::BuyError(error) => error_fields(Some(request_id), error),
                }
            },
            LSPSMessage::LSPS5(LSPS5Message::Request(request_id, request)) => {
                let method = LSPSMethod::from(request);
                match request {
                    LSPS5Request::SetWebhook(params) => request_fields(request_id, method, params),
                    LSPS5Request::ListWebhooks(params) => request_fields(request_id, method, params),
                    LSPS5Request::RemoveWebhook(params) => request_fields(request_id, method, params),
                }
            },
            LSPSMessage::LSPS5(LSPS5Message::Response(request_id, response)) => {
                match response {
                    LSPS5Response::SetWebhook(result) => result_fields(request_id, result),
                    LSPS5Response::SetWebhookError(error) => error_fields(Some(request_id), error),
                    LSPS5Response::ListWebhooks(result) => result_fields(request_id, result),
                    LSPS5Response::RemoveWebhook(result) => result_fields(request_id, result),
                    LSPS5Response::RemoveWebhookError(error) => error_fields(Some(request_id), error),
                }
            },
            LSPSMessage::LSPS5(LSPS5Message::Notification(notification)) => {
                let method = LSPSMethod::from(notification);
                match notification {
                    LSPS5Notification::WebhookRegistered(params) => notification_fields(method, params),
                    LSPS5Notification::PaymentIncoming(params) => notification_fields(method, params),
                    LSPS5Notification::ExpirySoon(params) => notification_fields(method, params),
                    LSPS5Notification::LiquidityManagementRequest(params) => notification_fields(method, params),
                    LSPS5Notification::FeesChangeIncoming(params) => notification_fields(method, params),
                    LSPS5Notification::OnionMessageIncoming(params) => notification_fields(method, params),
                }
            },
            LSPSMessage::Invalid(error) => error_fields(None, error),
        }
    }
}

/// Why a JSON-RPC object stands for no LSPS message.
#[derive(Clone, Debug, PartialEq, Eq)]
pub enum JsonRpcError {
    /// The object has an id and a method, and the method names a notification.
    InvalidMethod,
    /// The object answers a request, and has neither the result nor the error
    /// that the request's method allows.
    MissingResultOrError,
    /// The object answers a request whose method names a notification.
    MethodNotRecognized,
    /// The object answers a request id that is not outstanding.
    UnknownRequestId(RequestId),
    /// The object has a method but no id, and the method names no notification.
    UnknownNotification(LSPSMethod),
    /// The object has neither an id nor a method, and no error with the code of
    /// an invalid message.
    UnknownErrorMessage,
    /// The parameters of a request or notification of this method are not a
    /// JSON object or array.
    InvalidParams(LSPSMethod),
    /// The result of a response to a request of this method is not a JSON
    /// object or array.
    InvalidResult(LSPSMethod),
}

/// The abstract value of a `JsonRpcError`.
pub enum JsonRpcErrorView {
    InvalidMethod,
    MissingResultOrError,
    MethodNotRecognized,
    UnknownRequestId(Seq<char>),
    UnknownNotification(LSPSMethod),
    UnknownErrorMessage,
    InvalidParams(LSPSMethod),
    InvalidResult(LSPSMethod),
}

impl View for JsonRpcError {
    type V = JsonRpcErrorView;

    open spec fn view(&self) -> JsonRpcErrorView {
        match self {
            JsonRpcError::InvalidMethod => JsonRpcErrorView::InvalidMethod,
            JsonRpcError::MissingResultOrError => JsonRpcErrorView::MissingResultOrError,
            JsonRpcError::MethodNotRecognized => JsonRpcErrorView::MethodNotRecognized,
            JsonRpcError::UnknownRequestId(id) => JsonRpcErrorView::UnknownRequestId(id@),
            JsonRpcError::UnknownNotification(m) => JsonRpcErrorView::UnknownNotification(*m),
            JsonRpcError::UnknownErrorMessage => JsonRpcErrorView::UnknownErrorMessage,
            JsonRpcError::InvalidParams(m) => JsonRpcErrorView::InvalidParams(*m),
            JsonRpcError::InvalidResult(m) => JsonRpcErrorView::InvalidResult(*m),
        }
    }
}

impl JsonRpcErrorView {
    /// The text that describes the error.
    pub open spec fn text(self) -> Seq<char> {
        match self {
            JsonRpcErrorView::InvalidMethod => "invalid method"@,
            JsonRpcErrorView::MissingResultOrError =>
                "Received invalid JSON-RPC object: one of method, result, or error required"@,
            JsonRpcErrorView::MethodNotRecognized =>
                "Received invalid JSON-RPC object: method not recognized"@,
            JsonRpcErrorView::UnknownRequestId(id) => "Received response for unknown request id: "@ + id,
            JsonRpcErrorView::UnknownNotification(m) => "Received unknown notification: "@ + m.variant_name(),
            JsonRpcErrorView::UnknownErrorMessage => "Received unknown error message"@,
            JsonRpcErrorView::InvalidParams(m) => "invalid type: params of "@ + m.name()
                + " are not a JSON object or array"@,
            JsonRpcErrorView::InvalidResult(m) => "invalid type: result of "@ + m.name()
                + " is not a JSON object or array"@,
        }
    }
}

impl JsonRpcError {
    /// The text that describes the error.
    pub fn message(&self) -> (text: String)
        ensures
            text@ == self@.text(),
    {
        match self {
            JsonRpcError::InvalidMethod => String::from_str("invalid method"),
            JsonRpcError::MissingResultOrError => String::from_str(
                "Received invalid JSON-RPC object: one of method, result, or error required",
            ),
            JsonRpcError::MethodNotRecognized => String::from_str(
                "Received invalid JSON-RPC object: method not recognized",
            ),
            JsonRpcError::UnknownRequestId(id) => {
                let mut text = String::from_str("Received response for unknown request id: ");
                text.append(id.0.as_str());
                text
            },
            JsonRpcError::UnknownNotification(m) => {
                let mut text = String::from_str("Received unknown notification: ");
                text.append(m.debug_name());
                text
            },
            JsonRpcError::UnknownErrorMessage => String::from_str("Received unknown error message"),
            JsonRpcError::InvalidParams(m) => {
                let mut text = String::from_str("invalid type: params of ");
                text.append(m.as_static_str());
                text.append(" are not a JSON object or array");
                text
            },
            JsonRpcError::InvalidResult(m) => {
                let mut text = String::from_str("invalid type: result of ");
                text.append(m.as_static_str());
                text.append(" is not a JSON object or array");
                text
            },
        }
    }
}

/// The abstract value of a decoding outcome.
pub open spec fn outcome_view(res: Result<LSPSMessage, JsonRpcError>) -> Result<MessageView, JsonRpcErrorView> {
    match res {
        Ok(m) => Ok(m@),
        Err(e) => Err(e@),
    }
}

/// The parameters, or an empty object where there are none.
pub open spec fn params_or_empty(params: Option<Seq<char>>) -> Seq<char> {
    match params {
        Some(p) => p,
        None => empty_params(),
    }
}

/// The message that an object with an id and a method stands for. The
/// parameters of `lsps0.list_protocols` are not read; those of the other
/// methods, an empty object where they are absent, must be a JSON object or
/// array.
pub open spec fn request_view(id: Seq<char>, method: LSPSMethod, params: Option<Seq<char>>) -> Result<MessageView, JsonRpcErrorView> {
    if method.is_notification() {
        Err(JsonRpcErrorView::InvalidMethod)
    } else if method == LSPSMethod::LSPS0ListProtocols {
        Ok(MessageView::Request { id, method, params: empty_params() })
    } else if json_object_or_array(params_or_empty(params)) {
        Ok(MessageView::Request { id, method, params: params_or_empty(params) })
    } else {
        Err(JsonRpcErrorView::InvalidParams(method))
    }
}

/// The message that an answer to a request of `method` stands for: an error
/// object is taken before a result, where the method allows an error, and a
/// result must be a JSON object or array.
pub open spec fn response_view(
    id: Seq<char>,
    method: LSPSMethod,
    result: Option<Seq<char>>,
    error: Option<ResponseErrorView>,
) -> Result<MessageView, JsonRpcErrorView> {
    if method.is_notification() {
        Err(JsonRpcErrorView::MethodNotRecognized)
    } else if error is Some && method.has_error_response() {
        Ok(MessageView::Response { id, method, body: ResponseBody::Error(error.unwrap()) })
    } else if result is Some {
        if json_object_or_array(result.unwrap()) {
            Ok(MessageView::Response { id, method, body: ResponseBody::Result(result.unwrap()) })
        } else {
            Err(JsonRpcErrorView::InvalidResult(method))
        }
    } else {
        Err(JsonRpcErrorView::MissingResultOrError)
    }
}

/// The message that an object with a method and no id stands for; the
/// parameters, an empty object where they are absent, must be a JSON object
/// or array.
pub open spec fn notification_view(method: LSPSMethod, params: Option<Seq<char>>) -> Result<MessageView, JsonRpcErrorView> {
    if !method.is_notification() {
        Err(JsonRpcErrorView::UnknownNotification(method))
    } else if json_object_or_array(params_or_empty(params)) {
        Ok(MessageView::Notification { method, params: params_or_empty(params) })
    } else {
        Err(JsonRpcErrorView::InvalidParams(method))
    }
}

/// The message that the noted members stand for, given the outstanding
/// requests.
pub open spec fn decode_view(f: FieldsView, outstanding: Map<Seq<char>, LSPSMethod>) -> Result<MessageView, JsonRpcErrorView> {
    match f.id {
        Some(id) => match f.method {
            Some(method) => request_view(id, method, f.params),
            None => if outstanding.contains_key(id) {
                response_view(id, outstanding[id], f.result, f.error)
            } else {
                Err(JsonRpcErrorView::UnknownRequestId(id))
            },
        },
        None => match f.method {
            Some(method) => notification_view(method, f.params),
            None => match f.error {
                Some(e) => if e.code == JSONRPC_INVALID_MESSAGE_ERROR_CODE {
                    Ok(MessageView::Invalid { error: e })
                } else {
                    Err(JsonRpcErrorView::UnknownErrorMessage)
                },
                None => Err(JsonRpcErrorView::UnknownErrorMessage),
            },
        },
    }
}

/// The outstanding requests after reading the noted members: an object with
/// an id and no method answers that id, which is no longer outstanding, whether
/// the answer is accepted or not.
pub open spec fn decode_outstanding(f: FieldsView, outstanding: Map<Seq<char>, LSPSMethod>) -> Map<Seq<char>, LSPSMethod> {
    match f.id {
        Some(id) => if f.method is None {
            outstanding.remove(id)
        } else {
            outstanding
        },
        None => outstanding,
    }
}

/// The abstract value of an optional JSON text.
pub open spec fn text_view(text: Option<String>) -> Option<Seq<char>> {
    match text {
        Some(t) => Some(t@),
        None => None,
    }
}

/// The parameters as a payload, an empty object where they are absent, if
/// they are a JSON object or array.
fn params_payload(params: Option<String>) -> (payload: Option<JsonPayload>)
    ensures
        payload is Some <==> json_object_or_array(params_or_empty(text_view(params))),
        payload matches Some(p) ==> p@ == params_or_empty(text_view(params)),
{
    let text = match params {
        Some(p) => p,
        None => String::from_str("{}"),
    };
    JsonPayload::from_json(text)
}

fn request_with(id: RequestId, method: LSPSMethod, params: JsonPayload) -> (m: LSPSMessage)
    requires
        !method.is_notification(),
        method != LSPSMethod::LSPS0ListProtocols,
    ensures
        m@ == (MessageView::Request { id: id@, method, params: params@ }),
{
    match method {
        LSPSMethod::LSPS1GetInfo => LSPSMessage::LSPS1(LSPS1Message::Request(id, LSPS1Request::GetInfo(params))),
        LSPSMethod::LSPS1CreateOrder => LSPSMessage::LSPS1(LSPS1Message::Request(id, LSPS1Request::CreateOrder(params))),
        LSPSMethod::LSPS1GetOrder => LSPSMessage::LSPS1(LSPS1Message::Request(id, LSPS1Request::GetOrder(params))),
        LSPSMethod::LSPS2GetInfo => LSPSMessage::LSPS2(LSPS2Message::Request(id, LSPS2Request::GetInfo(params))),
        LSPSMethod::LSPS2Buy => LSPSMessage::LSPS2(LSPS2Message::Request(id, LSPS2Request::Buy(params))),
        LSPSMethod::LSPS5SetWebhook => LSPSMessage::LSPS5(LSPS5Message::Request(id, LSPS5Request::SetWebhook(params))),
        LSPSMethod::LSPS5ListWebhooks => LSPSMessage::LSPS5(LSPS5Message::Request(id, LSPS5Request::ListWebhooks(params))),
        LSPSMethod::LSPS5RemoveWebhook => LSPSMessage::LSPS5(LSPS5Message::Request(id, LSPS5Request::RemoveWebhook(params))),
        _ => vstd::pervasive::unreached(),
    }
}

fn request_from(id: RequestId, method: LSPSMethod, params: Option<String>) -> (res: Result<LSPSMessage, JsonRpcError>)
    ensures
        outcome_view(res) == request_view(id@, method, text_view(params)),
{
    if method.is_notification_method() {
        return Err(JsonRpcError::InvalidMethod);
    }
    if method == LSPSMethod::LSPS0ListProtocols {
        return Ok(LSPSMessage::LSPS0(LSPS0Message::Request(id, LSPS0Request::ListProtocols(ListProtocolsRequest {}))));
    }
    match params_payload(params) {
        Some(payload) => Ok(request_with(id, method, payload)),
        None => Err(JsonRpcError::InvalidParams(method)),
    }
}

fn response_with_result(id: RequestId, method: LSPSMethod, result: JsonPayload) -> (m: LSPSMessage)
    requires
        !method.is_notification(),
    ensures
        m@ == (MessageView::Response { id: id@, method, body: ResponseBody::Result(result@) }),
{
    match method {
        LSPSMethod::LSPS0ListProtocols => LSPSMessage::LSPS0(LSPS0Message::Response(id, LSPS0Response::ListProtocols(result))),
        LSPSMethod::LSPS1GetInfo => LSPSMessage::LSPS1(LSPS1Message::Response(id, LSPS1Response::GetInfo(result))),
        LSPSMethod::LSPS1CreateOrder => LSPSMessage::LSPS1(LSPS1Message::Response(id, LSPS1Response::CreateOrder(result))),
        LSPSMethod::LSPS1GetOrder => LSPSMessage::LSPS1(LSPS1Message::Response(id, LSPS1Response::GetOrder(result))),
        LSPSMethod::LSPS2GetInfo => LSPSMessage::LSPS2(LSPS2Message::Response(id, LSPS2Response::GetInfo(result))),
        LSPSMethod::LSPS2Buy => LSPSMessage::LSPS2(LSPS2Message::Response(id, LSPS2Response::Buy(result))),
        LSPSMethod::LSPS5SetWebhook => LSPSMessage::LSPS5(LSPS5Message::Response(id, LSPS5Response::SetWebhook(result))),
        LSPSMethod::LSPS5ListWebhooks => LSPSMessage::LSPS5(LSPS5Message::Response(id, LSPS5Response::ListWebhooks(result))),
        LSPSMethod::LSPS5RemoveWebhook => LSPSMessage::LSPS5(LSPS5Message::Response(id, LSPS5Response::RemoveWebhook(result))),
        _ => vstd::pervasive::unreached(),
    }
}

fn response_with_error(id: RequestId, method: LSPSMethod, error: ResponseError) -> (m: LSPSMessage)
    requires
        method.has_error_response(),
    ensures
        m@ == (MessageView::Response { id: id@, method, body: ResponseBody::Error(error@) }),
{
    match method {
        LSPSMethod::LSPS0ListProtocols => LSPSMessage::LSPS0(LSPS0Message::Response(id, LSPS0Response::ListProtocolsError(error))),
        LSPSMethod::LSPS1GetInfo => LSPSMessage::LSPS1(LSPS1Message::Response(id, LSPS1Response::GetInfoError(error))),
        LSPSMethod::LSPS1CreateOrder => LSPSMessage::LSPS1(LSPS1Message::Response(id, LSPS1Response::CreateOrderError(error))),
        LSPSMethod::LSPS1GetOrder => LSPSMessage::LSPS1(LSPS1Message::Response(id, LSPS1Response::GetOrderError(error))),
        LSPSMethod::LSPS2GetInfo => LSPSMessage::LSPS2(LSPS2Message::Response(id, LSPS2Response::GetInfoError(error))),
        LSPSMethod::LSPS2Buy => LSPSMessage::LSPS2(LSPS2Message::Response(id, LSPS2Response::BuyError(error))),
        LSPSMethod::LSPS5SetWebhook => LSPSMessage::LSPS5(LSPS5Message::Response(id, LSPS5Response::SetWebhookError(error))),
        LSPSMethod::LSPS5RemoveWebhook => LSPSMessage::LSPS5(LSPS5Message::Response(id, LSPS5Response::RemoveWebhookError(error))),
        _ => vstd::pervasive::unreached(),
    }
}

fn response_from(
    id: RequestId,
    method: LSPSMethod,
    result: Option<String>,
    error: Option<ResponseError>,
) -> (res: Result<LSPSMessage, JsonRpcError>)
    ensures
        outcome_view(res) == response_view(
            id@,
            method,
            text_view(result),
            match error {
                Some(e) => Some(e@),
                None => None,
            },
        ),
{
    if method.is_notification_method() {
        return Err(JsonRpcError::MethodNotRecognized);
    }
    if method != LSPSMethod::LSPS5ListWebhooks {
        if let Some(error) = error {
            return Ok(response_with_error(id, method, error));
        }
    }
    match result {
        Some(result) => match JsonPayload::from_json(result) {
            Some(payload) => Ok(response_with_result(id, method, payload)),
            None => Err(JsonRpcError::InvalidResult(method)),
        },
        None => Err(JsonRpcError::MissingResultOrError),
    }
}

fn notification_from(method: LSPSMethod, params: Option<String>) -> (res: Result<LSPSMessage, JsonRpcError>)
    ensures
        outcome_view(res) == notification_view(method, text_view(params)),
{
    if !method.is_notification_method() {
        return Err(JsonRpcError::UnknownNotification(method));
    }
    let payload = match params_payload(params) {
        Some(p) => p,
        None => return Err(JsonRpcError::InvalidParams(method)),
    };
    let n = match method {
        LSPSMethod::LSPS5WebhookRegistered => LSPS5Notification::WebhookRegistered(payload),
        LSPSMethod::LSPS5PaymentIncoming => LSPS5Notification::PaymentIncoming(payload),
        LSPSMethod::LSPS5ExpirySoon => LSPS5Notification::ExpirySoon(payload),
        LSPSMethod::LSPS5LiquidityManagementRequest => LSPS5Notification::LiquidityManagementRequest(payload),
        LSPSMethod::LSPS5FeesChangeIncoming => LSPS5Notification::FeesChangeIncoming(payload),
        LSPSMethod::LSPS5OnionMessageIncoming => LSPS5Notification::OnionMessageIncoming(payload),
        _ => vstd::pervasive::unreached(),
    };
    Ok(LSPSMessage::LSPS5(LSPS5Message::Notification(n)))
}

impl LSPSMessage {
    /// The message that the noted members of a JSON-RPC object stand for.
    ///
    /// `request_id_to_method_map` associates the ids of outstanding requests with
    /// their methods, as response objects don't carry the latter; an object that
    /// answers an id takes the id out of it.
    pub fn from_jsonrpc_fields(
        fields: JsonRpcFields,
        request_id_to_method_map: &mut RequestIdMap,
    ) -> (res: Result<LSPSMessage, JsonRpcError>)
        ensures
            outcome_view(res) == decode_view(fields@, old(request_id_to_method_map)@),
            final(request_id_to_method_map)@ == decode_outstanding(fields@, old(request_id_to_method_map)@),
    {
        let JsonRpcFields { id, method, params, result, error } = fields;
        match id {
            Some(id) => match method {
                Some(method) => request_from(id, method, params),
                None => match request_id_to_method_map.remove(&id) {
                    Some(method) => response_from(id, method, result, error),
                    None => Err(JsonRpcError::UnknownRequestId(id)),
                },
            },
            None => match method {
                Some(method) => notification_from(method, params),
                None => {
                    if let Some(error) = error {
                        if error.code == JSONRPC_INVALID_MESSAGE_ERROR_CODE {
                            return Ok(LSPSMessage::Invalid(error));
                        }
                    }
                    Err(JsonRpcError::UnknownErrorMessage)
                },
            },
        }
    }

    /// The message that the members of a JSON-RPC object, read in order, stand for.
    pub fn from_jsonrpc(
        fields: Vec<JsonRpcField>,
        request_id_to_method_map: &mut RequestIdMap,
    ) -> (res: Result<LSPSMessage, JsonRpcError>)
        ensures
            outcome_view(res) == decode_view(collect(field_views(fields@)), old(request_id_to_method_map)@),
            final(request_id_to_method_map)@ == decode_outstanding(
                collect(field_views(fields@)),
                old(request_id_to_method_map)@,
            ),
    {
        let noted = JsonRpcFields::from_fields(fields);
        LSPSMessage::from_jsonrpc_fields(noted, request_id_to_method_map)
    }
}

/// Reading back the members that a message is written as gives back the
/// message. A response is read back while its request is outstanding, with
/// the method of the response, and is then no longer outstanding; a message
/// of the `Invalid` variant is read back only with the error code of an
/// invalid message. Every message carries parameters and results that are
/// JSON objects or arrays (`jsonrpc_fields` ensures `payloads_structured`).
pub proof fn lemma_jsonrpc_roundtrip(m: LSPSMessage, outstanding: Map<Seq<char>, LSPSMethod>)
    requires
        m@ matches MessageView::Response { id, method, .. } ==> outstanding.contains_key(id)
            && outstanding[id] == method,
        m@ matches MessageView::Invalid { error } ==> error.code == JSONRPC_INVALID_MESSAGE_ERROR_CODE,
        payloads_structured(m@),
    ensures
        decode_view(collect(encode_view(m@)), outstanding) == Ok::<MessageView, JsonRpcErrorView>(m@),
        decode_outstanding(collect(encode_view(m@)), outstanding) == match m@ {
            MessageView::Response { id, .. } => outstanding.remove(id),
            _ => outstanding,
        },
{
    reveal_with_fuel(collect, 5);
}

/// The request id and method of a request are the `id` and `method` members
/// that the request is written with; no other message is written with both.
pub proof fn lemma_request_id_and_method_written(m: LSPSMessage)
    ensures
        m@ matches MessageView::Request { id, method, .. } ==> collect(encode_view(m@)).id == Some(id)
            && collect(encode_view(m@)).method == Some(method),
        !(m@ is Request) ==> collect(encode_view(m@)).id is None || collect(encode_view(m@)).method is None,
{
    reveal_with_fuel(collect, 5);
}

/// The `jsonrpc` member is read and dropped: it changes nothing that is noted.
pub proof fn lemma_jsonrpc_member_ignored(s: FieldsView)
    ensures
        s.with(FieldView::JsonRpc) == s,
{
}

/// Members under different keys may be read in either order: what is noted
/// does not depend on the order; of two members under the same key, the later
/// one counts.
pub proof fn lemma_members_commute(s: FieldsView, f: FieldView, g: FieldView)
    ensures
        f.key_name() != g.key_name() ==> s.with(f).with(g) == s.with(g).with(f),
        f.key_name() == g.key_name() && !(g is JsonRpc) ==> s.with(f).with(g) == s.with(g),
{
    reveal_strlit("jsonrpc");
    reveal_strlit("id");
    reveal_strlit("method");
    reveal_strlit("params");
    reveal_strlit("result");
    reveal_strlit("error");
    assert("jsonrpc"@.len() == 7 && "jsonrpc"@[0] == 'j');
    assert("id"@.len() == 2 && "id"@[0] == 'i');
    assert("method"@.len() == 6 && "method"@[0] == 'm');
    assert("params"@.len() == 6 && "params"@[0] == 'p');
    assert("result"@.len() == 6 && "result"@[0] == 'r');
    assert("error"@.len() == 5 && "error"@[0] == 'e');
}

/// What a reader notes of the members that a message is written as: a request
/// gives its id, method and parameters; a response its id and its result or
/// error, and no method or parameters; a notification its method and
/// parameters and no id; an invalid message a `null` id and its error. The
/// first member written is always `jsonrpc`.
pub proof fn lemma_members_written(m: LSPSMessage)
    ensures
        encode_view(m@).len() > 0,
        encode_view(m@)[0] == FieldView::JsonRpc,
        match m@ {
            MessageView::Request { id, method, params } => collect(encode_view(m@)) == FieldsView {
                id: Some(id),
                method: Some(method),
                params: Some(params),
                result: None,
                error: None,
            },
            MessageView::Response { id, body, .. } => match body {
                ResponseBody::Result(r) => collect(encode_view(m@)) == FieldsView {
                    id: Some(id),
                    method: None,
                    params: None,
                    result: Some(r),
                    error: None,
                },
                ResponseBody::Error(e) => collect(encode_view(m@)) == FieldsView {
                    id: Some(id),
                    method: None,
                    params: None,
                    result: None,
                    error: Some(e),
                },
            },
            MessageView::Notification { method, params } => collect(encode_view(m@)) == FieldsView {
                id: None,
                method: Some(method),
                params: Some(params),
                result: None,
                error: None,
            },
            MessageView::Invalid { error } => collect(encode_view(m@)) == FieldsView {
                id: None,
                method: None,
                params: None,
                result: None,
                error: Some(error),
            },
        },
{
    reveal_with_fuel(collect, 5);
}

/// Reading keeps what the members say: a request has the id and method of its
/// members and the parameters of its `params` member (an empty object where
/// there is none, and for `lsps0.list_protocols`); a response has the id of
/// its member and the method of the outstanding request with that id, and the
/// error or result of its members; a notification has the method of its
/// member and its parameters; an invalid message the error of its member.
pub proof fn lemma_decode_keeps_members(f: FieldsView, outstanding: Map<Seq<char>, LSPSMethod>)
    ensures
        f.id is Some && f.method is Some && decode_view(f, outstanding) is Ok ==> (decode_view(f, outstanding)->Ok_0 matches MessageView::Request { id, method, params } && id == f.id.unwrap()
            && method == f.method.unwrap() && (f.params is Some && method
            != LSPSMethod::LSPS0ListProtocols ==> params == f.params.unwrap()) && (f.params is None
            || method == LSPSMethod::LSPS0ListProtocols ==> params == empty_params())),
        f.id is Some && f.method is None && decode_view(f, outstanding) is Ok ==> (outstanding.contains_key(
            f.id.unwrap(),
        ) && (decode_view(f, outstanding)->Ok_0 matches MessageView::Response { id, method, body }
            && id == f.id.unwrap() && method == outstanding[f.id.unwrap()] && match body {
            ResponseBody::Result(r) => f.result == Some(r),
            ResponseBody::Error(e) => f.error == Some(e),
        })),
        f.id is None && f.method is Some && decode_view(f, outstanding) is Ok ==> (decode_view(f, outstanding)->Ok_0 matches MessageView::Notification { method, params } && method == f.method.unwrap()
            && params == params_or_empty(f.params)),
        f.id is None && f.method is None && decode_view(f, outstanding) is Ok ==> (f.error is Some
            && decode_view(f, outstanding)->Ok_0 == MessageView::Invalid { error: f.error.unwrap() }
            && f.error.unwrap().code == JSONRPC_INVALID_MESSAGE_ERROR_CODE),
{
}

/// Members that a reader does not use for an object change nothing: an object
/// with a method (a request or a notification) is read without its `result`
/// and `error` members, and an object with an id and no method (a response)
/// without its `params` member.
pub proof fn lemma_decode_ignores_unused_members(
    f: FieldsView,
    outstanding: Map<Seq<char>, LSPSMethod>,
    params: Option<Seq<char>>,
    result: Option<Seq<char>>,
    error: Option<ResponseErrorView>,
)
    ensures
        f.method is Some ==> decode_view(f, outstanding) == decode_view(
            FieldsView { result: result, error: error, ..f },
            outstanding,
        ),
        f.id is Some && f.method is None ==> decode_view(f, outstanding) == decode_view(
            FieldsView { params: params, ..f },
            outstanding,
        ),
        decode_outstanding(f, outstanding) == decode_outstanding(
            FieldsView { params: params, result: result, error: error, ..f },
            outstanding,
        ),
{
}

/// The method that each kind of message stands for: every request, response
/// and notification variant carries the method of the same name, whatever its
/// payload.
pub proof fn lemma_variant_methods(id: RequestId, p: JsonPayload, e: ResponseError)
    ensures
        LSPSMessage::LSPS0(LSPS0Message::Request(id, LSPS0Request::ListProtocols(ListProtocolsRequest {})))@
            == (MessageView::Request { id: id@, method: LSPSMethod::LSPS0ListProtocols, params: empty_params() }),
        LSPSMessage::LSPS1(LSPS1Message::Request(id, LSPS1Request::GetInfo(p)))@
            == (MessageView::Request { id: id@, method: LSPSMethod::LSPS1GetInfo, params: p@ }),
        LSPSMessage::LSPS1(LSPS1Message::Request(id, LSPS1Request::CreateOrder(p)))@
            == (MessageView::Request { id: id@, method: LSPSMethod::LSPS1CreateOrder, params: p@ }),
        LSPSMessage::LSPS1(LSPS1Message::Request(id, LSPS1Request::GetOrder(p)))@
            == (MessageView::Request { id: id@, method: LSPSMethod::LSPS1GetOrder, params: p@ }),
        LSPSMessage::LSPS2(LSPS2Message::Request(id, LSPS2Request::GetInfo(p)))@
            == (MessageView::Request { id: id@, method: LSPSMethod::LSPS2GetInfo, params: p@ }),
        LSPSMessage::LSPS2(LSPS2Message::Request(id, LSPS2Request::Buy(p)))@
            == (MessageView::Request { id: id@, method: LSPSMethod::LSPS2Buy, params: p@ }),
        LSPSMessage::LSPS5(LSPS5Message::Request(id, LSPS5Request::SetWebhook(p)))@
            == (MessageView::Request { id: id@, method: LSPSMethod::LSPS5SetWebhook, params: p@ }),
        LSPSMessage::LSPS5(LSPS5Message::Request(id, LSPS5Request::ListWebhooks(p)))@
            == (MessageView::Request { id: id@, method: LSPSMethod::LSPS5ListWebhooks, params: p@ }),
        LSPSMessage::LSPS5(LSPS5Message::Request(id, LSPS5Request::RemoveWebhook(p)))@
            == (MessageView::Request { id: id@, method: LSPSMethod::LSPS5RemoveWebhook, params: p@ }),
        LSPSMessage::LSPS0(LSPS0Message::Response(id, LSPS0Response::ListProtocols(p)))@
            == (MessageView::Response { id: id@, method: LSPSMethod::LSPS0ListProtocols, body: ResponseBody::Result(p@) }),
        LSPSMessage::LSPS0(LSPS0Message::Response(id, LSPS0Response::ListProtocolsError(e)))@
            == (MessageView::Response { id: id@, method: LSPSMethod::LSPS0ListProtocols, body: ResponseBody::Error(e@) }),
        LSPSMessage::LSPS1(LSPS1Message::Response(id, LSPS1Response::GetInfo(p)))@
            == (MessageView::Response { id: id@, method: LSPSMethod::LSPS1GetInfo, body: ResponseBody::Result(p@) }),
        LSPSMessage::LSPS1(LSPS1Message::Response(id, LSPS1Response::GetInfoError(e)))@
            == (MessageView::Response { id: id@, method: LSPSMethod::LSPS1GetInfo, body: ResponseBody::Error(e@) }),
        LSPSMessage::LSPS1(LSPS1Message::Response(id, LSPS1Response::CreateOrder(p)))@
            == (MessageView::Response { id: id@, method: LSPSMethod::LSPS1CreateOrder, body: ResponseBody::Result(p@) }),
        LSPSMessage::LSPS1(LSPS1Message::Response(id, LSPS1Response::CreateOrderError(e)))@
            == (MessageView::Response { id: id@, method: LSPSMethod::LSPS1CreateOrder, body: ResponseBody::Error(e@) }),
        LSPSMessage::LSPS1(LSPS1Message::Response(id, LSPS1Response::GetOrder(p)))@
            == (MessageView::Response { id: id@, method: LSPSMethod::LSPS1GetOrder, body: ResponseBody::Result(p@) }),
        LSPSMessage::LSPS1(LSPS1Message::Response(id, LSPS1Response::GetOrderError(e)))@
            == (MessageView::Response { id: id@, method: LSPSMethod::LSPS1GetOrder, body: ResponseBody::Error(e@) }),
        LSPSMessage::LSPS2(LSPS2Message::Response(id, LSPS2Response::GetInfo(p)))@
            == (MessageView::Response { id: id@, method: LSPSMethod::LSPS2GetInfo, body: ResponseBody::Result(p@) }),
        LSPSMessage::LSPS2(LSPS2Message::Response(id, LSPS2Response::GetInfoError(e)))@
            == (MessageView::Response { id: id@, method: LSPSMethod::LSPS2GetInfo, body: ResponseBody::Error(e@) }),
        LSPSMessage::LSPS2(LSPS2Message::Response(id, LSPS2Response::Buy(p)))@
            == (MessageView::Response { id: id@, method: LSPSMethod::LSPS2Buy, body: ResponseBody::Result(p@) }),
        LSPSMessage::LSPS2(LSPS2Message::Response(id, LSPS2Response::BuyError(e)))@
            == (MessageView::Response { id: id@, method: LSPSMethod::LSPS2Buy, body: ResponseBody::Error(e@) }),
        LSPSMessage::LSPS5(LSPS5Message::Response(id, LSPS5Response::SetWebhook(p)))@
            == (MessageView::Response { id: id@, method: LSPSMethod::LSPS5SetWebhook, body: ResponseBody::Result(p@) }),
        LSPSMessage::LSPS5(LSPS5Message::Response(id, LSPS5Response::SetWebhookError(e)))@
            == (MessageView::Response { id: id@, method: LSPSMethod::LSPS5SetWebhook, body: ResponseBody::Error(e@) }),
        LSPSMessage::LSPS5(LSPS5Message::Response(id, LSPS5Response::ListWebhooks(p)))@
            == (MessageView::Response { id: id@, method: LSPSMethod::LSPS5ListWebhooks, body: ResponseBody::Result(p@) }),
        LSPSMessage::LSPS5(LSPS5Message::Response(id, LSPS5Response::RemoveWebhook(p)))@
            == (MessageView::Response { id: id@, method: LSPSMethod::LSPS5RemoveWebhook, body: ResponseBody::Result(p@) }),
        LSPSMessage::LSPS5(LSPS5Message::Response(id, LSPS5Response::RemoveWebhookError(e)))@
            == (MessageView::Response { id: id@, method: LSPSMethod::LSPS5RemoveWebhook, body: ResponseBody::Error(e@) }),
        LSPSMessage::LSPS5(LSPS5Message::Notification(LSPS5Notification::WebhookRegistered(p)))@
            == (MessageView::Notification { method: LSPSMethod::LSPS5WebhookRegistered, params: p@ }),
        LSPSMessage::LSPS5(LSPS5Message::Notification(LSPS5Notification::PaymentIncoming(p)))@
            == (MessageView::Notification { method: LSPSMethod::LSPS5PaymentIncoming, params: p@ }),
        LSPSMessage::LSPS5(LSPS5Message::Notification(LSPS5Notification::ExpirySoon(p)))@
            == (MessageView::Notification { method: LSPSMethod::LSPS5ExpirySoon, params: p@ }),
        LSPSMessage::LSPS5(LSPS5Message::Notification(LSPS5Notification::LiquidityManagementRequest(p)))@
            == (MessageView::Notification { method: LSPSMethod::LSPS5LiquidityManagementRequest, params: p@ }),
        LSPSMessage::LSPS5(LSPS5Message::Notification(LSPS5Notification::FeesChangeIncoming(p)))@
            == (MessageView::Notification { method: LSPSMethod::LSPS5FeesChangeIncoming, params: p@ }),
        LSPSMessage::LSPS5(LSPS5Message::Notification(LSPS5Notification::OnionMessageIncoming(p)))@
            == (MessageView::Notification { method: LSPSMethod::LSPS5OnionMessageIncoming, params: p@ }),
{
}

} // verus!
