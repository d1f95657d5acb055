//! The LSPS messages that travel as JSON-RPC 2.0 objects, and their abstract view.
//!
//! The parameters and results of requests are carried as their JSON text
//! (`JsonPayload`), which is always a JSON object or array; their fields are
//! not looked into.

use vstd::prelude::*;

use crate::method::LSPSMethod;

verus! {

/// A JSON-RPC request's `id`.
#[derive(Clone, Debug, PartialEq, Eq, Hash)]
pub struct RequestId(pub String);

impl View for RequestId {
    type V = Seq<char>;

    open spec fn view(&self) -> Seq<char> {
        self.0@
    }
}

impl RequestId {
    /// A copy of the id with the same text.
    pub fn duplicate(&self) -> (copy: RequestId)
        ensures
            copy@ == self@,
    {
        RequestId(self.0.clone())
    }
}

/// The abstract value of a `ResponseError`.
pub struct ResponseErrorView {
    pub code: i32,
    pub message: Seq<char>,
    pub data: Option<Seq<char>>,
}

/// An error returned in response to a JSON-RPC request.
#[derive(Clone, Debug, PartialEq, Eq)]
pub struct ResponseError {
    /// A number that indicates the error type that occurred.
    pub code: i32,
    /// A string providing a short description of the error.
    pub message: String,
    /// A primitive or structured value that contains additional information about the error.
    pub data: Option<String>,
}

impl View for ResponseError {
    type V = ResponseErrorView;

    open spec fn view(&self) -> ResponseErrorView {
        ResponseErrorView {
            code: self.code,
            message: self.message@,
            data: match self.data {
                Some(d) => Some(d@),
                None => None,
            },
        }
    }
}

impl ResponseError {
    /// A copy of the error object with the same code, message and data.
    pub fn duplicate(&self) -> (copy: ResponseError)
        ensures
            copy@ == self@,
    {
        let data = match &self.data {
            Some(d) => Some(d.clone()),
            None => None,
        };
        ResponseError { code: self.code, message: self.message.clone(), data }
    }
}

/// Whether serde_json reads `text` as a JSON object or a JSON array. The
/// parameters and results of every LSPS method are structs that serde derives
/// a `Deserialize` for, and such a struct is read only from an object or an
/// array.
pub uninterp spec fn json_object_or_array(text: Seq<char>) -> bool;

/// Calls `serde_json::from_str::<serde_json::Value>` and tells the object and
/// array variants from the others. The contract claims that the result is
/// `json_object_or_array` of the text.
#[verifier::external_body]
fn is_json_object_or_array(text: &str) -> (res: bool)
    ensures
        res == json_object_or_array(text@),
{
    match serde_json::from_str::<serde_json::Value>(text) {
        Ok(serde_json::Value::Object(_)) => true,
        Ok(serde_json::Value::Array(_)) => true,
        Ok(_) => false,
        Err(_) => false,
    }
}

/// The parameters of a request or notification, or the result of a response:
/// JSON text of an object or an array.
#[derive(Debug)]
pub struct JsonPayload {
    text: String,
}

impl View for JsonPayload {
    type V = Seq<char>;

    closed spec fn view(&self) -> Seq<char> {
        self.text@
    }
}

/// The JSON text that stands for absent parameters: an empty object.
pub open spec fn empty_params() -> Seq<char> {
    "{}"@
}

impl JsonPayload {
    /// The invariant of a payload: its text is a JSON object or array.
    #[verifier::type_invariant]
    closed spec fn is_structured(&self) -> bool {
        json_object_or_array(self.text@)
    }

    /// The payload of `text`, where `text` is a JSON object or array.
    pub fn from_json(text: String) -> (payload: Option<JsonPayload>)
        ensures
            payload is Some <==> json_object_or_array(text@),
            payload matches Some(p) ==> p@ == text@,
    {
        if is_json_object_or_array(text.as_str()) {
            Some(JsonPayload { text })
        } else {
            None
        }
    }

    /// The JSON text of the payload.
    pub fn text(&self) -> (text: &String)
        ensures
            text@ == self@,
            json_object_or_array(self@),
    {
        proof {
            use_type_invariant(self);
        }
        &self.text
    }

    /// A copy of the payload with the same text.
    pub fn duplicate(&self) -> (copy: JsonPayload)
        ensures
            copy@ == self@,
    {
        proof {
            use_type_invariant(self);
        }
        JsonPayload { text: self.text.clone() }
    }
}

impl Clone for JsonPayload {
    fn clone(&self) -> (copy: JsonPayload)
        ensures
            copy@ == self@,
    {
        self.duplicate()
    }
}

impl PartialEq for JsonPayload {
    fn eq(&self, other: &JsonPayload) -> (same: bool) {
        self.text == other.text
    }
}

impl vstd::std_specs::cmp::PartialEqSpecImpl for JsonPayload {
    open spec fn obeys_eq_spec() -> bool {
        true
    }

    open spec fn eq_spec(&self, other: &JsonPayload) -> bool {
        self@ == other@
    }
}

impl Eq for JsonPayload {
}

/// The parameters of an `lsps0.list_protocols` request: there are none.
#[derive(Clone, Debug, PartialEq, Eq)]
pub struct ListProtocolsRequest {}

/// The body of a response: a result or an error object.
pub enum ResponseBody {
    Result(Seq<char>),
    Error(ResponseErrorView),
}

/// What a message says, whichever protocol it belongs to.
pub enum MessageView {
    /// A request with an id, its method and its parameters.
    Request { id: Seq<char>, method: LSPSMethod, params: Seq<char> },
    /// A response to the request with that id, which was of that method.
    Response { id: Seq<char>, method: LSPSMethod, body: ResponseBody },
    /// A notification: a method and its parameters, no id.
    Notification { method: LSPSMethod, params: Seq<char> },
    /// The answer to a message that could not be parsed.
    Invalid { error: ResponseErrorView },
}

/// An LSPS0 request.
#[derive(Clone, Debug, PartialEq, Eq)]
pub enum LSPS0Request {
    ListProtocols(ListProtocolsRequest),
}

/// An LSPS0 response.
#[derive(Clone, Debug, PartialEq, Eq)]
pub enum LSPS0Response {
    ListProtocols(JsonPayload),
    ListProtocolsError(ResponseError),
}

/// An LSPS0 message.
#[derive(Clone, Debug, PartialEq, Eq)]
pub enum LSPS0Message {
    Request(RequestId, LSPS0Request),
    Response(RequestId, LSPS0Response),
}

/// An LSPS1 request.
#[derive(Clone, Debug, PartialEq, Eq)]
pub enum LSPS1Request {
    GetInfo(JsonPayload),
    CreateOrder(JsonPayload),
    GetOrder(JsonPayload),
}

/// An LSPS1 response.
#[derive(Clone, Debug, PartialEq, Eq)]
pub enum LSPS1Response {
    GetInfo(JsonPayload),
    GetInfoError(ResponseError),
    CreateOrder(JsonPayload),
    CreateOrderError(ResponseError),
    GetOrder(JsonPayload),
    GetOrderError(ResponseError),
}

/// An LSPS1 message.
#[derive(Clone, Debug, PartialEq, Eq)]
pub enum LSPS1Message {
    Request(RequestId, LSPS1Request),
    Response(RequestId, LSPS1Response),
}

/// An LSPS2 request.
#[derive(Clone, Debug, PartialEq, Eq)]
pub enum LSPS2Request {
    GetInfo(JsonPayload),
    Buy(JsonPayload),
}

/// An LSPS2 response.
#[derive(Clone, Debug, PartialEq, Eq)]
pub enum LSPS2Response {
    GetInfo(JsonPayload),
    GetInfoError(ResponseError),
    Buy(JsonPayload),
    BuyError(ResponseError),
}

/// An LSPS2 message.
#[derive(Clone, Debug, PartialEq, Eq)]
pub enum LSPS2Message {
    Request(RequestId, LSPS2Request),
    Response(RequestId, LSPS2Response),
}

/// An LSPS5 request.
#[derive(Clone, Debug, PartialEq, Eq)]
pub enum LSPS5Request {
    SetWebhook(JsonPayload),
    ListWebhooks(JsonPayload),
    RemoveWebhook(JsonPayload),
}

/// An LSPS5 response.
#[derive(Clone, Debug, PartialEq, Eq)]
pub enum LSPS5Response {
    SetWebhook(JsonPayload),
    SetWebhookError(ResponseError),
    ListWebhooks(JsonPayload),
    RemoveWebhook(JsonPayload),
    RemoveWebhookError(ResponseError),
}

/// An LSPS5 notification.
#[derive(Clone, Debug, PartialEq, Eq)]
pub enum LSPS5Notification {
    WebhookRegistered(JsonPayload),
    PaymentIncoming(JsonPayload),
    ExpirySoon(JsonPayload),
    LiquidityManagementRequest(JsonPayload),
    FeesChangeIncoming(JsonPayload),
    OnionMessageIncoming(JsonPayload),
}

/// An LSPS5 message.
#[derive(Clone, Debug, PartialEq, Eq)]
pub enum LSPS5Message {
    Request(RequestId, LSPS5Request),
    Response(RequestId, LSPS5Response),
    Notification(LSPS5Notification),
}

/// A (de-)serializable LSPS message allowing to be sent over the wire.
#[derive(Clone, Debug, PartialEq, Eq)]
pub enum LSPSMessage {
    /// An invalid variant.
    Invalid(ResponseError),
    /// An LSPS0 message.
    LSPS0(LSPS0Message),
    /// An LSPS1 message.
    LSPS1(LSPS1Message),
    /// An LSPS2 message.
    LSPS2(LSPS2Message),
    /// An LSPS5 message.
    LSPS5(LSPS5Message),
}

impl LSPS0Request {
    /// The method of the request.
    pub open spec fn method(&self) -> LSPSMethod {
        match self {
            LSPS0Request::ListProtocols(_) => LSPSMethod::LSPS0ListProtocols,
        }
    }

    /// The JSON text of the request's parameters.
    pub open spec fn params(&self) -> Seq<char> {
        empty_params()
    }
}

impl LSPS1Request {
    /// The method of the request.
    pub open spec fn method(&self) -> LSPSMethod {
        match self {
            LSPS1Request::GetInfo(_) => LSPSMethod::LSPS1GetInfo,
            LSPS1Request::CreateOrder(_) => LSPSMethod::LSPS1CreateOrder,
            LSPS1Request::GetOrder(_) => LSPSMethod::LSPS1GetOrder,
        }
    }

    /// The JSON text of the request's parameters.
    pub open spec fn params(&self) -> Seq<char> {
        match self {
            LSPS1Request::GetInfo(p) => p@,
            LSPS1Request::CreateOrder(p) => p@,
            LSPS1Request::GetOrder(p) => p@,
        }
    }
}

impl LSPS2Request {
    /// The method of the request.
    pub open spec fn method(&self) -> LSPSMethod {
        match self {
            LSPS2Request::GetInfo(_) => LSPSMethod::LSPS2GetInfo,
            LSPS2Request::Buy(_) => LSPSMethod::LSPS2Buy,
        }
    }

    /// The JSON text of the request's parameters.
    pub open spec fn params(&self) -> Seq<char> {
        match self {
            LSPS2Request::GetInfo(p) => p@,
            LSPS2Request::Buy(p) => p@,
        }
    }
}

impl LSPS5Request {
    /// The method of the request.
    pub open spec fn method(&self) -> LSPSMethod {
        match self {
            LSPS5Request::SetWebhook(_) => LSPSMethod::LSPS5SetWebhook,
            LSPS5Request::ListWebhooks(_) => LSPSMethod::LSPS5ListWebhooks,
            LSPS5Request::RemoveWebhook(_) => LSPSMethod::LSPS5RemoveWebhook,
        }
    }

    /// The JSON text of the request's parameters.
    pub open spec fn params(&self) -> Seq<char> {
        match self {
            LSPS5Request::SetWebhook(p) => p@,
            LSPS5Request::ListWebhooks(p) => p@,
            LSPS5Request::RemoveWebhook(p) => p@,
        }
    }
}

impl LSPS5Notification {
    /// The method of the notification.
    pub open spec fn method(&self) -> LSPSMethod {
        match self {
            LSPS5Notification::WebhookRegistered(_) => LSPSMethod::LSPS5WebhookRegistered,
            LSPS5Notification::PaymentIncoming(_) => LSPSMethod::LSPS5PaymentIncoming,
            LSPS5Notification::ExpirySoon(_) => LSPSMethod::LSPS5ExpirySoon,
            LSPS5Notification::LiquidityManagementRequest(_) => LSPSMethod::LSPS5LiquidityManagementRequest,
            LSPS5Notification::FeesChangeIncoming(_) => LSPSMethod::LSPS5FeesChangeIncoming,
            LSPS5Notification::OnionMessageIncoming(_) => LSPSMethod::LSPS5OnionMessageIncoming,
        }
    }

    /// The JSON text of the notification's parameters.
    pub open spec fn params(&self) -> Seq<char> {
        match self {
            LSPS5Notification::WebhookRegistered(p) => p@,
            LSPS5Notification::PaymentIncoming(p) => p@,
            LSPS5Notification::ExpirySoon(p) => p@,
            LSPS5Notification::LiquidityManagementRequest(p) => p@,
            LSPS5Notification::FeesChangeIncoming(p) => p@,
            LSPS5Notification::OnionMessageIncoming(p) => p@,
        }
    }
}

impl LSPS0Response {
    /// The method of the request that this responds to.
    pub open spec fn method(&self) -> LSPSMethod {
        LSPSMethod::LSPS0ListProtocols
    }

    /// The result or error that the response carries.
    pub open spec fn body(&self) -> ResponseBody {
        match self {
            LSPS0Response::ListProtocols(r) => ResponseBody::Result(r@),
            LSPS0Response::ListProtocolsError(e) => ResponseBody::Error(e@),
        }
    }
}

impl LSPS1Response {
    /// The method of the request that this responds to.
    pub open spec fn method(&self) -> LSPSMethod {
        match self {
            LSPS1Response::GetInfo(_) | LSPS1Response::GetInfoError(_) => LSPSMethod::LSPS1GetInfo,
            LSPS1Response::CreateOrder(_) | LSPS1Response::CreateOrderError(_) => LSPSMethod::LSPS1CreateOrder,
            LSPS1Response::GetOrder(_) | LSPS1Response::GetOrderError(_) => LSPSMethod::LSPS1GetOrder,
        }
    }

    /// The result or error that the response carries.
    pub open spec fn body(&self) -> ResponseBody {
        match self {
            LSPS1Response::GetInfo(r) => ResponseBody::Result(r@),
            LSPS1Response::GetInfoError(e) => ResponseBody::Error(e@),
            LSPS1Response::CreateOrder(r) => ResponseBody::Result(r@),
            LSPS1Response::CreateOrderError(e) => ResponseBody::Error(e@),
            LSPS1Response::GetOrder(r) => ResponseBody::Result(r@),
            LSPS1Response::GetOrderError(e) => ResponseBody::Error(e@),
        }
    }
}

impl LSPS2Response {
    /// The method of the request that this responds to.
    pub open spec fn method(&self) -> LSPSMethod {
        match self {
            LSPS2Response::GetInfo(_) | LSPS2Response::GetInfoError(_) => LSPSMethod::LSPS2GetInfo,
            LSPS2Response::Buy(_) | LSPS2Response::BuyError(_) => LSPSMethod::LSPS2Buy,
        }
    }

    /// The result or error that the response carries.
    pub open spec fn body(&self) -> ResponseBody {
        match self {
            LSPS2Response::GetInfo(r) => ResponseBody::Result(r@),
            LSPS2Response::GetInfoError(e) => ResponseBody::Error(e@),
            LSPS2Response::Buy(r) => ResponseBody::Result(r@),
            LSPS2Response::BuyError(e) => ResponseBody::Error(e@),
        }
    }
}

impl LSPS5Response {
    /// The method of the request that this responds to.
    pub open spec fn method(&self) -> LSPSMethod {
        match self {
            LSPS5Response::SetWebhook(_) | LSPS5Response::SetWebhookError(_) => LSPSMethod::LSPS5SetWebhook,
            LSPS5Response::ListWebhooks(_) => LSPSMethod::LSPS5ListWebhooks,
            LSPS5Response::RemoveWebhook(_) | LSPS5Response::RemoveWebhookError(_) => LSPSMethod::LSPS5RemoveWebhook,
        }
    }

    /// The result or error that the response carries.
    pub open spec fn body(&self) -> ResponseBody {
        match self {
            LSPS5Response::SetWebhook(r) => ResponseBody::Result(r@),
            LSPS5Response::SetWebhookError(e) => ResponseBody::Error(e@),
            LSPS5Response::ListWebhooks(r) => ResponseBody::Result(r@),
            LSPS5Response::RemoveWebhook(r) => ResponseBody::Result(r@),
            LSPS5Response::RemoveWebhookError(e) => ResponseBody::Error(e@),
        }
    }
}

impl View for LSPSMessage {
    type V = MessageView;

    open spec fn view(&self) -> MessageView {
        match self {
            LSPSMessage::Invalid(e) => MessageView::Invalid { error: e@ },
            LSPSMessage::LSPS0(LSPS0Message::Request(id, r)) =>
                MessageView::Request { id: id@, method: r.method(), params: r.params() },
            LSPSMessage::LSPS0(LSPS0Message::Response(id, r)) =>
                MessageView::Response { id: id@, method: r.method(), body: r.body() },
            LSPSMessage::LSPS1(LSPS1Message::Request(id, r)) =>
                MessageView::Request { id: id@, method: r.method(), params: r.params() },
            LSPSMessage::LSPS1(LSPS1Message::Response(id, r)) =>
                MessageView::Response { id: id@, method: r.method(), body: r.body() },
            LSPSMessage::LSPS2(LSPS2Message::Request(id, r)) =>
                MessageView::Request { id: id@, method: r.method(), params: r.params() },
            LSPSMessage::LSPS2(LSPS2Message::Response(id, r)) =>
                MessageView::Response { id: id@, method: r.method(), body: r.body() },
            LSPSMessage::LSPS5(LSPS5Message::Request(id, r)) =>
                MessageView::Request { id: id@, method: r.method(), params: r.params() },
            LSPSMessage::LSPS5(LSPS5Message::Response(id, r)) =>
                MessageView::Response { id: id@, method: r.method(), body: r.body() },
            LSPSMessage::LSPS5(LSPS5Message::Notification(n)) =>
                MessageView::Notification { method: n.method(), params: n.params() },
        }
    }
}

impl<'a> From<&'a LSPS0Request> for LSPSMethod {
    fn from(value: &'a LSPS0Request) -> (method: LSPSMethod) {
        match value {
            LSPS0Request::ListProtocols(_) => LSPSMethod::LSPS0ListProtocols,
        }
    }
}

impl<'a> vstd::std_specs::convert::FromSpecImpl<&'a LSPS0Request> for LSPSMethod {
    open spec fn obeys_from_spec() -> bool {
        true
    }

    open spec fn from_spec(v: &'a LSPS0Request) -> LSPSMethod {
        v.method()
    }
}

impl<'a> From<&'a LSPS1Request> for LSPSMethod {
    fn from(value: &'a LSPS1Request) -> (method: LSPSMethod) {
        match value {
            LSPS1Request::GetInfo(_) => LSPSMethod::LSPS1GetInfo,
            LSPS1Request::CreateOrder(_) => LSPSMethod::LSPS1CreateOrder,
            LSPS1Request::GetOrder(_) => LSPSMethod::LSPS1GetOrder,
        }
    }
}

impl<'a> vstd::std_specs::convert::FromSpecImpl<&'a LSPS1Request> for LSPSMethod {
    open spec fn obeys_from_spec() -> bool {
        true
    }

    open spec fn from_spec(v: &'a LSPS1Request) -> LSPSMethod {
        v.method()
    }
}

impl<'a> From<&'a LSPS2Request> for LSPSMethod {
    fn from(value: &'a LSPS2Request) -> (method: LSPSMethod) {
        match value {
            LSPS2Request::GetInfo(_) => LSPSMethod::LSPS2GetInfo,
            LSPS2Request::Buy(_) => LSPSMethod::LSPS2Buy,
        }
    }
}

impl<'a> vstd::std_specs::convert::FromSpecImpl<&'a LSPS2Request> for LSPSMethod {
    open spec fn obeys_from_spec() -> bool {
        true
    }

    open spec fn from_spec(v: &'a LSPS2Request) -> LSPSMethod {
        v.method()
    }
}

impl<'a> From<&'a LSPS5Request> for LSPSMethod {
    fn from(value: &'a LSPS5Request) -> (method: LSPSMethod) {
        match value {
            LSPS5Request::SetWebhook(_) => LSPSMethod::LSPS5SetWebhook,
            LSPS5Request::ListWebhooks(_) => LSPSMethod::LSPS5ListWebhooks,
            LSPS5Request::RemoveWebhook(_) => LSPSMethod::LSPS5RemoveWebhook,
        }
    }
}

impl<'a> vstd::std_specs::convert::FromSpecImpl<&'a LSPS5Request> for LSPSMethod {
    open spec fn obeys_from_spec() -> bool {
        true
    }

    open spec fn from_spec(v: &'a LSPS5Request) -> LSPSMethod {
        v.method()
    }
}

impl<'a> From<&'a LSPS5Notification> for LSPSMethod {
    fn from(value: &'a LSPS5Notification) -> (method: LSPSMethod) {
        match value {
            LSPS5Notification::WebhookRegistered(_) => LSPSMethod::LSPS5WebhookRegistered,
            LSPS5Notification::PaymentIncoming(_) => LSPSMethod::LSPS5PaymentIncoming,
            LSPS5Notification::ExpirySoon(_) => LSPSMethod::LSPS5ExpirySoon,
            LSPS5Notification::LiquidityManagementRequest(_) => {
                LSPSMethod::LSPS5LiquidityManagementRequest
            },
            LSPS5Notification::FeesChangeIncoming(_) => LSPSMethod::LSPS5FeesChangeIncoming,
            LSPS5Notification::OnionMessageIncoming(_) => LSPSMethod::LSPS5OnionMessageIncoming,
        }
    }
}

impl<'a> vstd::std_specs::convert::FromSpecImpl<&'a LSPS5Notification> for LSPSMethod {
    open spec fn obeys_from_spec() -> bool {
        true
    }

    open spec fn from_spec(v: &'a LSPS5Notification) -> LSPSMethod {
        v.method()
    }
}

impl LSPSMessage {
    /// Returns the request id and the method.
    pub fn get_request_id_and_method(&self) -> (res: Option<(RequestId, LSPSMethod)>)
        ensures
            match self@ {
                MessageView::Request { id, method, .. } => res matches Some(p) && p.0@ == id
                    && p.1 == method,
                _ => res is None,
            },
    {
        match self {
            LSPSMessage::LSPS0(LSPS0Message::Request(request_id, request)) => {
                Some((RequestId(request_id.0.clone()), request.into()))
            },
            LSPSMessage::LSPS1(LSPS1Message::Request(request_id, request)) => {
                Some((RequestId(request_id.0.clone()), request.into()))
            },
            LSPSMessage::LSPS2(LSPS2Message::Request(request_id, request)) => {
                Some((RequestId(request_id.0.clone()), request.into()))
            },
            LSPSMessage::LSPS5(LSPS5Message::Request(request_id, request)) => {
                Some((RequestId(request_id.0.clone()), request.into()))
            },
            _ => None,
        }
    }
}

} // verus!
