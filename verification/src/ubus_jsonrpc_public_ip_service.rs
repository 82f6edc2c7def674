//! The public address as a router reports it over its JSON-RPC endpoint: a
//! login that yields a session, then a status query of the WAN interface.

use crate::http::{
    content_type_json, content_type_name, json_content_type, result_view, HttpReply,
    HttpReplyView, HttpRequest, HttpRequestView, Method, RequestError, RequestErrorView,
    STATUS_OK,
};
use crate::ipv4::{parse_dotted, Ipv4Addr};
use crate::json::{
    all_well_formed, distinct_keys, json_parse, json_text, member_views, object, string, views,
    Json, JsonView,
};
use crate::public_ip_service::{PublicIpServiceError, PublicIpServiceErrorView};
use vstd::prelude::*;

verus! {

/// The version of JSON-RPC that the router speaks.
pub const JSONRPC2: &'static str = "2.0";

/// The one JSON-RPC method of the router.
pub const METHOD_CALL: &'static str = "call";

/// The session that a call carries before there is one.
pub const NULL_SESSION: &'static str = "00000000000000000000000000000000";

/// `Uuid::new_v4` and the `Display` of `Uuid`: a fresh random identifier in
/// its hyphenated form, which has 36 characters. Nothing else is known of it.
#[verifier::external_body]
fn fresh_request_id() -> (id: String)
    ensures
        id@.len() == 36,
{
    uuid::Uuid::new_v4().to_string()
}

/// A session of the router.
#[derive(Clone, Debug, PartialEq, Eq)]
pub struct SessionResponse {
    pub token: String,
}

impl View for SessionResponse {
    type V = Seq<char>;

    open spec fn view(&self) -> Seq<char> {
        self.token@
    }
}

impl DeepView for SessionResponse {
    type V = Seq<char>;

    open spec fn deep_view(&self) -> Seq<char> {
        self@
    }
}

/// One IPv4 address of an interface.
#[derive(Clone, Copy, Debug, PartialEq, Eq, Structural)]
pub struct Ipv4AddressInfo {
    pub address: Ipv4Addr,
}

/// The addresses that a list of address entries holds.
pub open spec fn addresses(entries: Seq<Ipv4AddressInfo>) -> Seq<Ipv4Addr> {
    Seq::new(entries.len(), |i: int| entries[i].address)
}

/// The status of an interface, as far as it is read: its IPv4 addresses (the
/// member `ipv4-address` of the router's JSON).
#[derive(Clone, Debug, PartialEq, Eq)]
pub struct NetworkInterfaceStatusResponse {
    pub ipv4_address: Vec<Ipv4AddressInfo>,
}

impl View for NetworkInterfaceStatusResponse {
    type V = Seq<Ipv4Addr>;

    open spec fn view(&self) -> Seq<Ipv4Addr> {
        addresses(self.ipv4_address@)
    }
}

impl DeepView for NetworkInterfaceStatusResponse {
    type V = Seq<Ipv4Addr>;

    open spec fn deep_view(&self) -> Seq<Ipv4Addr> {
        self@
    }
}

/// The envelope of an answer of the router.
#[derive(Debug, PartialEq, Eq)]
pub struct UbusJsonResponseContainer {
    pub jsonrpc: String,
    pub id: Json,
    pub result: Vec<Json>,
}

/// The mathematical model of a [`UbusJsonResponseContainer`].
pub struct UbusJsonResponseContainerView {
    pub jsonrpc: Seq<char>,
    pub id: JsonView,
    pub result: Seq<JsonView>,
}

impl View for UbusJsonResponseContainer {
    type V = UbusJsonResponseContainerView;

    open spec fn view(&self) -> UbusJsonResponseContainerView {
        UbusJsonResponseContainerView {
            jsonrpc: self.jsonrpc@,
            id: self.id@,
            result: views(self.result@),
        }
    }
}

impl DeepView for UbusJsonResponseContainer {
    type V = UbusJsonResponseContainerView;

    open spec fn deep_view(&self) -> UbusJsonResponseContainerView {
        self@
    }
}

/// The envelope of a call of the router.
#[derive(Debug, PartialEq, Eq)]
pub struct UbusJsonRequestContainer {
    pub jsonrpc: String,
    pub id: Json,
    pub method: String,
    pub params: Vec<Json>,
}

/// The mathematical model of a [`UbusJsonRequestContainer`].
pub struct UbusJsonRequestContainerView {
    pub jsonrpc: Seq<char>,
    pub id: JsonView,
    pub method: Seq<char>,
    pub params: Seq<JsonView>,
}

impl View for UbusJsonRequestContainer {
    type V = UbusJsonRequestContainerView;

    open spec fn view(&self) -> UbusJsonRequestContainerView {
        UbusJsonRequestContainerView {
            jsonrpc: self.jsonrpc@,
            id: self.id@,
            method: self.method@,
            params: views(self.params@),
        }
    }
}

/// The credentials of a login.
#[derive(Clone, Debug, PartialEq, Eq)]
pub struct LoginParams {
    pub username: String,
    pub password: String,
}

/// The JSON object that carries the credentials of a login.
pub open spec fn json_of_login(username: Seq<char>, password: Seq<char>) -> JsonView {
    object(seq![("username"@, string(username)), ("password"@, string(password))])
}

/// The parameters of a login call: the null session, the object `session`,
/// its method `login`, and the credentials.
pub open spec fn login_params(username: Seq<char>, password: Seq<char>) -> Seq<JsonView> {
    seq![
        string(NULL_SESSION@),
        string("session"@),
        string("login"@),
        json_of_login(username, password),
    ]
}

/// The parameters of a status call: the session, the object of the WAN
/// interface, its method `status`, and no arguments.
pub open spec fn status_params(token: Seq<char>) -> Seq<JsonView> {
    seq![
        string(token),
        string("network.interface.wan"@),
        string("status"@),
        object(Seq::empty()),
    ]
}

/// Whether an envelope is a call with the given parameters: version and
/// method are the fixed ones, and the identifier is some string.
pub open spec fn is_call(call: UbusJsonRequestContainerView, params: Seq<JsonView>) -> bool {
    &&& call.jsonrpc == JSONRPC2@
    &&& call.method == METHOD_CALL@
    &&& call.id is String
    &&& call.params == params
}

/// The JSON object of an envelope of a call.
pub open spec fn json_of_call(call: UbusJsonRequestContainerView) -> JsonView {
    object(
        seq![
            ("jsonrpc"@, string(call.jsonrpc)),
            ("id"@, call.id),
            ("method"@, string(call.method)),
            ("params"@, JsonView::Array(call.params)),
        ],
    )
}

/// The envelope that a JSON object holds: its string member `jsonrpc`, its
/// member `id` and its array member `result`.
pub open spec fn container_of_json(doc: JsonView) -> Option<UbusJsonResponseContainerView> {
    match (doc.text_field("jsonrpc"@), doc.field("id"@), doc.items_field("result"@)) {
        (Some(jsonrpc), Some(id), Some(result)) => Some(
            UbusJsonResponseContainerView { jsonrpc, id, result },
        ),
        _ => None,
    }
}

/// The payload of an answer: the second entry of its result, after the
/// status code of the call.
pub open spec fn payload_of(doc: JsonView) -> Option<JsonView> {
    match container_of_json(doc) {
        Some(container) => if container.result.len() > 1 {
            Some(container.result[1])
        } else {
            None
        },
        None => None,
    }
}

/// The address that an address entry holds: its string member `address`, read
/// as dotted-decimal text.
pub open spec fn address_of_json(doc: JsonView) -> Option<Ipv4Addr> {
    match doc.text_field("address"@) {
        Some(text) => parse_dotted(text),
        None => None,
    }
}

/// The addresses that a list of address entries holds, where each holds one.
pub open spec fn addresses_of_items(items: Seq<JsonView>) -> Option<Seq<Ipv4Addr>> {
    if forall|i: int| 0 <= i < items.len() ==> (#[trigger] address_of_json(items[i])) is Some {
        Some(Seq::new(items.len(), |i: int| address_of_json(items[i])->Some_0))
    } else {
        None
    }
}

/// The IPv4 addresses of an interface status: its array member
/// `ipv4-address`.
pub open spec fn status_of_json(doc: JsonView) -> Option<Seq<Ipv4Addr>> {
    match doc.items_field("ipv4-address"@) {
        Some(items) => addresses_of_items(items),
        None => None,
    }
}

/// The error for a transport that produced no response.
pub open spec fn transport_failure(reason: Seq<char>) -> PublicIpServiceErrorView {
    PublicIpServiceErrorView::ClientError { source: RequestErrorView::Transport { reason } }
}

/// What the body of a successful login means, given what parsing it as JSON
/// gave: the session token of its payload, or a refusal where there is none.
pub open spec fn session_in_body(doc: Option<JsonView>) -> Result<
    Seq<char>,
    PublicIpServiceErrorView,
> {
    match doc {
        Some(doc) => match payload_of(doc) {
            Some(payload) => match payload.text_field("ubus_rpc_session"@) {
                Some(token) => Ok(token),
                None => Err(PublicIpServiceErrorView::InvalidCredentials),
            },
            None => Err(PublicIpServiceErrorView::InvalidCredentials),
        },
        None => Err(PublicIpServiceErrorView::InvalidCredentials),
    }
}

/// What the body of a successful status query means, given what parsing it
/// as JSON gave: the addresses of its payload.
pub open spec fn status_in_body(doc: Option<JsonView>) -> Result<
    Seq<Ipv4Addr>,
    PublicIpServiceErrorView,
> {
    match doc {
        Some(doc) => match payload_of(doc) {
            Some(payload) => match status_of_json(payload) {
                Some(found) => Ok(found),
                None => Err(PublicIpServiceErrorView::InvalidIpResponse),
            },
            None => Err(PublicIpServiceErrorView::InvalidIpResponse),
        },
        None => Err(PublicIpServiceErrorView::InvalidIpResponse),
    }
}

/// What the answer to a login means.
pub open spec fn get_session_outcome(reply: HttpReplyView) -> Result<
    Seq<char>,
    PublicIpServiceErrorView,
> {
    match reply {
        HttpReplyView::Failed { reason } => Err(transport_failure(reason)),
        HttpReplyView::Response { status, body } => {
            if status == STATUS_OK {
                session_in_body(json_parse(body))
            } else {
                Err(PublicIpServiceErrorView::InvalidCredentials)
            }
        },
    }
}

/// What the answer to a status query means.
pub open spec fn get_ip_outcome(reply: HttpReplyView) -> Result<
    Seq<Ipv4Addr>,
    PublicIpServiceErrorView,
> {
    match reply {
        HttpReplyView::Failed { reason } => Err(transport_failure(reason)),
        HttpReplyView::Response { status, body } => {
            if status == STATUS_OK {
                status_in_body(json_parse(body))
            } else {
                Err(PublicIpServiceErrorView::InvalidIpResponse)
            }
        },
    }
}

/// The public address that a status holds: its first address.
pub open spec fn first_address(found: Seq<Ipv4Addr>) -> Result<Ipv4Addr, PublicIpServiceErrorView> {
    if found.len() > 0 {
        Ok(found[0])
    } else {
        Err(PublicIpServiceErrorView::InvalidIpResponse)
    }
}

/// The public address that the answer to a status query gives.
pub open spec fn public_ip_outcome(reply: HttpReplyView) -> Result<
    Ipv4Addr,
    PublicIpServiceErrorView,
> {
    match get_ip_outcome(reply) {
        Ok(found) => first_address(found),
        Err(error) => Err(error),
    }
}

/// Whether an envelope can be written as it stands: neither its identifier
/// nor any of its parameters holds an object that bears a key twice.
pub open spec fn call_is_well_formed(call: UbusJsonRequestContainerView) -> bool {
    call.id.well_formed() && all_well_formed(call.params)
}

/// The JSON object of an envelope is well formed exactly where the envelope
/// is.
pub proof fn lemma_call_json_well_formed(call: UbusJsonRequestContainerView)
    ensures
        json_of_call(call).well_formed() == call_is_well_formed(call),
{
    reveal_strlit("jsonrpc");
    reveal_strlit("id");
    reveal_strlit("method");
    reveal_strlit("params");
    assert("jsonrpc"@.len() == 7);
    assert("id"@.len() == 2);
    assert("method"@.len() == 6);
    assert("params"@.len() == 6);
    assert("method"@[0] != "params"@[0]);
    reveal_with_fuel(JsonView::well_formed, 2);
    let members = seq![
        ("jsonrpc"@, string(call.jsonrpc)),
        ("id"@, call.id),
        ("method"@, string(call.method)),
        ("params"@, JsonView::Array(call.params)),
    ];
    assert(distinct_keys(members));
    if call_is_well_formed(call) {
        assert forall|i: int| 0 <= i < members.len() implies (#[trigger] members[i]).1.well_formed() by {
            if i == 3 {
                assert(members[3].1 == JsonView::Array(call.params));
            }
        }
    } else {
        if json_of_call(call).well_formed() {
            assert(members[1].1.well_formed());
            assert(members[3].1.well_formed());
            assert(false);
        }
    }
}

/// The parameters of a login call and of a status call are well formed.
pub proof fn lemma_params_well_formed(username: Seq<char>, password: Seq<char>, token: Seq<char>)
    ensures
        all_well_formed(login_params(username, password)),
        all_well_formed(status_params(token)),
{
    reveal_strlit("username");
    reveal_strlit("password");
    assert("username"@[0] != "password"@[0]);
    reveal_with_fuel(JsonView::well_formed, 2);
    let credentials = seq![("username"@, string(username)), ("password"@, string(password))];
    assert(distinct_keys(credentials));
    assert(json_of_login(username, password).well_formed());
    assert(distinct_keys(Seq::<(Seq<char>, JsonView)>::empty()));
    assert(object(Seq::empty()).well_formed());
}

impl LoginParams {
    /// The JSON object that carries the credentials.
    pub fn to_json(&self) -> (doc: Json)
        ensures
            doc@ == json_of_login(self.username@, self.password@),
            doc@.well_formed(),
    {
        proof {
            lemma_params_well_formed(self.username@, self.password@, Seq::empty());
            assert(login_params(self.username@, self.password@)[3].well_formed());
        }
        let mut members: Vec<(String, Json)> = Vec::new();
        members.push(("username".to_owned(), Json::string(self.username.as_str())));
        members.push(("password".to_owned(), Json::string(self.password.as_str())));
        assert(member_views(members@) =~= seq![
            ("username"@, string(self.username@)),
            ("password"@, string(self.password@)),
        ]);
        Json::object(members)
    }
}

impl Default for UbusJsonRequestContainer {
    /// A call without parameters, under a fresh identifier.
    fn default() -> (call: UbusJsonRequestContainer)
        ensures
            is_call(call@, Seq::empty()),
    {
        let call = UbusJsonRequestContainer {
            jsonrpc: JSONRPC2.to_owned(),
            id: Json::String(fresh_request_id()),
            method: METHOD_CALL.to_owned(),
            params: Vec::new(),
        };
        assert(call@.params =~= Seq::<JsonView>::empty());
        call
    }
}

impl UbusJsonRequestContainer {
    /// The call of `ubus_method` on `ubus_object` within `session`, with the
    /// arguments `params`, under a fresh identifier.
    pub fn new(session: Json, ubus_object: Json, ubus_method: Json, params: Vec<Json>) -> (call:
        UbusJsonRequestContainer)
        ensures
            is_call(call@, seq![session@, ubus_object@, ubus_method@] + views(params@)),
    {
        let ghost wanted = seq![session@, ubus_object@, ubus_method@] + views(params@);
        let mut call = UbusJsonRequestContainer::default();
        let mut arguments = params;
        let mut call_params: Vec<Json> = Vec::new();
        call_params.push(session);
        call_params.push(ubus_object);
        call_params.push(ubus_method);
        call_params.append(&mut arguments);
        assert(views(call_params@) =~= wanted);
        call.params = call_params;
        call
    }

    /// The login call for the given credentials.
    pub fn login(username: &str, password: &str) -> (call: UbusJsonRequestContainer)
        ensures
            is_call(call@, login_params(username@, password@)),
    {
        let credentials = LoginParams {
            username: username.to_owned(),
            password: password.to_owned(),
        };
        let mut arguments: Vec<Json> = Vec::new();
        arguments.push(credentials.to_json());
        let call = UbusJsonRequestContainer::new(
            Json::string(NULL_SESSION),
            Json::string("session"),
            Json::string("login"),
            arguments,
        );
        assert(call@.params =~= login_params(username@, password@));
        call
    }

    /// The status call of the WAN interface within the session `token`.
    pub fn network_interface_status(token: String) -> (call: UbusJsonRequestContainer)
        ensures
            is_call(call@, status_params(token@)),
    {
        let mut arguments: Vec<Json> = Vec::new();
        let none: Vec<(String, Json)> = Vec::new();
        assert(member_views(none@) =~= Seq::<(Seq<char>, JsonView)>::empty());
        arguments.push(Json::object(none));
        let call = UbusJsonRequestContainer::new(
            Json::String(token),
            Json::string("network.interface.wan"),
            Json::string("status"),
            arguments,
        );
        assert(call@.params =~= status_params(token@));
        call
    }

    /// A copy of the parameters of the call.
    pub fn get_command_params(&self) -> (params: Vec<Json>)
        ensures
            views(params@) == self@.params,
    {
        let mut params: Vec<Json> = Vec::new();
        let mut i: usize = 0;
        while i < self.params.len()
            invariant
                i <= self.params.len(),
                params@.len() == i,
                forall|k: int| 0 <= k < i ==> (#[trigger] params@[k])@ == self.params@[k]@,
            decreases self.params.len() - i,
        {
            params.push(self.params[i].duplicate());
            i += 1;
        }
        assert(views(params@) =~= views(self.params@));
        params
    }

    /// The JSON object of the call.
    pub fn to_json(&self) -> (doc: Json)
        ensures
            doc@ == json_of_call(self@),
            doc@.well_formed() == call_is_well_formed(self@),
    {
        proof {
            lemma_call_json_well_formed(self@);
        }
        let mut members: Vec<(String, Json)> = Vec::new();
        members.push(("jsonrpc".to_owned(), Json::string(self.jsonrpc.as_str())));
        members.push(("id".to_owned(), self.id.duplicate()));
        members.push(("method".to_owned(), Json::string(self.method.as_str())));
        members.push(("params".to_owned(), Json::array(self.get_command_params())));
        assert(member_views(members@) =~= seq![
            ("jsonrpc"@, string(self.jsonrpc@)),
            ("id"@, self.id@),
            ("method"@, string(self.method@)),
            ("params"@, JsonView::Array(self@.params)),
        ]);
        Json::object(members)
    }
}

impl UbusJsonResponseContainer {
    /// Reads the envelope of an answer from its JSON document.
    pub fn from_json(doc: &Json) -> (container: Option<UbusJsonResponseContainer>)
        ensures
            container.deep_view() == container_of_json(doc@),
    {
        let jsonrpc = match doc.get_str("jsonrpc") {
            Some(text) => text,
            None => {
                return None;
            },
        };
        let id = match doc.get("id") {
            Some(value) => value,
            None => {
                return None;
            },
        };
        let items = match doc.get_array("result") {
            Some(items) => items,
            None => {
                return None;
            },
        };
        let mut result: Vec<Json> = Vec::new();
        let mut i: usize = 0;
        while i < items.len()
            invariant
                i <= items.len(),
                result@.len() == i,
                forall|k: int| 0 <= k < i ==> (#[trigger] result@[k])@ == items@[k]@,
            decreases items.len() - i,
        {
            result.push(items[i].duplicate());
            i += 1;
        }
        assert(views(result@) =~= views(items@));
        Some(UbusJsonResponseContainer { jsonrpc: jsonrpc.to_owned(), id: id.duplicate(), result })
    }

    /// The payload of the answer: the second entry of its result.
    pub fn payload(&self) -> (payload: Option<&Json>)
        ensures
            match payload {
                Some(value) => self@.result.len() > 1 && value@ == self@.result[1],
                None => self@.result.len() <= 1,
            },
    {
        if self.result.len() > 1 {
            Some(&self.result[1])
        } else {
            None
        }
    }
}

impl NetworkInterfaceStatusResponse {
    /// Reads the status of an interface from its JSON object.
    pub fn from_json(doc: &Json) -> (status: Option<NetworkInterfaceStatusResponse>)
        ensures
            status.deep_view() == status_of_json(doc@),
    {
        let items = match doc.get_array("ipv4-address") {
            Some(items) => items,
            None => {
                return None;
            },
        };
        let mut entries: Vec<Ipv4AddressInfo> = Vec::new();
        let mut i: usize = 0;
        while i < items.len()
            invariant
                doc@.items_field("ipv4-address"@) == Some(views(items@)),
                i <= items.len(),
                entries@.len() == i,
                forall|k: int|
                    0 <= k < i ==> address_of_json(#[trigger] views(items@)[k]) == Some(
                        entries@[k].address,
                    ),
            decreases items.len() - i,
        {
            let address = match items[i].get_str("address") {
                Some(text) => Ipv4Addr::parse(text),
                None => None,
            };
            match address {
                Some(address) => {
                    entries.push(Ipv4AddressInfo { address });
                },
                None => {
                    assert(address_of_json(views(items@)[i as int]) is None);
                    return None;
                },
            }
            i += 1;
        }
        let status = NetworkInterfaceStatusResponse { ipv4_address: entries };
        assert(status@ =~= addresses_of_items(views(items@))->Some_0);
        Some(status)
    }

    /// The public address that the status holds: its first address.
    pub fn public_ip(&self) -> (found: Result<Ipv4Addr, PublicIpServiceError>)
        ensures
            result_view(found) == first_address(self@),
    {
        if self.ipv4_address.len() > 0 {
            Ok(self.ipv4_address[0].address)
        } else {
            Err(PublicIpServiceError::InvalidIpResponse)
        }
    }
}

/// The session that the JSON document of a login answer holds.
pub fn session_in_document(doc: Option<&Json>) -> (session: Result<
    SessionResponse,
    PublicIpServiceError,
>)
    ensures
        result_view(session) == session_in_body(doc.deep_view()),
{
    let container = match doc {
        Some(doc) => UbusJsonResponseContainer::from_json(doc),
        None => None,
    };
    let container = match container {
        Some(container) => container,
        None => {
            return Err(PublicIpServiceError::InvalidCredentials);
        },
    };
    let token = match container.payload() {
        Some(payload) => payload.get_str("ubus_rpc_session"),
        None => None,
    };
    match token {
        Some(token) => Ok(SessionResponse { token: token.to_owned() }),
        None => Err(PublicIpServiceError::InvalidCredentials),
    }
}

/// The interface status that the JSON document of a status answer holds.
pub fn status_in_document(doc: Option<&Json>) -> (status: Result<
    NetworkInterfaceStatusResponse,
    PublicIpServiceError,
>)
    ensures
        result_view(status) == status_in_body(doc.deep_view()),
{
    let container = match doc {
        Some(doc) => UbusJsonResponseContainer::from_json(doc),
        None => None,
    };
    let container = match container {
        Some(container) => container,
        None => {
            return Err(PublicIpServiceError::InvalidIpResponse);
        },
    };
    let status = match container.payload() {
        Some(payload) => NetworkInterfaceStatusResponse::from_json(payload),
        None => None,
    };
    match status {
        Some(status) => Ok(status),
        None => Err(PublicIpServiceError::InvalidIpResponse),
    }
}

/// The client of a router's JSON-RPC endpoint.
#[derive(Clone, Debug, PartialEq, Eq)]
pub struct UbusJsonRpcClient {
    ubus_url: String,
    ubus_user: String,
    ubus_secret: String,
}

/// The mathematical model of a [`UbusJsonRpcClient`].
pub struct UbusJsonRpcClientView {
    pub ubus_url: Seq<char>,
    pub ubus_user: Seq<char>,
    pub ubus_secret: Seq<char>,
}

impl View for UbusJsonRpcClient {
    type V = UbusJsonRpcClientView;

    closed spec fn view(&self) -> UbusJsonRpcClientView {
        UbusJsonRpcClientView {
            ubus_url: self.ubus_url@,
            ubus_user: self.ubus_user@,
            ubus_secret: self.ubus_secret@,
        }
    }
}

/// The request that posts `call` to the endpoint at `url`.
pub open spec fn call_request_for(url: Seq<char>, call: UbusJsonRequestContainerView)
    -> HttpRequestView {
    HttpRequestView {
        method: Method::Post,
        url,
        headers: seq![(content_type_name(), content_type_json())],
        body: Some(json_text(json_of_call(call))),
    }
}

/// Whether `request` posts to `url` a call with the parameters `params`,
/// under whatever identifier.
pub open spec fn posts_call(request: HttpRequestView, url: Seq<char>, params: Seq<JsonView>)
    -> bool {
    exists|call: UbusJsonRequestContainerView|
        is_call(call, params) && #[trigger] call_request_for(url, call) == request
}

/// Where a lookup of the public address stands: which answer it waits for.
#[derive(Clone, Copy, Debug, PartialEq, Eq, Structural)]
pub enum UbusState {
    LoggingIn,
    ReadingStatus,
}

/// What a lookup of the public address does next: send a request and wait in
/// `state` for its answer, or end with an outcome.
#[derive(Debug, PartialEq, Eq)]
pub enum UbusStep {
    Send { state: UbusState, request: HttpRequest },
    Done { outcome: Result<Ipv4Addr, PublicIpServiceError> },
}

/// Whether `step` is what a lookup in `state` does when `reply` comes in. A
/// failed login ends the lookup: no status query follows it.
pub open spec fn follows(
    client: UbusJsonRpcClientView,
    state: UbusState,
    reply: HttpReplyView,
    step: UbusStep,
) -> bool {
    match state {
        UbusState::LoggingIn => match get_session_outcome(reply) {
            Ok(token) => step matches UbusStep::Send { state: UbusState::ReadingStatus, request }
                && posts_call(request@, client.ubus_url, status_params(token)),
            Err(error) => step matches UbusStep::Done { outcome } && result_view(outcome) == Err::<
                Ipv4Addr,
                PublicIpServiceErrorView,
            >(error),
        },
        UbusState::ReadingStatus => step matches UbusStep::Done { outcome } && result_view(
            outcome,
        ) == public_ip_outcome(reply),
    }
}

impl UbusJsonRpcClient {
    /// The client of the endpoint at `ubus_url`, with the credentials to log
    /// in with.
    pub fn new(ubus_url: &str, ubus_user: &str, ubus_secret: &str) -> (client: UbusJsonRpcClient)
        ensures
            client@.ubus_url == ubus_url@,
            client@.ubus_user == ubus_user@,
            client@.ubus_secret == ubus_secret@,
    {
        UbusJsonRpcClient {
            ubus_url: ubus_url.to_owned(),
            ubus_user: ubus_user.to_owned(),
            ubus_secret: ubus_secret.to_owned(),
        }
    }

    /// The request that posts the well-formed envelope `call` to the endpoint.
    fn post_call(&self, call: &UbusJsonRequestContainer) -> (request: HttpRequest)
        requires
            call_is_well_formed(call@),
        ensures
            request@ == call_request_for(self@.ubus_url, call@),
    {
        let mut headers: Vec<(String, String)> = Vec::new();
        headers.push(json_content_type());
        let request = HttpRequest {
            method: Method::Post,
            url: self.ubus_url.clone(),
            headers,
            body: Some(call.to_json().write()),
        };
        assert(request@.headers =~= seq![(content_type_name(), content_type_json())]);
        request
    }

    /// The request that posts `call` to the endpoint. There is none for an
    /// envelope that cannot be written as it stands, because an object in it
    /// bears a key twice.
    pub fn call_request(&self, call: &UbusJsonRequestContainer) -> (request: Option<HttpRequest>)
        ensures
            match request {
                Some(posted) => call_is_well_formed(call@) && posted@ == call_request_for(
                    self@.ubus_url,
                    call@,
                ),
                None => !call_is_well_formed(call@),
            },
    {
        let mut i: usize = 0;
        while i < call.params.len()
            invariant
                i <= call.params.len(),
                forall|k: int| 0 <= k < i ==> (#[trigger] call@.params[k]).well_formed(),
            decreases call.params.len() - i,
        {
            if !call.params[i].is_well_formed() {
                assert(!call@.params[i as int].well_formed());
                return None;
            }
            i += 1;
        }
        if call.id.is_well_formed() {
            Some(self.post_call(call))
        } else {
            None
        }
    }

    /// The request that logs in.
    pub fn get_session_request(&self) -> (request: HttpRequest)
        ensures
            posts_call(request@, self@.ubus_url, login_params(self@.ubus_user, self@.ubus_secret)),
    {
        let call = UbusJsonRequestContainer::login(
            self.ubus_user.as_str(),
            self.ubus_secret.as_str(),
        );
        proof {
            lemma_params_well_formed(self@.ubus_user, self@.ubus_secret, Seq::empty());
        }
        self.post_call(&call)
    }

    /// What the answer to a login means: the session it opened.
    pub fn get_session(&self, reply: &HttpReply) -> (session: Result<
        SessionResponse,
        PublicIpServiceError,
    >)
        ensures
            result_view(session) == get_session_outcome(reply@),
    {
        match reply {
            HttpReply::Failed { reason } => Err(
                PublicIpServiceError::ClientError {
                    source: RequestError::Transport { reason: reason.clone() },
                },
            ),
            HttpReply::Response { status, body } => {
                if *status == STATUS_OK {
                    let doc = Json::parse(body.as_str());
                    session_in_document(doc.as_ref())
                } else {
                    Err(PublicIpServiceError::InvalidCredentials)
                }
            },
        }
    }

    /// The request that asks for the status of the WAN interface within
    /// `session`.
    pub fn get_ip_request(&self, session: &SessionResponse) -> (request: HttpRequest)
        ensures
            posts_call(request@, self@.ubus_url, status_params(session@)),
    {
        let call = UbusJsonRequestContainer::network_interface_status(session.token.clone());
        proof {
            lemma_params_well_formed(Seq::empty(), Seq::empty(), session@);
        }
        self.post_call(&call)
    }

    /// What the answer to a status query means: the addresses of the WAN
    /// interface.
    pub fn get_ip(&self, reply: &HttpReply) -> (status: Result<
        NetworkInterfaceStatusResponse,
        PublicIpServiceError,
    >)
        ensures
            result_view(status) == get_ip_outcome(reply@),
    {
        match reply {
            HttpReply::Failed { reason } => Err(
                PublicIpServiceError::ClientError {
                    source: RequestError::Transport { reason: reason.clone() },
                },
            ),
            HttpReply::Response { status, body } => {
                if *status == STATUS_OK {
                    let doc = Json::parse(body.as_str());
                    status_in_document(doc.as_ref())
                } else {
                    Err(PublicIpServiceError::InvalidIpResponse)
                }
            },
        }
    }

    /// Starts a lookup of the public address: a fresh session is opened
    /// first.
    pub fn public_ip_start(&self) -> (step: UbusStep)
        ensures
            step matches UbusStep::Send { state: UbusState::LoggingIn, request } && posts_call(
                request@,
                self@.ubus_url,
                login_params(self@.ubus_user, self@.ubus_secret),
            ),
    {
        UbusStep::Send { state: UbusState::LoggingIn, request: self.get_session_request() }
    }

    /// Takes a lookup of the public address one step on: `reply` answers the
    /// request that led to `state`.
    pub fn public_ip(&self, state: UbusState, reply: &HttpReply) -> (step: UbusStep)
        ensures
            follows(self@, state, reply@, step),
    {
        match state {
            UbusState::LoggingIn => match self.get_session(reply) {
                Ok(session) => UbusStep::Send {
                    state: UbusState::ReadingStatus,
                    request: self.get_ip_request(&session),
                },
                Err(error) => UbusStep::Done { outcome: Err(error) },
            },
            UbusState::ReadingStatus => match self.get_ip(reply) {
                Ok(status) => UbusStep::Done { outcome: status.public_ip() },
                Err(error) => UbusStep::Done { outcome: Err(error) },
            },
        }
    }
}

} // verus!
