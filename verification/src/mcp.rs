use vstd::prelude::*;

use crate::error::AppError;
use crate::format::{format_route_response, response_text};
use crate::json::{
    as_number, as_text, field, member, object1, object2, object3, push_item, push_member, view_items,
    view_members, Json, JsonNumber, JsonView,
};
use crate::models::RouteResponse;

verus! {

/// The name under which the route search tool is offered.
pub open spec fn tool_name() -> Seq<char> {
    "search_transit_route"@
}

/// A JSON-RPC 2.0 reply to the request `id` whose member `key` ("result" or
/// "error") holds `body`.
pub open spec fn reply(id: JsonView, key: Seq<char>, body: JsonView) -> JsonView {
    JsonView::Object(seq![("jsonrpc"@, JsonView::Str("2.0"@)), ("id"@, id), (key, body)])
}

/// The reply to `initialize`: protocol version, capabilities and server info.
pub open spec fn initialize_reply(id: JsonView) -> JsonView {
    reply(
        id,
        "result"@,
        JsonView::Object(
            seq![
                ("protocolVersion"@, JsonView::Str("2024-11-05"@)),
                ("capabilities"@, JsonView::Object(seq![("tools"@, JsonView::Object(Seq::empty()))])),
                ("serverInfo"@, JsonView::Object(
                    seq![
                        ("name"@, JsonView::Str("navitime-mcp"@)),
                        ("version"@, JsonView::Str("0.1.0"@)),
                    ],
                )),
            ],
        ),
    )
}

/// The schema of one argument of the tool.
pub open spec fn argument_schema(kind: Seq<char>, description: Seq<char>) -> JsonView {
    JsonView::Object(
        seq![("type"@, JsonView::Str(kind)), ("description"@, JsonView::Str(description))],
    )
}

/// The description of the route search tool, with the schema of its arguments.
pub open spec fn search_tool() -> JsonView {
    JsonView::Object(
        seq![
            ("name"@, JsonView::Str("search_transit_route"@)),
            ("description"@, JsonView::Str(
                "Finds train/walking transit routes in Japan between two coordinates using Navitime API."@,
            )),
            ("inputSchema"@, JsonView::Object(
                seq![
                    ("type"@, JsonView::Str("object"@)),
                    ("properties"@, JsonView::Object(
                        seq![
                            ("start_lat"@, argument_schema("number"@, "Start latitude"@)),
                            ("start_lon"@, argument_schema("number"@, "Start longitude"@)),
                            ("goal_lat"@, argument_schema("number"@, "Goal latitude"@)),
                            ("goal_lon"@, argument_schema("number"@, "Goal longitude"@)),
                            ("start_time"@, argument_schema(
                                "string"@,
                                "Departure time in YYYY-MM-DDTHH:MM:SS format. Defaults to current time if not provided."@,
                            )),
                        ],
                    )),
                    ("required"@, JsonView::Array(
                        seq![
                            JsonView::Str("start_lat"@),
                            JsonView::Str("start_lon"@),
                            JsonView::Str("goal_lat"@),
                            JsonView::Str("goal_lon"@),
                        ],
                    )),
                ],
            )),
        ],
    )
}

/// The reply to `tools/list`: the one tool of this server.
pub open spec fn tools_list_reply(id: JsonView) -> JsonView {
    reply(id, "result"@, JsonView::Object(seq![("tools"@, JsonView::Array(seq![search_tool()]))]))
}

/// A tool reply that shows `text`, marked as an error or not.
pub open spec fn tool_text_reply(id: JsonView, text: Seq<char>, is_error: bool) -> JsonView {
    reply(
        id,
        "result"@,
        JsonView::Object(
            seq![
                ("content"@, JsonView::Array(
                    seq![
                        JsonView::Object(
                            seq![
                                ("type"@, JsonView::Str("text"@)),
                                ("text"@, JsonView::Str(text)),
                            ],
                        ),
                    ],
                )),
                ("isError"@, JsonView::Bool(is_error)),
            ],
        ),
    )
}

/// A JSON-RPC error reply with `code` and `message`.
pub open spec fn error_reply(id: JsonView, code: i64, message: Seq<char>) -> JsonView {
    reply(
        id,
        "error"@,
        JsonView::Object(
            seq![
                ("code"@, JsonView::Number(JsonNumber::NegInt(code))),
                ("message"@, JsonView::Str(message)),
            ],
        ),
    )
}

/// The reply to a line that is no JSON; `message` is the parser's account.
pub open spec fn parse_error_reply(message: Seq<char>) -> JsonView {
    error_reply(JsonView::Null, -32700i64, "Parse error: "@ + message)
}

/// The reply to a request of an unknown method.
pub open spec fn method_not_found_reply(id: JsonView, method: Seq<char>) -> JsonView {
    error_reply(id, -32601i64, "Method not found: "@ + method)
}

/// The text of a string value, or the empty text.
pub open spec fn text_or_empty(t: Option<Seq<char>>) -> Seq<char> {
    match t {
        Some(s) => s,
        None => Seq::empty(),
    }
}

/// A member's value, or the empty object when it is missing.
pub open spec fn or_empty_object(j: Option<JsonView>) -> JsonView {
    match j {
        Some(v) => v,
        None => JsonView::Object(Seq::empty()),
    }
}

/// A validated request of the route search tool, to be answered once the
/// search is done.
#[derive(Debug)]
pub struct SearchRequest {
    pub id: Json,
    pub start_lat: JsonNumber,
    pub start_lon: JsonNumber,
    pub goal_lat: JsonNumber,
    pub goal_lon: JsonNumber,
    pub start_time: Option<String>,
}

/// What to do with a request: nothing, send a reply, or run a route search.
#[derive(Debug)]
pub enum Dispatch {
    Ignore,
    Respond(Json),
    SearchRoute(SearchRequest),
}

pub enum DispatchView {
    Ignore,
    Respond(JsonView),
    SearchRoute {
        id: JsonView,
        start_lat: JsonNumber,
        start_lon: JsonNumber,
        goal_lat: JsonNumber,
        goal_lon: JsonNumber,
        start_time: Option<Seq<char>>,
    },
}

impl View for Dispatch {
    type V = DispatchView;

    open spec fn view(&self) -> DispatchView {
        match self {
            Dispatch::Ignore => DispatchView::Ignore,
            Dispatch::Respond(j) => DispatchView::Respond(j@),
            Dispatch::SearchRoute(s) => DispatchView::SearchRoute {
                id: s.id@,
                start_lat: s.start_lat,
                start_lon: s.start_lon,
                goal_lat: s.goal_lat,
                goal_lon: s.goal_lon,
                start_time: match s.start_time {
                    Some(t) => Some(t@),
                    None => None,
                },
            },
        }
    }
}

/// The tool reply to a call that lacks the numeric argument `name`.
pub open spec fn missing_argument_reply(id: JsonView, name: Seq<char>) -> JsonView {
    tool_text_reply(id, "Missing required argument: "@ + name, true)
}

/// What a `tools/call` request with `params` asks for.
pub open spec fn tools_call_view(id: JsonView, params: JsonView) -> DispatchView {
    let name = text_or_empty(as_text(field(params, "name"@)));
    let args = or_empty_object(field(params, "arguments"@));
    if name != tool_name() {
        DispatchView::Respond(tool_text_reply(id, "Unknown tool: "@ + name, true))
    } else {
        match as_number(field(args, "start_lat"@)) {
            None => DispatchView::Respond(
                missing_argument_reply(id, "start_lat"@),
            ),
            Some(start_lat) => match as_number(field(args, "start_lon"@)) {
                None => DispatchView::Respond(
                    missing_argument_reply(id, "start_lon"@),
                ),
                Some(start_lon) => match as_number(field(args, "goal_lat"@)) {
                    None => DispatchView::Respond(
                        missing_argument_reply(id, "goal_lat"@),
                    ),
                    Some(goal_lat) => match as_number(field(args, "goal_lon"@)) {
                        None => DispatchView::Respond(
                            missing_argument_reply(id, "goal_lon"@),
                        ),
                        Some(goal_lon) => DispatchView::SearchRoute {
                            id,
                            start_lat,
                            start_lon,
                            goal_lat,
                            goal_lon,
                            start_time: as_text(field(args, "start_time"@)),
                        },
                    },
                },
            },
        }
    }
}

/// What a JSON-RPC request asks for. A request without an id is a
/// notification and gets no reply.
pub open spec fn dispatch_view(request: JsonView) -> DispatchView {
    match field(request, "id"@) {
        None => DispatchView::Ignore,
        Some(id) => {
            let method = text_or_empty(as_text(field(request, "method"@)));
            if method == "initialize"@ {
                DispatchView::Respond(initialize_reply(id))
            } else if method == "tools/list"@ {
                DispatchView::Respond(tools_list_reply(id))
            } else if method == "tools/call"@ {
                tools_call_view(id, or_empty_object(field(request, "params"@)))
            } else {
                DispatchView::Respond(method_not_found_reply(id, method))
            }
        },
    }
}

/// The reply that ends a route search: the routes as text, or the error.
pub open spec fn search_reply(id: JsonView, result: Result<RouteResponse, AppError>) -> JsonView {
    match result {
        Ok(response) => tool_text_reply(id, response_text(response), false),
        Err(e) => tool_text_reply(id, e.spec_message(), true),
    }
}

/// The view of an optional member found by `Json::get`.
pub open spec fn found(j: Option<&Json>) -> Option<JsonView> {
    match j {
        Some(v) => Some(v@),
        None => None,
    }
}

/// The view of an optional text.
pub open spec fn opt_text_view(o: Option<String>) -> Option<Seq<char>> {
    match o {
        Some(s) => Some(s@),
        None => None,
    }
}

/// The text of a string value, as `serde_json::Value::as_str` gives it.
fn text_of(j: Option<&Json>) -> (r: Option<String>)
    ensures
        opt_text_view(r) == as_text(found(j)),
{
    match j {
        Some(Json::Str(s)) => Some(s.clone()),
        _ => None,
    }
}

/// The number of a number value.
fn number_of(j: Option<&Json>) -> (r: Option<JsonNumber>)
    ensures
        r == as_number(found(j)),
{
    match j {
        Some(Json::Number(n)) => Some(*n),
        _ => None,
    }
}

fn text_is(s: &String, lit: &str) -> (r: bool)
    ensures
        r == (s@ == lit@),
{
    let other = String::from_str(lit);
    *s == other
}

/// A JSON-RPC 2.0 reply to `id` whose member `key` holds `body`.
pub fn make_reply(id: Json, key: &str, body: Json) -> (j: Json)
    ensures
        j@ == reply(id@, key@, body@),
{
    object3("jsonrpc", Json::text("2.0"), "id", id, key, body)
}

/// The reply to `initialize`.
pub fn handle_initialize(id: Json) -> (j: Json)
    ensures
        j@ == initialize_reply(id@),
{
    let capabilities = object1("tools", Json::empty_object());
    let server_info = object2("name", Json::text("navitime-mcp"), "version", Json::text("0.1.0"));
    let result = object3(
        "protocolVersion",
        Json::text("2024-11-05"),
        "capabilities",
        capabilities,
        "serverInfo",
        server_info,
    );
    make_reply(id, "result", result)
}

fn argument_schema_json(kind: &str, description: &str) -> (j: Json)
    ensures
        j@ == argument_schema(kind@, description@),
{
    object2("type", Json::text(kind), "description", Json::text(description))
}

fn search_tool_json() -> (j: Json)
    ensures
        j@ == search_tool(),
{
    let mut properties: Vec<(String, Json)> = Vec::new();
    push_member(&mut properties, "start_lat", argument_schema_json("number", "Start latitude"));
    push_member(&mut properties, "start_lon", argument_schema_json("number", "Start longitude"));
    push_member(&mut properties, "goal_lat", argument_schema_json("number", "Goal latitude"));
    push_member(&mut properties, "goal_lon", argument_schema_json("number", "Goal longitude"));
    push_member(
        &mut properties,
        "start_time",
        argument_schema_json(
            "string",
            "Departure time in YYYY-MM-DDTHH:MM:SS format. Defaults to current time if not provided.",
        ),
    );
    let mut required: Vec<Json> = Vec::new();
    push_item(&mut required, Json::text("start_lat"));
    push_item(&mut required, Json::text("start_lon"));
    push_item(&mut required, Json::text("goal_lat"));
    push_item(&mut required, Json::text("goal_lon"));
    proof {
        assert(view_members(properties@) =~= seq![
            ("start_lat"@, argument_schema("number"@, "Start latitude"@)),
            ("start_lon"@, argument_schema("number"@, "Start longitude"@)),
            ("goal_lat"@, argument_schema("number"@, "Goal latitude"@)),
            ("goal_lon"@, argument_schema("number"@, "Goal longitude"@)),
            ("start_time"@, argument_schema(
                "string"@,
                "Departure time in YYYY-MM-DDTHH:MM:SS format. Defaults to current time if not provided."@,
            )),
        ]);
        assert(view_items(required@) =~= seq![
            JsonView::Str("start_lat"@),
            JsonView::Str("start_lon"@),
            JsonView::Str("goal_lat"@),
            JsonView::Str("goal_lon"@),
        ]);
    }
    let schema = object3(
        "type",
        Json::text("object"),
        "properties",
        Json::Object(properties),
        "required",
        Json::Array(required),
    );
    object3(
        "name",
        Json::text("search_transit_route"),
        "description",
        Json::text(
            "Finds train/walking transit routes in Japan between two coordinates using Navitime API.",
        ),
        "inputSchema",
        schema,
    )
}

/// The reply to `tools/list`.
pub fn handle_tools_list(id: Json) -> (j: Json)
    ensures
        j@ == tools_list_reply(id@),
{
    let mut tools: Vec<Json> = Vec::new();
    push_item(&mut tools, search_tool_json());
    assert(view_items(tools@) =~= seq![search_tool()]);
    let result = object1("tools", Json::Array(tools));
    make_reply(id, "result", result)
}

/// A tool reply that shows `text`, marked as an error or not.
pub fn tool_text(id: Json, text: String, is_error: bool) -> (j: Json)
    ensures
        j@ == tool_text_reply(id@, text@, is_error),
{
    let item = object2("type", Json::text("text"), "text", Json::Str(text));
    let mut content: Vec<Json> = Vec::new();
    let ghost w = item@;
    push_item(&mut content, item);
    assert(view_items(content@) =~= seq![w]);
    let result = object2("content", Json::Array(content), "isError", Json::Bool(is_error));
    make_reply(id, "result", result)
}

/// A tool reply that reports `message` as an error.
pub fn tool_error(id: Json, message: String) -> (j: Json)
    ensures
        j@ == tool_text_reply(id@, message@, true),
{
    tool_text(id, message, true)
}

fn error_json(id: Json, code: i64, message: String) -> (j: Json)
    ensures
        j@ == error_reply(id@, code, message@),
{
    let body = object2(
        "code",
        Json::Number(JsonNumber::NegInt(code)),
        "message",
        Json::Str(message),
    );
    make_reply(id, "error", body)
}

/// The reply to a line that is no JSON; `message` is the parser's account.
pub fn parse_error_response(message: &str) -> (j: Json)
    ensures
        j@ == parse_error_reply(message@),
{
    let mut text = String::from_str("Parse error: ");
    text.append(message);
    error_json(Json::Null, -32700, text)
}

/// The reply to a request of an unknown method.
pub fn method_not_found(id: Json, method: &str) -> (j: Json)
    ensures
        j@ == method_not_found_reply(id@, method@),
{
    let mut text = String::from_str("Method not found: ");
    text.append(method);
    error_json(id, -32601, text)
}

fn missing_argument(id: Json, name: &str) -> (d: Dispatch)
    ensures
        d@ == DispatchView::Respond(missing_argument_reply(id@, name@)),
{
    let mut text = String::from_str("Missing required argument: ");
    text.append(name);
    Dispatch::Respond(tool_error(id, text))
}

/// What a `tools/call` request with `params` asks for: a route search when
/// it names the route search tool with all four coordinates, else the
/// error reply.
pub fn handle_tools_call(id: Json, params: &Json) -> (d: Dispatch)
    ensures
        d@ == tools_call_view(id@, params@),
{
    let name = match text_of(params.get("name")) {
        Some(n) => n,
        None => String::new(),
    };
    if !text_is(&name, "search_transit_route") {
        let mut text = String::from_str("Unknown tool: ");
        text.append(name.as_str());
        return Dispatch::Respond(tool_error(id, text));
    }
    let empty = Json::empty_object();
    let args: &Json = match params.get("arguments") {
        Some(a) => a,
        None => &empty,
    };
    let start_lat = match number_of(args.get("start_lat")) {
        Some(n) => n,
        None => return missing_argument(id, "start_lat"),
    };
    let start_lon = match number_of(args.get("start_lon")) {
        Some(n) => n,
        None => return missing_argument(id, "start_lon"),
    };
    let goal_lat = match number_of(args.get("goal_lat")) {
        Some(n) => n,
        None => return missing_argument(id, "goal_lat"),
    };
    let goal_lon = match number_of(args.get("goal_lon")) {
        Some(n) => n,
        None => return missing_argument(id, "goal_lon"),
    };
    let start_time = text_of(args.get("start_time"));
    Dispatch::SearchRoute(
        SearchRequest { id, start_lat, start_lon, goal_lat, goal_lon, start_time },
    )
}

/// Decides what to do with a JSON-RPC request: ignore a notification (no
/// id), answer `initialize`, `tools/list` and unknown methods, and turn a
/// `tools/call` into a route search or its error reply.
pub fn dispatch(request: &Json) -> (d: Dispatch)
    ensures
        d@ == dispatch_view(request@),
{
    let id = match request.get("id") {
        Some(i) => crate::json::clone_json(i),
        None => return Dispatch::Ignore,
    };
    let method = match text_of(request.get("method")) {
        Some(m) => m,
        None => String::new(),
    };
    if text_is(&method, "initialize") {
        Dispatch::Respond(handle_initialize(id))
    } else if text_is(&method, "tools/list") {
        Dispatch::Respond(handle_tools_list(id))
    } else if text_is(&method, "tools/call") {
        let empty = Json::empty_object();
        let params: &Json = match request.get("params") {
            Some(p) => p,
            None => &empty,
        };
        handle_tools_call(id, params)
    } else {
        Dispatch::Respond(method_not_found(id, method.as_str()))
    }
}

/// The reply that ends a route search: the routes as text, or the error's
/// message marked as an error.
pub fn finish_route_search(id: Json, result: Result<RouteResponse, AppError>) -> (j: Json)
    ensures
        j@ == search_reply(id@, result),
{
    match result {
        Ok(response) => tool_text(id, format_route_response(&response), false),
        Err(e) => tool_text(id, e.message(), true),
    }
}

proof fn lemma_reply_fields(id: JsonView, key: Seq<char>, body: JsonView)
    requires
        key == "result"@ || key == "error"@,
    ensures
        field(reply(id, key, body), "id"@) == Some(id),
        field(reply(id, key, body), "jsonrpc"@) == Some(JsonView::Str("2.0"@)),
        field(reply(id, key, body), key) == Some(body),
{
    reveal_strlit("jsonrpc");
    reveal_strlit("id");
    reveal_strlit("result");
    reveal_strlit("error");
    let members = seq![("jsonrpc"@, JsonView::Str("2.0"@)), ("id"@, id), (key, body)];
    assert("jsonrpc"@.len() == 7);
    assert("id"@.len() == 2);
    assert(key.len() < 7);
    assert(members[0].0 != "id"@);
    assert(members[0].0 != key);
    assert(members[1].0 != key);
    assert(members.drop_first() =~= seq![("id"@, id), (key, body)]);
    assert(members.drop_first().drop_first() =~= seq![(key, body)]);
    assert(member(members.drop_first(), "id"@) == Some(id));
    assert(member(members, "id"@) == Some(id));
    assert(member(members.drop_first().drop_first(), key) == Some(body));
    assert(member(members.drop_first(), key) == Some(body));
    assert(member(members, key) == Some(body));
}

/// A notification, a request without an id, gets no reply.
pub proof fn notification_gets_no_reply(request: JsonView)
    requires
        field(request, "id"@) is None,
    ensures
        dispatch_view(request) == DispatchView::Ignore,
{
}

/// Every reply to a request with an id is a JSON-RPC 2.0 reply that carries
/// that id, and so is the reply that ends a route search it asked for.
pub proof fn replies_carry_request_id(request: JsonView, result: Result<RouteResponse, AppError>)
    requires
        field(request, "id"@) is Some,
    ensures
        ({
            let id = field(request, "id"@)->0;
            match dispatch_view(request) {
                DispatchView::Respond(r) => field(r, "id"@) == Some(id) && field(r, "jsonrpc"@)
                    == Some(JsonView::Str("2.0"@)),
                DispatchView::SearchRoute { id: search_id, .. } => search_id == id && field(
                    search_reply(search_id, result),
                    "id"@,
                ) == Some(id) && field(search_reply(search_id, result), "jsonrpc"@) == Some(
                    JsonView::Str("2.0"@),
                ),
                DispatchView::Ignore => false,
            }
        }),
{
    let id = field(request, "id"@)->0;
    reveal_strlit("result");
    reveal_strlit("error");
    let method = text_or_empty(as_text(field(request, "method"@)));
    match dispatch_view(request) {
        DispatchView::Respond(r) => {
            if method == "initialize"@ {
                lemma_reply_fields(id, "result"@, initialize_reply(id)->Object_0[2].1);
                assert(r == reply(id, "result"@, initialize_reply(id)->Object_0[2].1));
            } else if method == "tools/list"@ {
                lemma_reply_fields(id, "result"@, tools_list_reply(id)->Object_0[2].1);
                assert(r == reply(id, "result"@, tools_list_reply(id)->Object_0[2].1));
            } else if method == "tools/call"@ {
                let body = r->Object_0[2].1;
                lemma_reply_fields(id, "result"@, body);
                assert(r == reply(id, "result"@, body));
            } else {
                let body = r->Object_0[2].1;
                lemma_reply_fields(id, "error"@, body);
                assert(r == reply(id, "error"@, body));
            }
        },
        DispatchView::SearchRoute { id: search_id, .. } => {
            let r = search_reply(search_id, result);
            lemma_reply_fields(id, "result"@, r->Object_0[2].1);
            assert(r == reply(id, "result"@, r->Object_0[2].1));
        },
        DispatchView::Ignore => {},
    }
}

/// The tool that `tools/list` offers is the one that `tools/call` runs.
pub proof fn listed_tool_is_callable(id: JsonView)
    ensures
        field(tools_list_reply(id), "result"@) == Some(
            JsonView::Object(seq![("tools"@, JsonView::Array(seq![search_tool()]))]),
        ),
        field(search_tool(), "name"@) == Some(JsonView::Str(tool_name())),
{
    reveal_strlit("result");
    lemma_reply_fields(
        id,
        "result"@,
        JsonView::Object(seq![("tools"@, JsonView::Array(seq![search_tool()]))]),
    );
}

proof fn lemma_member_at(members: Seq<(Seq<char>, JsonView)>, key: Seq<char>, k: int)
    requires
        0 <= k < members.len(),
        members[k].0 == key,
        forall|j: int| 0 <= j < k ==> members[j].0 != key,
    ensures
        member(members, key) == Some(members[k].1),
    decreases k,
{
    if k > 0 {
        assert(members[0].0 != key);
        let rest = members.drop_first();
        assert forall|j: int| 0 <= j < k - 1 implies rest[j].0 != key by {
            assert(rest[j] == members[j + 1]);
        }
        lemma_member_at(rest, key, k - 1);
    }
}

/// The content of a tool reply that shows `text`: one text item.
pub open spec fn text_content(text: Seq<char>) -> JsonView {
    JsonView::Array(
        seq![
            JsonView::Object(
                seq![("type"@, JsonView::Str("text"@)), ("text"@, JsonView::Str(text))],
            ),
        ],
    )
}

/// A finished search is reported as a tool error exactly when the search
/// failed: a search that succeeded, whatever routes it found (none too),
/// gives `isError: false` and the text of its routes; a failed one gives
/// `isError: true` and the error's message.
pub proof fn search_reply_marks_only_failures(id: JsonView, result: Result<RouteResponse, AppError>)
    ensures
        ({
            let body = field(search_reply(id, result), "result"@);
            &&& body is Some
            &&& field(body->0, "isError"@) == Some(JsonView::Bool(result is Err))
            &&& field(body->0, "content"@) == Some(
                text_content(
                    match result {
                        Ok(r) => response_text(r),
                        Err(e) => e.spec_message(),
                    },
                ),
            )
        }),
{
    reveal_strlit("result");
    reveal_strlit("content");
    reveal_strlit("isError");
    let text = match result {
        Ok(r) => response_text(r),
        Err(e) => e.spec_message(),
    };
    let content = text_content(text);
    let body = JsonView::Object(
        seq![("content"@, content), ("isError"@, JsonView::Bool(result is Err))],
    );
    assert(search_reply(id, result) == tool_text_reply(id, text, result is Err));
    assert(tool_text_reply(id, text, result is Err) == reply(id, "result"@, body));
    lemma_reply_fields(id, "result"@, body);
    let ms = seq![("content"@, content), ("isError"@, JsonView::Bool(result is Err))];
    assert("content"@[0] != "isError"@[0]);
    assert(ms[0].0 != "isError"@);
    lemma_member_at(ms, "isError"@, 1);
    lemma_member_at(ms, "content"@, 0);
    assert(field(search_reply(id, result), "result"@) == Some(body));
    assert(field(body, "isError"@) == Some(JsonView::Bool(result is Err)));
    assert(field(body, "content"@) == Some(content));
}

/// The schema that `tools/list` gives asks for the four coordinates as
/// numbers, the kind of value that `tools/call` takes for them, and for the
/// departure time as a string.
pub proof fn schema_asks_for_numbers()
    ensures
        ({
            let schema = field(search_tool(), "inputSchema"@)->0;
            let properties = field(schema, "properties"@)->0;
            &&& field(search_tool(), "inputSchema"@) is Some
            &&& field(schema, "properties"@) is Some
            &&& field(schema, "required"@) == Some(
                JsonView::Array(
                    seq![
                        JsonView::Str("start_lat"@),
                        JsonView::Str("start_lon"@),
                        JsonView::Str("goal_lat"@),
                        JsonView::Str("goal_lon"@),
                    ],
                ),
            )
            &&& field(field(properties, "start_lat"@)->0, "type"@) == Some(JsonView::Str("number"@))
            &&& field(field(properties, "start_lon"@)->0, "type"@) == Some(JsonView::Str("number"@))
            &&& field(field(properties, "goal_lat"@)->0, "type"@) == Some(JsonView::Str("number"@))
            &&& field(field(properties, "goal_lon"@)->0, "type"@) == Some(JsonView::Str("number"@))
            &&& field(field(properties, "start_time"@)->0, "type"@) == Some(JsonView::Str("string"@))
        }),
{
    reveal_strlit("name");
    reveal_strlit("description");
    reveal_strlit("inputSchema");
    reveal_strlit("type");
    reveal_strlit("properties");
    reveal_strlit("required");
    reveal_strlit("start_lat");
    reveal_strlit("start_lon");
    reveal_strlit("goal_lat");
    reveal_strlit("goal_lon");
    reveal_strlit("start_time");
    let tool = search_tool()->Object_0;
    assert("description"@[0] != "inputSchema"@[0]);
    lemma_member_at(tool, "inputSchema"@, 2);
    assert(tool[0].0 != "inputSchema"@);
    assert(tool[1].0 != "inputSchema"@);
    let schema = tool[2].1->Object_0;
    assert("type"@.len() == 4);
    assert("properties"@.len() == 10);
    assert("required"@.len() == 8);
    assert(schema[0].0 != "properties"@);
    assert(schema[0].0 != "required"@);
    assert(schema[1].0 != "required"@);
    lemma_member_at(schema, "properties"@, 1);
    assert("properties"@[0] != "required"@[0]);
    lemma_member_at(schema, "required"@, 2);
    let props = schema[1].1->Object_0;
    assert("start_lat"@[8] != "start_lon"@[8]);
    assert("start_lat"@[8] != "start_time"@[8]);
    assert("start_lon"@[8] != "start_time"@[8]);
    assert("goal_lat"@[7] != "goal_lon"@[7]);
    assert(props[0].0 != "start_lon"@);
    assert(props[0].0 != "goal_lat"@);
    assert(props[1].0 != "goal_lat"@);
    assert(props[0].0 != "goal_lon"@);
    assert(props[1].0 != "goal_lon"@);
    assert(props[2].0 != "goal_lon"@);
    assert(props[0].0 != "start_time"@);
    assert(props[1].0 != "start_time"@);
    assert(props[2].0 != "start_time"@);
    assert(props[3].0 != "start_time"@);
    lemma_member_at(props, "start_lat"@, 0);
    lemma_member_at(props, "start_lon"@, 1);
    lemma_member_at(props, "goal_lat"@, 2);
    lemma_member_at(props, "goal_lon"@, 3);
    lemma_member_at(props, "start_time"@, 4);
}

/// A `tools/call` of the route search tool with four numeric coordinates
/// starts a search that carries the request's id, each coordinate under its
/// own name, and the departure time when one is given as a string.
pub proof fn tool_call_passes_arguments(request: JsonView)
    requires
        field(request, "id"@) is Some,
        as_text(field(request, "method"@)) == Some("tools/call"@),
        field(request, "params"@) is Some,
        as_text(field(field(request, "params"@)->0, "name"@)) == Some(tool_name()),
        field(field(request, "params"@)->0, "arguments"@) is Some,
        ({
            let args = field(field(request, "params"@)->0, "arguments"@)->0;
            &&& as_number(field(args, "start_lat"@)) is Some
            &&& as_number(field(args, "start_lon"@)) is Some
            &&& as_number(field(args, "goal_lat"@)) is Some
            &&& as_number(field(args, "goal_lon"@)) is Some
        }),
    ensures
        ({
            let args = field(field(request, "params"@)->0, "arguments"@)->0;
            dispatch_view(request) == DispatchView::SearchRoute {
                id: field(request, "id"@)->0,
                start_lat: as_number(field(args, "start_lat"@))->0,
                start_lon: as_number(field(args, "start_lon"@))->0,
                goal_lat: as_number(field(args, "goal_lat"@))->0,
                goal_lon: as_number(field(args, "goal_lon"@))->0,
                start_time: as_text(field(args, "start_time"@)),
            }
        }),
{
    reveal_strlit("tools/call");
    reveal_strlit("initialize");
    reveal_strlit("tools/list");
    assert("tools/call"@.len() == 10);
    assert("initialize"@.len() == 10);
    assert("tools/list"@.len() == 10);
    assert("tools/call"@[0] != "initialize"@[0]);
    assert("tools/call"@[6] != "tools/list"@[6]);
}

} // verus!
