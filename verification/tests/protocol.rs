use navitime_mcp::json::{Json, JsonNumber};
use navitime_mcp::mcp::{
    dispatch, handle_initialize, handle_tools_list, parse_error_response, tool_error, Dispatch,
};

fn s(t: &str) -> Json {
    Json::Str(t.to_string())
}

fn obj(members: Vec<(&str, Json)>) -> Json {
    Json::Object(members.into_iter().map(|(k, v)| (k.to_string(), v)).collect())
}

fn uint(n: u64) -> Json {
    Json::Number(JsonNumber::PosInt(n))
}

fn float(x: f64) -> Json {
    Json::Number(JsonNumber::Float(x.to_bits()))
}

fn tool_reply(id: Json, text: &str, is_error: bool) -> Json {
    obj(vec![
        ("jsonrpc", s("2.0")),
        ("id", id),
        (
            "result",
            obj(vec![
                ("content", Json::Array(vec![obj(vec![("type", s("text")), ("text", s(text))])])),
                ("isError", Json::Bool(is_error)),
            ]),
        ),
    ])
}

fn call(id: Json, params: Json) -> Json {
    obj(vec![("jsonrpc", s("2.0")), ("id", id), ("method", s("tools/call")), ("params", params)])
}

fn respond(d: Dispatch) -> Json {
    match d {
        Dispatch::Respond(j) => j,
        other => panic!("expected a reply, got {:?}", other),
    }
}

#[test]
fn notification_is_ignored() {
    let d = dispatch(&obj(vec![("jsonrpc", s("2.0")), ("method", s("notifications/initialized"))]));
    assert!(matches!(d, Dispatch::Ignore));
    let d = dispatch(&Json::Array(vec![uint(1)]));
    assert!(matches!(d, Dispatch::Ignore));
}

#[test]
fn initialize_reply() {
    let reply = respond(dispatch(&obj(vec![("id", uint(1)), ("method", s("initialize"))])));
    let expected = obj(vec![
        ("jsonrpc", s("2.0")),
        ("id", uint(1)),
        (
            "result",
            obj(vec![
                ("protocolVersion", s("2024-11-05")),
                ("capabilities", obj(vec![("tools", obj(vec![]))])),
                ("serverInfo", obj(vec![("name", s("navitime-mcp")), ("version", s("0.1.0"))])),
            ]),
        ),
    ]);
    assert_eq!(reply, expected);
    assert_eq!(handle_initialize(uint(1)), expected);
}

#[test]
fn null_id_is_answered() {
    let reply = respond(dispatch(&obj(vec![("id", Json::Null), ("method", s("initialize"))])));
    assert_eq!(reply.get("id"), Some(&Json::Null));
}

#[test]
fn tools_list_reply() {
    let id = s("abc");
    let reply = respond(dispatch(&obj(vec![("id", s("abc")), ("method", s("tools/list"))])));
    assert_eq!(reply, handle_tools_list(id));
    let tools = match reply.get("result").and_then(|r| r.get("tools")) {
        Some(Json::Array(t)) => t,
        other => panic!("no tools: {:?}", other),
    };
    assert_eq!(tools.len(), 1);
    assert_eq!(tools[0].get("name"), Some(&s("search_transit_route")));
    let schema = tools[0].get("inputSchema").expect("schema");
    assert_eq!(schema.get("type"), Some(&s("object")));
    assert_eq!(
        schema.get("required"),
        Some(&Json::Array(vec![s("start_lat"), s("start_lon"), s("goal_lat"), s("goal_lon")]))
    );
    let props = schema.get("properties").expect("properties");
    assert_eq!(
        props.get("start_time"),
        Some(&obj(vec![
            ("type", s("string")),
            (
                "description",
                s("Departure time in YYYY-MM-DDTHH:MM:SS format. Defaults to current time if not provided.")
            ),
        ]))
    );
    assert_eq!(
        props.get("goal_lon"),
        Some(&obj(vec![("type", s("number")), ("description", s("Goal longitude"))]))
    );
}

#[test]
fn unknown_method() {
    let reply = respond(dispatch(&obj(vec![("id", uint(5)), ("method", s("prompts/list"))])));
    let expected = obj(vec![
        ("jsonrpc", s("2.0")),
        ("id", uint(5)),
        (
            "error",
            obj(vec![
                ("code", Json::Number(JsonNumber::NegInt(-32601))),
                ("message", s("Method not found: prompts/list")),
            ]),
        ),
    ]);
    assert_eq!(reply, expected);
    let reply = respond(dispatch(&obj(vec![("id", uint(6))])));
    assert_eq!(
        reply.get("error").and_then(|e| e.get("message")),
        Some(&s("Method not found: "))
    );
}

#[test]
fn parse_error() {
    let reply = parse_error_response("expected value at line 1 column 1");
    let expected = obj(vec![
        ("jsonrpc", s("2.0")),
        ("id", Json::Null),
        (
            "error",
            obj(vec![
                ("code", Json::Number(JsonNumber::NegInt(-32700))),
                ("message", s("Parse error: expected value at line 1 column 1")),
            ]),
        ),
    ]);
    assert_eq!(reply, expected);
}

#[test]
fn unknown_tool() {
    let reply = respond(dispatch(&call(uint(2), obj(vec![("name", s("weather"))]))));
    assert_eq!(reply, tool_reply(uint(2), "Unknown tool: weather", true));
    let reply = respond(dispatch(&obj(vec![("id", uint(3)), ("method", s("tools/call"))])));
    assert_eq!(reply, tool_reply(uint(3), "Unknown tool: ", true));
}

#[test]
fn missing_arguments() {
    let full = [
        ("start_lat", 35.6812),
        ("start_lon", 139.7671),
        ("goal_lat", 35.6595),
        ("goal_lon", 139.7004),
    ];
    for skip in 0..4 {
        let args: Vec<(&str, Json)> = full
            .iter()
            .enumerate()
            .filter(|(i, _)| *i != skip)
            .map(|(_, (k, x))| (*k, float(*x)))
            .collect();
        let params = obj(vec![("name", s("search_transit_route")), ("arguments", obj(args))]);
        let reply = respond(dispatch(&call(uint(4), params)));
        let text = format!("Missing required argument: {}", full[skip].0);
        assert_eq!(reply, tool_reply(uint(4), &text, true));
    }
    let params = obj(vec![("name", s("search_transit_route"))]);
    let reply = respond(dispatch(&call(uint(4), params)));
    assert_eq!(reply, tool_reply(uint(4), "Missing required argument: start_lat", true));
    let params = obj(vec![
        ("name", s("search_transit_route")),
        ("arguments", obj(vec![("start_lat", s("35.0"))])),
    ]);
    let reply = respond(dispatch(&call(uint(4), params)));
    assert_eq!(reply, tool_reply(uint(4), "Missing required argument: start_lat", true));
}

#[test]
fn search_call() {
    let params = obj(vec![
        ("name", s("search_transit_route")),
        (
            "arguments",
            obj(vec![
                ("start_lat", float(35.6812)),
                ("start_lon", float(139.7671)),
                ("goal_lat", uint(35)),
                ("goal_lon", Json::Number(JsonNumber::NegInt(-139))),
                ("start_time", s("2026-01-01T10:00:00")),
            ]),
        ),
    ]);
    match dispatch(&call(s("req-9"), params)) {
        Dispatch::SearchRoute(req) => {
            assert_eq!(req.id, s("req-9"));
            assert_eq!(req.start_lat, JsonNumber::Float(35.6812f64.to_bits()));
            assert_eq!(req.start_lon, JsonNumber::Float(139.7671f64.to_bits()));
            assert_eq!(req.goal_lat, JsonNumber::PosInt(35));
            assert_eq!(req.goal_lon, JsonNumber::NegInt(-139));
            assert_eq!(req.start_time, Some("2026-01-01T10:00:00".to_string()));
        },
        other => panic!("expected a search, got {:?}", other),
    }
    let params = obj(vec![
        ("name", s("search_transit_route")),
        (
            "arguments",
            obj(vec![
                ("start_lat", uint(1)),
                ("start_lon", uint(2)),
                ("goal_lat", uint(3)),
                ("goal_lon", uint(4)),
                ("start_time", uint(5)),
            ]),
        ),
    ]);
    match dispatch(&call(uint(1), params)) {
        Dispatch::SearchRoute(req) => assert_eq!(req.start_time, None),
        other => panic!("expected a search, got {:?}", other),
    }
}

#[test]
fn id_of_any_kind_is_echoed() {
    let make_id = || obj(vec![("nested", Json::Array(vec![uint(1), s("x"), Json::Bool(true)]))]);
    let id = make_id();
    let reply = respond(dispatch(&obj(vec![("method", s("tools/list")), ("id", make_id())])));
    assert_eq!(reply.get("id"), Some(&id));
    assert_eq!(reply.get("jsonrpc"), Some(&s("2.0")));
}

#[test]
fn tool_error_reply() {
    assert_eq!(tool_error(uint(8), "boom".to_string()), tool_reply(uint(8), "boom", true));
}

#[test]
fn first_member_wins() {
    let j = obj(vec![("k", uint(1)), ("k", uint(2))]);
    assert_eq!(j.get("k"), Some(&uint(1)));
    assert_eq!(j.get("missing"), None);
    assert_eq!(s("k").get("k"), None);
}
