use navitime_mcp::error::AppError;
use navitime_mcp::json::{Json, JsonNumber};
use navitime_mcp::mcp::finish_route_search;
use navitime_mcp::models::{
    Coordinate, FareDetail, RouteItem, RouteResponse, Section, SectionMove, SectionPoint, StopInfo,
    Summary, SummaryMove,
};
use navitime_mcp::search::{check_coordinates, route_query, route_query_at};

fn num(x: f64) -> JsonNumber {
    JsonNumber::Float(x.to_bits())
}

fn sample_response() -> RouteResponse {
    RouteResponse {
        items: vec![RouteItem {
            summary: Summary {
                move_info: SummaryMove {
                    transit_count: Some(2),
                    walk_distance: Some(500),
                    fare: Some(FareDetail { unit_0: Some(450), unit_1: None, unit_2: None }),
                    time: Some(1800),
                },
            },
            sections: vec![
                Section::Point(SectionPoint {
                    name: Some("Tokyo Station".to_string()),
                    coord: Some(Coordinate { lat: num(35.6812), lon: num(139.7671) }),
                }),
                Section::Move(SectionMove {
                    transport: Some("train".to_string()),
                    line_name: Some("JR Yamanote Line".to_string()),
                    from: Some(StopInfo {
                        name: Some("Tokyo".to_string()),
                        time: Some("2026-01-01T10:00:00".to_string()),
                    }),
                    to: Some(StopInfo {
                        name: Some("Shibuya".to_string()),
                        time: Some("2026-01-01T10:30:00".to_string()),
                    }),
                    distance: Some(10000),
                    time: Some(1800),
                }),
            ],
        }],
    }
}

fn reply_text(reply: &Json) -> (String, bool) {
    let result = reply.get("result").expect("result");
    let content = match result.get("content") {
        Some(Json::Array(items)) => items,
        other => panic!("no content: {:?}", other),
    };
    let text = match content[0].get("text") {
        Some(Json::Str(t)) => t.clone(),
        other => panic!("no text: {:?}", other),
    };
    let is_error = match result.get("isError") {
        Some(Json::Bool(b)) => *b,
        other => panic!("no isError: {:?}", other),
    };
    (text, is_error)
}

#[test]
fn test_search_route_success() {
    let result = route_query(
        num(35.6812),
        num(139.7671),
        num(35.6595),
        num(139.7004),
        Some("2026-01-01T10:00:00".to_string()),
    );
    assert!(result.is_ok());
    let query = result.ok().expect("expected Ok");
    assert_eq!(query.start, Coordinate { lat: num(35.6812), lon: num(139.7671) });
    assert_eq!(query.goal, Coordinate { lat: num(35.6595), lon: num(139.7004) });
    assert_eq!(query.start_time, "2026-01-01T10:00:00");

    let reply = finish_route_search(Json::Number(JsonNumber::PosInt(1)), Ok(sample_response()));
    let (text, is_error) = reply_text(&reply);
    assert!(!is_error);
    assert_eq!(text.matches("=== Route ").count(), 1);
}

#[test]
fn test_search_route_invalid_latitude() {
    let result = route_query(num(91.0), num(139.0), num(35.0), num(139.0), None);
    assert!(result.is_err());
    let err = result.err().expect("expected Err");
    assert!(matches!(err, AppError::InvalidArgument(_)));
    assert_eq!(err.message(), "Invalid argument: Latitude must be between -90 and 90");
}

#[test]
fn test_search_route_api_error_propagation() {
    let result = route_query(num(35.6812), num(139.7671), num(35.6595), num(139.7004), None);
    assert!(result.is_ok());
    let reply = finish_route_search(
        Json::Number(JsonNumber::PosInt(7)),
        Err(AppError::ApiError { status: 429, body: "Rate limit exceeded".to_string() }),
    );
    let (text, is_error) = reply_text(&reply);
    assert!(is_error);
    assert_eq!(text, "API error (HTTP 429): Rate limit exceeded");
    assert_eq!(reply.get("id"), Some(&Json::Number(JsonNumber::PosInt(7))));
}

#[test]
fn test_search_route_defaults_time_when_none() {
    let result = route_query(num(35.6812), num(139.7671), num(35.6595), num(139.7004), None);
    assert!(result.is_ok());
    let query = result.ok().expect("expected Ok");
    assert!(is_timestamp(&query.start_time), "{}", query.start_time);
}

/// `YYYY-MM-DDTHH:MM:SS`, the year with at least four digits (signed outside
/// 0 to 9999).
fn is_timestamp(t: &str) -> bool {
    let chars: Vec<char> = t.chars().collect();
    if chars.len() < 19 {
        return false;
    }
    let (year, tail) = chars.split_at(chars.len() - 15);
    let year_ok = (year.len() >= 4 && year.iter().all(|c| c.is_ascii_digit()))
        || (year.len() >= 5
            && (year[0] == '+' || year[0] == '-')
            && year[1..].iter().all(|c| c.is_ascii_digit()));
    let tail_ok = tail.iter().enumerate().all(|(i, c)| match i {
        0 | 3 => *c == '-',
        6 => *c == 'T',
        9 | 12 => *c == ':',
        _ => c.is_ascii_digit(),
    });
    year_ok && tail_ok
}

#[test]
fn timestamp_form() {
    assert!(is_timestamp("2026-01-01T10:00:00"));
    assert!(is_timestamp("+10000-12-31T23:59:59"));
    assert!(!is_timestamp(""));
    assert!(!is_timestamp("2026-01-01 10:00:00"));
}

#[test]
fn default_time_used_only_without_start_time() {
    let q = route_query_at(
        num(35.0),
        num(139.0),
        num(34.0),
        num(135.0),
        None,
        "2026-02-03T04:05:06".to_string(),
    )
    .ok()
    .expect("valid");
    assert_eq!(q.start_time, "2026-02-03T04:05:06");
    let q = route_query_at(
        num(35.0),
        num(139.0),
        num(34.0),
        num(135.0),
        Some("2026-01-01T00:00:00".to_string()),
        "2026-02-03T04:05:06".to_string(),
    )
    .ok()
    .expect("valid");
    assert_eq!(q.start_time, "2026-01-01T00:00:00");
}

#[test]
fn longitude_out_of_range() {
    let err = check_coordinates(num(35.0), num(180.5), num(35.0), num(139.0)).err().expect("err");
    assert_eq!(err.message(), "Invalid argument: Longitude must be between -180 and 180");
    let err = check_coordinates(num(35.0), num(139.0), num(35.0), num(-181.0)).err().expect("err");
    assert!(matches!(err, AppError::InvalidArgument(_)));
}

#[test]
fn latitude_is_checked_before_longitude() {
    let err = check_coordinates(num(95.0), num(200.0), num(35.0), num(139.0)).err().expect("err");
    assert_eq!(err.message(), "Invalid argument: Latitude must be between -90 and 90");
    let err = check_coordinates(num(35.0), num(200.0), num(-95.0), num(139.0)).err().expect("err");
    assert_eq!(err.message(), "Invalid argument: Latitude must be between -90 and 90");
}

#[test]
fn range_bounds_are_included() {
    assert!(check_coordinates(num(90.0), num(180.0), num(-90.0), num(-180.0)).is_ok());
    assert!(check_coordinates(num(-0.0), num(0.0), num(0.0), num(-0.0)).is_ok());
    assert!(check_coordinates(
        JsonNumber::PosInt(90),
        JsonNumber::PosInt(180),
        JsonNumber::NegInt(-90),
        JsonNumber::NegInt(-180)
    )
    .is_ok());
    assert!(check_coordinates(JsonNumber::PosInt(91), num(0.0), num(0.0), num(0.0)).is_err());
    assert!(check_coordinates(JsonNumber::NegInt(-91), num(0.0), num(0.0), num(0.0)).is_err());
    assert!(check_coordinates(num(0.0), JsonNumber::NegInt(-181), num(0.0), num(0.0)).is_err());
    assert!(check_coordinates(num(90.000000001), num(0.0), num(0.0), num(0.0)).is_err());
    assert!(check_coordinates(num(f64::NAN), num(0.0), num(0.0), num(0.0)).is_err());
    assert!(check_coordinates(num(0.0), num(f64::INFINITY), num(0.0), num(0.0)).is_err());
    assert!(check_coordinates(num(0.0), num(f64::NEG_INFINITY), num(0.0), num(0.0)).is_err());
    assert!(check_coordinates(num(-89.999), num(-179.999), num(0.0), num(0.0)).is_ok());
}

#[test]
fn ranges_are_symmetric_for_floats() {
    for x in [0.0, 12.5, 89.9, 90.0, 90.1, 179.0, 180.0, 180.5] {
        assert_eq!(
            check_coordinates(num(x), num(0.0), num(0.0), num(0.0)).is_ok(),
            check_coordinates(num(-x), num(0.0), num(0.0), num(0.0)).is_ok()
        );
        assert_eq!(
            check_coordinates(num(0.0), num(x), num(0.0), num(0.0)).is_ok(),
            check_coordinates(num(0.0), num(-x), num(0.0), num(0.0)).is_ok()
        );
    }
}

#[test]
fn error_messages() {
    assert_eq!(
        AppError::MissingApiKey.message(),
        "Missing API key: TOKEN_RAPIDAPI environment variable not set"
    );
    assert_eq!(
        AppError::ApiError { status: 500, body: "oops".to_string() }.message(),
        "API error (HTTP 500): oops"
    );
    assert_eq!(AppError::NetworkError("down".to_string()).message(), "Network error: down");
    assert_eq!(AppError::ParsingError("bad".to_string()).message(), "Parsing error: bad");
    assert_eq!(AppError::InvalidArgument("x".to_string()).message(), "Invalid argument: x");
}
