use navitime_mcp::format::format_route_response;
use navitime_mcp::json::JsonNumber;
use navitime_mcp::models::{
    Coordinate, FareDetail, RouteItem, RouteResponse, Section, SectionMove, SectionPoint, StopInfo,
    Summary, SummaryMove,
};
use navitime_mcp::rapidapi::route_query_params;

fn sample_item() -> RouteItem {
    RouteItem {
        summary: Summary {
            move_info: SummaryMove {
                transit_count: Some(2),
                walk_distance: Some(500),
                fare: Some(FareDetail { unit_0: Some(450), unit_1: Some(440), unit_2: None }),
                time: Some(30),
            },
        },
        sections: vec![
            Section::Point(SectionPoint {
                name: Some("Tokyo Station".to_string()),
                coord: Some(Coordinate {
                    lat: JsonNumber::Float(35.6812f64.to_bits()),
                    lon: JsonNumber::Float(139.7671f64.to_bits()),
                }),
            }),
            Section::Move(SectionMove {
                transport: Some("train".to_string()),
                line_name: Some("JR Yamanote Line".to_string()),
                from: Some(StopInfo {
                    name: Some("Tokyo".to_string()),
                    time: Some("2026-01-01T10:00:00".to_string()),
                }),
                to: Some(StopInfo {
                    name: Some("Shibuya".to_string()),
                    time: Some("2026-01-01T10:30:00".to_string()),
                }),
                distance: Some(10000),
                time: Some(30),
            }),
            Section::Point(SectionPoint { name: None, coord: None }),
        ],
    }
}

fn bare_item() -> RouteItem {
    RouteItem {
        summary: Summary {
            move_info: SummaryMove { transit_count: None, walk_distance: None, fare: None, time: None },
        },
        sections: vec![Section::Move(SectionMove {
            transport: None,
            line_name: None,
            from: Some(StopInfo { name: Some("A".to_string()), time: None }),
            to: None,
            distance: None,
            time: Some(-3),
        })],
    }
}

#[test]
fn no_routes() {
    let text = format_route_response(&RouteResponse { items: vec![] });
    assert_eq!(text, "No routes found.\n");
}

#[test]
fn full_route_text() {
    let text = format_route_response(&RouteResponse { items: vec![sample_item()] });
    let expected = "=== Route 1 ===\n\
Total time: 30 min\n\
Fare: 450 yen\n\
Walk distance: 500 m\n\
Transfers: 2\n\
\n\
Sections:\n\
\x20 [Point] Tokyo Station\n\
\x20 [train] JR Yamanote Line\n\
\x20   Depart: 2026-01-01T10:00:00\n\
\x20   Arrive: 2026-01-01T10:30:00\n\
\x20   Time: 30 min\n\
\x20 [Point] ?\n\
\n";
    assert_eq!(text, expected);
}

#[test]
fn routes_are_numbered_in_order() {
    let text = format_route_response(&RouteResponse { items: vec![sample_item(), bare_item()] });
    let second = "=== Route 2 ===\n\nSections:\n  [unknown] \n    Time: -3 min\n\n";
    assert!(text.starts_with("=== Route 1 ===\n"));
    assert!(text.ends_with(second));
    assert!(!text.contains("No routes found."));
}

#[test]
fn query_parameters() {
    let p = route_query_params("35.6812,139.7671".to_string(), "35.6595,139.7004".to_string(), None);
    assert_eq!(
        p,
        vec![
            ("start".to_string(), "35.6812,139.7671".to_string()),
            ("goal".to_string(), "35.6595,139.7004".to_string()),
            ("limit".to_string(), "5".to_string()),
        ]
    );
    let p = route_query_params("1,2".to_string(), "3,4".to_string(), Some("2026-01-01T10:00:00".to_string()));
    assert_eq!(p.len(), 4);
    assert_eq!(p[3], ("start_time".to_string(), "2026-01-01T10:00:00".to_string()));
}
