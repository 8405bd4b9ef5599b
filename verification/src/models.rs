use vstd::prelude::*;

use crate::json::JsonNumber;

verus! {

/// The routes that a transit search found.
#[derive(Clone, Debug)]
pub struct RouteResponse {
    pub items: Vec<RouteItem>,
}

/// One route: its summary and its sections in travel order.
#[derive(Clone, Debug)]
pub struct RouteItem {
    pub summary: Summary,
    pub sections: Vec<Section>,
}

#[derive(Clone, Debug)]
pub struct Summary {
    pub move_info: SummaryMove,
}

/// Totals of a route: transfers, walking distance (m), fare and time (min).
#[derive(Clone, Debug)]
pub struct SummaryMove {
    pub transit_count: Option<i32>,
    pub walk_distance: Option<i32>,
    pub fare: Option<FareDetail>,
    pub time: Option<i32>,
}

/// Fares of a route in yen.
#[derive(Clone, Debug)]
pub struct FareDetail {
    pub unit_0: Option<i32>,
    pub unit_1: Option<i32>,
    pub unit_2: Option<i32>,
}

/// A section of a route: a place passed, or a move between places.
#[derive(Clone, Debug)]
pub enum Section {
    Point(SectionPoint),
    Move(SectionMove),
}

#[derive(Clone, Debug)]
pub struct SectionPoint {
    pub name: Option<String>,
    pub coord: Option<Coordinate>,
}

/// A move: its means of transport, line, ends, distance (m) and time (min).
#[derive(Clone, Debug)]
pub struct SectionMove {
    pub transport: Option<String>,
    pub line_name: Option<String>,
    pub from: Option<StopInfo>,
    pub to: Option<StopInfo>,
    pub distance: Option<i32>,
    pub time: Option<i32>,
}

#[derive(Clone, Debug)]
pub struct StopInfo {
    pub name: Option<String>,
    pub time: Option<String>,
}

/// A place by latitude and longitude in degrees.
#[derive(Clone, Copy, Debug, PartialEq, Eq, Structural)]
pub struct Coordinate {
    pub lat: JsonNumber,
    pub lon: JsonNumber,
}

} // verus!
