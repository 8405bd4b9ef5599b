use vstd::prelude::*;

verus! {

/// The endpoint of the Navitime transit route search on RapidAPI.
pub const BASE_URL: &'static str = "https://navitime-route-totalnavi.p.rapidapi.com/route_transit";

/// The host that RapidAPI routes the request by.
pub const RAPIDAPI_HOST: &'static str = "navitime-route-totalnavi.p.rapidapi.com";

/// The view of query parameters.
pub open spec fn params_view(params: Seq<(String, String)>) -> Seq<(Seq<char>, Seq<char>)> {
    Seq::new(params.len(), |i: int| (params[i].0@, params[i].1@))
}

/// The query of a route search from `start` to `goal` ("lat,lon" each):
/// at most five routes, departing at `start_time` when one is given.
pub open spec fn route_params(start: Seq<char>, goal: Seq<char>, start_time: Option<Seq<char>>) -> Seq<
    (Seq<char>, Seq<char>),
> {
    let base = seq![("start"@, start), ("goal"@, goal), ("limit"@, "5"@)];
    match start_time {
        Some(t) => base.push(("start_time"@, t)),
        None => base,
    }
}

/// The query of a route search keeps its direction and its limit: `start`
/// names the start and `goal` the goal, then comes the limit of five routes,
/// and a departure time only adds a fourth parameter after these three.
pub proof fn route_params_keep_direction(
    start: Seq<char>,
    goal: Seq<char>,
    start_time: Option<Seq<char>>,
)
    ensures
        route_params(start, goal, start_time)[0] == ("start"@, start),
        route_params(start, goal, start_time)[1] == ("goal"@, goal),
        route_params(start, goal, start_time)[2] == ("limit"@, "5"@),
        start_time is None ==> route_params(start, goal, start_time).len() == 3,
        start_time matches Some(t) ==> route_params(start, goal, start_time).len() == 4
            && route_params(start, goal, start_time)[3] == ("start_time"@, t),
        route_params(start, goal, start_time).take(3) == route_params(start, goal, None),
{
    assert(route_params(start, goal, start_time).take(3) =~= route_params(start, goal, None));
}

/// The query parameters of a route search request.
pub fn route_query_params(start: String, goal: String, start_time: Option<String>) -> (params: Vec<
    (String, String),
>)
    ensures
        params_view(params@) == route_params(
            start@,
            goal@,
            match start_time {
                Some(t) => Some(t@),
                None => None,
            },
        ),
        params@.len() == if start_time is Some { 4int } else { 3int },
        params@[0].0@ == "start"@ && params@[0].1@ == start@,
        params@[1].0@ == "goal"@ && params@[1].1@ == goal@,
        params@[2].0@ == "limit"@ && params@[2].1@ == "5"@,
        start_time matches Some(t) ==> params@[3].0@ == "start_time"@ && params@[3].1@ == t@,
{
    let ghost (s, g) = (start@, goal@);
    let mut params: Vec<(String, String)> = Vec::new();
    params.push((String::from_str("start"), start));
    params.push((String::from_str("goal"), goal));
    params.push((String::from_str("limit"), String::from_str("5")));
    let ghost base = params@;
    match start_time {
        Some(t) => {
            let ghost tv = t@;
            params.push((String::from_str("start_time"), t));
            assert(params_view(params@) =~= seq![
                ("start"@, s),
                ("goal"@, g),
                ("limit"@, "5"@),
            ].push(("start_time"@, tv)));
        },
        None => {
            assert(params_view(params@) =~= seq![("start"@, s), ("goal"@, g), ("limit"@, "5"@)]);
        },
    }
    params
}

/// Whether the API answered with routes: only status 200 does; any other
/// status is reported as an API error with the body it sent.
pub fn is_success_status(status: u16) -> (ok: bool)
    ensures
        ok == (status == 200),
{
    status == 200
}

} // verus!
