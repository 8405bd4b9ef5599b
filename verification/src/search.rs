use vstd::prelude::*;

use crate::error::AppError;
use crate::json::JsonNumber;
use crate::models::Coordinate;

verus! {

/// The bits of a binary64 encoding other than the sign bit.
pub const MAGNITUDE_MASK: u64 = 0x7fff_ffff_ffff_ffff;

/// The binary64 encoding of 90.
pub const NINETY_BITS: u64 = 0x4056_8000_0000_0000;

/// The binary64 encoding of 180.
pub const ONE_EIGHTY_BITS: u64 = 0x4066_8000_0000_0000;

/// Whether `n` lies between `-limit` and `limit`, both included, where
/// `limit_bits` is the binary64 encoding of `limit`.
///
/// A `Float` holds a binary64 encoding. With the sign bit cleared, the
/// encodings of the values that are not NaN are ordered as their magnitudes,
/// and every NaN encoding lies above that of infinity, so a NaN lies in no
/// range.
pub open spec fn within(n: JsonNumber, limit: u64, limit_bits: u64) -> bool {
    match n {
        JsonNumber::PosInt(u) => u <= limit,
        JsonNumber::NegInt(i) => -(limit as int) <= i <= limit,
        JsonNumber::Float(bits) => bits & MAGNITUDE_MASK <= limit_bits,
    }
}

/// Whether `n` is a latitude: between -90 and 90 degrees.
pub open spec fn is_latitude(n: JsonNumber) -> bool {
    within(n, 90, NINETY_BITS)
}

/// Whether `n` is a longitude: between -180 and 180 degrees.
pub open spec fn is_longitude(n: JsonNumber) -> bool {
    within(n, 180, ONE_EIGHTY_BITS)
}

/// Tells whether `n` lies between `-limit` and `limit`.
pub fn number_within(n: JsonNumber, limit: u64, limit_bits: u64) -> (r: bool)
    requires
        limit <= i64::MAX,
    ensures
        r == within(n, limit, limit_bits),
{
    match n {
        JsonNumber::PosInt(u) => u <= limit,
        JsonNumber::NegInt(i) => {
            let l = limit as i64;
            -l <= i && i <= l
        },
        JsonNumber::Float(bits) => bits & MAGNITUDE_MASK <= limit_bits,
    }
}

/// A route search that passed the argument checks.
#[derive(Debug)]
pub struct RouteQuery {
    pub start: Coordinate,
    pub goal: Coordinate,
    /// Departure time, `YYYY-MM-DDTHH:MM:SS`.
    pub start_time: String,
}

/// The message that rejects the given coordinates, if any: latitudes are
/// checked before longitudes.
pub open spec fn coordinates_error(
    start_lat: JsonNumber,
    start_lon: JsonNumber,
    goal_lat: JsonNumber,
    goal_lon: JsonNumber,
) -> Option<Seq<char>> {
    if !is_latitude(start_lat) || !is_latitude(goal_lat) {
        Some("Latitude must be between -90 and 90"@)
    } else if !is_longitude(start_lon) || !is_longitude(goal_lon) {
        Some("Longitude must be between -180 and 180"@)
    } else {
        None
    }
}

/// Whether `r` is the outcome of a route search of the given arguments, where
/// `default_time` stands for the departure time when none is given.
pub open spec fn route_query_outcome(
    start_lat: JsonNumber,
    start_lon: JsonNumber,
    goal_lat: JsonNumber,
    goal_lon: JsonNumber,
    start_time: Option<Seq<char>>,
    default_time: Seq<char>,
    r: Result<RouteQuery, AppError>,
) -> bool {
    match coordinates_error(start_lat, start_lon, goal_lat, goal_lon) {
        Some(msg) => r matches Err(AppError::InvalidArgument(m)) && m@ == msg,
        None => r matches Ok(q) && q.start == (Coordinate { lat: start_lat, lon: start_lon })
            && q.goal == (Coordinate { lat: goal_lat, lon: goal_lon }) && q.start_time@
            == match start_time {
            Some(t) => t,
            None => default_time,
        },
    }
}

/// The view of an optional text.
pub open spec fn opt_view(o: Option<String>) -> Option<Seq<char>> {
    match o {
        Some(s) => Some(s@),
        None => None,
    }
}

/// Checks that the start and goal lie on the globe: latitudes within
/// [-90, 90], longitudes within [-180, 180].
pub fn check_coordinates(
    start_lat: JsonNumber,
    start_lon: JsonNumber,
    goal_lat: JsonNumber,
    goal_lon: JsonNumber,
) -> (r: Result<(), AppError>)
    ensures
        match coordinates_error(start_lat, start_lon, goal_lat, goal_lon) {
            Some(msg) => r matches Err(AppError::InvalidArgument(m)) && m@ == msg,
            None => r is Ok,
        },
{
    if !number_within(start_lat, 90, NINETY_BITS) || !number_within(goal_lat, 90, NINETY_BITS) {
        return Err(
            AppError::InvalidArgument(String::from_str("Latitude must be between -90 and 90")),
        );
    }
    if !number_within(start_lon, 180, ONE_EIGHTY_BITS) || !number_within(
        goal_lon,
        180,
        ONE_EIGHTY_BITS,
    ) {
        return Err(
            AppError::InvalidArgument(String::from_str("Longitude must be between -180 and 180")),
        );
    }
    Ok(())
}

/// Checks the coordinates of a route search and settles its departure
/// time: the given one, else `default_time`.
pub fn route_query_at(
    start_lat: JsonNumber,
    start_lon: JsonNumber,
    goal_lat: JsonNumber,
    goal_lon: JsonNumber,
    start_time: Option<String>,
    default_time: String,
) -> (r: Result<RouteQuery, AppError>)
    ensures
        route_query_outcome(
            start_lat,
            start_lon,
            goal_lat,
            goal_lon,
            opt_view(start_time),
            default_time@,
            r,
        ),
{
    match check_coordinates(start_lat, start_lon, goal_lat, goal_lon) {
        Err(e) => Err(e),
        Ok(()) => {
            let time = match start_time {
                Some(t) => t,
                None => default_time,
            };
            Ok(
                RouteQuery {
                    start: Coordinate { lat: start_lat, lon: start_lon },
                    goal: Coordinate { lat: goal_lat, lon: goal_lon },
                    start_time: time,
                },
            )
        },
    }
}

/// Whether `c` is an ASCII decimal digit.
pub open spec fn is_digit(c: char) -> bool {
    '0' <= c <= '9'
}

/// Whether `y` is a year as chrono's `%Y` writes it: at least four digits,
/// with a sign in front when the year lies outside 0 to 9999.
pub open spec fn is_year_text(y: Seq<char>) -> bool {
    ||| y.len() >= 4 && forall|k: int| 0 <= k < y.len() ==> is_digit(#[trigger] y[k])
    ||| y.len() >= 5 && (y[0] == '+' || y[0] == '-') && forall|k: int|
        1 <= k < y.len() ==> is_digit(#[trigger] y[k])
}

/// Whether `s` is `-MM-DDTHH:MM:SS`: the part of a timestamp after the year.
pub open spec fn is_date_time_tail(s: Seq<char>) -> bool {
    &&& s.len() == 15
    &&& s[0] == '-' && s[3] == '-' && s[6] == 'T' && s[9] == ':' && s[12] == ':'
    &&& forall|k: int|
        0 <= k < 15 && k != 0 && k != 3 && k != 6 && k != 9 && k != 12 ==> is_digit(
            #[trigger] s[k],
        )
}

/// Whether `s` is a timestamp `YYYY-MM-DDTHH:MM:SS`, the year as `%Y`
/// writes it (four digits for the years 0 to 9999).
pub open spec fn is_timestamp(s: Seq<char>) -> bool {
    &&& s.len() >= 19
    &&& is_year_text(s.subrange(0, s.len() - 15))
    &&& is_date_time_tail(s.subrange(s.len() - 15, s.len() as int))
}

/// The current local time from `chrono::Local::now().format(..)` with the
/// format `%Y-%m-%dT%H:%M:%S`. Its value depends on the clock and the time
/// zone of the machine and is not stated; its form is what chrono documents
/// for these specifiers: a year of at least four digits (signed outside 0 to
/// 9999), then month, day, hour, minute and second zero-padded to two digits.
#[verifier::external_body]
fn local_time_now() -> (t: String)
    ensures
        is_timestamp(t@),
{
    chrono::Local::now().format("%Y-%m-%dT%H:%M:%S").to_string()
}

/// Whether `r` is the outcome of a route search of the given arguments when
/// the current local time is taken for a missing departure time.
pub open spec fn route_query_now_outcome(
    start_lat: JsonNumber,
    start_lon: JsonNumber,
    goal_lat: JsonNumber,
    goal_lon: JsonNumber,
    start_time: Option<Seq<char>>,
    r: Result<RouteQuery, AppError>,
) -> bool {
    match coordinates_error(start_lat, start_lon, goal_lat, goal_lon) {
        Some(msg) => r matches Err(AppError::InvalidArgument(m)) && m@ == msg,
        None => r matches Ok(q) && q.start == (Coordinate { lat: start_lat, lon: start_lon })
            && q.goal == (Coordinate { lat: goal_lat, lon: goal_lon }) && match start_time {
            Some(t) => q.start_time@ == t,
            None => is_timestamp(q.start_time@),
        },
    }
}

/// Checks the coordinates of a route search and settles its departure time:
/// the given one, else the current local time, which is read only then.
pub fn route_query(
    start_lat: JsonNumber,
    start_lon: JsonNumber,
    goal_lat: JsonNumber,
    goal_lon: JsonNumber,
    start_time: Option<String>,
) -> (r: Result<RouteQuery, AppError>)
    ensures
        route_query_now_outcome(start_lat, start_lon, goal_lat, goal_lon, opt_view(start_time), r),
{
    let reads_clock = check_coordinates(start_lat, start_lon, goal_lat, goal_lon).is_ok()
        && start_time.is_none();
    let default_time = if reads_clock {
        local_time_now()
    } else {
        String::new()
    };
    route_query_at(start_lat, start_lon, goal_lat, goal_lon, start_time, default_time)
}

/// The sign bit of a binary64 encoding.
pub const SIGN_BIT: u64 = 0x8000_0000_0000_0000;

/// A value given as a float is a latitude (a longitude) exactly when its
/// negation is: the ranges are symmetric about zero.
pub proof fn coordinate_ranges_are_symmetric(bits: u64)
    ensures
        is_latitude(JsonNumber::Float(bits)) == is_latitude(JsonNumber::Float(bits ^ SIGN_BIT)),
        is_longitude(JsonNumber::Float(bits)) == is_longitude(JsonNumber::Float(bits ^ SIGN_BIT)),
{
    assert((bits ^ 0x8000_0000_0000_0000u64) & 0x7fff_ffff_ffff_ffffu64 == bits & 0x7fff_ffff_ffff_ffffu64)
        by (bit_vector);
}

} // verus!
