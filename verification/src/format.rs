use vstd::prelude::*;

use crate::decimal::{int_decimal, nat_digits, push_i64, push_u64};
use crate::models::{RouteItem, RouteResponse, Section, StopInfo, SummaryMove};

verus! {

/// The text of `o`, or `default` when there is none.
pub open spec fn text_or(o: Option<String>, default: Seq<char>) -> Seq<char> {
    match o {
        Some(s) => s@,
        None => default,
    }
}

/// `prefix`, the decimal text of the value and `suffix`; nothing without a value.
pub open spec fn int_line(prefix: Seq<char>, v: Option<i32>, suffix: Seq<char>) -> Seq<char> {
    match v {
        Some(x) => prefix + int_decimal(x as int) + suffix,
        None => Seq::empty(),
    }
}

/// `prefix`, the time of the stop and a line break; nothing without a time.
pub open spec fn stop_time_line(prefix: Seq<char>, stop: Option<StopInfo>) -> Seq<char> {
    match stop {
        Some(s) => match s.time {
            Some(t) => prefix + t@ + "\n"@,
            None => Seq::empty(),
        },
        None => Seq::empty(),
    }
}

/// The summary lines of a route: total time, fare, walking distance and
/// transfers, each only when the summary holds it.
///
/// These are the summary fields that `SummaryMove` has. A route summary of
/// the API may also carry an IC fare, a distance and departure and arrival
/// times; the model does not hold them, so no line shows them.
pub open spec fn summary_text(m: SummaryMove) -> Seq<char> {
    int_line("Total time: "@, m.time, " min\n"@) + match m.fare {
        Some(f) => int_line("Fare: "@, f.unit_0, " yen\n"@),
        None => Seq::empty(),
    } + int_line("Walk distance: "@, m.walk_distance, " m\n"@) + int_line(
        "Transfers: "@,
        m.transit_count,
        "\n"@,
    )
}

/// The lines of one section of a route.
///
/// A point shows its name, or `?`. A move shows its means of transport in
/// brackets (the model's `transport` is that text, such as `train`), then its
/// line name, the times of its `from` and `to` stops as its departure and
/// arrival, and its time. The model holds no separate move type, no line or
/// company record and no departure or arrival time of its own, so those are
/// taken from the fields above or left out.
pub open spec fn section_text(s: Section) -> Seq<char> {
    match s {
        Section::Point(p) => "  [Point] "@ + text_or(p.name, "?"@) + "\n"@,
        Section::Move(m) => "  ["@ + text_or(m.transport, "unknown"@) + "] "@ + text_or(
            m.line_name,
            Seq::empty(),
        ) + "\n"@ + stop_time_line("    Depart: "@, m.from) + stop_time_line("    Arrive: "@, m.to)
            + int_line("    Time: "@, m.time, " min\n"@),
    }
}

/// The lines of the sections, in order.
pub open spec fn sections_text(sections: Seq<Section>) -> Seq<char>
    decreases sections.len(),
{
    if sections.len() == 0 {
        Seq::empty()
    } else {
        sections_text(sections.drop_last()) + section_text(sections.last())
    }
}

/// The block of the route numbered `number`.
pub open spec fn route_text(number: nat, item: RouteItem) -> Seq<char> {
    "=== Route "@ + nat_digits(number) + " ===\n"@ + summary_text(item.summary.move_info)
        + "\nSections:\n"@ + sections_text(item.sections@) + "\n"@
}

/// The blocks of the routes, numbered from 1 in order.
pub open spec fn routes_text(items: Seq<RouteItem>) -> Seq<char>
    decreases items.len(),
{
    if items.len() == 0 {
        Seq::empty()
    } else {
        routes_text(items.drop_last()) + route_text(items.len(), items.last())
    }
}

/// The text that a tool reply shows for a search result.
pub open spec fn response_text(response: RouteResponse) -> Seq<char> {
    routes_text(response.items@) + if response.items@.len() == 0 {
        "No routes found.\n"@
    } else {
        Seq::empty()
    }
}

fn push_text_or(out: &mut String, o: &Option<String>, default: &str)
    ensures
        final(out)@ == old(out)@ + text_or(*o, default@),
{
    match o {
        Some(s) => out.append(s.as_str()),
        None => out.append(default),
    }
}

fn push_int_line(out: &mut String, prefix: &str, v: Option<i32>, suffix: &str)
    ensures
        final(out)@ == old(out)@ + int_line(prefix@, v, suffix@),
{
    match v {
        Some(x) => {
            out.append(prefix);
            push_i64(out, x as i64);
            out.append(suffix);
        },
        None => {
            assert(out@ == out@ + Seq::<char>::empty());
        },
    }
}

fn push_stop_time_line(out: &mut String, prefix: &str, stop: &Option<StopInfo>)
    ensures
        final(out)@ == old(out)@ + stop_time_line(prefix@, *stop),
{
    match stop {
        Some(s) => match &s.time {
            Some(t) => {
                out.append(prefix);
                out.append(t.as_str());
                out.append("\n");
            },
            None => {
                assert(out@ == out@ + Seq::<char>::empty());
            },
        },
        None => {
            assert(out@ == out@ + Seq::<char>::empty());
        },
    }
}

fn push_summary(out: &mut String, m: &SummaryMove)
    ensures
        final(out)@ == old(out)@ + summary_text(*m),
{
    let ghost start = out@;
    push_int_line(out, "Total time: ", m.time, " min\n");
    let ghost after_time = out@;
    match &m.fare {
        Some(f) => push_int_line(out, "Fare: ", f.unit_0, " yen\n"),
        None => {},
    }
    let ghost after_fare = out@;
    push_int_line(out, "Walk distance: ", m.walk_distance, " m\n");
    push_int_line(out, "Transfers: ", m.transit_count, "\n");
    proof {
        let fare_text = if m.fare is Some {
            int_line("Fare: "@, m.fare->0.unit_0, " yen\n"@)
        } else {
            Seq::<char>::empty()
        };
        assert(after_fare == after_time + fare_text);
        assert(out@ =~= start + summary_text(*m));
    }
}

fn push_section(out: &mut String, section: &Section)
    ensures
        final(out)@ == old(out)@ + section_text(*section),
{
    let ghost start = out@;
    match section {
        Section::Point(p) => {
            out.append("  [Point] ");
            push_text_or(out, &p.name, "?");
            out.append("\n");
            assert(out@ =~= start + section_text(*section));
        },
        Section::Move(m) => {
            out.append("  [");
            push_text_or(out, &m.transport, "unknown");
            out.append("] ");
            push_text_or(out, &m.line_name, "");
            proof { reveal_strlit(""); }
            out.append("\n");
            push_stop_time_line(out, "    Depart: ", &m.from);
            push_stop_time_line(out, "    Arrive: ", &m.to);
            push_int_line(out, "    Time: ", m.time, " min\n");
            assert(""@ =~= Seq::<char>::empty());
            assert(out@ =~= start + section_text(*section));
        },
    }
}

fn push_route(out: &mut String, number: usize, item: &RouteItem)
    ensures
        final(out)@ == old(out)@ + route_text(number as nat, *item),
{
    let ghost start = out@;
    out.append("=== Route ");
    push_u64(out, number as u64);
    out.append(" ===\n");
    push_summary(out, &item.summary.move_info);
    out.append("\nSections:\n");
    let ghost before_sections = out@;
    let mut i: usize = 0;
    while i < item.sections.len()
        invariant
            0 <= i <= item.sections.len(),
            out@ == before_sections + sections_text(item.sections@.subrange(0, i as int)),
        decreases item.sections.len() - i,
    {
        push_section(out, &item.sections[i]);
        proof {
            let s = item.sections@.subrange(0, i + 1);
            assert(s.drop_last() =~= item.sections@.subrange(0, i as int));
            assert(s.last() == item.sections@[i as int]);
        }
        i = i + 1;
    }
    out.append("\n");
    proof {
        assert(item.sections@.subrange(0, item.sections.len() as int) =~= item.sections@);
        assert(out@ =~= start + route_text(number as nat, *item));
    }
}

/// The text that shows the routes of a search result: each route numbered
/// from 1 with its summary and sections, or a note that none was found.
pub fn format_route_response(response: &RouteResponse) -> (text: String)
    ensures
        text@ == response_text(*response),
{
    let mut out = String::new();
    let mut i: usize = 0;
    while i < response.items.len()
        invariant
            0 <= i <= response.items.len(),
            out@ == routes_text(response.items@.subrange(0, i as int)),
        decreases response.items.len() - i,
    {
        push_route(&mut out, i + 1, &response.items[i]);
        proof {
            let s = response.items@.subrange(0, i + 1);
            assert(s.drop_last() =~= response.items@.subrange(0, i as int));
            assert(s.last() == response.items@[i as int]);
        }
        i = i + 1;
    }
    proof {
        assert(response.items@.subrange(0, response.items.len() as int) =~= response.items@);
    }
    if response.items.len() == 0 {
        out.append("No routes found.\n");
    } else {
        assert(out@ =~= out@ + Seq::<char>::empty());
    }
    out
}

/// A result without routes shows only the note that none was found; the
/// text of a result with routes opens with the header of the first route.
pub proof fn route_text_opens_with_first_route(response: RouteResponse)
    ensures
        response.items@.len() == 0 ==> response_text(response) == "No routes found.\n"@,
        response.items@.len() > 0 ==> response_text(response).take(
            ("=== Route 1 ===\n"@).len() as int,
        ) == "=== Route 1 ===\n"@,
{
    if response.items@.len() > 0 {
        lemma_routes_text_prefix(response.items@);
        reveal_strlit("=== Route 1 ===\n");
        reveal_strlit("=== Route ");
        reveal_strlit(" ===\n");
        assert(nat_digits(1) == seq!['1']);
        assert("=== Route "@ + nat_digits(1) + " ===\n"@ =~= "=== Route 1 ===\n"@);
    } else {
        assert(routes_text(response.items@) == Seq::<char>::empty());
        assert(Seq::<char>::empty() + "No routes found.\n"@ =~= "No routes found.\n"@);
    }
}

proof fn lemma_routes_text_prefix(items: Seq<RouteItem>)
    requires
        items.len() > 0,
    ensures
        routes_text(items).take(("=== Route "@ + nat_digits(1) + " ===\n"@).len() as int)
            == "=== Route "@ + nat_digits(1) + " ===\n"@,
    decreases items.len(),
{
    let header = "=== Route "@ + nat_digits(1) + " ===\n"@;
    if items.len() == 1 {
        assert(items.drop_last().len() == 0);
        assert(routes_text(items.drop_last()) == Seq::<char>::empty());
        assert(routes_text(items) == Seq::<char>::empty() + route_text(1, items.last()));
        assert(routes_text(items) =~= route_text(1, items.last()));
        assert(route_text(1, items.last()).take(header.len() as int) =~= header);
    } else {
        lemma_routes_text_prefix(items.drop_last());
        let prev = routes_text(items.drop_last());
        assert(routes_text(items) == prev + route_text(items.len(), items.last()));
        assert(prev.len() >= header.len());
        assert((prev + route_text(items.len(), items.last())).take(header.len() as int) =~= prev.take(
            header.len() as int,
        ));
    }
}

/// Where the piece numbered `k` starts when `pieces` are written one after
/// another: the total length of the pieces before it.
pub open spec fn offset(pieces: Seq<Seq<char>>, k: int) -> int
    decreases k,
{
    if k <= 0 {
        0
    } else {
        offset(pieces, k - 1) + pieces[k - 1].len()
    }
}

/// The lines of each section, one piece per section.
pub open spec fn section_pieces(sections: Seq<Section>) -> Seq<Seq<char>> {
    Seq::new(sections.len(), |i: int| section_text(sections[i]))
}

/// The block of each route, one piece per route, numbered from 1.
pub open spec fn route_pieces(items: Seq<RouteItem>) -> Seq<Seq<char>> {
    Seq::new(items.len(), |i: int| route_text((i + 1) as nat, items[i]))
}

/// The text that opens a route block, up to its list of sections.
pub open spec fn route_head(number: nat, item: RouteItem) -> Seq<char> {
    "=== Route "@ + nat_digits(number) + " ===\n"@ + summary_text(item.summary.move_info)
        + "\nSections:\n"@
}

spec fn joined(pieces: Seq<Seq<char>>) -> Seq<char>
    decreases pieces.len(),
{
    if pieces.len() == 0 {
        Seq::empty()
    } else {
        joined(pieces.drop_last()) + pieces.last()
    }
}

proof fn lemma_offset_prefix(pieces: Seq<Seq<char>>, k: int)
    requires
        pieces.len() > 0,
        0 <= k <= pieces.len() - 1,
    ensures
        offset(pieces.drop_last(), k) == offset(pieces, k),
    decreases k,
{
    if k > 0 {
        lemma_offset_prefix(pieces, k - 1);
    }
}

proof fn lemma_offset_monotone(pieces: Seq<Seq<char>>, j: int, k: int)
    requires
        0 <= j <= k,
    ensures
        offset(pieces, j) <= offset(pieces, k),
    decreases k,
{
    if j < k {
        lemma_offset_monotone(pieces, j, k - 1);
    }
}

proof fn lemma_joined_len(pieces: Seq<Seq<char>>)
    ensures
        joined(pieces).len() == offset(pieces, pieces.len() as int),
    decreases pieces.len(),
{
    if pieces.len() > 0 {
        lemma_joined_len(pieces.drop_last());
        lemma_offset_prefix(pieces, pieces.len() - 1);
    }
}

proof fn lemma_joined_piece(pieces: Seq<Seq<char>>, k: int)
    requires
        0 <= k < pieces.len(),
    ensures
        joined(pieces).subrange(offset(pieces, k), offset(pieces, k + 1)) == pieces[k],
    decreases pieces.len(),
{
    let n = pieces.len() as int;
    let front = pieces.drop_last();
    lemma_joined_len(front);
    lemma_offset_prefix(pieces, n - 1);
    assert(joined(pieces) == joined(front) + pieces.last());
    if k < n - 1 {
        lemma_joined_piece(front, k);
        lemma_offset_prefix(pieces, k);
        lemma_offset_prefix(pieces, k + 1);
        lemma_offset_monotone(front, k, k + 1);
        lemma_offset_monotone(front, k + 1, n - 1);
        lemma_offset_monotone(front, 0, k);
        assert(front[k] == pieces[k]);
        assert(joined(pieces).subrange(offset(pieces, k), offset(pieces, k + 1)) =~= joined(
            front,
        ).subrange(offset(front, k), offset(front, k + 1)));
    } else {
        assert(joined(pieces).subrange(offset(pieces, k), offset(pieces, k + 1))
            =~= pieces.last());
    }
}

proof fn lemma_joined_layout(pieces: Seq<Seq<char>>)
    ensures
        joined(pieces).len() == offset(pieces, pieces.len() as int),
        forall|k: int|
            0 <= k < pieces.len() ==> joined(pieces).subrange(
                offset(pieces, k),
                offset(pieces, k + 1),
            ) == #[trigger] pieces[k],
{
    lemma_joined_len(pieces);
    assert forall|k: int| 0 <= k < pieces.len() implies joined(pieces).subrange(
        offset(pieces, k),
        offset(pieces, k + 1),
    ) == #[trigger] pieces[k] by {
        lemma_joined_piece(pieces, k);
    }
}

proof fn lemma_sections_joined(sections: Seq<Section>)
    ensures
        sections_text(sections) == joined(section_pieces(sections)),
    decreases sections.len(),
{
    if sections.len() > 0 {
        lemma_sections_joined(sections.drop_last());
        assert(section_pieces(sections.drop_last()) =~= section_pieces(sections).drop_last());
    }
}

proof fn lemma_routes_joined(items: Seq<RouteItem>)
    ensures
        routes_text(items) == joined(route_pieces(items)),
    decreases items.len(),
{
    if items.len() > 0 {
        lemma_routes_joined(items.drop_last());
        assert(route_pieces(items.drop_last()) =~= route_pieces(items).drop_last());
    }
}

proof fn lemma_middle(a: Seq<char>, b: Seq<char>, c: Seq<char>, i: int, j: int)
    requires
        0 <= i <= j <= b.len(),
    ensures
        (a + b + c).subrange(a.len() + i, a.len() + j) == b.subrange(i, j),
        (a + b + c).subrange(0, a.len() as int) == a,
        (a + b + c).len() == a.len() + b.len() + c.len(),
{
    assert((a + b + c).subrange(a.len() + i, a.len() + j) =~= b.subrange(i, j));
    assert((a + b + c).subrange(0, a.len() as int) =~= a);
}

/// A route block lists every section of the route, in order, and nothing
/// more: after the opening lines come the lines of section 0, 1, 2, … each at
/// the place where the lines of the sections before it end, and then only the
/// closing line break.
pub proof fn route_lists_every_section(number: nat, item: RouteItem)
    ensures
        ({
            let pieces = section_pieces(item.sections@);
            let head = route_head(number, item).len() as int;
            &&& route_text(number, item).len() == head + offset(pieces, pieces.len() as int) + 1
            &&& route_text(number, item).subrange(0, head) == route_head(number, item)
            &&& forall|k: int|
                0 <= k < item.sections@.len() ==> route_text(number, item).subrange(
                    head + offset(pieces, k),
                    head + offset(pieces, k + 1),
                ) == section_text(#[trigger] item.sections@[k])
        }),
{
    let pieces = section_pieces(item.sections@);
    let head = route_head(number, item);
    let body = sections_text(item.sections@);
    let tail = "\n"@;
    reveal_strlit("\n");
    assert(tail.len() == 1);
    lemma_sections_joined(item.sections@);
    lemma_joined_layout(pieces);
    assert(route_text(number, item) == head + body + tail);
    lemma_middle(head, body, tail, 0, 0);
    assert forall|k: int| 0 <= k < item.sections@.len() implies route_text(number, item).subrange(
        head.len() + offset(pieces, k),
        head.len() + offset(pieces, k + 1),
    ) == section_text(#[trigger] item.sections@[k]) by {
        assert(pieces[k] == section_text(item.sections@[k]));
        lemma_offset_monotone(pieces, k, k + 1);
        lemma_offset_monotone(pieces, k + 1, pieces.len() as int);
        lemma_offset_monotone(pieces, 0, k);
        lemma_middle(head, body, tail, offset(pieces, k), offset(pieces, k + 1));
    }
}

/// The text of a result lists every route, in order and numbered from 1:
/// the block of route `k + 1` stands where the blocks before it end, and
/// nothing follows the last one. Only a result without routes gets the note.
pub proof fn response_lists_every_route(response: RouteResponse)
    ensures
        ({
            let pieces = route_pieces(response.items@);
            &&& response.items@.len() > 0 ==> response_text(response).len() == offset(
                pieces,
                pieces.len() as int,
            )
            &&& forall|k: int|
                0 <= k < response.items@.len() ==> response_text(response).subrange(
                    offset(pieces, k),
                    offset(pieces, k + 1),
                ) == route_text((k + 1) as nat, #[trigger] response.items@[k])
        }),
{
    let items = response.items@;
    let pieces = route_pieces(items);
    lemma_routes_joined(items);
    lemma_joined_layout(pieces);
    if items.len() > 0 {
        assert(response_text(response) =~= routes_text(items));
    }
    assert forall|k: int| 0 <= k < items.len() implies response_text(response).subrange(
        offset(pieces, k),
        offset(pieces, k + 1),
    ) == route_text((k + 1) as nat, #[trigger] items[k]) by {
        assert(pieces[k] == route_text((k + 1) as nat, items[k]));
        assert(response_text(response) =~= routes_text(items));
    }
}

} // verus!
