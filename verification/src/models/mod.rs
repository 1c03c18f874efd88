pub mod batch;
pub mod calendar;
pub mod routes;
pub mod stop_times;
pub mod stops;
pub mod trips;

use vstd::prelude::*;

use crate::calendar_time::{
    breaks_after_year, chrono_clock_time, chrono_compact_date, clock_text_meaning,
    compact_date_meaning, is_clock_text, is_compact_date_text, is_short_clock_text,
    short_clock_text_meaning, GtfsDate, GtfsTime,
};
use self::routes::RouteRow;
use self::stop_times::StopTimeRow;
use self::stops::StopRow;
use self::trips::TripRow;

verus! {

/// What a compact-date cell is read as: nothing from an empty cell; from a
/// present one the date that chrono reads, which for eight digits is the
/// date they spell where it exists, and nothing for four digits followed by
/// a punctuation mark such as the `-` of `YYYY-MM-DD`.
pub open spec fn date_cell(cell: Option<String>) -> Option<GtfsDate> {
    match cell {
        Some(s) => if is_compact_date_text(s@) {
            compact_date_meaning(s@)
        } else if breaks_after_year(s@) {
            None
        } else {
            chrono_compact_date(s@)
        },
        None => None,
    }
}

/// What a clock-time cell is read as: nothing from an empty cell; from a
/// present one the time that chrono reads, which for `HH:MM:SS` and
/// `H:MM:SS` is the time they spell where it exists.
pub open spec fn time_cell(cell: Option<String>) -> Option<GtfsTime> {
    match cell {
        Some(s) => if is_clock_text(s@) {
            clock_text_meaning(s@)
        } else if is_short_clock_text(s@) {
            short_clock_text_meaning(s@)
        } else {
            chrono_clock_time(s@)
        },
        None => None,
    }
}

/// A row of any of the feed files that are stored.
#[derive(Debug)]
pub enum TableRow {
    StopRow(StopRow),
    TripRow(TripRow),
    StopTimeRow(StopTimeRow),
    RouteRow(RouteRow),
}

/// The database table that a batch of rows goes to.
#[derive(Debug, Clone, Copy, PartialEq, Eq, Structural)]
pub enum TableKind {
    Trips,
    Stops,
    StopTimes,
    Routes,
}

/// The table that a row belongs in.
pub open spec fn kind_of(row: TableRow) -> TableKind {
    match row {
        TableRow::StopRow(_) => TableKind::Stops,
        TableRow::TripRow(_) => TableKind::Trips,
        TableRow::StopTimeRow(_) => TableKind::StopTimes,
        TableRow::RouteRow(_) => TableKind::Routes,
    }
}

/// Where a batch goes: nowhere when it is empty, else where its first row
/// belongs (a batch is expected to hold rows of one file only).
pub fn batch_kind(rows: &Vec<TableRow>) -> (kind: Option<TableKind>)
    ensures
        kind == (if rows.len() == 0 {
            None::<TableKind>
        } else {
            Some(kind_of(rows@[0]))
        }),
{
    if rows.len() == 0 {
        return None;
    }
    match &rows[0] {
        TableRow::TripRow(_) => Some(TableKind::Trips),
        TableRow::StopRow(_) => Some(TableKind::Stops),
        TableRow::StopTimeRow(_) => Some(TableKind::StopTimes),
        TableRow::RouteRow(_) => Some(TableKind::Routes),
    }
}

/// The trips among the rows, in their order.
pub open spec fn trips_in(rows: Seq<TableRow>) -> Seq<TripRow>
    decreases rows.len(),
{
    if rows.len() == 0 {
        Seq::empty()
    } else {
        let before = trips_in(rows.drop_last());
        match rows.last() {
            TableRow::TripRow(r) => before.push(r),
            _ => before,
        }
    }
}

/// The stops among the rows, in their order.
pub open spec fn stops_in(rows: Seq<TableRow>) -> Seq<StopRow>
    decreases rows.len(),
{
    if rows.len() == 0 {
        Seq::empty()
    } else {
        let before = stops_in(rows.drop_last());
        match rows.last() {
            TableRow::StopRow(r) => before.push(r),
            _ => before,
        }
    }
}

/// The stop times among the rows, in their order.
pub open spec fn stop_times_in(rows: Seq<TableRow>) -> Seq<StopTimeRow>
    decreases rows.len(),
{
    if rows.len() == 0 {
        Seq::empty()
    } else {
        let before = stop_times_in(rows.drop_last());
        match rows.last() {
            TableRow::StopTimeRow(r) => before.push(r),
            _ => before,
        }
    }
}

/// The routes among the rows, in their order.
pub open spec fn routes_in(rows: Seq<TableRow>) -> Seq<RouteRow>
    decreases rows.len(),
{
    if rows.len() == 0 {
        Seq::empty()
    } else {
        let before = routes_in(rows.drop_last());
        match rows.last() {
            TableRow::RouteRow(r) => before.push(r),
            _ => before,
        }
    }
}

/// Takes the trips out of a batch, in order; other rows are dropped.
pub fn trip_rows(rows: Vec<TableRow>) -> (trips: Vec<TripRow>)
    ensures
        trips@ == trips_in(rows@),
{
    let ghost all = rows@;
    let mut trips: Vec<TripRow> = Vec::new();
    for row in it: rows.into_iter()
        invariant
            it.seq() == all,
            trips@ == trips_in(all.take(it.index() as int)),
    {
        proof {
            assert(all.take(it.index() + 1).drop_last() == all.take(it.index() as int));
        }
        match row {
            TableRow::TripRow(r) => trips.push(r),
            _ => {},
        }
    }
    proof {
        assert(all.take(all.len() as int) == all);
    }
    trips
}

/// Takes the stops out of a batch, in order; other rows are dropped.
pub fn stop_rows(rows: Vec<TableRow>) -> (stops: Vec<StopRow>)
    ensures
        stops@ == stops_in(rows@),
{
    let ghost all = rows@;
    let mut stops: Vec<StopRow> = Vec::new();
    for row in it: rows.into_iter()
        invariant
            it.seq() == all,
            stops@ == stops_in(all.take(it.index() as int)),
    {
        proof {
            assert(all.take(it.index() + 1).drop_last() == all.take(it.index() as int));
        }
        match row {
            TableRow::StopRow(r) => stops.push(r),
            _ => {},
        }
    }
    proof {
        assert(all.take(all.len() as int) == all);
    }
    stops
}

/// Takes the stop times out of a batch, in order; other rows are dropped.
pub fn stop_time_rows(rows: Vec<TableRow>) -> (stop_times: Vec<StopTimeRow>)
    ensures
        stop_times@ == stop_times_in(rows@),
{
    let ghost all = rows@;
    let mut stop_times: Vec<StopTimeRow> = Vec::new();
    for row in it: rows.into_iter()
        invariant
            it.seq() == all,
            stop_times@ == stop_times_in(all.take(it.index() as int)),
    {
        proof {
            assert(all.take(it.index() + 1).drop_last() == all.take(it.index() as int));
        }
        match row {
            TableRow::StopTimeRow(r) => stop_times.push(r),
            _ => {},
        }
    }
    proof {
        assert(all.take(all.len() as int) == all);
    }
    stop_times
}

/// Takes the routes out of a batch, in order; other rows are dropped.
pub fn route_rows(rows: Vec<TableRow>) -> (routes: Vec<RouteRow>)
    ensures
        routes@ == routes_in(rows@),
{
    let ghost all = rows@;
    let mut routes: Vec<RouteRow> = Vec::new();
    for row in it: rows.into_iter()
        invariant
            it.seq() == all,
            routes@ == routes_in(all.take(it.index() as int)),
    {
        proof {
            assert(all.take(it.index() + 1).drop_last() == all.take(it.index() as int));
        }
        match row {
            TableRow::RouteRow(r) => routes.push(r),
            _ => {},
        }
    }
    proof {
        assert(all.take(all.len() as int) == all);
    }
    routes
}

/// A batch whose rows all belong in one table goes whole to that table: it
/// is routed there, and taking that table's rows out of it keeps every row,
/// in order.
pub proof fn lemma_uniform_batch_goes_whole(rows: Seq<TableRow>, k: TableKind)
    requires
        forall|i: int| 0 <= i < rows.len() ==> kind_of(#[trigger] rows[i]) == k,
    ensures
        rows.len() > 0 ==> kind_of(rows[0]) == k,
        k == TableKind::Trips ==> trips_in(rows).len() == rows.len() && forall|i: int|
            0 <= i < rows.len() ==> ((#[trigger] rows[i]) matches TableRow::TripRow(r)
                && trips_in(rows)[i] == r),
        k == TableKind::Stops ==> stops_in(rows).len() == rows.len() && forall|i: int|
            0 <= i < rows.len() ==> ((#[trigger] rows[i]) matches TableRow::StopRow(r)
                && stops_in(rows)[i] == r),
        k == TableKind::StopTimes ==> stop_times_in(rows).len() == rows.len() && forall|i: int|
            0 <= i < rows.len() ==> ((#[trigger] rows[i]) matches TableRow::StopTimeRow(r)
                && stop_times_in(rows)[i] == r),
        k == TableKind::Routes ==> routes_in(rows).len() == rows.len() && forall|i: int|
            0 <= i < rows.len() ==> ((#[trigger] rows[i]) matches TableRow::RouteRow(r)
                && routes_in(rows)[i] == r),
    decreases rows.len(),
{
    if rows.len() > 0 {
        let front = rows.drop_last();
        assert forall|i: int| 0 <= i < front.len() implies kind_of(#[trigger] front[i]) == k by {
            assert(front[i] == rows[i]);
        }
        lemma_uniform_batch_goes_whole(front, k);
        assert(kind_of(rows[rows.len() - 1]) == k);
        assert forall|i: int| 0 <= i < front.len() implies #[trigger] rows[i] == front[i] by {}
    }
}

} // verus!
