use vstd::prelude::*;

use crate::calendar_time::{is_clock_reading, now, UtcTimestamp};
use crate::table::{str_at, value_at, Table};
use crate::transit_authorities::SupportedTransitAuthorities;

verus! {

/// One trip of `trips.txt`.
#[derive(Debug)]
pub struct TripRow {
    pub route_id: Option<String>,
    pub service_id: Option<String>,
    pub trip_id: Option<String>,
    pub trip_headsign: Option<String>,
    pub trip_short_name: Option<String>,
    pub direction_id: Option<i64>,
    pub block_id: Option<String>,
    pub transit_authority: Option<SupportedTransitAuthorities>,
    pub parse_date: Option<UtcTimestamp>,
}

/// The columns of `trips.txt` that a trip is read from.
pub open spec fn trip_columns() -> Seq<Seq<char>> {
    seq![
        "route_id"@,
        "service_id"@,
        "trip_id"@,
        "trip_headsign"@,
        "trip_short_name"@,
        "direction_id"@,
        "block_id"@,
    ]
}

/// The trip that row `i` of a table gives, read at `stamp`.
pub open spec fn trip_row_at(
    t: Table,
    i: int,
    ta: Option<SupportedTransitAuthorities>,
    stamp: UtcTimestamp,
) -> TripRow {
    TripRow {
        route_id: t.str_cell("route_id"@, i),
        service_id: t.str_cell("service_id"@, i),
        trip_id: t.str_cell("trip_id"@, i),
        trip_headsign: t.str_cell("trip_headsign"@, i),
        trip_short_name: t.str_cell("trip_short_name"@, i),
        direction_id: t.int64_cell("direction_id"@, i),
        block_id: t.str_cell("block_id"@, i),
        transit_authority: ta,
        parse_date: Some(stamp),
    }
}

impl TripRow {
    /// The names of the columns that a trip is read from.
    pub fn column_names() -> (names: [&'static str; 7])
        ensures
            forall|k: int| 0 <= k < 7 ==> (#[trigger] names@[k])@ == trip_columns()[k],
    {
        [
            "route_id",
            "service_id",
            "trip_id",
            "trip_headsign",
            "trip_short_name",
            "direction_id",
            "block_id",
        ]
    }

    /// One trip per row of the table, in order, each stamped with the time at
    /// which it was read.
    #[verifier::loop_isolation(false)]
    pub fn struct_array_from_dataframe(
        df: &Table,
        ta: Option<SupportedTransitAuthorities>,
    ) -> (rows: Vec<TripRow>)
        ensures
            rows.len() == df.spec_height(),
            forall|i: int|
                0 <= i < rows.len() ==> (#[trigger] rows@[i]).parse_date is Some
                    && is_clock_reading(rows@[i].parse_date.unwrap()) && rows@[i]
                    == trip_row_at(*df, i, ta, rows@[i].parse_date.unwrap()),
            forall|i: int|
                0 <= i < rows.len() ==> {
                &&& (#[trigger] rows@[i]).route_id == df.str_cell("route_id"@, i)
                &&& rows@[i].service_id == df.str_cell("service_id"@, i)
                &&& rows@[i].trip_id == df.str_cell("trip_id"@, i)
                &&& rows@[i].trip_headsign == df.str_cell("trip_headsign"@, i)
                &&& rows@[i].trip_short_name == df.str_cell("trip_short_name"@, i)
                &&& rows@[i].direction_id == df.int64_cell("direction_id"@, i)
                &&& rows@[i].block_id == df.str_cell("block_id"@, i)
                &&& rows@[i].transit_authority == ta
            },
    {
        let h = df.height();
        let mut struct_vect: Vec<TripRow> = Vec::with_capacity(h);
        let route_id_ca = df.str_column("route_id");
        let service_id_ca = df.str_column("service_id");
        let trip_id_ca = df.str_column("trip_id");
        let trip_headsign_ca = df.str_column("trip_headsign");
        let trip_short_name_ca = df.str_column("trip_short_name");
        let direction_id_ca = df.int64_column("direction_id");
        let block_id_ca = df.str_column("block_id");
        let mut i: usize = 0;
        while i < h
            invariant
                struct_vect.len() == i <= h,
                forall|k: int|
                    0 <= k < i ==> (#[trigger] struct_vect@[k]).parse_date is Some
                        && is_clock_reading(struct_vect@[k].parse_date.unwrap()) && struct_vect@[k]
                        == trip_row_at(*df, k, ta, struct_vect@[k].parse_date.unwrap()),
            decreases h - i,
        {
            let row = TripRow {
                route_id: str_at(route_id_ca, i),
                service_id: str_at(service_id_ca, i),
                trip_id: str_at(trip_id_ca, i),
                trip_headsign: str_at(trip_headsign_ca, i),
                trip_short_name: str_at(trip_short_name_ca, i),
                direction_id: value_at(direction_id_ca, i),
                block_id: str_at(block_id_ca, i),
                transit_authority: ta,
                parse_date: Some(now()),
            };
            struct_vect.push(row);
            i = i + 1;
        }
        struct_vect
    }
}

/// Every field of a trip comes from the column of its own name in the same
/// row (route, service, trip, headsign, short name and block from text
/// columns, the direction from an `i64` column); the authority is the one
/// given and the row is stamped.
pub proof fn lemma_trip_row_reads_named_columns(
    t: Table,
    i: int,
    ta: Option<SupportedTransitAuthorities>,
    stamp: UtcTimestamp,
)
    ensures
        ({
            let r = trip_row_at(t, i, ta, stamp);
            &&& r.route_id == t.str_cell("route_id"@, i)
            &&& r.service_id == t.str_cell("service_id"@, i)
            &&& r.trip_id == t.str_cell("trip_id"@, i)
            &&& r.trip_headsign == t.str_cell("trip_headsign"@, i)
            &&& r.trip_short_name == t.str_cell("trip_short_name"@, i)
            &&& r.direction_id == t.int64_cell("direction_id"@, i)
            &&& r.block_id == t.str_cell("block_id"@, i)
            &&& r.transit_authority == ta
            &&& r.parse_date == Some(stamp)
        }),
{
}

} // verus!
