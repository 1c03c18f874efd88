use vstd::prelude::*;

use crate::calendar_time::{is_clock_reading, now, time_from_cell, GtfsTime, UtcTimestamp};
use crate::models::time_cell;
use crate::table::{str_at, value_at, Table};
use crate::transit_authorities::SupportedTransitAuthorities;

verus! {

/// One stop time of `stop_times.txt`: when a trip serves a stop.
#[derive(Debug)]
pub struct StopTimeRow {
    pub trip_id: String,
    pub arrival_time: Option<GtfsTime>,
    pub departure_time: Option<GtfsTime>,
    pub stop_id: String,
    pub stop_sequence: u32,
    pub stop_headsign: Option<String>,
    pub timepoint: Option<u8>,
    pub transit_authority: Option<SupportedTransitAuthorities>,
    pub parse_date: Option<UtcTimestamp>,
}

/// The columns of `stop_times.txt` that a stop time is read from.
pub open spec fn stop_time_columns() -> Seq<Seq<char>> {
    seq![
        "trip_id"@,
        "arrival_time"@,
        "departure_time"@,
        "stop_id"@,
        "stop_sequence"@,
        "stop_headsign"@,
        "timepoint"@,
    ]
}

/// The table has what every stop time needs: a trip and a stop (text) and a
/// sequence number (`u32`) in every row.
pub open spec fn has_stop_time_keys(t: Table) -> bool {
    &&& t.has_full_str_column("trip_id"@)
    &&& t.has_full_str_column("stop_id"@)
    &&& t.has_full_uint32_column("stop_sequence"@)
}

/// The stop time that row `i` of a table gives, read at `stamp`.
pub open spec fn stop_time_row_at(
    t: Table,
    i: int,
    ta: Option<SupportedTransitAuthorities>,
    stamp: UtcTimestamp,
) -> StopTimeRow {
    StopTimeRow {
        trip_id: t.str_cell("trip_id"@, i).unwrap(),
        arrival_time: time_cell(t.str_cell("arrival_time"@, i)),
        departure_time: time_cell(t.str_cell("departure_time"@, i)),
        stop_id: t.str_cell("stop_id"@, i).unwrap(),
        stop_sequence: t.uint32_cell("stop_sequence"@, i).unwrap(),
        stop_headsign: t.str_cell("stop_headsign"@, i),
        timepoint: t.uint8_cell("timepoint"@, i),
        transit_authority: ta,
        parse_date: Some(stamp),
    }
}

impl StopTimeRow {
    /// The names of the columns that a stop time is read from.
    pub fn column_names() -> (names: [&'static str; 7])
        ensures
            forall|k: int| 0 <= k < 7 ==> (#[trigger] names@[k])@ == stop_time_columns()[k],
    {
        [
            "trip_id",
            "arrival_time",
            "departure_time",
            "stop_id",
            "stop_sequence",
            "stop_headsign",
            "timepoint",
        ]
    }

    /// One stop time per row of the table, in order, each stamped with the
    /// time at which it was read. The trip, stop and sequence columns must be
    /// there, of their types, with no empty cell.
    #[verifier::loop_isolation(false)]
    pub fn struct_array_from_dataframe(
        df: &Table,
        ta: Option<SupportedTransitAuthorities>,
    ) -> (rows: Vec<StopTimeRow>)
        requires
            has_stop_time_keys(*df),
        ensures
            rows.len() == df.spec_height(),
            forall|i: int|
                0 <= i < rows.len() ==> (#[trigger] rows@[i]).parse_date is Some
                    && is_clock_reading(rows@[i].parse_date.unwrap()) && rows@[i]
                    == stop_time_row_at(*df, i, ta, rows@[i].parse_date.unwrap()),
            forall|i: int|
                0 <= i < rows.len() ==> {
                &&& Some((#[trigger] rows@[i]).trip_id) == df.str_cell("trip_id"@, i)
                &&& Some(rows@[i].stop_id) == df.str_cell("stop_id"@, i)
                &&& Some(rows@[i].stop_sequence) == df.uint32_cell("stop_sequence"@, i)
                &&& rows@[i].stop_headsign == df.str_cell("stop_headsign"@, i)
                &&& rows@[i].timepoint == df.uint8_cell("timepoint"@, i)
                &&& rows@[i].arrival_time == time_cell(df.str_cell("arrival_time"@, i))
                &&& rows@[i].departure_time == time_cell(df.str_cell("departure_time"@, i))
                &&& rows@[i].transit_authority == ta
            },
    {
        let h = df.height();
        let mut struct_vect: Vec<StopTimeRow> = Vec::with_capacity(h);
        let trip_id_ca = df.str_column("trip_id").unwrap();
        let stop_id_ca = df.str_column("stop_id").unwrap();
        let stop_sequence_ca = df.uint32_column("stop_sequence").unwrap();
        let arrival_time_ca = df.str_column("arrival_time");
        let departure_time_ca = df.str_column("departure_time");
        let stop_headsign_ca = df.str_column("stop_headsign");
        let timepoint_ca = df.uint8_column("timepoint");
        let mut i: usize = 0;
        while i < h
            invariant
                struct_vect.len() == i <= h,
                forall|k: int|
                    0 <= k < i ==> (#[trigger] struct_vect@[k]).parse_date is Some
                        && is_clock_reading(struct_vect@[k].parse_date.unwrap()) && struct_vect@[k]
                        == stop_time_row_at(*df, k, ta, struct_vect@[k].parse_date.unwrap()),
            decreases h - i,
        {
            // Row i has a trip, a stop and a sequence number.
            assert(df.str_cell("trip_id"@, i as int) is Some);
            assert(df.str_cell("stop_id"@, i as int) is Some);
            assert(df.uint32_cell("stop_sequence"@, i as int) is Some);
            let arrival_cell = str_at(arrival_time_ca, i);
            let departure_cell = str_at(departure_time_ca, i);
            let row = StopTimeRow {
                trip_id: trip_id_ca[i].as_ref().unwrap().clone(),
                stop_id: stop_id_ca[i].as_ref().unwrap().clone(),
                stop_sequence: stop_sequence_ca[i].unwrap(),
                arrival_time: time_from_cell(&arrival_cell),
                departure_time: time_from_cell(&departure_cell),
                stop_headsign: str_at(stop_headsign_ca, i),
                timepoint: value_at(timepoint_ca, i),
                transit_authority: ta,
                parse_date: Some(now()),
            };
            struct_vect.push(row);
            i = i + 1;
        }
        struct_vect
    }
}

/// Every field of a stop time comes from the column of its own name in the
/// same row: trip and stop from full text columns, the sequence from a full
/// `u32` column, the times from text columns as read by chrono, the headsign
/// from text and the timepoint from a `u8` column; the authority is the one
/// given and the row is stamped.
pub proof fn lemma_stop_time_row_reads_named_columns(
    t: Table,
    i: int,
    ta: Option<SupportedTransitAuthorities>,
    stamp: UtcTimestamp,
)
    requires
        has_stop_time_keys(t),
        0 <= i < t.spec_height(),
    ensures
        ({
            let r = stop_time_row_at(t, i, ta, stamp);
            &&& Some(r.trip_id) == t.str_cell("trip_id"@, i)
            &&& Some(r.stop_id) == t.str_cell("stop_id"@, i)
            &&& Some(r.stop_sequence) == t.uint32_cell("stop_sequence"@, i)
            &&& r.arrival_time == time_cell(t.str_cell("arrival_time"@, i))
            &&& r.departure_time == time_cell(t.str_cell("departure_time"@, i))
            &&& r.stop_headsign == t.str_cell("stop_headsign"@, i)
            &&& r.timepoint == t.uint8_cell("timepoint"@, i)
            &&& r.transit_authority == ta
            &&& r.parse_date == Some(stamp)
        }),
{
    assert(t.str_cell("trip_id"@, i) is Some);
    assert(t.str_cell("stop_id"@, i) is Some);
    assert(t.uint32_cell("stop_sequence"@, i) is Some);
}

} // verus!
