use vstd::prelude::*;

use crate::calendar_time::{is_clock_reading, now, UtcTimestamp};
use crate::table::{str_at, value_at, Table};
use crate::transit_authorities::SupportedTransitAuthorities;

verus! {

/// One stop of `stops.txt`.
#[derive(Debug)]
pub struct StopRow {
    pub stop_id: Option<String>,
    pub stop_code: Option<String>,
    pub stop_name: Option<String>,
    pub stop_desc: Option<String>,
    pub zone_id: Option<String>,
    pub location_type: Option<i64>,
    pub parent_station: Option<String>,
    pub platform_code: Option<String>,
    pub transit_authority: Option<SupportedTransitAuthorities>,
    pub parse_date: Option<UtcTimestamp>,
}

/// The columns of `stops.txt` that a stop is read from.
pub open spec fn stop_columns() -> Seq<Seq<char>> {
    seq![
        "stop_id"@,
        "stop_code"@,
        "stop_name"@,
        "stop_desc"@,
        "zone_id"@,
        "location_type"@,
        "parent_station"@,
        "platform_code"@,
    ]
}

/// The stop that row `i` of a table gives, read at `stamp`.
pub open spec fn stop_row_at(
    t: Table,
    i: int,
    ta: Option<SupportedTransitAuthorities>,
    stamp: UtcTimestamp,
) -> StopRow {
    StopRow {
        stop_id: t.str_cell("stop_id"@, i),
        stop_code: t.str_cell("stop_code"@, i),
        stop_name: t.str_cell("stop_name"@, i),
        stop_desc: t.str_cell("stop_desc"@, i),
        zone_id: t.str_cell("zone_id"@, i),
        location_type: t.int64_cell("location_type"@, i),
        parent_station: t.str_cell("parent_station"@, i),
        platform_code: t.str_cell("platform_code"@, i),
        transit_authority: ta,
        parse_date: Some(stamp),
    }
}

impl StopRow {
    /// The names of the columns that a stop is read from.
    pub fn column_names() -> (names: [&'static str; 8])
        ensures
            forall|k: int| 0 <= k < 8 ==> (#[trigger] names@[k])@ == stop_columns()[k],
    {
        [
            "stop_id",
            "stop_code",
            "stop_name",
            "stop_desc",
            "zone_id",
            "location_type",
            "parent_station",
            "platform_code",
        ]
    }

    /// One stop per row of the table, in order, each stamped with the time at
    /// which it was read.
    #[verifier::loop_isolation(false)]
    pub fn struct_array_from_dataframe(
        df: &Table,
        ta: Option<SupportedTransitAuthorities>,
    ) -> (rows: Vec<StopRow>)
        ensures
            rows.len() == df.spec_height(),
            forall|i: int|
                0 <= i < rows.len() ==> (#[trigger] rows@[i]).parse_date is Some
                    && is_clock_reading(rows@[i].parse_date.unwrap()) && rows@[i]
                    == stop_row_at(*df, i, ta, rows@[i].parse_date.unwrap()),
            forall|i: int|
                0 <= i < rows.len() ==> {
                &&& (#[trigger] rows@[i]).stop_id == df.str_cell("stop_id"@, i)
                &&& rows@[i].stop_code == df.str_cell("stop_code"@, i)
                &&& rows@[i].stop_name == df.str_cell("stop_name"@, i)
                &&& rows@[i].stop_desc == df.str_cell("stop_desc"@, i)
                &&& rows@[i].zone_id == df.str_cell("zone_id"@, i)
                &&& rows@[i].location_type == df.int64_cell("location_type"@, i)
                &&& rows@[i].parent_station == df.str_cell("parent_station"@, i)
                &&& rows@[i].platform_code == df.str_cell("platform_code"@, i)
                &&& rows@[i].transit_authority == ta
            },
    {
        let h = df.height();
        let mut struct_vect: Vec<StopRow> = Vec::with_capacity(h);
        let stop_id_ca = df.str_column("stop_id");
        let stop_code_ca = df.str_column("stop_code");
        let stop_name_ca = df.str_column("stop_name");
        let stop_desc_ca = df.str_column("stop_desc");
        let zone_id_ca = df.str_column("zone_id");
        let location_type_ca = df.int64_column("location_type");
        let parent_station_ca = df.str_column("parent_station");
        let platform_code_ca = df.str_column("platform_code");
        let mut i: usize = 0;
        while i < h
            invariant
                struct_vect.len() == i <= h,
                forall|k: int|
                    0 <= k < i ==> (#[trigger] struct_vect@[k]).parse_date is Some
                        && is_clock_reading(struct_vect@[k].parse_date.unwrap()) && struct_vect@[k]
                        == stop_row_at(*df, k, ta, struct_vect@[k].parse_date.unwrap()),
            decreases h - i,
        {
            let row = StopRow {
                stop_id: str_at(stop_id_ca, i),
                stop_code: str_at(stop_code_ca, i),
                stop_name: str_at(stop_name_ca, i),
                stop_desc: str_at(stop_desc_ca, i),
                zone_id: str_at(zone_id_ca, i),
                location_type: value_at(location_type_ca, i),
                parent_station: str_at(parent_station_ca, i),
                platform_code: str_at(platform_code_ca, i),
                transit_authority: ta,
                parse_date: Some(now()),
            };
            struct_vect.push(row);
            i = i + 1;
        }
        struct_vect
    }
}

/// Every field of a stop comes from the column of its own name in the same
/// row (the location type from an `i64` column, the others from text
/// columns); the authority is the one given and the row is stamped.
pub proof fn lemma_stop_row_reads_named_columns(
    t: Table,
    i: int,
    ta: Option<SupportedTransitAuthorities>,
    stamp: UtcTimestamp,
)
    ensures
        ({
            let r = stop_row_at(t, i, ta, stamp);
            &&& r.stop_id == t.str_cell("stop_id"@, i)
            &&& r.stop_code == t.str_cell("stop_code"@, i)
            &&& r.stop_name == t.str_cell("stop_name"@, i)
            &&& r.stop_desc == t.str_cell("stop_desc"@, i)
            &&& r.zone_id == t.str_cell("zone_id"@, i)
            &&& r.location_type == t.int64_cell("location_type"@, i)
            &&& r.parent_station == t.str_cell("parent_station"@, i)
            &&& r.platform_code == t.str_cell("platform_code"@, i)
            &&& r.transit_authority == ta
            &&& r.parse_date == Some(stamp)
        }),
{
}

} // verus!
