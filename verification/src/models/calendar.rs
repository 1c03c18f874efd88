use vstd::prelude::*;

use crate::calendar_time::{date_from_cell, is_clock_reading, now, GtfsDate, UtcTimestamp};
use crate::models::date_cell;
use crate::table::{cell_at, str_at, value_at, Table};
use crate::transit_authorities::SupportedTransitAuthorities;

verus! {

/// One service calendar of `calendar.txt`.
#[derive(Debug)]
pub struct CalendarRow {
    pub service_id: Option<String>,
    pub monday: Option<i8>,
    pub tuesday: Option<i8>,
    pub wednesday: Option<i8>,
    pub thursday: Option<i8>,
    pub friday: Option<i8>,
    pub saturday: Option<i8>,
    pub sunday: Option<i8>,
    pub start_date: Option<GtfsDate>,
    pub end_date: Option<GtfsDate>,
    pub transit_authority: Option<SupportedTransitAuthorities>,
    pub parse_date: Option<UtcTimestamp>,
}

/// The columns of `calendar.txt` that a calendar row is read from.
pub open spec fn calendar_columns() -> Seq<Seq<char>> {
    seq![
        "service_id"@,
        "monday"@,
        "tuesday"@,
        "wednesday"@,
        "thursday"@,
        "friday"@,
        "saturday"@,
        "sunday"@,
        "start_date"@,
        "end_date"@,
    ]
}

/// The calendar row that row `i` of a table gives, read at `stamp`. The
/// saturday and sunday flags are read from the `friday` column.
pub open spec fn calendar_row_at(
    t: Table,
    i: int,
    ta: Option<SupportedTransitAuthorities>,
    stamp: UtcTimestamp,
) -> CalendarRow {
    CalendarRow {
        service_id: t.str_cell("service_id"@, i),
        monday: t.int8_cell("monday"@, i),
        tuesday: t.int8_cell("tuesday"@, i),
        wednesday: t.int8_cell("wednesday"@, i),
        thursday: t.int8_cell("thursday"@, i),
        friday: t.int8_cell("friday"@, i),
        saturday: t.int8_cell("friday"@, i),
        sunday: t.int8_cell("friday"@, i),
        start_date: date_cell(t.str_cell("start_date"@, i)),
        end_date: date_cell(t.str_cell("end_date"@, i)),
        transit_authority: ta,
        parse_date: Some(stamp),
    }
}

impl CalendarRow {
    /// The names of the columns that a calendar row is read from.
    pub fn column_names() -> (names: [&'static str; 10])
        ensures
            forall|k: int| 0 <= k < 10 ==> (#[trigger] names@[k])@ == calendar_columns()[k],
    {
        [
            "service_id",
            "monday",
            "tuesday",
            "wednesday",
            "thursday",
            "friday",
            "saturday",
            "sunday",
            "start_date",
            "end_date",
        ]
    }

    /// One calendar row per row of the table, in order, each stamped with
    /// the time at which it was read.
    #[verifier::loop_isolation(false)]
    pub fn struct_array_from_dataframe(
        df: &Table,
        ta: Option<SupportedTransitAuthorities>,
    ) -> (rows: Vec<CalendarRow>)
        ensures
            rows.len() == df.spec_height(),
            forall|i: int|
                0 <= i < rows.len() ==> (#[trigger] rows@[i]).parse_date is Some
                    && is_clock_reading(rows@[i].parse_date.unwrap()) && rows@[i]
                    == calendar_row_at(*df, i, ta, rows@[i].parse_date.unwrap()),
            forall|i: int|
                0 <= i < rows.len() ==> {
                &&& (#[trigger] rows@[i]).service_id == df.str_cell("service_id"@, i)
                &&& rows@[i].monday == df.int8_cell("monday"@, i)
                &&& rows@[i].tuesday == df.int8_cell("tuesday"@, i)
                &&& rows@[i].wednesday == df.int8_cell("wednesday"@, i)
                &&& rows@[i].thursday == df.int8_cell("thursday"@, i)
                &&& rows@[i].friday == df.int8_cell("friday"@, i)
                &&& rows@[i].saturday == df.int8_cell("friday"@, i)
                &&& rows@[i].sunday == df.int8_cell("friday"@, i)
                &&& rows@[i].start_date == date_cell(df.str_cell("start_date"@, i))
                &&& rows@[i].end_date == date_cell(df.str_cell("end_date"@, i))
                &&& rows@[i].transit_authority == ta
            },
    {
        let h = df.height();
        let mut struct_vect: Vec<CalendarRow> = Vec::with_capacity(h);
        let service_id_ca = df.str_column("service_id");
        let monday_ca = df.int8_column("monday");
        let tuesday_ca = df.int8_column("tuesday");
        let wednesday_ca = df.int8_column("wednesday");
        let thursday_ca = df.int8_column("thursday");
        let friday_ca = df.int8_column("friday");
        let saturday_ca = df.int8_column("friday");
        let sunday_ca = df.int8_column("friday");
        let start_date_ca = df.str_column("start_date");
        let end_date_ca = df.str_column("end_date");
        let mut i: usize = 0;
        while i < h
            invariant
                struct_vect.len() == i <= h,
                forall|k: int|
                    0 <= k < i ==> (#[trigger] struct_vect@[k]).parse_date is Some
                        && is_clock_reading(struct_vect@[k].parse_date.unwrap()) && struct_vect@[k]
                        == calendar_row_at(*df, k, ta, struct_vect@[k].parse_date.unwrap()),
            decreases h - i,
        {
            let start_cell = str_at(start_date_ca, i);
            let end_cell = str_at(end_date_ca, i);
            let row = CalendarRow {
                service_id: str_at(service_id_ca, i),
                monday: value_at(monday_ca, i),
                tuesday: value_at(tuesday_ca, i),
                wednesday: value_at(wednesday_ca, i),
                thursday: value_at(thursday_ca, i),
                friday: value_at(friday_ca, i),
                saturday: value_at(saturday_ca, i),
                sunday: value_at(sunday_ca, i),
                start_date: date_from_cell(&start_cell),
                end_date: date_from_cell(&end_cell),
                transit_authority: ta,
                parse_date: Some(now()),
            };
            struct_vect.push(row);
            i = i + 1;
        }
        struct_vect
    }
}

/// Every field of a calendar row comes from the column of its own name in
/// the same row: the service id from `service_id`, each weekday flag from
/// the `i8` column of that day (saturday and sunday from `friday`, as the
/// loader reads them), each date from the text column of the same name as
/// read by chrono; the authority is the one given and the row is stamped.
pub proof fn lemma_calendar_row_reads_named_columns(
    t: Table,
    i: int,
    ta: Option<SupportedTransitAuthorities>,
    stamp: UtcTimestamp,
)
    ensures
        ({
            let r = calendar_row_at(t, i, ta, stamp);
            &&& r.service_id == t.str_cell("service_id"@, i)
            &&& r.monday == t.int8_cell("monday"@, i)
            &&& r.tuesday == t.int8_cell("tuesday"@, i)
            &&& r.wednesday == t.int8_cell("wednesday"@, i)
            &&& r.thursday == t.int8_cell("thursday"@, i)
            &&& r.friday == t.int8_cell("friday"@, i)
            &&& r.saturday == t.int8_cell("friday"@, i)
            &&& r.sunday == t.int8_cell("friday"@, i)
            &&& r.start_date == date_cell(t.str_cell("start_date"@, i))
            &&& r.end_date == date_cell(t.str_cell("end_date"@, i))
            &&& r.transit_authority == ta
            &&& r.parse_date == Some(stamp)
        }),
{
}

} // verus!
