use vstd::prelude::*;

use crate::calendar_time::{is_clock_reading, now, UtcTimestamp};
use crate::table::{str_at, value_at, Table};
use crate::transit_authorities::SupportedTransitAuthorities;

verus! {

/// One route of `routes.txt`.
#[derive(Debug)]
pub struct RouteRow {
    pub route_id: Option<String>,
    pub agency_id: Option<i64>,
    pub route_short_name: Option<String>,
    pub line_id: Option<String>,
    pub listed_route: Option<i64>,
    pub network_id: Option<String>,
    pub transit_authority: Option<SupportedTransitAuthorities>,
    pub parse_date: Option<UtcTimestamp>,
}

/// The columns of `routes.txt` that are loaded for routes.
pub open spec fn route_columns() -> Seq<Seq<char>> {
    seq!["route_id"@, "agency_id"@, "route_short_name"@, "line_id"@, "listed_route"@, "network_id"@]
}

/// The route that row `i` of a table gives, read at `stamp`. The network is
/// read from a column named `network_id_ca`.
pub open spec fn route_row_at(
    t: Table,
    i: int,
    ta: Option<SupportedTransitAuthorities>,
    stamp: UtcTimestamp,
) -> RouteRow {
    RouteRow {
        route_id: t.str_cell("route_id"@, i),
        agency_id: t.int64_cell("agency_id"@, i),
        route_short_name: t.str_cell("route_short_name"@, i),
        line_id: t.str_cell("line_id"@, i),
        listed_route: t.int64_cell("listed_route"@, i),
        network_id: t.str_cell("network_id_ca"@, i),
        transit_authority: ta,
        parse_date: Some(stamp),
    }
}

impl RouteRow {
    /// The names of the columns that are loaded for routes.
    pub fn column_names() -> (names: [&'static str; 6])
        ensures
            forall|k: int| 0 <= k < 6 ==> (#[trigger] names@[k])@ == route_columns()[k],
    {
        ["route_id", "agency_id", "route_short_name", "line_id", "listed_route", "network_id"]
    }

    /// One route per row of the table, in order, each stamped with the time
    /// at which it was read.
    #[verifier::loop_isolation(false)]
    pub fn struct_array_from_dataframe(
        df: &Table,
        ta: Option<SupportedTransitAuthorities>,
    ) -> (rows: Vec<RouteRow>)
        ensures
            rows.len() == df.spec_height(),
            forall|i: int|
                0 <= i < rows.len() ==> (#[trigger] rows@[i]).parse_date is Some
                    && is_clock_reading(rows@[i].parse_date.unwrap()) && rows@[i]
                    == route_row_at(*df, i, ta, rows@[i].parse_date.unwrap()),
            forall|i: int|
                0 <= i < rows.len() ==> {
                &&& (#[trigger] rows@[i]).route_id == df.str_cell("route_id"@, i)
                &&& rows@[i].agency_id == df.int64_cell("agency_id"@, i)
                &&& rows@[i].route_short_name == df.str_cell("route_short_name"@, i)
                &&& rows@[i].line_id == df.str_cell("line_id"@, i)
                &&& rows@[i].listed_route == df.int64_cell("listed_route"@, i)
                &&& rows@[i].network_id == df.str_cell("network_id_ca"@, i)
                &&& rows@[i].transit_authority == ta
            },
    {
        let h = df.height();
        let mut struct_vect: Vec<RouteRow> = Vec::with_capacity(h);
        let route_id_ca = df.str_column("route_id");
        let agency_id_ca = df.int64_column("agency_id");
        let route_short_name_ca = df.str_column("route_short_name");
        let line_id_ca = df.str_column("line_id");
        let listed_route_ca = df.int64_column("listed_route");
        let network_id_ca = df.str_column("network_id_ca");
        let mut i: usize = 0;
        while i < h
            invariant
                struct_vect.len() == i <= h,
                forall|k: int|
                    0 <= k < i ==> (#[trigger] struct_vect@[k]).parse_date is Some
                        && is_clock_reading(struct_vect@[k].parse_date.unwrap()) && struct_vect@[k]
                        == route_row_at(*df, k, ta, struct_vect@[k].parse_date.unwrap()),
            decreases h - i,
        {
            let row = RouteRow {
                route_id: str_at(route_id_ca, i),
                agency_id: value_at(agency_id_ca, i),
                route_short_name: str_at(route_short_name_ca, i),
                line_id: str_at(line_id_ca, i),
                listed_route: value_at(listed_route_ca, i),
                network_id: str_at(network_id_ca, i),
                transit_authority: ta,
                parse_date: Some(now()),
            };
            struct_vect.push(row);
            i = i + 1;
        }
        struct_vect
    }
}

/// Every field of a route comes from the column of its own name in the same
/// row (agency and listing from `i64` columns, the others from text
/// columns), except the network, which is read from `network_id_ca`; the
/// authority is the one given and the row is stamped.
pub proof fn lemma_route_row_reads_named_columns(
    t: Table,
    i: int,
    ta: Option<SupportedTransitAuthorities>,
    stamp: UtcTimestamp,
)
    ensures
        ({
            let r = route_row_at(t, i, ta, stamp);
            &&& r.route_id == t.str_cell("route_id"@, i)
            &&& r.agency_id == t.int64_cell("agency_id"@, i)
            &&& r.route_short_name == t.str_cell("route_short_name"@, i)
            &&& r.line_id == t.str_cell("line_id"@, i)
            &&& r.listed_route == t.int64_cell("listed_route"@, i)
            &&& r.network_id == t.str_cell("network_id_ca"@, i)
            &&& r.transit_authority == ta
            &&& r.parse_date == Some(stamp)
        }),
{
}

} // verus!
