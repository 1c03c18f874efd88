use vstd::prelude::*;

use crate::table::{str_at, value_at, Table};

verus! {

/// A route of `routes.txt` with its fare class, read from a table that has
/// every route column.
#[derive(Debug)]
pub struct RouteRow {
    pub route_id: Option<String>,
    pub agency_id: Option<i64>,
    pub route_short_name: Option<String>,
    pub route_fare_class: Option<String>,
    pub line_id: Option<String>,
    pub listed_route: Option<i64>,
    pub network_id: Option<String>,
}

/// The table has all route columns, with their types.
pub open spec fn has_route_columns(t: Table) -> bool {
    &&& t.has_str_column("route_id"@)
    &&& t.has_int64_column("agency_id"@)
    &&& t.has_str_column("route_short_name"@)
    &&& t.has_str_column("route_fare_class"@)
    &&& t.has_str_column("line_id"@)
    &&& t.has_int64_column("listed_route"@)
    &&& t.has_str_column("network_id"@)
}

/// The route that row `i` of a table gives.
pub open spec fn fare_route_row_at(t: Table, i: int) -> RouteRow {
    RouteRow {
        route_id: t.str_cell("route_id"@, i),
        agency_id: t.int64_cell("agency_id"@, i),
        route_short_name: t.str_cell("route_short_name"@, i),
        route_fare_class: t.str_cell("route_fare_class"@, i),
        line_id: t.str_cell("line_id"@, i),
        listed_route: t.int64_cell("listed_route"@, i),
        network_id: t.str_cell("network_id"@, i),
    }
}

impl RouteRow {
    /// One route per row of the table, in order. Every route column must be
    /// there, with its type; its cells may be empty.
    #[verifier::loop_isolation(false)]
    pub fn struct_array_from_dataframe(df: &Table) -> (rows: Vec<RouteRow>)
        requires
            has_route_columns(*df),
        ensures
            rows.len() == df.spec_height(),
            forall|i: int| 0 <= i < rows.len() ==> #[trigger] rows@[i] == fare_route_row_at(*df, i),
            forall|i: int|
                0 <= i < rows.len() ==> {
                &&& (#[trigger] rows@[i]).route_id == df.str_cell("route_id"@, i)
                &&& rows@[i].agency_id == df.int64_cell("agency_id"@, i)
                &&& rows@[i].route_short_name == df.str_cell("route_short_name"@, i)
                &&& rows@[i].route_fare_class == df.str_cell("route_fare_class"@, i)
                &&& rows@[i].line_id == df.str_cell("line_id"@, i)
                &&& rows@[i].listed_route == df.int64_cell("listed_route"@, i)
                &&& rows@[i].network_id == df.str_cell("network_id"@, i)
            },
    {
        let h = df.height();
        let mut struct_vect: Vec<RouteRow> = Vec::with_capacity(h);
        let route_id_ca = df.str_column("route_id").unwrap();
        let agency_id_ca = df.int64_column("agency_id").unwrap();
        let route_short_name_ca = df.str_column("route_short_name").unwrap();
        let route_fare_class_ca = df.str_column("route_fare_class").unwrap();
        let line_id_ca = df.str_column("line_id").unwrap();
        let listed_route_ca = df.int64_column("listed_route").unwrap();
        let network_id_ca = df.str_column("network_id").unwrap();
        let mut i: usize = 0;
        while i < h
            invariant
                struct_vect.len() == i <= h,
                forall|k: int| 0 <= k < i ==> #[trigger] struct_vect@[k] == fare_route_row_at(*df, k),
            decreases h - i,
        {
            let row = RouteRow {
                route_id: str_at(Some(route_id_ca), i),
                agency_id: value_at(Some(agency_id_ca), i),
                route_short_name: str_at(Some(route_short_name_ca), i),
                route_fare_class: str_at(Some(route_fare_class_ca), i),
                line_id: str_at(Some(line_id_ca), i),
                listed_route: value_at(Some(listed_route_ca), i),
                network_id: str_at(Some(network_id_ca), i),
            };
            struct_vect.push(row);
            i = i + 1;
        }
        struct_vect
    }
}

/// Every field of a fare-class route comes from the column of its own name
/// in the same row (agency and listing from `i64` columns, the others from
/// text columns).
pub proof fn lemma_fare_route_row_reads_named_columns(t: Table, i: int)
    ensures
        ({
            let r = fare_route_row_at(t, i);
            &&& r.route_id == t.str_cell("route_id"@, i)
            &&& r.agency_id == t.int64_cell("agency_id"@, i)
            &&& r.route_short_name == t.str_cell("route_short_name"@, i)
            &&& r.route_fare_class == t.str_cell("route_fare_class"@, i)
            &&& r.line_id == t.str_cell("line_id"@, i)
            &&& r.listed_route == t.int64_cell("listed_route"@, i)
            &&& r.network_id == t.str_cell("network_id"@, i)
        }),
{
}

} // verus!
