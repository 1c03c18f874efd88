use vstd::prelude::*;

use crate::calendar_time::{GtfsTime, UtcTimestamp};
use crate::models::routes::RouteRow;
use crate::models::stop_times::StopTimeRow;
use crate::models::stops::StopRow;
use crate::models::trips::TripRow;
use crate::models::TableKind;
use crate::table::clone_text;
use crate::transit_authorities::SupportedTransitAuthorities;

verus! {

/// The stored label of a row's authority: its name where it has one.
pub open spec fn is_authority_label(
    label: Option<String>,
    ta: Option<SupportedTransitAuthorities>,
) -> bool {
    match (label, ta) {
        (Some(s), Some(a)) => s@ == a.spec_name(),
        (None, None) => true,
        _ => false,
    }
}

/// The label that a row's authority is stored under.
pub fn authority_label(ta: Option<SupportedTransitAuthorities>) -> (label: Option<String>)
    ensures
        is_authority_label(label, ta),
{
    match ta {
        Some(a) => Some(String::from_str(a.name())),
        None => None,
    }
}

/// The parameter arrays of a batch insert of trips, one entry per trip.
pub struct TripColumns {
    pub route_ids: Vec<Option<String>>,
    pub service_ids: Vec<Option<String>>,
    pub trip_ids: Vec<Option<String>>,
    pub trip_headsigns: Vec<Option<String>>,
    pub trip_short_names: Vec<Option<String>>,
    pub direction_ids: Vec<Option<i64>>,
    pub block_ids: Vec<Option<String>>,
    pub transit_authorities: Vec<Option<String>>,
    pub parse_dates: Vec<Option<UtcTimestamp>>,
}

/// Entry `i` of every array is the field of trip `i`.
pub open spec fn trip_columns_hold(c: TripColumns, rows: Seq<TripRow>, n: int) -> bool {
    &&& c.route_ids.len() == n
    &&& c.service_ids.len() == n
    &&& c.trip_ids.len() == n
    &&& c.trip_headsigns.len() == n
    &&& c.trip_short_names.len() == n
    &&& c.direction_ids.len() == n
    &&& c.block_ids.len() == n
    &&& c.transit_authorities.len() == n
    &&& c.parse_dates.len() == n
    &&& forall|i: int|
        0 <= i < n ==> {
            &&& c.route_ids@[i] == (#[trigger] rows[i]).route_id
            &&& c.service_ids@[i] == rows[i].service_id
            &&& c.trip_ids@[i] == rows[i].trip_id
            &&& c.trip_headsigns@[i] == rows[i].trip_headsign
            &&& c.trip_short_names@[i] == rows[i].trip_short_name
            &&& c.direction_ids@[i] == rows[i].direction_id
            &&& c.block_ids@[i] == rows[i].block_id
            &&& is_authority_label(c.transit_authorities@[i], rows[i].transit_authority)
            &&& c.parse_dates@[i] == rows[i].parse_date
        }
}

/// Splits trips into the parameter arrays of their batch insert.
pub fn trip_columns(rows: &Vec<TripRow>) -> (cols: TripColumns)
    ensures
        trip_columns_hold(cols, rows@, rows.len() as int),
{
    let mut c = TripColumns {
        route_ids: Vec::new(),
        service_ids: Vec::new(),
        trip_ids: Vec::new(),
        trip_headsigns: Vec::new(),
        trip_short_names: Vec::new(),
        direction_ids: Vec::new(),
        block_ids: Vec::new(),
        transit_authorities: Vec::new(),
        parse_dates: Vec::new(),
    };
    let n = rows.len();
    let mut i: usize = 0;
    while i < n
        invariant
            i <= n == rows.len(),
            trip_columns_hold(c, rows@, i as int),
        decreases n - i,
    {
        let r = &rows[i];
        c.route_ids.push(clone_text(&r.route_id));
        c.service_ids.push(clone_text(&r.service_id));
        c.trip_ids.push(clone_text(&r.trip_id));
        c.trip_headsigns.push(clone_text(&r.trip_headsign));
        c.trip_short_names.push(clone_text(&r.trip_short_name));
        c.direction_ids.push(r.direction_id);
        c.block_ids.push(clone_text(&r.block_id));
        c.transit_authorities.push(authority_label(r.transit_authority));
        c.parse_dates.push(r.parse_date);
        i = i + 1;
    }
    c
}

/// The parameter arrays of a batch insert of stops, one entry per stop.
pub struct StopColumns {
    pub stop_ids: Vec<Option<String>>,
    pub stop_codes: Vec<Option<String>>,
    pub stop_names: Vec<Option<String>>,
    pub stop_descs: Vec<Option<String>>,
    pub zone_ids: Vec<Option<String>>,
    pub location_types: Vec<Option<i64>>,
    pub parent_stations: Vec<Option<String>>,
    pub platform_codes: Vec<Option<String>>,
    pub transit_authorities: Vec<Option<String>>,
    pub parse_dates: Vec<Option<UtcTimestamp>>,
}

/// Entry `i` of every array is the field of stop `i`.
pub open spec fn stop_columns_hold(c: StopColumns, rows: Seq<StopRow>, n: int) -> bool {
    &&& c.stop_ids.len() == n
    &&& c.stop_codes.len() == n
    &&& c.stop_names.len() == n
    &&& c.stop_descs.len() == n
    &&& c.zone_ids.len() == n
    &&& c.location_types.len() == n
    &&& c.parent_stations.len() == n
    &&& c.platform_codes.len() == n
    &&& c.transit_authorities.len() == n
    &&& c.parse_dates.len() == n
    &&& forall|i: int|
        0 <= i < n ==> {
            &&& c.stop_ids@[i] == (#[trigger] rows[i]).stop_id
            &&& c.stop_codes@[i] == rows[i].stop_code
            &&& c.stop_names@[i] == rows[i].stop_name
            &&& c.stop_descs@[i] == rows[i].stop_desc
            &&& c.zone_ids@[i] == rows[i].zone_id
            &&& c.location_types@[i] == rows[i].location_type
            &&& c.parent_stations@[i] == rows[i].parent_station
            &&& c.platform_codes@[i] == rows[i].platform_code
            &&& is_authority_label(c.transit_authorities@[i], rows[i].transit_authority)
            &&& c.parse_dates@[i] == rows[i].parse_date
        }
}

/// Splits stops into the parameter arrays of their batch insert.
pub fn stop_columns(rows: &Vec<StopRow>) -> (cols: StopColumns)
    ensures
        stop_columns_hold(cols, rows@, rows.len() as int),
{
    let mut c = StopColumns {
        stop_ids: Vec::new(),
        stop_codes: Vec::new(),
        stop_names: Vec::new(),
        stop_descs: Vec::new(),
        zone_ids: Vec::new(),
        location_types: Vec::new(),
        parent_stations: Vec::new(),
        platform_codes: Vec::new(),
        transit_authorities: Vec::new(),
        parse_dates: Vec::new(),
    };
    let n = rows.len();
    let mut i: usize = 0;
    while i < n
        invariant
            i <= n == rows.len(),
            stop_columns_hold(c, rows@, i as int),
        decreases n - i,
    {
        let r = &rows[i];
        c.stop_ids.push(clone_text(&r.stop_id));
        c.stop_codes.push(clone_text(&r.stop_code));
        c.stop_names.push(clone_text(&r.stop_name));
        c.stop_descs.push(clone_text(&r.stop_desc));
        c.zone_ids.push(clone_text(&r.zone_id));
        c.location_types.push(r.location_type);
        c.parent_stations.push(clone_text(&r.parent_station));
        c.platform_codes.push(clone_text(&r.platform_code));
        c.transit_authorities.push(authority_label(r.transit_authority));
        c.parse_dates.push(r.parse_date);
        i = i + 1;
    }
    c
}

/// The parameter arrays of a batch insert of stop times, one entry per stop
/// time.
pub struct StopTimeColumns {
    pub trip_ids: Vec<Option<String>>,
    pub arrival_times: Vec<Option<GtfsTime>>,
    pub departure_times: Vec<Option<GtfsTime>>,
    pub stop_ids: Vec<Option<String>>,
    pub stop_sequences: Vec<Option<i64>>,
    pub stop_headsigns: Vec<Option<String>>,
    pub timepoints: Vec<Option<i64>>,
    pub transit_authorities: Vec<Option<String>>,
    pub parse_dates: Vec<Option<UtcTimestamp>>,
}

/// A `u8` cell widened to the stored integer type.
pub open spec fn widened(v: Option<u8>) -> Option<i64> {
    match v {
        Some(u) => Some(u as i64),
        None => None,
    }
}

/// Entry `i` of every array is the field of stop time `i`; numbers are
/// widened to `i64`.
pub open spec fn stop_time_columns_hold(c: StopTimeColumns, rows: Seq<StopTimeRow>, n: int) -> bool {
    &&& c.trip_ids.len() == n
    &&& c.arrival_times.len() == n
    &&& c.departure_times.len() == n
    &&& c.stop_ids.len() == n
    &&& c.stop_sequences.len() == n
    &&& c.stop_headsigns.len() == n
    &&& c.timepoints.len() == n
    &&& c.transit_authorities.len() == n
    &&& c.parse_dates.len() == n
    &&& forall|i: int|
        0 <= i < n ==> {
            &&& c.trip_ids@[i] == Some((#[trigger] rows[i]).trip_id)
            &&& c.arrival_times@[i] == rows[i].arrival_time
            &&& c.departure_times@[i] == rows[i].departure_time
            &&& c.stop_ids@[i] == Some(rows[i].stop_id)
            &&& c.stop_sequences@[i] == Some(rows[i].stop_sequence as i64)
            &&& c.stop_headsigns@[i] == rows[i].stop_headsign
            &&& c.timepoints@[i] == widened(rows[i].timepoint)
            &&& is_authority_label(c.transit_authorities@[i], rows[i].transit_authority)
            &&& c.parse_dates@[i] == rows[i].parse_date
        }
}

/// Splits stop times into the parameter arrays of their batch insert.
pub fn stop_time_columns(rows: &Vec<StopTimeRow>) -> (cols: StopTimeColumns)
    ensures
        stop_time_columns_hold(cols, rows@, rows.len() as int),
{
    let mut c = StopTimeColumns {
        trip_ids: Vec::new(),
        arrival_times: Vec::new(),
        departure_times: Vec::new(),
        stop_ids: Vec::new(),
        stop_sequences: Vec::new(),
        stop_headsigns: Vec::new(),
        timepoints: Vec::new(),
        transit_authorities: Vec::new(),
        parse_dates: Vec::new(),
    };
    let n = rows.len();
    let mut i: usize = 0;
    while i < n
        invariant
            i <= n == rows.len(),
            stop_time_columns_hold(c, rows@, i as int),
        decreases n - i,
    {
        let r = &rows[i];
        c.trip_ids.push(Some(r.trip_id.clone()));
        c.arrival_times.push(r.arrival_time);
        c.departure_times.push(r.departure_time);
        c.stop_ids.push(Some(r.stop_id.clone()));
        c.stop_sequences.push(Some(r.stop_sequence as i64));
        c.stop_headsigns.push(clone_text(&r.stop_headsign));
        let tp: Option<i64> = match r.timepoint {
            Some(u) => Some(u as i64),
            None => None,
        };
        c.timepoints.push(tp);
        c.transit_authorities.push(authority_label(r.transit_authority));
        c.parse_dates.push(r.parse_date);
        i = i + 1;
    }
    c
}

/// The parameter arrays of a batch insert of routes, one entry per route.
pub struct RouteColumns {
    pub route_ids: Vec<Option<String>>,
    pub agency_ids: Vec<Option<i64>>,
    pub route_short_names: Vec<Option<String>>,
    pub line_ids: Vec<Option<String>>,
    pub listed_routes: Vec<Option<i64>>,
    pub network_ids: Vec<Option<String>>,
    pub transit_authorities: Vec<Option<String>>,
    pub parse_dates: Vec<Option<UtcTimestamp>>,
}

/// Entry `i` of every array is the field of route `i`.
pub open spec fn route_columns_hold(c: RouteColumns, rows: Seq<RouteRow>, n: int) -> bool {
    &&& c.route_ids.len() == n
    &&& c.agency_ids.len() == n
    &&& c.route_short_names.len() == n
    &&& c.line_ids.len() == n
    &&& c.listed_routes.len() == n
    &&& c.network_ids.len() == n
    &&& c.transit_authorities.len() == n
    &&& c.parse_dates.len() == n
    &&& forall|i: int|
        0 <= i < n ==> {
            &&& c.route_ids@[i] == (#[trigger] rows[i]).route_id
            &&& c.agency_ids@[i] == rows[i].agency_id
            &&& c.route_short_names@[i] == rows[i].route_short_name
            &&& c.line_ids@[i] == rows[i].line_id
            &&& c.listed_routes@[i] == rows[i].listed_route
            &&& c.network_ids@[i] == rows[i].network_id
            &&& is_authority_label(c.transit_authorities@[i], rows[i].transit_authority)
            &&& c.parse_dates@[i] == rows[i].parse_date
        }
}

/// Splits routes into the parameter arrays of their batch insert.
pub fn route_columns(rows: &Vec<RouteRow>) -> (cols: RouteColumns)
    ensures
        route_columns_hold(cols, rows@, rows.len() as int),
{
    let mut c = RouteColumns {
        route_ids: Vec::new(),
        agency_ids: Vec::new(),
        route_short_names: Vec::new(),
        line_ids: Vec::new(),
        listed_routes: Vec::new(),
        network_ids: Vec::new(),
        transit_authorities: Vec::new(),
        parse_dates: Vec::new(),
    };
    let n = rows.len();
    let mut i: usize = 0;
    while i < n
        invariant
            i <= n == rows.len(),
            route_columns_hold(c, rows@, i as int),
        decreases n - i,
    {
        let r = &rows[i];
        c.route_ids.push(clone_text(&r.route_id));
        c.agency_ids.push(r.agency_id);
        c.route_short_names.push(clone_text(&r.route_short_name));
        c.line_ids.push(clone_text(&r.line_id));
        c.listed_routes.push(r.listed_route);
        c.network_ids.push(clone_text(&r.network_id));
        c.transit_authorities.push(authority_label(r.transit_authority));
        c.parse_dates.push(r.parse_date);
        i = i + 1;
    }
    c
}

impl TableKind {
    /// The statement that inserts a batch into the table: one `UNNEST` row
    /// per array entry, rows already stored being kept.
    pub open spec fn spec_insert_statement(self) -> Seq<char> {
        match self {
            TableKind::Trips => "
        INSERT INTO trips (
            route_id, service_id, trip_id, trip_headsign, trip_short_name,
            direction_id, block_id, transit_authority, parse_date
        )
        SELECT * FROM UNNEST(
            $1::varchar[], $2::varchar[], $3::varchar[], $4::varchar[], $5::varchar[],
            $6::numeric[], $7::varchar[], $8::varchar[], $9::timestamp[]
        )
        ON CONFLICT (trip_id, transit_authority, parse_date) DO NOTHING; -- Example conflict resolution
    "@,
            TableKind::Stops => "
        INSERT INTO stops (
            stop_id, stop_code, stop_name, stop_desc, zone_id, location_type,
            parent_station, platform_code, transit_authority, parse_date
        )
        SELECT * FROM UNNEST(
            $1::varchar[], $2::varchar[], $3::varchar[], $4::varchar[], $5::varchar[],
            $6::numeric[], $7::varchar[], $8::varchar[], $9::varchar[], $10::timestamp[]
        )
        ON CONFLICT (stop_id, transit_authority, parse_date) DO NOTHING;
    "@,
            TableKind::StopTimes => "
        INSERT INTO stop_times (
            trip_id, arrival_time, departure_time, stop_id, stop_sequence,
            stop_headsign, timepoint, transit_authority, parse_date
        )
        SELECT * FROM UNNEST(
            $1::varchar[], $2::time[], $3::time[], $4::varchar[], $5::numeric[],
            $6::varchar[], $7::numeric[], $8::varchar[], $9::timestamp[]
        )
        ON CONFLICT (trip_id, stop_sequence, transit_authority, parse_date) DO NOTHING;
    "@,
            TableKind::Routes => "
        INSERT INTO routes (
            route_id, agency_id, route_short_name, line_id, listed_route,
            network_id, transit_authority, parse_date
        )
        SELECT * FROM UNNEST(
            $1::varchar[], $2::numeric[], $3::varchar[], $4::varchar[], $5::numeric[],
            $6::varchar[], $7::varchar[], $8::timestamp[]
        )
        ON CONFLICT ON CONSTRAINT unique_route_in_authority DO NOTHING;
    "@,
        }
    }

    /// The SQL statement that inserts a batch of this kind; its parameters
    /// are the arrays of the kind's columns, in their order.
    pub fn insert_statement(&self) -> (sql: &'static str)
        ensures
            sql@ == self.spec_insert_statement(),
    {
        match self {
            TableKind::Trips => "
        INSERT INTO trips (
            route_id, service_id, trip_id, trip_headsign, trip_short_name,
            direction_id, block_id, transit_authority, parse_date
        )
        SELECT * FROM UNNEST(
            $1::varchar[], $2::varchar[], $3::varchar[], $4::varchar[], $5::varchar[],
            $6::numeric[], $7::varchar[], $8::varchar[], $9::timestamp[]
        )
        ON CONFLICT (trip_id, transit_authority, parse_date) DO NOTHING; -- Example conflict resolution
    ",
            TableKind::Stops => "
        INSERT INTO stops (
            stop_id, stop_code, stop_name, stop_desc, zone_id, location_type,
            parent_station, platform_code, transit_authority, parse_date
        )
        SELECT * FROM UNNEST(
            $1::varchar[], $2::varchar[], $3::varchar[], $4::varchar[], $5::varchar[],
            $6::numeric[], $7::varchar[], $8::varchar[], $9::varchar[], $10::timestamp[]
        )
        ON CONFLICT (stop_id, transit_authority, parse_date) DO NOTHING;
    ",
            TableKind::StopTimes => "
        INSERT INTO stop_times (
            trip_id, arrival_time, departure_time, stop_id, stop_sequence,
            stop_headsign, timepoint, transit_authority, parse_date
        )
        SELECT * FROM UNNEST(
            $1::varchar[], $2::time[], $3::time[], $4::varchar[], $5::numeric[],
            $6::varchar[], $7::numeric[], $8::varchar[], $9::timestamp[]
        )
        ON CONFLICT (trip_id, stop_sequence, transit_authority, parse_date) DO NOTHING;
    ",
            TableKind::Routes => "
        INSERT INTO routes (
            route_id, agency_id, route_short_name, line_id, listed_route,
            network_id, transit_authority, parse_date
        )
        SELECT * FROM UNNEST(
            $1::varchar[], $2::numeric[], $3::varchar[], $4::varchar[], $5::numeric[],
            $6::varchar[], $7::varchar[], $8::timestamp[]
        )
        ON CONFLICT ON CONSTRAINT unique_route_in_authority DO NOTHING;
    ",
        }
    }
}

/// The statement of each kind inserts into its table the columns in the
/// order of its kind's parameter arrays: trips take route, service and
/// trip ids, headsign, short name, direction, block, authority and stamp;
/// stops take stop id, code, name, description, zone, location type,
/// parent station, platform code, authority and stamp; stop times take
/// trip id, arrival, departure, stop id, sequence, headsign, timepoint,
/// authority and stamp; routes take route id, agency, short name, line,
/// listing, network, authority and stamp. Rows already stored are kept.
pub proof fn lemma_insert_statements_name_array_columns()
    ensures
        TableKind::Trips.spec_insert_statement() == "
        INSERT INTO trips ("@ + "
            "@ + "route_id"@ + ", "@ + "service_id"@ + ", "@ + "trip_id"@ + ", "@ + "trip_headsign"@ + ", "@ + "trip_short_name"@ + ",
            "@ + "direction_id"@ + ", "@ + "block_id"@ + ", "@ + "transit_authority"@ + ", "@ + "parse_date"@ + "
        "@ + ")
        SELECT * FROM UNNEST(
            $1::varchar[], $2::varchar[], $3::varchar[], $4::varchar[], $5::varchar[],
            $6::numeric[], $7::varchar[], $8::varchar[], $9::timestamp[]
        )
        ON CONFLICT (trip_id, transit_authority, parse_date) DO NOTHING; -- Example conflict resolution
    "@,
        TableKind::Stops.spec_insert_statement() == "
        INSERT INTO stops ("@ + "
            "@ + "stop_id"@ + ", "@ + "stop_code"@ + ", "@ + "stop_name"@ + ", "@ + "stop_desc"@ + ", "@ + "zone_id"@ + ", "@ + "location_type"@ + ",
            "@ + "parent_station"@ + ", "@ + "platform_code"@ + ", "@ + "transit_authority"@ + ", "@ + "parse_date"@ + "
        "@ + ")
        SELECT * FROM UNNEST(
            $1::varchar[], $2::varchar[], $3::varchar[], $4::varchar[], $5::varchar[],
            $6::numeric[], $7::varchar[], $8::varchar[], $9::varchar[], $10::timestamp[]
        )
        ON CONFLICT (stop_id, transit_authority, parse_date) DO NOTHING;
    "@,
        TableKind::StopTimes.spec_insert_statement() == "
        INSERT INTO stop_times ("@ + "
            "@ + "trip_id"@ + ", "@ + "arrival_time"@ + ", "@ + "departure_time"@ + ", "@ + "stop_id"@ + ", "@ + "stop_sequence"@ + ",
            "@ + "stop_headsign"@ + ", "@ + "timepoint"@ + ", "@ + "transit_authority"@ + ", "@ + "parse_date"@ + "
        "@ + ")
        SELECT * FROM UNNEST(
            $1::varchar[], $2::time[], $3::time[], $4::varchar[], $5::numeric[],
            $6::varchar[], $7::numeric[], $8::varchar[], $9::timestamp[]
        )
        ON CONFLICT (trip_id, stop_sequence, transit_authority, parse_date) DO NOTHING;
    "@,
        TableKind::Routes.spec_insert_statement() == "
        INSERT INTO routes ("@ + "
            "@ + "route_id"@ + ", "@ + "agency_id"@ + ", "@ + "route_short_name"@ + ", "@ + "line_id"@ + ", "@ + "listed_route"@ + ",
            "@ + "network_id"@ + ", "@ + "transit_authority"@ + ", "@ + "parse_date"@ + "
        "@ + ")
        SELECT * FROM UNNEST(
            $1::varchar[], $2::numeric[], $3::varchar[], $4::varchar[], $5::numeric[],
            $6::varchar[], $7::varchar[], $8::timestamp[]
        )
        ON CONFLICT ON CONSTRAINT unique_route_in_authority DO NOTHING;
    "@,
{
    reveal_strlit("
        INSERT INTO trips (
            route_id, service_id, trip_id, trip_headsign, trip_short_name,
            direction_id, block_id, transit_authority, parse_date
        )
        SELECT * FROM UNNEST(
            $1::varchar[], $2::varchar[], $3::varchar[], $4::varchar[], $5::varchar[],
            $6::numeric[], $7::varchar[], $8::varchar[], $9::timestamp[]
        )
        ON CONFLICT (trip_id, transit_authority, parse_date) DO NOTHING; -- Example conflict resolution
    ");
    reveal_strlit("
        INSERT INTO trips (");
    reveal_strlit("
            ");
    reveal_strlit("route_id");
    reveal_strlit(", ");
    reveal_strlit("service_id");
    reveal_strlit("trip_id");
    reveal_strlit("trip_headsign");
    reveal_strlit("trip_short_name");
    reveal_strlit(",
            ");
    reveal_strlit("direction_id");
    reveal_strlit("block_id");
    reveal_strlit("transit_authority");
    reveal_strlit("parse_date");
    reveal_strlit("
        ");
    reveal_strlit(")
        SELECT * FROM UNNEST(
            $1::varchar[], $2::varchar[], $3::varchar[], $4::varchar[], $5::varchar[],
            $6::numeric[], $7::varchar[], $8::varchar[], $9::timestamp[]
        )
        ON CONFLICT (trip_id, transit_authority, parse_date) DO NOTHING; -- Example conflict resolution
    ");
    reveal_strlit("
        INSERT INTO stops (
            stop_id, stop_code, stop_name, stop_desc, zone_id, location_type,
            parent_station, platform_code, transit_authority, parse_date
        )
        SELECT * FROM UNNEST(
            $1::varchar[], $2::varchar[], $3::varchar[], $4::varchar[], $5::varchar[],
            $6::numeric[], $7::varchar[], $8::varchar[], $9::varchar[], $10::timestamp[]
        )
        ON CONFLICT (stop_id, transit_authority, parse_date) DO NOTHING;
    ");
    reveal_strlit("
        INSERT INTO stops (");
    reveal_strlit("stop_id");
    reveal_strlit("stop_code");
    reveal_strlit("stop_name");
    reveal_strlit("stop_desc");
    reveal_strlit("zone_id");
    reveal_strlit("location_type");
    reveal_strlit("parent_station");
    reveal_strlit("platform_code");
    reveal_strlit(")
        SELECT * FROM UNNEST(
            $1::varchar[], $2::varchar[], $3::varchar[], $4::varchar[], $5::varchar[],
            $6::numeric[], $7::varchar[], $8::varchar[], $9::varchar[], $10::timestamp[]
        )
        ON CONFLICT (stop_id, transit_authority, parse_date) DO NOTHING;
    ");
    reveal_strlit("
        INSERT INTO stop_times (
            trip_id, arrival_time, departure_time, stop_id, stop_sequence,
            stop_headsign, timepoint, transit_authority, parse_date
        )
        SELECT * FROM UNNEST(
            $1::varchar[], $2::time[], $3::time[], $4::varchar[], $5::numeric[],
            $6::varchar[], $7::numeric[], $8::varchar[], $9::timestamp[]
        )
        ON CONFLICT (trip_id, stop_sequence, transit_authority, parse_date) DO NOTHING;
    ");
    reveal_strlit("
        INSERT INTO stop_times (");
    reveal_strlit("arrival_time");
    reveal_strlit("departure_time");
    reveal_strlit("stop_sequence");
    reveal_strlit("stop_headsign");
    reveal_strlit("timepoint");
    reveal_strlit(")
        SELECT * FROM UNNEST(
            $1::varchar[], $2::time[], $3::time[], $4::varchar[], $5::numeric[],
            $6::varchar[], $7::numeric[], $8::varchar[], $9::timestamp[]
        )
        ON CONFLICT (trip_id, stop_sequence, transit_authority, parse_date) DO NOTHING;
    ");
    reveal_strlit("
        INSERT INTO routes (
            route_id, agency_id, route_short_name, line_id, listed_route,
            network_id, transit_authority, parse_date
        )
        SELECT * FROM UNNEST(
            $1::varchar[], $2::numeric[], $3::varchar[], $4::varchar[], $5::numeric[],
            $6::varchar[], $7::varchar[], $8::timestamp[]
        )
        ON CONFLICT ON CONSTRAINT unique_route_in_authority DO NOTHING;
    ");
    reveal_strlit("
        INSERT INTO routes (");
    reveal_strlit("agency_id");
    reveal_strlit("route_short_name");
    reveal_strlit("line_id");
    reveal_strlit("listed_route");
    reveal_strlit("network_id");
    reveal_strlit(")
        SELECT * FROM UNNEST(
            $1::varchar[], $2::numeric[], $3::varchar[], $4::varchar[], $5::numeric[],
            $6::varchar[], $7::varchar[], $8::timestamp[]
        )
        ON CONFLICT ON CONSTRAINT unique_route_in_authority DO NOTHING;
    ");
}

} // verus!
