use gtfs_parser::calendar_time::{GtfsTime, UtcTimestamp};
use gtfs_parser::models::batch::{
    authority_label, route_columns, stop_columns, stop_time_columns, trip_columns,
};
use gtfs_parser::models::routes::RouteRow;
use gtfs_parser::models::stop_times::StopTimeRow;
use gtfs_parser::models::stops::StopRow;
use gtfs_parser::models::trips::TripRow;
use gtfs_parser::models::{batch_kind, route_rows, stop_rows, stop_time_rows, trip_rows, TableKind, TableRow};
use gtfs_parser::transit_authorities::SupportedTransitAuthorities;

const STAMP: UtcTimestamp = UtcTimestamp { seconds: 1_700_000_000, subsec_nanos: 5 };

fn trip(id: &str) -> TripRow {
    TripRow {
        route_id: Some("Red".to_string()),
        service_id: None,
        trip_id: Some(id.to_string()),
        trip_headsign: Some("Ashmont".to_string()),
        trip_short_name: None,
        direction_id: Some(0),
        block_id: None,
        transit_authority: Some(SupportedTransitAuthorities::Boston),
        parse_date: Some(STAMP),
    }
}

fn stop(id: &str) -> StopRow {
    StopRow {
        stop_id: Some(id.to_string()),
        stop_code: None,
        stop_name: Some("Park Street".to_string()),
        stop_desc: None,
        zone_id: None,
        location_type: Some(0),
        parent_station: None,
        platform_code: None,
        transit_authority: None,
        parse_date: None,
    }
}

fn stop_time(seq: u32) -> StopTimeRow {
    StopTimeRow {
        trip_id: "T1".to_string(),
        arrival_time: Some(GtfsTime { hour: 8, minute: 0, second: 0, nanosecond: 0 }),
        departure_time: None,
        stop_id: "A".to_string(),
        stop_sequence: seq,
        stop_headsign: None,
        timepoint: Some(1),
        transit_authority: Some(SupportedTransitAuthorities::Boston),
        parse_date: Some(STAMP),
    }
}

fn route(id: &str) -> RouteRow {
    RouteRow {
        route_id: Some(id.to_string()),
        agency_id: Some(1),
        route_short_name: None,
        line_id: Some("line-Red".to_string()),
        listed_route: None,
        network_id: None,
        transit_authority: Some(SupportedTransitAuthorities::Boston),
        parse_date: None,
    }
}

#[test]
fn empty_batch_goes_nowhere() {
    assert_eq!(batch_kind(&vec![]), None);
}

#[test]
fn batch_goes_where_its_first_row_belongs() {
    assert_eq!(batch_kind(&vec![TableRow::TripRow(trip("a"))]), Some(TableKind::Trips));
    assert_eq!(
        batch_kind(&vec![TableRow::StopRow(stop("s")), TableRow::TripRow(trip("a"))]),
        Some(TableKind::Stops)
    );
    assert_eq!(batch_kind(&vec![TableRow::StopTimeRow(stop_time(1))]), Some(TableKind::StopTimes));
    assert_eq!(batch_kind(&vec![TableRow::RouteRow(route("r"))]), Some(TableKind::Routes));
}

#[test]
fn uniform_batch_is_kept_whole_and_in_order() {
    let rows = vec![
        TableRow::TripRow(trip("a")),
        TableRow::TripRow(trip("b")),
        TableRow::TripRow(trip("c")),
    ];
    assert_eq!(batch_kind(&rows), Some(TableKind::Trips));
    let trips = trip_rows(rows);
    let ids: Vec<_> = trips.iter().map(|t| t.trip_id.clone().unwrap()).collect();
    assert_eq!(ids, vec!["a", "b", "c"]);
}

#[test]
fn rows_of_other_kinds_are_dropped() {
    let rows = vec![
        TableRow::TripRow(trip("a")),
        TableRow::StopRow(stop("s")),
        TableRow::TripRow(trip("b")),
        TableRow::RouteRow(route("r")),
    ];
    let trips = trip_rows(rows);
    assert_eq!(trips.len(), 2);
    assert_eq!(trips[1].trip_id, Some("b".to_string()));
    let mixed = vec![TableRow::TripRow(trip("a")), TableRow::StopRow(stop("s1")), TableRow::StopRow(stop("s2"))];
    let stops = stop_rows(mixed);
    assert_eq!(stops.len(), 2);
    assert_eq!(stops[0].stop_id, Some("s1".to_string()));
    assert!(route_rows(vec![TableRow::TripRow(trip("a"))]).is_empty());
    assert_eq!(stop_time_rows(vec![TableRow::StopTimeRow(stop_time(4))])[0].stop_sequence, 4);
}

#[test]
fn authority_is_stored_by_name() {
    assert_eq!(authority_label(Some(SupportedTransitAuthorities::Boston)), Some("Boston".to_string()));
    assert_eq!(authority_label(None), None);
}

#[test]
fn trip_columns_follow_rows() {
    let c = trip_columns(&vec![trip("a"), trip("b")]);
    assert_eq!(c.trip_ids, vec![Some("a".to_string()), Some("b".to_string())]);
    assert_eq!(c.route_ids, vec![Some("Red".to_string()); 2]);
    assert_eq!(c.service_ids, vec![None, None]);
    assert_eq!(c.direction_ids, vec![Some(0), Some(0)]);
    assert_eq!(c.transit_authorities, vec![Some("Boston".to_string()); 2]);
    assert_eq!(c.parse_dates, vec![Some(STAMP); 2]);
}

#[test]
fn stop_columns_follow_rows() {
    let c = stop_columns(&vec![stop("x")]);
    assert_eq!(c.stop_ids, vec![Some("x".to_string())]);
    assert_eq!(c.stop_names, vec![Some("Park Street".to_string())]);
    assert_eq!(c.location_types, vec![Some(0)]);
    assert_eq!(c.transit_authorities, vec![None]);
    assert_eq!(c.parse_dates, vec![None]);
}

#[test]
fn stop_time_columns_widen_numbers() {
    let mut late = stop_time(4_000_000_000);
    late.timepoint = None;
    let c = stop_time_columns(&vec![stop_time(7), late]);
    assert_eq!(c.stop_sequences, vec![Some(7), Some(4_000_000_000)]);
    assert_eq!(c.timepoints, vec![Some(1), None]);
    assert_eq!(c.trip_ids, vec![Some("T1".to_string()); 2]);
    assert_eq!(c.departure_times, vec![None, None]);
}

#[test]
fn route_columns_follow_rows() {
    let c = route_columns(&vec![route("Red"), route("Orange")]);
    assert_eq!(c.route_ids, vec![Some("Red".to_string()), Some("Orange".to_string())]);
    assert_eq!(c.agency_ids, vec![Some(1), Some(1)]);
    assert_eq!(c.line_ids, vec![Some("line-Red".to_string()); 2]);
}

#[test]
fn empty_rows_give_empty_columns() {
    let c = trip_columns(&vec![]);
    assert!(c.trip_ids.is_empty() && c.parse_dates.is_empty());
}

#[test]
fn insert_statements_name_their_tables() {
    assert!(TableKind::Trips.insert_statement().contains("INSERT INTO trips ("));
    assert!(TableKind::Stops.insert_statement().contains("INSERT INTO stops ("));
    assert!(TableKind::StopTimes.insert_statement().contains("INSERT INTO stop_times ("));
    assert!(TableKind::Routes.insert_statement().contains("ON CONFLICT ON CONSTRAINT unique_route_in_authority DO NOTHING;"));
    assert!(TableKind::StopTimes.insert_statement().contains("$9::timestamp[]"));
}
