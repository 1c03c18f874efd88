use gtfs_parser::calendar_time::{GtfsDate, GtfsTime};
use gtfs_parser::models::calendar::CalendarRow;
use gtfs_parser::models::routes::RouteRow;
use gtfs_parser::models::stop_times::StopTimeRow;
use gtfs_parser::models::stops::StopRow;
use gtfs_parser::models::trips::TripRow;
use gtfs_parser::table::{Column, ColumnData, Table};
use gtfs_parser::tables::RouteRow as FareRouteRow;
use gtfs_parser::transit_authorities::SupportedTransitAuthorities;

fn str_col(name: &str, vals: &[Option<&str>]) -> Column {
    Column {
        name: name.to_string(),
        data: ColumnData::Str(vals.iter().map(|v| v.map(|s| s.to_string())).collect()),
    }
}

fn s(v: &str) -> Option<String> {
    Some(v.to_string())
}

const BOSTON: Option<SupportedTransitAuthorities> = Some(SupportedTransitAuthorities::Boston);

#[test]
fn calendar_rows_are_read_in_order() {
    let t = Table::new(2, vec![
        str_col("service_id", &[Some("wk"), Some("sa")]),
        Column { name: "monday".to_string(), data: ColumnData::Int8(vec![Some(1), Some(0)]) },
        Column { name: "friday".to_string(), data: ColumnData::Int8(vec![Some(1), None]) },
        Column { name: "saturday".to_string(), data: ColumnData::Int8(vec![Some(0), Some(1)]) },
        str_col("start_date", &[Some("20240101"), Some("20240230")]),
        str_col("end_date", &[Some("20241231"), None]),
    ])
    .unwrap();
    let rows = CalendarRow::struct_array_from_dataframe(&t, BOSTON);
    assert_eq!(rows.len(), 2);
    assert_eq!(rows[0].service_id, s("wk"));
    assert_eq!(rows[0].monday, Some(1));
    assert_eq!(rows[0].tuesday, None);
    assert_eq!(rows[0].start_date, Some(GtfsDate { year: 2024, month: 1, day: 1 }));
    assert_eq!(rows[0].end_date, Some(GtfsDate { year: 2024, month: 12, day: 31 }));
    assert_eq!(rows[1].service_id, s("sa"));
    assert_eq!(rows[1].start_date, None);
    assert_eq!(rows[1].end_date, None);
    assert_eq!(rows[1].transit_authority, BOSTON);
    assert!(rows.iter().all(|r| r.parse_date.is_some()));
    assert!(rows[0].parse_date.unwrap().seconds > 1_600_000_000);
}

#[test]
fn calendar_weekend_flags_come_from_the_friday_column() {
    let t = Table::new(1, vec![
        Column { name: "friday".to_string(), data: ColumnData::Int8(vec![Some(1)]) },
        Column { name: "saturday".to_string(), data: ColumnData::Int8(vec![Some(0)]) },
        Column { name: "sunday".to_string(), data: ColumnData::Int8(vec![Some(0)]) },
    ])
    .unwrap();
    let rows = CalendarRow::struct_array_from_dataframe(&t, None);
    assert_eq!(rows[0].saturday, Some(1));
    assert_eq!(rows[0].sunday, Some(1));
    assert_eq!(rows[0].transit_authority, None);
}

#[test]
fn text_typed_flags_read_as_nothing() {
    let t = Table::new(1, vec![str_col("monday", &[Some("1")])]).unwrap();
    let rows = CalendarRow::struct_array_from_dataframe(&t, BOSTON);
    assert_eq!(rows[0].monday, None);
}

#[test]
fn calendar_column_names() {
    assert_eq!(CalendarRow::column_names(), [
        "service_id", "monday", "tuesday", "wednesday", "thursday", "friday", "saturday",
        "sunday", "start_date", "end_date",
    ]);
}

#[test]
fn routes_read_network_from_network_id_ca() {
    let t = Table::new(1, vec![
        str_col("route_id", &[Some("Red")]),
        Column { name: "agency_id".to_string(), data: ColumnData::Int64(vec![Some(1)]) },
        str_col("listed_route", &[Some("0")]),
        str_col("network_id", &[Some("rapid")]),
        str_col("network_id_ca", &[Some("other")]),
    ])
    .unwrap();
    let rows = RouteRow::struct_array_from_dataframe(&t, BOSTON);
    assert_eq!(rows[0].route_id, s("Red"));
    assert_eq!(rows[0].agency_id, Some(1));
    assert_eq!(rows[0].listed_route, None);
    assert_eq!(rows[0].network_id, s("other"));
    assert_eq!(rows[0].line_id, None);
}

#[test]
fn stops_are_read() {
    let t = Table::new(2, vec![
        str_col("stop_id", &[Some("place-sstat"), Some("70080")]),
        str_col("stop_name", &[Some("South Station"), None]),
        Column { name: "location_type".to_string(), data: ColumnData::Int64(vec![Some(1), Some(0)]) },
        str_col("parent_station", &[None, Some("place-sstat")]),
    ])
    .unwrap();
    let rows = StopRow::struct_array_from_dataframe(&t, BOSTON);
    assert_eq!(rows.len(), 2);
    assert_eq!(rows[0].stop_name, s("South Station"));
    assert_eq!(rows[0].location_type, Some(1));
    assert_eq!(rows[1].parent_station, s("place-sstat"));
    assert_eq!(rows[1].stop_code, None);
}

#[test]
fn trips_are_read() {
    let t = Table::new(1, vec![
        str_col("route_id", &[Some("Red")]),
        str_col("trip_id", &[Some("T1")]),
        Column { name: "direction_id".to_string(), data: ColumnData::Int64(vec![Some(1)]) },
        str_col("block_id", &[None]),
    ])
    .unwrap();
    let rows = TripRow::struct_array_from_dataframe(&t, BOSTON);
    assert_eq!(rows[0].route_id, s("Red"));
    assert_eq!(rows[0].trip_id, s("T1"));
    assert_eq!(rows[0].direction_id, Some(1));
    assert_eq!(rows[0].block_id, None);
    assert_eq!(rows[0].service_id, None);
}

#[test]
fn empty_table_gives_no_rows() {
    let t = Table::new(0, vec![str_col("trip_id", &[])]).unwrap();
    assert!(TripRow::struct_array_from_dataframe(&t, BOSTON).is_empty());
    assert!(StopRow::struct_array_from_dataframe(&t, BOSTON).is_empty());
}

fn stop_time_table() -> Table {
    Table::new(2, vec![
        str_col("trip_id", &[Some("T1"), Some("T1")]),
        str_col("arrival_time", &[Some("08:00:00"), Some("25:10:00")]),
        str_col("departure_time", &[Some("08:01:30"), None]),
        str_col("stop_id", &[Some("A"), Some("B")]),
        Column { name: "stop_sequence".to_string(), data: ColumnData::UInt32(vec![Some(1), Some(2)]) },
        Column { name: "timepoint".to_string(), data: ColumnData::UInt8(vec![Some(1), None]) },
    ])
    .unwrap()
}

#[test]
fn stop_times_are_read() {
    let rows = StopTimeRow::struct_array_from_dataframe(&stop_time_table(), BOSTON);
    assert_eq!(rows.len(), 2);
    assert_eq!(rows[0].trip_id, "T1");
    assert_eq!(rows[0].stop_id, "A");
    assert_eq!(rows[0].stop_sequence, 1);
    assert_eq!(rows[0].arrival_time, Some(GtfsTime { hour: 8, minute: 0, second: 0, nanosecond: 0 }));
    assert_eq!(rows[0].departure_time, Some(GtfsTime { hour: 8, minute: 1, second: 30, nanosecond: 0 }));
    assert_eq!(rows[0].timepoint, Some(1));
    assert_eq!(rows[1].stop_id, "B");
    assert_eq!(rows[1].arrival_time, None);
    assert_eq!(rows[1].departure_time, None);
    assert_eq!(rows[1].timepoint, None);
    assert_eq!(rows[1].stop_headsign, None);
}

#[test]
fn fare_routes_are_read() {
    let t = Table::new(1, vec![
        str_col("route_id", &[Some("Red")]),
        Column { name: "agency_id".to_string(), data: ColumnData::Int64(vec![Some(1)]) },
        str_col("route_short_name", &[None]),
        str_col("route_fare_class", &[Some("Rapid Transit")]),
        str_col("line_id", &[Some("line-Red")]),
        Column { name: "listed_route".to_string(), data: ColumnData::Int64(vec![None]) },
        str_col("network_id", &[Some("rapid_transit")]),
    ])
    .unwrap();
    let rows = FareRouteRow::struct_array_from_dataframe(&t);
    assert_eq!(rows.len(), 1);
    assert_eq!(rows[0].route_fare_class, s("Rapid Transit"));
    assert_eq!(rows[0].network_id, s("rapid_transit"));
    assert_eq!(rows[0].agency_id, Some(1));
    assert_eq!(rows[0].listed_route, None);
    assert_eq!(rows[0].route_short_name, None);
}

#[test]
fn calendar_dates_in_other_forms_are_empty() {
    let t = Table::new(2, vec![
        str_col("service_id", &[Some("A"), Some("B")]),
        str_col("start_date", &[Some("20240101"), Some("2024-01-01")]),
        str_col("end_date", &[Some("20241231"), None]),
    ])
    .unwrap();
    let rows = CalendarRow::struct_array_from_dataframe(&t, None);
    assert_eq!(rows.len(), 2);
    assert_eq!(rows[0].start_date, Some(GtfsDate { year: 2024, month: 1, day: 1 }));
    assert_eq!(rows[0].end_date, Some(GtfsDate { year: 2024, month: 12, day: 31 }));
    assert_eq!(rows[1].start_date, None);
    assert_eq!(rows[1].end_date, None);
    assert_eq!(rows[1].service_id, s("B"));
    assert!(rows.iter().all(|r| r.parse_date.unwrap().subsec_nanos < 1_000_000_000));
}
