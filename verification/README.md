# gtfs_parser

Loads the static GTFS feed of a transit authority (trips, routes, stops,
stop times, service calendars) into typed rows and lays them out as the
parameter arrays of batched PostgreSQL inserts; it also holds the decisions
of a small departure display (countdown text, redraws, Wi-Fi polling).

- `src/` is the verified library (Verus): the authority table, the column
  table that a feed file is read into, the row builders, the batch layout,
  date and time reading through chrono, and the display logic.
- `app/` is the program around it: download and unzip of the feed, CSV
  reading with polars, and the inserts with sqlx.
- `tests/` exercises the library on concrete values.
