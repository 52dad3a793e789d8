//! The usage recorder: persistence of closed segments and daily reporting,
//! built on SQLite.
//!
//! The store holds one append-only table of usage segments. Each call opens
//! its own connection, as the tracking loop does at most one store operation
//! per tick. Whatever the store answers is handed back to the caller;
//! persistence failures are fatal to the tracking loop, which is the
//! caller's decision to make.

use vstd::prelude::*;
use crate::tracker::ActivityTracker;
use crate::tracker::TickInput;
use crate::tracker::UsageSegment;
use crate::tracker::tick_result;

verus! {

#[verifier::external_type_specification]
#[verifier::external_body]
pub struct ExConnection(rusqlite::Connection);

#[verifier::external_type_specification]
#[verifier::external_body]
pub struct ExSqlError(rusqlite::Error);

/// The library's own error for store failures: the text of what went wrong,
/// ready for a diagnostic line.
#[derive(Debug)]
pub struct DbError {
    pub text: String,
}

/// One line of the daily report: summed duration for one application on one
/// calendar date.
#[derive(Debug, PartialEq, Eq)]
pub struct ReportRow {
    pub app_name: String,
    pub date: String,
    pub total_duration_seconds: i64,
}

/// The last wall-clock second the store accepts: 9999-12-30 23:59:59 UTC.
/// A day short of the end of year 9999, so that the local-time render keeps
/// a four-digit year in every time zone.
pub const MAX_WALL_SECONDS: i64 = 253402214399;

/// Wall-clock readings the recorder can render and store.
pub open spec fn wall_in_range(t: i64) -> bool {
    0 <= t <= MAX_WALL_SECONDS
}

/// A closed segment the store can hold: both wall clocks renderable, the
/// duration within the store's signed integer column.
pub open spec fn segment_storable(seg: UsageSegment) -> bool {
    wall_in_range(seg.start_wall) && wall_in_range(seg.end_wall) && seg.duration_seconds
        <= i64::MAX
}

/// Relies on `rusqlite::Connection::open`: opens (creating if absent) the
/// SQLite database at the given path.
#[verifier::external_body]
fn open_connection(db_name: &str) -> (r: Result<rusqlite::Connection, rusqlite::Error>) {
    rusqlite::Connection::open(db_name)
}

/// Relies on `rusqlite::Connection::execute` with no parameters: runs the
/// handed SQL statement and reports the number of rows it changed. The
/// statement is pinned to the schema DDL, so whoever reaches the store
/// through here can only ever ask it to ensure this one table.
#[verifier::external_body]
fn run_statement(conn: &rusqlite::Connection, sql: &str) -> (r: Result<usize, rusqlite::Error>)
    requires
        sql@ == "CREATE TABLE IF NOT EXISTS app_usage (
            id INTEGER PRIMARY KEY,
            app_name TEXT NOT NULL,
            start_time TEXT NOT NULL,
            end_time TEXT NOT NULL,
            duration INTEGER NOT NULL
        )"@,
{
    conn.execute(sql, [])
}

/// Relies on `rusqlite::Connection::execute` with four bound parameters:
/// runs the handed SQL statement binding the four arguments, in parameter
/// order, to `?1` through `?4`. The statement is pinned to the segment
/// insert, so the store receives exactly one row of app name, start text,
/// end text and duration, in the table's column order.
#[verifier::external_body]
fn run_insert(
    conn: &rusqlite::Connection,
    sql: &str,
    app_name: &str,
    start_time_str: &str,
    end_time_str: &str,
    duration: i64,
) -> (r: Result<usize, rusqlite::Error>)
    requires
        sql@
            == "INSERT INTO app_usage (app_name, start_time, end_time, duration) VALUES (?1, ?2, ?3, ?4)"@,
{
    conn.execute(sql, (app_name, start_time_str, end_time_str, duration))
}

/// Relies on `rusqlite::Connection::prepare` and `rusqlite::Statement::query_map`:
/// runs the handed query, whose rows hold text, text and integer, converting
/// each row into a `ReportRow` in the order the store returns them. The
/// query is pinned to the daily aggregation, so the store is only ever read
/// this one way.
#[verifier::external_body]
fn fetch_report_rows(conn: &rusqlite::Connection, sql: &str) -> (r: Result<
    Vec<ReportRow>,
    rusqlite::Error,
>)
    requires
        sql@ == "SELECT
            app_name,
            DATE(start_time) as date,
            SUM(duration) as total_duration
        FROM app_usage
        GROUP BY app_name, DATE(start_time)
        ORDER BY date, total_duration DESC"@,
{
    let mut stmt = conn.prepare(sql)?;
    let mapped = stmt.query_map(
        [],
        |row| {
            Ok(ReportRow { app_name: row.get(0)?, date: row.get(1)?, total_duration_seconds: row.get(2)? })
        },
    )?;
    let mut rows = Vec::new();
    for row in mapped {
        rows.push(row?);
    }
    Ok(rows)
}

/// Relies on `rusqlite::Connection::query_row`: runs the handed query,
/// pinned to the row count, and hands back the single integer of its one
/// row.
#[verifier::external_body]
fn fetch_single_integer(conn: &rusqlite::Connection, sql: &str) -> (r: Result<
    i64,
    rusqlite::Error,
>)
    requires
        sql@ == "SELECT COUNT(*) FROM app_usage"@,
{
    conn.query_row(sql, [], |row| row.get(0))
}

/// Relies on `rusqlite::Error`'s `Display` implementation, through
/// `ToString`: the human-readable text of a store failure.
#[verifier::external_body]
fn sql_error_text(e: &rusqlite::Error) -> (r: String) {
    e.to_string()
}

/// Relies on chrono's `DateTime::from_timestamp` and local-time formatting:
/// renders `secs`, read as a count of seconds since 1970-01-01 00:00:00 UTC,
/// as text in the machine's local time zone, in chrono's layout named by
/// `pattern`. The result depends on the machine's time zone, so no more is
/// claimed of it than its shape: the layout renders a zero-padded four-digit
/// year, five further two-digit fields and four separators — 19 characters —
/// for every instant the range admits, in every zone.
#[verifier::external_body]
fn format_local_time(secs: i64, pattern: &str) -> (r: String)
    requires
        wall_in_range(secs),
        pattern@ == "%Y-%m-%d %H:%M:%S"@,
    ensures
        r@.len() == 19,
{
    match chrono::DateTime::from_timestamp(secs, 0) {
        Some(utc) => utc.with_timezone(&chrono::Local).format(pattern).to_string(),
        None => String::new(),
    }
}

fn db_error(e: rusqlite::Error) -> (r: DbError) {
    DbError { text: sql_error_text(&e) }
}

/// Create the usage-segment table if it is absent. Idempotent at the store:
/// the statement is `CREATE TABLE IF NOT EXISTS`, so a second call finds the
/// table and changes nothing.
pub fn setup_database(db_name: &str) -> (r: Result<(), DbError>) {
    let conn = match open_connection(db_name) {
        Ok(conn) => conn,
        Err(e) => {
            return Err(db_error(e));
        },
    };
    match run_statement(
        &conn,
        "CREATE TABLE IF NOT EXISTS app_usage (
            id INTEGER PRIMARY KEY,
            app_name TEXT NOT NULL,
            start_time TEXT NOT NULL,
            end_time TEXT NOT NULL,
            duration INTEGER NOT NULL
        )",
    ) {
        Ok(_) => Ok(()),
        Err(e) => Err(db_error(e)),
    }
}

/// Append one closed usage segment, already rendered: app name, start and
/// end as local-time text, duration in seconds. One row per call, no
/// batching, no retry.
pub fn log_app_usage(
    db_name: &str,
    app_name: &str,
    start_time_str: &str,
    end_time_str: &str,
    duration: i64,
) -> (r: Result<(), DbError>) {
    let conn = match open_connection(db_name) {
        Ok(conn) => conn,
        Err(e) => {
            return Err(db_error(e));
        },
    };
    match run_insert(
        &conn,
        "INSERT INTO app_usage (app_name, start_time, end_time, duration) VALUES (?1, ?2, ?3, ?4)",
        app_name,
        start_time_str,
        end_time_str,
        duration,
    ) {
        Ok(_) => Ok(()),
        Err(e) => Err(db_error(e)),
    }
}

/// Append one closed segment, rendering its wall clocks as local time. A
/// segment the store cannot hold — a wall clock outside the renderable
/// range, or a duration beyond the signed integer column — is refused.
pub fn append_segment(db_name: &str, seg: &UsageSegment) -> (r: Result<(), DbError>)
    ensures
        !segment_storable(*seg) ==> r is Err,
{
    if seg.start_wall < 0 || seg.start_wall > MAX_WALL_SECONDS {
        return Err(DbError { text: String::from_str("segment start time out of range") });
    }
    if seg.end_wall < 0 || seg.end_wall > MAX_WALL_SECONDS {
        return Err(DbError { text: String::from_str("segment end time out of range") });
    }
    if seg.duration_seconds > i64::MAX as u64 {
        return Err(DbError { text: String::from_str("segment duration out of range") });
    }
    let start_text = format_local_time(seg.start_wall, "%Y-%m-%d %H:%M:%S");
    let end_text = format_local_time(seg.end_wall, "%Y-%m-%d %H:%M:%S");
    log_app_usage(
        db_name,
        seg.app_name.as_str(),
        start_text.as_str(),
        end_text.as_str(),
        seg.duration_seconds as i64,
    )
}

/// The daily aggregate: total tracked duration per (application, calendar
/// date of segment start), dates ascending, longer totals first within a
/// date. Rendering the lines is the caller's concern.
pub fn generate_daily_report(db_name: &str) -> (r: Result<Vec<ReportRow>, DbError>) {
    let conn = match open_connection(db_name) {
        Ok(conn) => conn,
        Err(e) => {
            return Err(db_error(e));
        },
    };
    match fetch_report_rows(
        &conn,
        "SELECT
            app_name,
            DATE(start_time) as date,
            SUM(duration) as total_duration
        FROM app_usage
        GROUP BY app_name, DATE(start_time)
        ORDER BY date, total_duration DESC",
    ) {
        Ok(rows) => Ok(rows),
        Err(e) => Err(db_error(e)),
    }
}

/// How many segment rows the store holds. Lets a caller confirm what a run
/// did and did not persist.
pub fn count_usage_rows(db_name: &str) -> (r: Result<i64, DbError>) {
    let conn = match open_connection(db_name) {
        Ok(conn) => conn,
        Err(e) => {
            return Err(db_error(e));
        },
    };
    match fetch_single_integer(&conn, "SELECT COUNT(*) FROM app_usage") {
        Ok(n) => Ok(n),
        Err(e) => Err(db_error(e)),
    }
}

/// One iteration of the tracking loop's bookkeeping: advance the state
/// machine by one sampling tick and persist the segment the tick closed, if
/// any. The tracker advances whether or not the store accepts the row; a
/// store failure is returned for the caller to treat as fatal.
pub fn track_tick(
    tracker: &mut ActivityTracker,
    db_name: &str,
    locked: bool,
    sampled_app: String,
    wall_now: i64,
    mono_now: u64,
) -> (r: Result<Option<UsageSegment>, DbError>)
    requires
        old(tracker).phase is Tracking ==> old(tracker).segment_start_mono <= mono_now,
        old(tracker).phase is Tracking ==> old(tracker).segment_start_wall <= wall_now,
        !locked ==> sampled_app@.len() > 0,
    ensures
        ({
            let step = tick_result(
                *old(tracker),
                (TickInput { locked, app: sampled_app, wall: wall_now, mono: mono_now }),
            );
            *final(tracker) == step.0 && (r matches Ok(closed) ==> closed == step.1) && (
            r is Err ==> step.1 is Some)
        }),
{
    let closed = tracker.tick(locked, sampled_app, wall_now, mono_now);
    match closed {
        Some(seg) => {
            match append_segment(db_name, &seg) {
                Ok(()) => Ok(Some(seg)),
                Err(e) => Err(e),
            }
        },
        None => Ok(None),
    }
}

} // verus!
