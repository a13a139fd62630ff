use rolex::block_log::BlockLog;
use rolex::error::{check_status, LogError};
use rolex::fault_log::FaultLog;
use rolex::json::JsonValue;
use rolex::query::{alarm_query, block_status_query, query_params, query_url};
use rolex::series::Series;
use rolex::timestamp::Timestamp;

fn text(s: &str) -> JsonValue {
    JsonValue::Str(s.to_string())
}

fn object(members: Vec<(&str, JsonValue)>) -> JsonValue {
    JsonValue::Object(members.into_iter().map(|(k, v)| (k.to_string(), v)).collect())
}

fn envelope(columns: &[&str], rows: Vec<Vec<JsonValue>>) -> JsonValue {
    let series = object(vec![
        ("name", text("lsst.sal.Watcher.logevent_alarm")),
        ("columns", JsonValue::Array(columns.iter().map(|c| text(c)).collect())),
        ("values", JsonValue::Array(rows.into_iter().map(JsonValue::Array).collect())),
    ]);
    let statement = object(vec![
        ("statement_id", JsonValue::UInt(0)),
        ("series", JsonValue::Array(vec![series])),
    ]);
    object(vec![("results", JsonValue::Array(vec![statement]))])
}

fn alarm_row(time: &str, name: &str, reason: &str, severity: u64) -> Vec<JsonValue> {
    vec![text(time), text(name), text(reason), JsonValue::UInt(severity)]
}

#[test]
fn fault_logs_read_one_per_row() {
    let env = envelope(
        &["time", "name", "reason", "severity"],
        vec![
            alarm_row("2024-08-13T12:00:01Z", "Enabled.ATDome", "not enabled", 3),
            alarm_row("2024-08-13T12:05:00Z", "Heartbeat.MTMount", "no heartbeat", 2),
        ],
    );
    let logs = FaultLog::from_envelope(env).unwrap();
    assert_eq!(logs.len(), 2);
    assert_eq!(logs[0].time, "2024-08-13T12:00:01Z");
    assert_eq!(logs[0].name, "Enabled.ATDome");
    assert_eq!(logs[0].reason, "not enabled");
    assert_eq!(logs[0].severity, 3);
    assert_eq!(logs[1].name, "Heartbeat.MTMount");
    assert_eq!(logs[1].severity, 2);
}

#[test]
fn fault_logs_follow_column_names_not_positions() {
    let env = envelope(
        &["severity", "reason", "time", "name"],
        vec![vec![JsonValue::UInt(4), text("why"), text("t0"), text("alarm")]],
    );
    let logs = FaultLog::from_envelope(env).unwrap();
    assert_eq!(logs[0].time, "t0");
    assert_eq!(logs[0].name, "alarm");
    assert_eq!(logs[0].reason, "why");
    assert_eq!(logs[0].severity, 4);
}

#[test]
fn empty_results_is_empty_result_error() {
    let env = object(vec![("results", JsonValue::Array(vec![]))]);
    assert!(matches!(FaultLog::from_envelope(env), Err(LogError::EmptyResult)));
}

#[test]
fn empty_series_is_empty_result_error() {
    let statement = object(vec![
        ("statement_id", JsonValue::UInt(0)),
        ("series", JsonValue::Array(vec![])),
    ]);
    let env = object(vec![("results", JsonValue::Array(vec![statement]))]);
    assert!(matches!(BlockLog::from_envelope(env), Err(LogError::EmptyResult)));
}

#[test]
fn statement_without_series_is_empty_result_error() {
    let statement = object(vec![("statement_id", JsonValue::UInt(0))]);
    let env = object(vec![("results", JsonValue::Array(vec![statement]))]);
    assert!(matches!(FaultLog::from_envelope(env), Err(LogError::EmptyResult)));
}

#[test]
fn non_success_status_is_http_status_error() {
    match check_status(503, "unavailable".to_string()) {
        Err(LogError::HttpStatus { status, body }) => {
            assert_eq!(status, 503);
            assert_eq!(body, "unavailable");
        }
        other => panic!("unexpected {:?}", other),
    }
    assert!(matches!(check_status(199, String::new()), Err(LogError::HttpStatus { .. })));
    assert!(matches!(check_status(300, String::new()), Err(LogError::HttpStatus { .. })));
    assert_eq!(check_status(200, "{}".to_string()).unwrap(), "{}");
    assert_eq!(check_status(299, "x".to_string()).unwrap(), "x");
}

#[test]
fn short_row_is_schema_mismatch() {
    let env = envelope(
        &["time", "name", "reason", "severity"],
        vec![vec![text("t0"), text("alarm"), text("why")]],
    );
    assert!(matches!(FaultLog::from_envelope(env), Err(LogError::SchemaMismatch)));
}

#[test]
fn long_row_is_schema_mismatch() {
    let mut row = alarm_row("t0", "alarm", "why", 1);
    row.push(text("extra"));
    let env = envelope(&["time", "name", "reason", "severity"], vec![row]);
    assert!(matches!(FaultLog::from_envelope(env), Err(LogError::SchemaMismatch)));
}

#[test]
fn missing_column_is_schema_mismatch() {
    let env = envelope(
        &["time", "name", "reason"],
        vec![vec![text("t0"), text("alarm"), text("why")]],
    );
    assert!(matches!(FaultLog::from_envelope(env), Err(LogError::SchemaMismatch)));
}

#[test]
fn cell_of_wrong_type_is_parse_error() {
    let env = envelope(
        &["time", "name", "reason", "severity"],
        vec![vec![text("t0"), text("alarm"), text("why"), text("high")]],
    );
    assert!(matches!(FaultLog::from_envelope(env), Err(LogError::Parse)));
}

#[test]
fn envelope_that_is_not_an_object_is_parse_error() {
    assert!(matches!(FaultLog::from_envelope(JsonValue::Null), Err(LogError::Parse)));
    assert!(matches!(
        Series::from_envelope(object(vec![("results", text("no"))])),
        Err(LogError::Parse)
    ));
}

#[test]
fn series_keeps_name_columns_and_rows() {
    let env = envelope(&["time", "name"], vec![vec![text("a"), text("b")]]);
    let series = Series::from_envelope(env).unwrap();
    assert_eq!(series.name.as_deref(), Some("lsst.sal.Watcher.logevent_alarm"));
    assert_eq!(series.columns, vec!["time", "name"]);
    assert_eq!(series.values.len(), 1);
    assert!(series.is_aligned());
}

#[test]
fn block_logs_read_one_per_row() {
    let env = envelope(
        &["time", "id", "status", "hash", "salIndex"],
        vec![vec![
            text("2024-08-13T12:00:00Z"),
            text("BLOCK-R19"),
            text("STARTED"),
            text("abc123"),
            JsonValue::UInt(2),
        ]],
    );
    let logs = BlockLog::from_envelope(env).unwrap();
    assert_eq!(logs.len(), 1);
    assert_eq!(logs[0].id, "BLOCK-R19");
    assert_eq!(logs[0].status, "STARTED");
    assert_eq!(logs[0].hash, "abc123");
    assert_eq!(logs[0].sal_index, 2);
    assert_eq!(logs[0].get_date_added(), "2024-08-13T12:00:00Z");
    assert_eq!(logs[0].get_index_label(), "AuxTel");
}

fn block(sal_index: usize) -> BlockLog {
    BlockLog {
        time: String::new(),
        id: String::new(),
        status: String::new(),
        hash: String::new(),
        sal_index,
    }
}

#[test]
fn index_labels_of_known_groups() {
    assert_eq!(block(1).get_index_label(), "Maintel");
    assert_eq!(block(2).get_index_label(), "AuxTel");
    assert_eq!(block(3).get_index_label(), "OCS");
}

#[test]
fn index_labels_of_unknown_groups() {
    assert_eq!(block(0).get_index_label(), "Unknown[0]");
    assert_eq!(block(4).get_index_label(), "Unknown[4]");
    assert_eq!(block(42).get_index_label(), "Unknown[42]");
    assert_eq!(block(1000).get_index_label(), "Unknown[1000]");
    assert_eq!(block(usize::MAX).get_index_label(), format!("Unknown[{}]", usize::MAX));
}

#[test]
fn alarm_query_text() {
    assert_eq!(
        alarm_query(
            &Timestamp::new(2024, 8, 13, 12, 0, 0).unwrap(),
            &Timestamp::new(2024, 8, 14, 12, 0, 0).unwrap()
        ),
        r#"SELECT "time","name","reason","severity" FROM "efd"."autogen"."lsst.sal.Watcher.logevent_alarm" WHERE time > '2024-08-13 12:00:00' AND time < '2024-08-14 12:00:00'"#
    );
}

#[test]
fn block_status_query_text() {
    assert_eq!(
        block_status_query(
            &Timestamp::new(99, 1, 2, 3, 4, 5).unwrap(),
            &Timestamp::new(2000, 2, 29, 23, 59, 59).unwrap()
        ),
        r#"SELECT "id", "status", "hash", "salIndex" FROM "efd"."autogen"."lsst.sal.Scheduler.logevent_blockStatus" WHERE time > '0099-01-02 03:04:05' AND time < '2000-02-29 23:59:59'"#
    );
}

#[test]
fn query_endpoint_and_params() {
    assert_eq!(query_url("usdf-rsp.slac.stanford.edu", "443"), "https://usdf-rsp.slac.stanford.edu:443/influxdb/query");
    let params = query_params("SELECT 1");
    assert_eq!(params, vec![("db".to_string(), "efd".to_string()), ("q".to_string(), "SELECT 1".to_string())]);
}

#[test]
fn timestamps_follow_the_calendar() {
    assert!(Timestamp::new(2024, 2, 29, 0, 0, 0).is_some());
    assert!(Timestamp::new(2000, 2, 29, 0, 0, 0).is_some());
    assert!(Timestamp::new(2023, 2, 29, 0, 0, 0).is_none());
    assert!(Timestamp::new(2100, 2, 29, 0, 0, 0).is_none());
    assert!(Timestamp::new(2023, 4, 31, 0, 0, 0).is_none());
    assert!(Timestamp::new(2023, 12, 31, 23, 59, 59).is_some());
    assert!(Timestamp::new(2023, 13, 1, 0, 0, 0).is_none());
    assert!(Timestamp::new(2023, 0, 1, 0, 0, 0).is_none());
    assert!(Timestamp::new(2023, 1, 0, 0, 0, 0).is_none());
    assert!(Timestamp::new(2023, 1, 1, 24, 0, 0).is_none());
    assert!(Timestamp::new(2023, 1, 1, 0, 60, 0).is_none());
    assert!(Timestamp::new(2023, 1, 1, 0, 0, 60).is_none());
    assert!(Timestamp::new(10000, 1, 1, 0, 0, 0).is_none());
}

#[test]
fn timestamp_text_is_date_space_time() {
    let t = Timestamp::new(2024, 8, 13, 12, 0, 0).unwrap();
    assert_eq!(t.to_text(), "2024-08-13 12:00:00");
    let t = Timestamp::new(7, 3, 9, 1, 2, 3).unwrap();
    assert_eq!(t.to_text(), "0007-03-09 01:02:03");
}
