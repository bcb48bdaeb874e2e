use sproot::alerts::Alerts;
use sproot::alerts::AlertsQuery;
use sproot::alerts::AlertsDTO;
use sproot::errors::ApiError;
use sproot::query::QueryType;

fn sample_alert(lookup: &str, table: &str, where_clause: Option<&str>) -> Alerts {
    Alerts {
        id: 7,
        active: true,
        name: "cpu-pressure".to_string(),
        table: table.to_string(),
        lookup: lookup.to_string(),
        timing: 60,
        warn: "$this > 50".to_string(),
        crit: "$this > 80".to_string(),
        info: None,
        host_uuid: "abcdef-12345".to_string(),
        cid: "11111111-2222-3333-4444-555555555555".to_string(),
        hostname: "node-1".to_string(),
        where_clause: where_clause.map(|w| w.to_string()),
    }
}

fn invalid_request_message(e: ApiError) -> String {
    match e {
        ApiError::InvalidRequestError(Some(m)) => m,
        other => panic!("expected an invalid-request error, got {:?}", other),
    }
}

#[test]
fn compile_abs_query_text() {
    let alert = sample_alert("avg abs 10m of cpu_a,cpu_b", "cputimes", None);
    let (query, mode) = alert.construct_query().unwrap();
    assert_eq!(mode, QueryType::Abs);
    assert_eq!(
        query,
        "SELECT time_bucket('10m', created_at) as time, \
         avg(cpu_a)::float8 + avg(cpu_b)::float8 as value FROM cputimes \
         WHERE host_uuid=$1 AND created_at > now() at time zone 'utc' - INTERVAL '10m'  \
         GROUP BY time ORDER BY time DESC"
    );
}

#[test]
fn compile_pct_query_text_with_where_clause() {
    let alert = sample_alert("sum pct 30m of a,b over c,d", "memory", Some("shared > 0"));
    let (query, mode) = alert.construct_query().unwrap();
    assert_eq!(mode, QueryType::Pct);
    assert_eq!(
        query,
        "SELECT time_bucket('30m', created_at) as time, \
         sum(a)::float8 + sum(b)::float8 as numerator, \
         sum(c)::float8 + sum(d)::float8 as divisor FROM memory \
         WHERE host_uuid=$1 AND created_at > now() at time zone 'utc' - INTERVAL '30m'  \
         AND shared > 0 GROUP BY time ORDER BY time DESC"
    );
}

#[test]
fn compile_single_column_query_text() {
    let alert = sample_alert("count abs 1h of used", "swap", None);
    let (query, _) = alert.construct_query().unwrap();
    assert_eq!(
        query,
        "SELECT time_bucket('1h', created_at) as time, \
         count(used)::float8 as value FROM swap \
         WHERE host_uuid=$1 AND created_at > now() at time zone 'utc' - INTERVAL '1h'  \
         GROUP BY time ORDER BY time DESC"
    );
}

#[test]
fn allow_listed_tables_and_filters_compile() {
    // None of the known metric tables, columns or sane filters holds a
    // disallowed keyword, so every combination compiles.
    let tables = ["cpustats", "cputimes", "disks", "ionets", "loadavg", "memory", "swap"];
    let filters = [None, Some("interface = 'eth0'"), Some("total_space > 1024")];
    for table in tables {
        for filter in filters {
            let alert = sample_alert("avg abs 10m of col_a,col_b", table, filter);
            assert!(alert.construct_query().is_ok());
        }
    }
}

#[test]
fn where_clause_with_drop_is_refused_in_any_case() {
    for clause in ["x > 0; DROP TABLE hosts", "x > 0; drop table hosts", "x > 0; DrOp y"] {
        let alert = sample_alert("avg abs 10m of a", "cputimes", Some(clause));
        let message = invalid_request_message(alert.construct_query().unwrap_err());
        assert_eq!(
            message,
            "Alert cpu-pressure for host_uuid abcdef contains disallowed statement \"DROP\""
        );
    }
}

#[test]
fn table_name_with_keyword_is_refused() {
    let alert = sample_alert("avg abs 10m of a", "hosts; truncate hosts", None);
    let message = invalid_request_message(alert.construct_query().unwrap_err());
    assert_eq!(
        message,
        "Alert cpu-pressure for host_uuid abcdef contains disallowed statement \"TRUNCATE\""
    );
}

#[test]
fn first_matching_keyword_is_reported() {
    // DELETE stands before DROP in the keyword list.
    let alert = sample_alert("avg abs 10m of a", "cputimes", Some("drop it, then delete it"));
    let message = invalid_request_message(alert.construct_query().unwrap_err());
    assert_eq!(
        message,
        "Alert cpu-pressure for host_uuid abcdef contains disallowed statement \"DELETE\""
    );
}

#[test]
fn short_host_uuid_is_shown_whole() {
    let mut alert = sample_alert("avg abs 10m of a", "cputimes", Some("rollback"));
    alert.host_uuid = "ab".to_string();
    let message = invalid_request_message(alert.construct_query().unwrap_err());
    assert_eq!(
        message,
        "Alert cpu-pressure for host_uuid ab contains disallowed statement \"ROLLBACK\""
    );
}

#[test]
fn parse_failures_surface_their_report() {
    let alert = sample_alert("avg pct 10m of a,b", "cputimes", None);
    let message = invalid_request_message(alert.construct_query().unwrap_err());
    assert_eq!(
        message,
        "query: lookup defined as mode pct but missing values, check usage."
    );

    let alert = sample_alert("xyz abs 10m of a", "cputimes", None);
    let message = invalid_request_message(alert.construct_query().unwrap_err());
    assert_eq!(
        message,
        "query: aggr is invalid. Valid are: avg, sum, min, max, count."
    );

    let alert = sample_alert("avg rel 10m of a", "cputimes", None);
    let message = invalid_request_message(alert.construct_query().unwrap_err());
    assert_eq!(message, "query: mode rel is invalid. Valid are: pct, abs.");

    let alert = sample_alert("avg abs", "cputimes", None);
    let message = invalid_request_message(alert.construct_query().unwrap_err());
    assert_eq!(
        message,
        "query: the lookup query is invalid, define as follow: \
         [aggr] [mode] [timeframe] of [table] {over} {table}"
    );

    let alert = sample_alert("avg abs never of a", "cputimes", None);
    let message = invalid_request_message(alert.construct_query().unwrap_err());
    assert_eq!(message, "query: req_time is not correctly formatted.");
}

#[test]
fn dto_compiles_like_a_stored_alert() {
    let dto = AlertsDTO {
        active: Some(true),
        name: "dto-alert".to_string(),
        table: "swap".to_string(),
        lookup: "min abs 5m of free".to_string(),
        timing: 30,
        warn: "$this < 512".to_string(),
        crit: "$this < 128".to_string(),
        info: "".to_string(),
        host_uuid: "fedcba-98765".to_string(),
        cid: "11111111-2222-3333-4444-555555555555".to_string(),
        hostname: "node-2".to_string(),
        where_clause: None,
    };
    let (query, mode) = dto.construct_query().unwrap();
    assert_eq!(mode, QueryType::Abs);
    assert!(query.starts_with("SELECT time_bucket('5m', created_at) as time, min(free)::float8 as value"));
}
