use sproot::metrics::build_dated_query;
use sproot::metrics::u32_to_string;

fn cols(names: &[&str]) -> Vec<String> {
    names.iter().map(|n| n.to_string()).collect()
}

#[test]
fn decimal_rendering() {
    assert_eq!(u32_to_string(0), "0");
    assert_eq!(u32_to_string(7), "7");
    assert_eq!(u32_to_string(60), "60");
    assert_eq!(u32_to_string(86400), "86400");
    assert_eq!(u32_to_string(u32::MAX), "4294967295");
}

#[test]
fn dated_query_buckets_a_plain_table() {
    let q = build_dated_query(
        "cpustats",
        &cols(&[]),
        &cols(&["interrupts", "ctx_switches"]),
        0,
        300,
    );
    assert_eq!(
        q,
        "WITH s AS (SELECT avg(interrupts)::int8 as interrupts, \
         avg(ctx_switches)::int8 as ctx_switches, \
         time_bucket('1s', created_at) as time FROM cpustats \
         WHERE host_uuid=$1 AND created_at BETWEEN $2 AND $3 \
         GROUP BY time ORDER BY time DESC) \
         SELECT interrupts, ctx_switches, time as created_at FROM s"
    );
}

#[test]
fn dated_query_groups_by_key_columns() {
    let q = build_dated_query(
        "disks",
        &cols(&["disk_name"]),
        &cols(&["total_space", "avail_space"]),
        0,
        21600,
    );
    assert_eq!(
        q,
        "WITH s AS (SELECT disk_name, \
         avg(total_space)::int8 as total_space, \
         avg(avail_space)::int8 as avail_space, \
         time_bucket('60s', created_at) as time FROM disks \
         WHERE host_uuid=$1 AND created_at BETWEEN $2 AND $3 \
         GROUP BY time,disk_name ORDER BY time DESC) \
         SELECT disk_name, total_space, avail_space, time as created_at FROM s"
    );
}

#[test]
fn dated_query_switches_to_ten_minute_rollup() {
    let q = build_dated_query(
        "ionets",
        &cols(&["interface"]),
        &cols(&["rx_bytes", "tx_bytes"]),
        0,
        100_000,
    );
    assert_eq!(
        q,
        "SELECT interface, rx_bytes, tx_bytes, time as created_at FROM ionets_10m \
         WHERE host_uuid=$1 AND time BETWEEN $2 AND $3 ORDER BY time DESC"
    );
}

#[test]
fn dated_query_switches_to_thirty_minute_rollup() {
    let q = build_dated_query("memory", &cols(&[]), &cols(&["free", "used"]), 0, 400_000);
    assert_eq!(
        q,
        "SELECT free, used, time as created_at FROM memory_30m \
         WHERE host_uuid=$1 AND time BETWEEN $2 AND $3 ORDER BY time DESC"
    );
}
