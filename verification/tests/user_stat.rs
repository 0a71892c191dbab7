use chrono::{TimeZone, Utc};
use crm_core::metadata::before;
use crm_core::status::Code;
use crm_core::time::Timestamp;
use crm_core::user_stat::{
    ids_query, query, raw_query, time_condition, timestamp_query, IdQuery, QueryRequest,
    RawQueryRequest, TimeQuery, User,
};

fn tq(lower: Option<u64>, upper: Option<u64>) -> TimeQuery {
    TimeQuery {
        lower: lower.map(|days| before(days).unwrap()),
        upper: upper.map(|days| before(days).unwrap()),
    }
}

fn id(ids: &[u32]) -> IdQuery {
    IdQuery { ids: ids.to_vec() }
}

fn at(seconds: i64) -> Timestamp {
    Timestamp::new(seconds, 0)
}

#[test]
fn query_request_to_string_should_work() {
    let d1 = Utc.with_ymd_and_hms(2024, 1, 1, 0, 0, 0).unwrap();
    let d2 = Utc.with_ymd_and_hms(2024, 1, 2, 0, 0, 0).unwrap();
    let query = QueryRequest::new_with_dt("created_at", d1.timestamp(), d2.timestamp());
    let sql = query.to_string();
    assert_eq!(
        sql,
        "SELECT email, name FROM user_stats WHERE created_at BETWEEN '2024-01-01T00:00:00+00:00' AND '2024-01-02T00:00:00+00:00'"
    );
}

#[test]
fn empty_filter_selects_everything() {
    let sql = QueryRequest::new().to_string();
    assert_eq!(sql, "SELECT email, name FROM user_stats WHERE TRUE");
}

#[test]
fn id_entries_follow_the_time_entries() {
    let filter = QueryRequest::new()
        .timestamp(
            "created_at".to_string(),
            TimeQuery { lower: Some(at(1704067200)), upper: None },
        )
        .timestamp(
            "last_visited_at".to_string(),
            TimeQuery { lower: None, upper: Some(at(1704153600)) },
        )
        .id("viewed_but_not_started".to_string(), IdQuery { ids: vec![252790] })
        .id("started_but_not_finished".to_string(), IdQuery { ids: vec![1, 20, 300] });
    assert_eq!(
        filter.compile().unwrap(),
        "SELECT email, name FROM user_stats WHERE created_at >= '2024-01-01T00:00:00+00:00' AND last_visited_at <= '2024-01-02T00:00:00+00:00' AND array[252790] <@ viewed_but_not_started AND array[1, 20, 300] <@ started_but_not_finished"
    );
}

#[test]
fn id_entries_alone_leave_no_dangling_and() {
    let filter = QueryRequest::new().id("viewed".to_string(), IdQuery { ids: vec![7, 8] });
    assert_eq!(
        filter.to_string(),
        "SELECT email, name FROM user_stats WHERE TRUE AND array[7, 8] <@ viewed"
    );
}

#[test]
fn empty_id_set_is_true() {
    assert_eq!(ids_query("viewed", &[]), "TRUE");
    let filter = QueryRequest::new().id("viewed".to_string(), IdQuery { ids: vec![] });
    assert_eq!(
        filter.to_string(),
        "SELECT email, name FROM user_stats WHERE TRUE AND TRUE"
    );
}

#[test]
fn ids_query_writes_decimal_numbers() {
    assert_eq!(ids_query("col", &[0]), "array[0] <@ col");
    assert_eq!(ids_query("col", &[9, 10, 4294967295]), "array[9, 10, 4294967295] <@ col");
}

#[test]
fn timestamp_query_covers_the_four_shapes() {
    let lower = at(0);
    let upper = Timestamp::new(1, 500_000_000);
    assert_eq!(timestamp_query("t", None, None), "TRUE");
    assert_eq!(timestamp_query("t", Some(&lower), None), "t >= '1970-01-01T00:00:00+00:00'");
    assert_eq!(timestamp_query("t", None, Some(&upper)), "t <= '1970-01-01T00:00:01.500+00:00'");
    assert_eq!(
        timestamp_query("t", Some(&lower), Some(&upper)),
        "t BETWEEN '1970-01-01T00:00:00+00:00' AND '1970-01-01T00:00:01.500+00:00'"
    );
}

#[test]
fn unbounded_range_is_true() {
    let filter = QueryRequest::new()
        .timestamp("created_at".to_string(), TimeQuery { lower: None, upper: None });
    assert_eq!(filter.to_string(), "SELECT email, name FROM user_stats WHERE TRUE");
}

#[test]
fn compiling_twice_gives_the_same_text() {
    let filter = QueryRequest::new()
        .timestamp("b".to_string(), TimeQuery { lower: Some(at(10)), upper: None })
        .timestamp("a".to_string(), TimeQuery { lower: Some(at(20)), upper: None })
        .id("z".to_string(), IdQuery { ids: vec![3, 2, 1] });
    let first = filter.to_string();
    let second = filter.to_string();
    assert_eq!(first, second);
    assert_eq!(
        first,
        "SELECT email, name FROM user_stats WHERE b >= '1970-01-01T00:00:10+00:00' AND a >= '1970-01-01T00:00:20+00:00' AND array[3, 2, 1] <@ z"
    );
}

#[test]
fn naming_a_field_again_keeps_its_place() {
    let filter = QueryRequest::new()
        .timestamp("a".to_string(), TimeQuery { lower: Some(at(1)), upper: None })
        .timestamp("b".to_string(), TimeQuery { lower: Some(at(2)), upper: None })
        .timestamp("a".to_string(), TimeQuery { lower: None, upper: Some(at(3)) })
        .id("x".to_string(), IdQuery { ids: vec![1] })
        .id("x".to_string(), IdQuery { ids: vec![2] });
    assert_eq!(filter.timestamps().len(), 2);
    assert_eq!(filter.timestamps()[0].0, "a");
    assert_eq!(filter.timestamps()[0].1, TimeQuery { lower: None, upper: Some(at(3)) });
    assert_eq!(filter.timestamps()[1].0, "b");
    assert_eq!(filter.ids().len(), 1);
    assert_eq!(filter.ids()[0].1.ids, vec![2]);
}

#[test]
fn invalid_bound_does_not_compile() {
    let negative = QueryRequest::new().timestamp(
        "t".to_string(),
        TimeQuery { lower: Some(Timestamp::new(0, -1)), upper: None },
    );
    assert!(!negative.renders());
    assert_eq!(negative.compile(), None);
    assert!(query(&negative).is_none());
    let far = QueryRequest::new().timestamp(
        "t".to_string(),
        TimeQuery { lower: None, upper: Some(Timestamp::new(i64::MAX, 0)) },
    );
    assert_eq!(far.compile(), None);
    assert_eq!(Timestamp::new(0, 2_000_000_000).to_rfc3339(), None);
}

#[test]
fn query_wraps_the_compiled_text() {
    let filter = QueryRequest::new_with_dt("created_at", 0, 86400);
    let raw = query(&filter).unwrap();
    assert_eq!(raw.query, filter.to_string());
}

#[test]
fn raw_query_hands_rows_through() {
    let req = RawQueryRequest { query: "select 1".to_string() };
    let rows = vec![
        User { email: "a@example.com".to_string(), name: "A".to_string() },
        User { email: "b@example.com".to_string(), name: "B".to_string() },
    ];
    assert_eq!(raw_query(&req, Some(rows.clone())), Ok(rows));
}

#[test]
fn raw_query_failure_is_internal() {
    let req = RawQueryRequest { query: "select nonsense".to_string() };
    let status = raw_query(&req, None).unwrap_err();
    assert_eq!(status.code(), Code::Internal);
    assert_eq!(status.message(), "Failed to fetch data with query: select nonsense");
}

#[test]
fn mod_raw_query_should_work() {
    let req = RawQueryRequest {
        query: "select * from user_stats where created_at > '2024-01-01' limit 5".to_string(),
    };
    let rows: Vec<User> = (0..5)
        .map(|i| User { email: format!("u{i}@example.com"), name: format!("U{i}") })
        .collect();
    let answer = raw_query(&req, Some(rows.clone())).unwrap();
    assert_eq!(answer, rows);
}

#[test]
fn mod_query_should_work() {
    let filter = QueryRequest::new()
        .timestamp("created_at".to_string(), tq(Some(120), None))
        .timestamp("last_visited_at".to_string(), tq(Some(30), None))
        .id("viewed_but_not_started".to_string(), id(&[252790]));
    let created = filter.timestamps()[0].1.lower.unwrap().to_rfc3339().unwrap();
    let visited = filter.timestamps()[1].1.lower.unwrap().to_rfc3339().unwrap();
    let raw = query(&filter).unwrap();
    assert_eq!(
        raw.query,
        format!(
            "SELECT email, name FROM user_stats WHERE created_at >= '{created}' AND last_visited_at >= '{visited}' AND array[252790] <@ viewed_but_not_started"
        )
    );
    assert_eq!(raw_query(&raw, Some(vec![])), Ok(vec![]));
}

#[test]
fn time_condition_writes_the_four_shapes() {
    let lower = "2024-01-01T00:00:00+00:00";
    let upper = "2024-01-02T00:00:00+00:00";
    assert_eq!(time_condition("created_at", None, None), "TRUE");
    assert_eq!(
        time_condition("created_at", Some(lower), None),
        "created_at >= '2024-01-01T00:00:00+00:00'"
    );
    assert_eq!(
        time_condition("created_at", None, Some(upper)),
        "created_at <= '2024-01-02T00:00:00+00:00'"
    );
    assert_eq!(
        time_condition("created_at", Some(lower), Some(upper)),
        "created_at BETWEEN '2024-01-01T00:00:00+00:00' AND '2024-01-02T00:00:00+00:00'"
    );
    assert_eq!(time_condition("", Some(""), Some("")), " BETWEEN '' AND ''");
}

#[test]
fn timestamp_query_agrees_with_time_condition() {
    let lower = at(1_704_067_200);
    let upper = Timestamp::new(1_704_153_600, 250_000_000);
    let lower_text = lower.to_rfc3339().unwrap();
    let upper_text = upper.to_rfc3339().unwrap();
    assert_eq!(upper_text, "2024-01-02T00:00:00.250+00:00");
    assert_eq!(
        timestamp_query("t", Some(&lower), Some(&upper)),
        time_condition("t", Some(&lower_text), Some(&upper_text))
    );
    assert_eq!(
        timestamp_query("t", Some(&lower), None),
        time_condition("t", Some(&lower_text), None)
    );
    assert_eq!(
        timestamp_query("t", None, Some(&upper)),
        time_condition("t", None, Some(&upper_text))
    );
}
