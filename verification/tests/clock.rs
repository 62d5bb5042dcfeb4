use tttb_backend::calendar::now_iso8601;

#[test]
fn now_iso8601_looks_like_rfc3339() {
    let value = now_iso8601();
    chrono::DateTime::parse_from_rfc3339(&value).expect("timestamp parses as RFC3339");
}
