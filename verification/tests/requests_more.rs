use tttb_backend::transactions::TradeDate;
use tttb_backend::body_limits::{
    body_rejection_error, over_import_limit_bytes, under_import_limit_bytes, BodyRejection,
    API_BODY_LIMIT_BYTES, IMPORT_BODY_LIMIT_BYTES,
};
use tttb_backend::history::history_range;
use tttb_backend::instruments::{lookup_query, normalize_isin, InstrumentLookupQuery};
use tttb_backend::key_set::keys_filtered;

#[test]
fn body_rejections_map_to_api_errors() {
    let e = body_rejection_error(BodyRejection::InvalidJson, API_BODY_LIMIT_BYTES);
    assert_eq!((e.status, e.code), (400, "invalid_json"));
    assert_eq!(e.message, "Request body contains invalid JSON.");
    let e = body_rejection_error(BodyRejection::MissingJsonContentType, API_BODY_LIMIT_BYTES);
    assert_eq!((e.status, e.code), (415, "unsupported_media_type"));
    let e = body_rejection_error(BodyRejection::LengthLimit, IMPORT_BODY_LIMIT_BYTES);
    assert_eq!((e.status, e.code), (413, "payload_too_large"));
    assert_eq!(e.message, "Request body exceeds the 32 MB limit.");
    let e = body_rejection_error(BodyRejection::LengthLimit, API_BODY_LIMIT_BYTES);
    assert_eq!(e.message, "Request body exceeds the 1 MB limit.");
    let e = body_rejection_error(BodyRejection::Unreadable, API_BODY_LIMIT_BYTES);
    assert_eq!((e.status, e.code), (400, "missing_body"));
}

#[test]
fn import_limit_probes_straddle_the_limit() {
    assert!(under_import_limit_bytes() < IMPORT_BODY_LIMIT_BYTES);
    assert_eq!(over_import_limit_bytes(), IMPORT_BODY_LIMIT_BYTES + 1024 * 1024);
}

#[test]
fn lookup_query_is_trimmed_and_required() {
    let q = InstrumentLookupQuery { query: "  volvo b ".to_owned() };
    assert_eq!(lookup_query(&q).expect("query"), "volvo b");
    let blank = InstrumentLookupQuery { query: " \t ".to_owned() };
    let e = lookup_query(&blank).expect_err("blank");
    assert_eq!((e.status, e.code), (400, "invalid_query"));
    assert_eq!(e.message, "query is required");
}

#[test]
fn isin_is_trimmed_and_upper_cased() {
    assert_eq!(normalize_isin(Some(" se0000108656 ".to_owned())).as_deref(), Some("SE0000108656"));
    assert_eq!(normalize_isin(Some("   ".to_owned())), None);
    assert_eq!(normalize_isin(None), None);
}

#[test]
fn key_filter_keeps_listed_or_unlisted_keys_in_order() {
    let keys = vec!["AAA".to_owned(), "BBB".to_owned(), "CCC".to_owned()];
    let other = vec!["BBB".to_owned(), "ZZZ".to_owned()];
    assert_eq!(keys_filtered(&keys, &other, true), vec!["BBB".to_owned()]);
    assert_eq!(keys_filtered(&keys, &other, false), vec!["AAA".to_owned(), "CCC".to_owned()]);
}

#[test]
fn history_range_checks_each_bound_and_their_order() {
    let (from, to) = history_range(&Some("2026-06-01".to_owned()), &None).expect("open end");
    assert_eq!(from, Some(TradeDate { year: 2026, month: 6, day: 1 }));
    assert_eq!(to, None);
    let e = history_range(&Some("June".to_owned()), &None).expect_err("bad from");
    assert_eq!((e.code, e.message.as_str()), ("invalid_date", "invalid from: June"));
    let e = history_range(&None, &Some("2026-02-30".to_owned())).expect_err("bad to");
    assert_eq!(e.message, "invalid to: 2026-02-30");
    let e = history_range(&Some("2026-06-02".to_owned()), &Some("2026-06-01".to_owned()))
        .expect_err("reversed");
    assert_eq!((e.code, e.message.as_str()), ("invalid_date_range", "from must not be after to"));
    assert!(history_range(&Some("2026-06-01".to_owned()), &Some("2026-06-01".to_owned())).is_ok());
}
