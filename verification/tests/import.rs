use std::collections::BTreeMap;

use tttb_backend::decimal::DecimalNum;
use tttb_backend::error::ErrorDetails;
use tttb_backend::import::{
    append_commit_check, commit_mode, compute_excluded_instrument_ids, duplicate_conflict,
    effective_counts, parse_error_preview, refresh_warnings, reject_on_errors,
    replace_candidate_warning, resolve_conviction_choices, rollback_result,
    unknown_key_warnings, AssetGroup, ClosingConvictedPosition, CommitParams,
    ExistingInstrument, ImportPlan, InstrumentKey, MappedRow, ParseError, PlanContext,
    PlanCounts, RowNote,
};
use tttb_backend::instruments::ConvictionLevel;
use tttb_backend::key_set::{keys_filtered, parse_asset_key_set};
use tttb_backend::transactions::{ProposedTransaction, TradeDate, TransactionKind};

fn dummy_instrument() -> InstrumentKey {
    InstrumentKey {
        exchange: "AVANZA".to_string(),
        symbol: "TEST".to_string(),
        name: "Test".to_string(),
        currency: "SEK".to_string(),
        isin: Some("SE0000000001".to_string()),
    }
}

fn dividend_row() -> MappedRow {
    MappedRow {
        source_row_number: 1,
        instrument: dummy_instrument(),
        proposed: ProposedTransaction {
            kind: TransactionKind::Dividend,
            trade_date: TradeDate { year: 2026, month: 5, day: 20 },
            quantity: 5,
            price: None,
            dividend_per_share: Some(DecimalNum { mantissa: 75, scale: 1 }),
            currency: Some("SEK".to_string()),
            fx_rate_to_base: Some(DecimalNum { mantissa: 1, scale: 0 }),
            brokerage_base: None,
        },
        source_value: Some(DecimalNum { mantissa: 375, scale: 1 }),
        source_currency: Some("SEK".to_string()),
        note: None,
        fx_warning: false,
    }
}

fn group(key: &str, name: &str, currency: &str) -> AssetGroup {
    AssetGroup {
        asset_key: key.into(),
        name: name.into(),
        currency: currency.into(),
        buys: 0,
        sells: 0,
        splits: 0,
        dividends: 0,
        already_imported_buys: 0,
        already_imported_sells: 0,
        already_imported_splits: 0,
        already_imported_dividends: 0,
        default_selected: true,
        skipped_reason: None,
        warnings: Vec::new(),
        errors: Vec::new(),
        is_new_instrument: false,
    }
}

fn empty_plan() -> ImportPlan {
    ImportPlan {
        counts: PlanCounts::default(),
        new_instruments: Vec::new(),
        assets: Vec::new(),
        already_imported_assets: Vec::new(),
        new_mapped_rows: Vec::new(),
        warnings: Vec::new(),
        errors: Vec::new(),
    }
}

fn context(id: i64, key: &str, currency: &str) -> PlanContext {
    PlanContext {
        existing_instruments: vec![ExistingInstrument {
            id,
            exchange: "AVANZA".into(),
            symbol: key.into(),
            currency: currency.into(),
            isin: Some(key.into()),
        }],
        existing_ledgers: BTreeMap::new(),
        max_existing_id: 0,
    }
}

#[test]
fn effective_counts_dividends_come_from_mapped_rows() {
    let mut retained = group("retained", "Retained", "SEK");
    retained.dividends = 1;
    let plan = ImportPlan {
        counts: PlanCounts { rows: 2, dividends: 2, ..Default::default() },
        new_instruments: Vec::new(),
        assets: vec![retained],
        already_imported_assets: Vec::new(),
        new_mapped_rows: Vec::new(),
        warnings: Vec::new(),
        errors: Vec::new(),
    };

    let counts_no_dividend = effective_counts(&plan, &Vec::new());
    assert_eq!(counts_no_dividend.rows, 0);
    assert_eq!(counts_no_dividend.dividends, 0);

    let mapped = vec![dividend_row()];
    let counts_with_dividend = effective_counts(&plan, &mapped);
    assert_eq!(counts_with_dividend.rows, 1);
    assert_eq!(counts_with_dividend.dividends, 1);
}

#[test]
fn already_imported_assets_are_added_to_excluded_instrument_ids() {
    let ctx = context(42, "US0231351067", "USD");
    let exclude: Vec<String> = Vec::new();
    let mut already = group("US0231351067", "Some Stock", "USD");
    already.already_imported_sells = 1;
    let mut plan = empty_plan();
    plan.already_imported_assets = vec![already];

    let excluded = compute_excluded_instrument_ids(&ctx, &exclude, &plan);
    assert!(
        excluded.contains(&42),
        "instrument in already_imported_assets must be excluded to protect its old batch rows"
    );
}

#[test]
fn mixed_asset_with_already_imported_rows_is_added_to_excluded_instrument_ids() {
    let ctx = context(11, "US7731211089", "USD");
    let exclude: Vec<String> = Vec::new();
    let mut mixed = group("US7731211089", "Rocket Lab", "USD");
    mixed.buys = 1;
    mixed.already_imported_sells = 1;
    let mut plan = empty_plan();
    plan.assets = vec![mixed];

    let excluded = compute_excluded_instrument_ids(&ctx, &exclude, &plan);
    assert!(
        excluded.contains(&11),
        "mixed asset with already-imported rows must be excluded to protect old batch rows \
         that the already-imported sell depends on"
    );
}

#[test]
fn explicitly_excluded_asset_is_also_in_excluded_instrument_ids() {
    let ctx = context(7, "SE0000108656", "SEK");
    let exclude: Vec<String> = vec!["SE0000108656".into()];
    let plan = empty_plan();

    let excluded = compute_excluded_instrument_ids(&ctx, &exclude, &plan);
    assert!(
        excluded.contains(&7),
        "explicitly excluded asset must remain in excluded_instrument_ids"
    );
}

#[test]
fn new_only_asset_keeps_no_earlier_rows() {
    let ctx = context(5, "SE0000000005", "SEK");
    let mut fresh = group("SE0000000005", "Fresh", "SEK");
    fresh.buys = 2;
    let mut plan = empty_plan();
    plan.assets = vec![fresh];

    let excluded = compute_excluded_instrument_ids(&ctx, &Vec::new(), &plan);
    assert!(excluded.is_empty());
}

#[test]
fn instrument_without_isin_is_keyed_by_exchange_and_symbol() {
    let ctx = PlanContext {
        existing_instruments: vec![ExistingInstrument {
            id: 3,
            exchange: "NASDAQ".into(),
            symbol: "MSFT".into(),
            currency: "USD".into(),
            isin: None,
        }],
        existing_ledgers: BTreeMap::new(),
        max_existing_id: 0,
    };
    assert_eq!(ctx.existing_instruments[0].asset_key(), "NASDAQ:MSFT");
    let excluded =
        compute_excluded_instrument_ids(&ctx, &vec!["NASDAQ:MSFT".to_string()], &empty_plan());
    assert!(excluded.contains(&3));
}

#[test]
fn asset_key_lists_are_trimmed_sorted_and_deduplicated() {
    let keys = parse_asset_key_set(&Some(" b , a,, b ,c".to_string()));
    assert_eq!(keys, vec!["a".to_string(), "b".to_string(), "c".to_string()]);
    assert!(parse_asset_key_set(&None).is_empty());
    assert!(parse_asset_key_set(&Some(" , ".to_string())).is_empty());
}

#[test]
fn unknown_exclude_keys_keep_their_order_and_warn_with_quotes() {
    let exclude = parse_asset_key_set(&Some("ZZ,AA,MM".to_string()));
    let known = vec!["MM".to_string()];
    let unknown = keys_filtered(&exclude, &known, false);
    assert_eq!(unknown, vec!["AA".to_string(), "ZZ".to_string()]);
    let warnings = unknown_key_warnings(&unknown);
    assert_eq!(warnings.len(), 2);
    assert_eq!(warnings[0].row, None);
    assert_eq!(warnings[0].code, "unknown_exclude_key");
    assert_eq!(warnings[0].message, "exclude key \"AA\" matched no asset");
}

fn note(code: &'static str, message: &str) -> RowNote {
    RowNote { row: Some(3), code, message: message.to_string() }
}

#[test]
fn refresh_warnings_append_only_missing_fx_notes() {
    let mut plan = empty_plan();
    plan.warnings = vec![note("other", "x"), note("missing_fx", "no rate"), note("missing_fx", "again")];
    let warnings = refresh_warnings(&vec!["K".to_string()], &plan);
    assert_eq!(warnings.len(), 3);
    assert_eq!(warnings[0].code, "unknown_exclude_key");
    assert_eq!(warnings[1].message, "no rate");
    assert_eq!(warnings[2].message, "again");
    assert_eq!(warnings[2].row, Some(3));
}

#[test]
fn plan_errors_reject_the_commit_with_every_error_in_details() {
    let mut plan = empty_plan();
    assert!(reject_on_errors(&plan).is_ok());
    plan.errors = vec![note("bad_row", "first"), note("bad_date", "second")];
    let error = reject_on_errors(&plan).expect_err("errors reject");
    assert_eq!(error.status, 422);
    assert_eq!(error.code, "bad_row");
    assert_eq!(error.message, "first");
    match error.details {
        Some(ErrorDetails::RowErrors(rows)) => {
            assert_eq!(rows.len(), 2);
            assert_eq!(rows[1].code, "bad_date");
        }
        other => panic!("unexpected details {other:?}"),
    }
}

#[test]
fn duplicate_file_is_a_conflict_naming_the_batch() {
    let error = duplicate_conflict(17);
    assert_eq!(error.status, 409);
    assert_eq!(error.code, "duplicate_import");
    assert_eq!(error.message, "file already imported as batch 17");
    assert!(matches!(error.details, Some(ErrorDetails::DuplicateOfBatch(17))));
}

#[test]
fn append_commit_refuses_nothing_new_and_unallowed_duplicates() {
    let mut plan = empty_plan();
    plan.already_imported_assets = vec![group("A", "A", "SEK")];
    let error = append_commit_check(&plan, None, false).expect_err("nothing to import");
    assert_eq!(error.code, "nothing_to_import");
    assert_eq!(error.status, 400);

    let mut plan = empty_plan();
    plan.new_mapped_rows = vec![dividend_row()];
    assert_eq!(append_commit_check(&plan, Some(4), false).expect_err("dup").code, "duplicate_import");
    assert!(append_commit_check(&plan, Some(4), true).is_ok());
    assert!(append_commit_check(&plan, None, false).is_ok());
}

fn params() -> CommitParams {
    CommitParams {
        allow_duplicate: false,
        exclude: None,
        mode: None,
        replace_batch_id: None,
        conviction_keep: None,
        conviction_to_other: None,
    }
}

#[test]
fn replace_mode_needs_a_batch() {
    assert_eq!(commit_mode(&params()).expect("append"), None);
    let mut p = params();
    p.mode = Some("replace".into());
    assert_eq!(commit_mode(&p).expect_err("missing").code, "missing_replace_batch_id");
    p.replace_batch_id = Some(9);
    assert_eq!(commit_mode(&p).expect("replace"), Some(9));
    p.mode = Some("append".into());
    assert_eq!(commit_mode(&p).expect("append"), None);
}

#[test]
fn replace_candidate_warning_only_with_several_batches() {
    assert_eq!(replace_candidate_warning(None, 5), None);
    assert_eq!(replace_candidate_warning(Some(3), 1), None);
    assert_eq!(
        replace_candidate_warning(Some(3), 2).as_deref(),
        Some("Multiple Avanza imports found; refreshing batch 3, others are left untouched")
    );
}

fn closing(id: i64, key: &str) -> ClosingConvictedPosition {
    ClosingConvictedPosition {
        instrument_id: id,
        asset_key: key.into(),
        symbol: format!("SYM{id}"),
        conviction: ConvictionLevel::High,
    }
}

#[test]
fn conviction_choices_must_cover_each_closing_key_once() {
    let positions = vec![closing(1, "A"), closing(2, "B")];

    assert!(resolve_conviction_choices(&Vec::new(), &params()).expect("none closing").is_empty());

    let error = resolve_conviction_choices(&positions, &params()).expect_err("uncovered");
    assert_eq!(error.code, "conviction_choice_required");
    match error.details {
        Some(ErrorDetails::ClosingPositions(missing)) => {
            assert_eq!(missing.len(), 2);
            assert_eq!(missing[0].asset_key, "A");
            assert_eq!(missing[1].symbol, "SYM2");
        }
        other => panic!("unexpected details {other:?}"),
    }

    let mut p = params();
    p.conviction_keep = Some("A,B".into());
    p.conviction_to_other = Some("B".into());
    let error = resolve_conviction_choices(&positions, &p).expect_err("conflict");
    assert_eq!(error.code, "conviction_choice_conflict");
    match error.details {
        Some(ErrorDetails::AssetKeys(keys)) => assert_eq!(keys, vec!["B".to_string()]),
        other => panic!("unexpected details {other:?}"),
    }

    p.conviction_keep = Some("A, STALE".into());
    p.conviction_to_other = Some(" B ,STALE2".into());
    let ids = resolve_conviction_choices(&positions, &p).expect("covered");
    assert_eq!(ids.into_iter().collect::<Vec<_>>(), vec![2]);
}

#[test]
fn unparseable_report_previews_its_parse_error() {
    let preview = parse_error_preview(
        ParseError { row: Some(4), code: "bad_header", message: "no header".into() },
        Some(8),
    );
    assert!(preview.metadata.is_none());
    assert_eq!(preview.counts.errors, 1);
    assert_eq!(preview.counts.rows, 0);
    assert_eq!(preview.errors.len(), 1);
    assert_eq!(preview.errors[0].code, "bad_header");
    assert_eq!(preview.errors[0].row, Some(4));
    assert_eq!(preview.duplicate_of_batch_id, Some(8));
}

#[test]
fn rollback_of_a_vanished_batch_is_not_found() {
    assert_eq!(rollback_result(6, 3, 0).expect_err("gone").message, "import batch 6 not found");
    let result = rollback_result(6, 3, 1).expect("removed");
    assert_eq!((result.batch_id, result.removed), (6, 3));
}
