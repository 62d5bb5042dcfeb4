use tttb_backend::decimal::{money_string, DecimalNum};
use tttb_backend::gains::{dedup_valuation_reasons, merge_closed_reasons, perf_amount_response};
use tttb_backend::valuation::{serialize_valuation_reason, AvailabilityResponse, ValuationReason};

#[test]
fn money_string_formats_two_decimals_and_normalizes_negative_zero() {
    assert_eq!(money_string(DecimalNum { mantissa: 123, scale: 1 }), "12.30");
    assert_eq!(money_string(DecimalNum { mantissa: -1, scale: 3 }), "0.00");
}

#[test]
fn serializes_previous_close_source_mismatch() {
    assert_eq!(
        serialize_valuation_reason(&ValuationReason::PreviousCloseSourceMismatch),
        "previous_close_source_mismatch"
    );
}

#[test]
fn money_rounds_half_to_even() {
    assert_eq!(money_string(DecimalNum { mantissa: 1005, scale: 3 }), "1.00");
    assert_eq!(money_string(DecimalNum { mantissa: 1015, scale: 3 }), "1.02");
    assert_eq!(money_string(DecimalNum { mantissa: -2567, scale: 3 }), "-2.57");
    assert_eq!(money_string(DecimalNum { mantissa: 7, scale: 0 }), "7.00");
}

#[test]
fn numbered_reasons_carry_their_number() {
    assert_eq!(
        serialize_valuation_reason(&ValuationReason::StalePrice { trading_days: 3 }),
        "stale_price_3_days"
    );
    assert_eq!(
        serialize_valuation_reason(&ValuationReason::MissingTransactionFx { transaction_id: 42 }),
        "missing_transaction_fx_42"
    );
}

#[test]
fn merged_reasons_keep_first_occurrences() {
    let mut reasons = vec![
        ValuationReason::MissingFx,
        ValuationReason::MissingPrice,
        ValuationReason::MissingFx,
    ];
    dedup_valuation_reasons(&mut reasons);
    assert_eq!(reasons, vec![ValuationReason::MissingFx, ValuationReason::MissingPrice]);

    let merged = merge_closed_reasons(&[
        vec![ValuationReason::MissingPrice],
        vec![ValuationReason::MissingFx, ValuationReason::MissingPrice],
    ]);
    assert_eq!(merged, vec![ValuationReason::MissingPrice, ValuationReason::MissingFx]);
}

#[test]
fn portfolio_totals_report_amounts_or_reasons() {
    let value = DecimalNum { mantissa: 12345, scale: 2 };
    match perf_amount_response(true, &[], value) {
        AvailabilityResponse::Available { value } => assert_eq!(value, "123.45"),
        other => panic!("unexpected {other:?}"),
    }
    match perf_amount_response(false, &[ValuationReason::MissingFx], value) {
        AvailabilityResponse::Unavailable { reasons } => assert_eq!(reasons, vec!["missing_fx"]),
        other => panic!("unexpected {other:?}"),
    }
    match perf_amount_response(false, &[], value) {
        AvailabilityResponse::Unavailable { reasons } => assert!(reasons.is_empty()),
        other => panic!("unexpected {other:?}"),
    }
}
