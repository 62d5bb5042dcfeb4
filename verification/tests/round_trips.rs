use std::str::FromStr;

use rust_decimal::Decimal;
use tttb_backend::decimal::{money_string, DecimalNum};
use tttb_backend::requests::{bumps_revision, revision_string};

#[test]
fn money_text_reparses_to_the_value_rounded_to_cents() {
    for (mantissa, scale) in [
        (12345i128, 3u32),
        (12355, 3),
        (-12345, 3),
        (5, 0),
        (-4, 3),
        (999995, 4),
        (79228162514264337593543950335, 28),
        (-1, 28),
    ] {
        let value = Decimal::from_i128_with_scale(mantissa, scale);
        let text = money_string(DecimalNum { mantissa, scale });
        let (whole, cents) = text.split_once('.').expect("a decimal point");
        assert_eq!(cents.len(), 2, "{text}");
        assert!(whole.trim_start_matches('-').chars().all(|c| c.is_ascii_digit()));
        assert_eq!(Decimal::from_str(&text).expect("parses"), value.round_dp(2), "{text}");
        if value.round_dp(2).is_zero() {
            assert_eq!(text, "0.00");
        }
    }
}

#[test]
fn revision_moves_only_for_successful_writes() {
    let before = revision_string("ledger-a", 7);
    for (method, status) in [("GET", 200u16), ("POST", 403), ("PUT", 422), ("OPTIONS", 204)] {
        assert!(!bumps_revision(method, status));
    }
    for (method, status) in [("POST", 201u16), ("DELETE", 204), ("PATCH", 500)] {
        assert!(bumps_revision(method, status));
        assert_ne!(revision_string("ledger-a", 8), before);
    }
}
