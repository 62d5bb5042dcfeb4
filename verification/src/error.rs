//! The one error shape of the API: an HTTP status, a stable code, a human
//! message and optional structured details.
use vstd::prelude::*;

use crate::text::{append_str, i64_string, int_text};

verus! {

pub const STATUS_BAD_REQUEST: u16 = 400;
pub const STATUS_FORBIDDEN: u16 = 403;
pub const STATUS_NOT_FOUND: u16 = 404;
pub const STATUS_CONFLICT: u16 = 409;
pub const STATUS_UNPROCESSABLE_ENTITY: u16 = 422;
pub const STATUS_INTERNAL_SERVER_ERROR: u16 = 500;

/// A row-level note carried in error details: the source row, a code and a message.
#[derive(Clone, Debug)]
pub struct RowErrorDetail {
    pub row: Option<usize>,
    pub code: &'static str,
    pub message: String,
}

/// A convicted position that still needs a keep or change-to-other choice.
#[derive(Clone, Debug)]
pub struct ClosingPositionDetail {
    pub instrument_id: i64,
    pub asset_key: String,
    pub symbol: String,
}

/// The structured `details` object of an error response.
#[derive(Clone, Debug)]
pub enum ErrorDetails {
    /// `{ "transaction_id": id }`
    TransactionId(i64),
    /// `{ "duplicate_of_batch_id": id }`
    DuplicateOfBatch(i64),
    /// `{ "errors": [ { row, code, message } ] }`
    RowErrors(Vec<RowErrorDetail>),
    /// `{ "asset_keys": [...] }`
    AssetKeys(Vec<String>),
    /// `{ "closing_positions": [ { instrument_id, asset_key, symbol } ] }`
    ClosingPositions(Vec<ClosingPositionDetail>),
    /// `{ instrument_id, reason, transactions, quantity }`
    NotDeletable { instrument_id: i64, reason: &'static str, transactions: usize, quantity: i64 },
}

/// A failure of the storage layer that the library itself detects.
#[derive(Clone, Debug)]
pub enum RepoError {
    /// A stored value, or a combination of stored rows, the code does not accept.
    Decode(String),
}

/// An API error: `{ "error": { code, message, details? } }` with `status`.
#[derive(Clone, Debug)]
pub struct ApiError {
    pub status: u16,
    pub code: &'static str,
    pub message: String,
    pub details: Option<ErrorDetails>,
}

impl ApiError {
    pub fn new(status: u16, code: &'static str, message: String) -> (e: Self)
        ensures
            e.status == status,
            e.code == code,
            e.message == message,
            e.details is None,
    {
        ApiError { status, code, message, details: None }
    }

    /// The same error with `details` attached.
    pub fn with_details(self, details: ErrorDetails) -> (e: Self)
        ensures
            e.status == self.status,
            e.code == self.code,
            e.message == self.message,
            e.details == Some(details),
    {
        ApiError { details: Some(details), ..self }
    }

    /// `404 not_found` with `"<resource> <id> not found"`.
    pub fn not_found(resource: &str, id: i64) -> (e: Self)
        ensures
            e.status == STATUS_NOT_FOUND,
            e.code@ == "not_found"@,
            e.message@ == resource@ + " "@ + int_text(id as int) + " not found"@,
            e.details is None,
    {
        let mut m = resource.to_owned();
        append_str(&mut m, " ");
        let digits = i64_string(id);
        append_str(&mut m, digits.as_str());
        append_str(&mut m, " not found");
        ApiError::new(STATUS_NOT_FOUND, "not_found", m)
    }

    pub fn bad_request(code: &'static str, message: String) -> (e: Self)
        ensures
            e.status == STATUS_BAD_REQUEST,
            e.code == code,
            e.message == message,
            e.details is None,
    {
        ApiError::new(STATUS_BAD_REQUEST, code, message)
    }

    pub fn conflict(code: &'static str, message: String) -> (e: Self)
        ensures
            e.status == STATUS_CONFLICT,
            e.code == code,
            e.message == message,
            e.details is None,
    {
        ApiError::new(STATUS_CONFLICT, code, message)
    }

    /// `403 demo_read_only`.
    pub fn demo_read_only() -> (e: Self)
        ensures
            e.status == STATUS_FORBIDDEN,
            e.code@ == "demo_read_only"@,
            e.message@ == "Demo mode is read-only."@,
            e.details is None,
    {
        ApiError::new(STATUS_FORBIDDEN, "demo_read_only", "Demo mode is read-only.".to_owned())
    }

    /// `500 internal_error`.
    pub fn internal(message: String) -> (e: Self)
        ensures
            e.status == STATUS_INTERNAL_SERVER_ERROR,
            e.code@ == "internal_error"@,
            e.message == message,
            e.details is None,
    {
        ApiError::new(STATUS_INTERNAL_SERVER_ERROR, "internal_error", message)
    }

    /// Whether the status is a server error (5xx), which is logged.
    pub fn is_server_error(&self) -> (b: bool)
        ensures
            b == (500 <= self.status < 600),
    {
        500 <= self.status && self.status < 600
    }

    /// `422` for a ledger rule violation, with the transaction that broke it
    /// in the details when one is named.
    pub fn from_ledger_error(error: LedgerError, transaction_id: Option<i64>) -> (e: Self)
        ensures
            e.status == STATUS_UNPROCESSABLE_ENTITY,
            e.code@ == ledger_code(error),
            e.message@ == ledger_text(error),
            match transaction_id {
                Some(id) => e.details == Some(ErrorDetails::TransactionId(id)),
                None => e.details is None,
            },
    {
        let e = ApiError::new(STATUS_UNPROCESSABLE_ENTITY, error.code(), ledger_message(error));
        match transaction_id {
            Some(id) => e.with_details(ErrorDetails::TransactionId(id)),
            None => e,
        }
    }
}

/// A ledger replay rule that a transaction breaks.
#[derive(Clone, Copy, Debug, PartialEq, Eq, Structural)]
pub enum LedgerError {
    SellExceedsPosition { transaction_id: i64, available: i64, requested: i64 },
    SplitWithoutPosition { transaction_id: i64 },
    SplitDrivesNonPositive { transaction_id: i64, resulting_quantity: i64 },
    BuyMissingPrice { transaction_id: i64 },
    SellMissingPrice { transaction_id: i64 },
}

pub open spec fn ledger_code(error: LedgerError) -> Seq<char> {
    match error {
        LedgerError::SellExceedsPosition { .. } => "sell_exceeds_position"@,
        LedgerError::SplitWithoutPosition { .. } => "split_without_position"@,
        LedgerError::SplitDrivesNonPositive { .. } => "split_drives_non_positive"@,
        LedgerError::BuyMissingPrice { .. } => "buy_missing_price"@,
        LedgerError::SellMissingPrice { .. } => "sell_missing_price"@,
    }
}

pub open spec fn ledger_transaction_id(error: LedgerError) -> i64 {
    match error {
        LedgerError::SellExceedsPosition { transaction_id, .. } => transaction_id,
        LedgerError::SplitWithoutPosition { transaction_id } => transaction_id,
        LedgerError::SplitDrivesNonPositive { transaction_id, .. } => transaction_id,
        LedgerError::BuyMissingPrice { transaction_id } => transaction_id,
        LedgerError::SellMissingPrice { transaction_id } => transaction_id,
    }
}

/// The user-facing sentence for each ledger rule.
pub open spec fn ledger_text(error: LedgerError) -> Seq<char> {
    match error {
        LedgerError::SellExceedsPosition { available, requested, .. } => "Sell of "@ + int_text(
            requested as int,
        ) + " exceeds the available position of "@ + int_text(available as int) + "."@,
        LedgerError::SplitWithoutPosition { .. } => "A split requires an existing position."@,
        LedgerError::SplitDrivesNonPositive { resulting_quantity, .. } => "Split would drive the position to "@
            + int_text(resulting_quantity as int) + " (must stay positive)."@,
        LedgerError::BuyMissingPrice { .. } => "A buy requires a native price."@,
        LedgerError::SellMissingPrice { .. } => "A sell requires a native price."@,
    }
}

impl LedgerError {
    pub fn code(&self) -> (c: &'static str)
        ensures
            c@ == ledger_code(*self),
    {
        match self {
            LedgerError::SellExceedsPosition { .. } => "sell_exceeds_position",
            LedgerError::SplitWithoutPosition { .. } => "split_without_position",
            LedgerError::SplitDrivesNonPositive { .. } => "split_drives_non_positive",
            LedgerError::BuyMissingPrice { .. } => "buy_missing_price",
            LedgerError::SellMissingPrice { .. } => "sell_missing_price",
        }
    }

    pub fn transaction_id(&self) -> (id: i64)
        ensures
            id == ledger_transaction_id(*self),
    {
        match self {
            LedgerError::SellExceedsPosition { transaction_id, .. } => *transaction_id,
            LedgerError::SplitWithoutPosition { transaction_id } => *transaction_id,
            LedgerError::SplitDrivesNonPositive { transaction_id, .. } => *transaction_id,
            LedgerError::BuyMissingPrice { transaction_id } => *transaction_id,
            LedgerError::SellMissingPrice { transaction_id } => *transaction_id,
        }
    }
}

/// The sentence reported for a ledger rule violation.
pub fn ledger_message(error: LedgerError) -> (s: String)
    ensures
        s@ == ledger_text(error),
{
    match error {
        LedgerError::SellExceedsPosition { available, requested, .. } => {
            let mut s = "Sell of ".to_owned();
            let r = i64_string(requested);
            append_str(&mut s, r.as_str());
            append_str(&mut s, " exceeds the available position of ");
            let a = i64_string(available);
            append_str(&mut s, a.as_str());
            append_str(&mut s, ".");
            s
        },
        LedgerError::SplitWithoutPosition { .. } => "A split requires an existing position.".to_owned(),
        LedgerError::SplitDrivesNonPositive { resulting_quantity, .. } => {
            let mut s = "Split would drive the position to ".to_owned();
            let q = i64_string(resulting_quantity);
            append_str(&mut s, q.as_str());
            append_str(&mut s, " (must stay positive).");
            s
        },
        LedgerError::BuyMissingPrice { .. } => "A buy requires a native price.".to_owned(),
        LedgerError::SellMissingPrice { .. } => "A sell requires a native price.".to_owned(),
    }
}

/// The `From<LedgerError>` conversion: the error's own transaction is named.
pub fn api_error_from_ledger(error: LedgerError) -> (e: ApiError)
    ensures
        e.status == STATUS_UNPROCESSABLE_ENTITY,
        e.code@ == ledger_code(error),
        e.message@ == ledger_text(error),
        e.details == Some(ErrorDetails::TransactionId(ledger_transaction_id(error))),
{
    ApiError::from_ledger_error(error, Some(error.transaction_id()))
}

} // verus!
