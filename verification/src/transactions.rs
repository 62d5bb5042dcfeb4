//! Transactions: the stored row, the request body, and the checks and
//! normalisation a create or replace goes through before the ledger replay.
use vstd::prelude::*;

use chrono::Datelike;
use std::collections::BTreeMap;

use crate::calendar::{date_after, date_lt, is_calendar_date};
use crate::config::{debug_string, debug_text};
use crate::decimal::{decimal_from_str, decimal_from_text, DecimalNum};
use crate::error::{
    ApiError, ErrorDetails, LedgerError, RepoError, ledger_code, ledger_text, ledger_transaction_id,
    STATUS_BAD_REQUEST, STATUS_INTERNAL_SERVER_ERROR, STATUS_UNPROCESSABLE_ENTITY,
};
use crate::instruments::InstrumentRow;
use crate::text::{append_str, eq_ignore_case, eq_ignore_case_exec, str_eq, trim, trim_string};

verus! {

/// The id a not-yet-stored transaction carries while the ledger is replayed.
pub const PROSPECTIVE_TRANSACTION_ID: i64 = 9223372036854775807;

/// A calendar date.
#[derive(Clone, Copy, Debug, PartialEq, Eq, Structural)]
pub struct TradeDate {
    pub year: i32,
    pub month: u32,
    pub day: u32,
}

/// Name for what `chrono::NaiveDate::parse_from_str(s, "%Y-%m-%d")` yields:
/// the year, month and day of the parsed date, or `None` when rejected.
pub uninterp spec fn ymd_date(s: Seq<char>) -> Option<(int, int, int)>;

/// `chrono::NaiveDate::parse_from_str(s, "%Y-%m-%d")`, with the date taken
/// apart. The result is named by [`ymd_date`]; as chrono documents, a date
/// that does not exist is rejected, so every parsed date is a calendar date
/// within chrono's range. The rejection text is chrono's error message and is
/// not stated.
#[verifier::external_body]
pub(crate) fn parse_ymd(s: &str) -> (r: Result<TradeDate, String>)
    ensures
        match ymd_date(s@) {
            Some((y, m, d)) => r matches Ok(t) && t.year == y && t.month == m && t.day == d
                && is_calendar_date(y, m, d),
            None => r is Err,
        },
{
    match chrono::NaiveDate::parse_from_str(s, "%Y-%m-%d") {
        Ok(date) => Ok(TradeDate { year: date.year(), month: date.month(), day: date.day() }),
        Err(e) => Err(e.to_string()),
    }
}

#[derive(Clone, Copy, Debug, PartialEq, Eq, Structural)]
pub enum TransactionKind {
    Buy,
    Sell,
    Split,
    Dividend,
}

pub open spec fn transaction_kind_db(k: TransactionKind) -> Seq<char> {
    match k {
        TransactionKind::Buy => "BUY"@,
        TransactionKind::Sell => "SELL"@,
        TransactionKind::Split => "SPLIT"@,
        TransactionKind::Dividend => "DIVIDEND"@,
    }
}

pub open spec fn transaction_kind_from_db(s: Seq<char>) -> Option<TransactionKind> {
    if s == "BUY"@ {
        Some(TransactionKind::Buy)
    } else if s == "SELL"@ {
        Some(TransactionKind::Sell)
    } else if s == "SPLIT"@ {
        Some(TransactionKind::Split)
    } else if s == "DIVIDEND"@ {
        Some(TransactionKind::Dividend)
    } else {
        None
    }
}

impl TransactionKind {
    pub fn db_str(self) -> (s: &'static str)
        ensures
            s@ == transaction_kind_db(self),
    {
        match self {
            TransactionKind::Buy => "BUY",
            TransactionKind::Sell => "SELL",
            TransactionKind::Split => "SPLIT",
            TransactionKind::Dividend => "DIVIDEND",
        }
    }

    pub fn from_db_str(value: &str) -> (k: Option<Self>)
        ensures
            k == transaction_kind_from_db(value@),
    {
        if str_eq(value, "BUY") {
            Some(TransactionKind::Buy)
        } else if str_eq(value, "SELL") {
            Some(TransactionKind::Sell)
        } else if str_eq(value, "SPLIT") {
            Some(TransactionKind::Split)
        } else if str_eq(value, "DIVIDEND") {
            Some(TransactionKind::Dividend)
        } else {
            None
        }
    }

    /// Buys, sells and dividends carry the instrument's native currency.
    pub fn is_priced(self) -> (b: bool)
        ensures
            b == (self != TransactionKind::Split),
    {
        match self {
            TransactionKind::Split => false,
            _ => true,
        }
    }
}

/// API-facing transaction type, serialised as `Buy`/`Sell`/`Split`/`Dividend`.
#[derive(Clone, Copy, Debug, PartialEq, Eq, Structural)]
pub enum TransactionKindDto {
    Buy,
    Sell,
    Split,
    Dividend,
}

pub open spec fn dto_kind(d: TransactionKindDto) -> TransactionKind {
    match d {
        TransactionKindDto::Buy => TransactionKind::Buy,
        TransactionKindDto::Sell => TransactionKind::Sell,
        TransactionKindDto::Split => TransactionKind::Split,
        TransactionKindDto::Dividend => TransactionKind::Dividend,
    }
}

pub open spec fn kind_dto(k: TransactionKind) -> TransactionKindDto {
    match k {
        TransactionKind::Buy => TransactionKindDto::Buy,
        TransactionKind::Sell => TransactionKindDto::Sell,
        TransactionKind::Split => TransactionKindDto::Split,
        TransactionKind::Dividend => TransactionKindDto::Dividend,
    }
}

impl TransactionKindDto {
    pub fn to_kind(self) -> (k: TransactionKind)
        ensures
            k == dto_kind(self),
    {
        match self {
            TransactionKindDto::Buy => TransactionKind::Buy,
            TransactionKindDto::Sell => TransactionKind::Sell,
            TransactionKindDto::Split => TransactionKind::Split,
            TransactionKindDto::Dividend => TransactionKind::Dividend,
        }
    }

    pub fn from_kind(kind: TransactionKind) -> (d: Self)
        ensures
            d == kind_dto(kind),
    {
        match kind {
            TransactionKind::Buy => TransactionKindDto::Buy,
            TransactionKind::Sell => TransactionKindDto::Sell,
            TransactionKind::Split => TransactionKindDto::Split,
            TransactionKind::Dividend => TransactionKindDto::Dividend,
        }
    }
}

/// Transaction types survive every boundary unchanged: API value to kind and
/// back, kind to stored string and back.
pub proof fn lemma_transaction_kind_round_trips(d: TransactionKindDto, k: TransactionKind)
    ensures
        kind_dto(dto_kind(d)) == d,
        dto_kind(kind_dto(k)) == k,
        transaction_kind_from_db(transaction_kind_db(k)) == Some(k),
{
    reveal_strlit("BUY");
    reveal_strlit("SELL");
    reveal_strlit("SPLIT");
    reveal_strlit("DIVIDEND");
    assert("BUY"@.len() == 3 && "SELL"@.len() == 4 && "SPLIT"@.len() == 5 && "DIVIDEND"@.len() == 8);
    assert("SELL"@ != "BUY"@ && "SPLIT"@ != "BUY"@ && "SPLIT"@ != "SELL"@);
    assert("DIVIDEND"@ != "BUY"@ && "DIVIDEND"@ != "SELL"@ && "DIVIDEND"@ != "SPLIT"@);
}

/// A stored transaction row.
#[derive(Clone, Debug)]
pub struct TransactionRow {
    pub id: i64,
    pub instrument_id: i64,
    pub kind: String,
    pub trade_date: String,
    pub quantity: i64,
    pub price: Option<String>,
    pub dividend_per_share: Option<String>,
    pub currency: Option<String>,
    pub fx_rate_to_base: Option<String>,
    pub brokerage: Option<String>,
    pub brokerage_currency: Option<String>,
    pub source_value: Option<String>,
    pub source_currency: Option<String>,
    pub note: Option<String>,
    pub import_batch_id: Option<i64>,
}

/// A transaction as the API returns it.
#[derive(Clone, Debug)]
pub struct TransactionResponse {
    pub id: i64,
    pub instrument_id: i64,
    pub kind: TransactionKindDto,
    pub trade_date: String,
    pub quantity: i64,
    pub price: Option<String>,
    pub dividend_per_share: Option<String>,
    pub currency: Option<String>,
    pub fx_rate_to_base: Option<String>,
    pub brokerage: Option<String>,
    pub brokerage_currency: Option<String>,
    pub source_value: Option<String>,
    pub source_currency: Option<String>,
    pub note: Option<String>,
    pub import_batch_id: Option<i64>,
}

impl TransactionResponse {
    /// The response for a stored row: every column copied, the type mapped to
    /// its API name; an unknown stored type is an internal error.
    pub fn from_row(row: &TransactionRow) -> (r: Result<Self, ApiError>)
        ensures
            match transaction_kind_from_db(row.kind@) {
                Some(k) => r matches Ok(t) && t.id == row.id && t.instrument_id == row.instrument_id
                    && t.kind == kind_dto(k) && t.trade_date == row.trade_date && t.quantity
                    == row.quantity && t.price == row.price && t.dividend_per_share
                    == row.dividend_per_share && t.currency == row.currency && t.fx_rate_to_base
                    == row.fx_rate_to_base && t.brokerage == row.brokerage && t.brokerage_currency
                    == row.brokerage_currency && t.source_value == row.source_value
                    && t.source_currency == row.source_currency && t.note == row.note
                    && t.import_batch_id == row.import_batch_id,
                None => r matches Err(e) && e.status == STATUS_INTERNAL_SERVER_ERROR && e.code@
                    == "internal_error"@ && e.message@ == "stored unknown type "@ + debug_text(
                    row.kind@,
                ) && e.details is None,
            },
    {
        let kind = match TransactionKind::from_db_str(row.kind.as_str()) {
            Some(k) => k,
            None => {
                let mut m = "stored unknown type ".to_owned();
                let q = debug_string(row.kind.as_str());
                append_str(&mut m, q.as_str());
                return Err(ApiError::internal(m));
            },
        };
        Ok(TransactionResponse {
            id: row.id,
            instrument_id: row.instrument_id,
            kind: TransactionKindDto::from_kind(kind),
            trade_date: row.trade_date.clone(),
            quantity: row.quantity,
            price: row.price.clone(),
            dividend_per_share: row.dividend_per_share.clone(),
            currency: row.currency.clone(),
            fx_rate_to_base: row.fx_rate_to_base.clone(),
            brokerage: row.brokerage.clone(),
            brokerage_currency: row.brokerage_currency.clone(),
            source_value: row.source_value.clone(),
            source_currency: row.source_currency.clone(),
            note: row.note.clone(),
            import_batch_id: row.import_batch_id,
        })
    }
}

pub open spec fn spec_normalize(value: Option<Seq<char>>) -> Option<Seq<char>> {
    match value {
        Some(v) => if trim(v).len() == 0 {
            None
        } else {
            Some(trim(v))
        },
        None => None,
    }
}

pub open spec fn opt_view(value: Option<String>) -> Option<Seq<char>> {
    match value {
        Some(s) => Some(s@),
        None => None,
    }
}

/// An optional text trimmed; blank becomes absent.
pub fn normalize(value: &Option<String>) -> (r: Option<String>)
    ensures
        opt_view(r) == spec_normalize(opt_view(*value)),
{
    match value {
        Some(raw) => {
            let t = trim_string(raw.as_str());
            if t.unicode_len() == 0 {
                None
            } else {
                Some(t)
            }
        },
        None => None,
    }
}

/// The outcome of parsing an optional decimal field.
pub open spec fn decimal_field_ok(value: Option<Seq<char>>) -> bool {
    match spec_normalize(value) {
        None => true,
        Some(raw) => decimal_from_text(raw) is Some,
    }
}

/// An optional decimal field: blank is absent, otherwise it must parse.
pub fn parse_decimal(label: &str, value: &Option<String>) -> (r: Result<Option<DecimalNum>, ApiError>)
    ensures
        match spec_normalize(opt_view(*value)) {
            None => r matches Ok(None),
            Some(raw) => match decimal_from_text(raw) {
                Some((m, sc)) => r matches Ok(Some(d)) && d.mantissa == m && d.scale == sc
                    && d.wf(),
                None => r matches Err(e) && e.status == STATUS_BAD_REQUEST && e.code@
                    == "invalid_decimal"@ && e.message@ == label@ + " is not a valid decimal: "@
                    + debug_text(raw) && e.details is None,
            },
        },
{
    match normalize(value) {
        None => Ok(None),
        Some(raw) => match decimal_from_str(raw.as_str()) {
            Ok(d) => Ok(Some(d)),
            Err(_) => {
                let mut m = label.to_owned();
                append_str(&mut m, " is not a valid decimal: ");
                let q = debug_string(raw.as_str());
                append_str(&mut m, q.as_str());
                Err(ApiError::bad_request("invalid_decimal", m))
            },
        },
    }
}

/// The body of a transaction create or replace.
#[derive(Clone, Debug)]
pub struct TransactionInput {
    pub instrument_id: i64,
    pub kind: TransactionKindDto,
    pub trade_date: String,
    pub quantity: i64,
    pub price: Option<String>,
    pub dividend_per_share: Option<String>,
    pub currency: Option<String>,
    pub fx_rate_to_base: Option<String>,
    pub brokerage: Option<String>,
    pub note: Option<String>,
}

/// A transaction as requested, before the ledger checks.
#[derive(Clone, Debug)]
pub struct ProposedTransaction {
    pub kind: TransactionKind,
    pub trade_date: TradeDate,
    pub quantity: i64,
    pub price: Option<DecimalNum>,
    pub dividend_per_share: Option<DecimalNum>,
    pub currency: Option<String>,
    pub fx_rate_to_base: Option<DecimalNum>,
    pub brokerage_base: Option<DecimalNum>,
}

pub open spec fn decimal_matches(d: Option<DecimalNum>, value: Option<Seq<char>>) -> bool {
    match spec_normalize(value) {
        None => d is None,
        Some(raw) => match decimal_from_text(raw) {
            Some((m, sc)) => d matches Some(x) && x.mantissa == m && x.scale == sc,
            None => false,
        },
    }
}

impl TransactionInput {
    /// The trimmed note, blank as absent.
    pub fn note(&self) -> (r: Option<String>)
        ensures
            opt_view(r) == spec_normalize(opt_view(self.note)),
    {
        normalize(&self.note)
    }

    /// The proposed transaction: the trimmed date must be `YYYY-MM-DD`, each
    /// decimal field must parse (checked in the order price, dividend per
    /// share, FX rate, brokerage), and the currency is trimmed.
    pub fn proposed(&self) -> (r: Result<ProposedTransaction, ApiError>)
        ensures
            ymd_date(trim(self.trade_date@)) is None ==> (r matches Err(e) && e.status
                == STATUS_BAD_REQUEST && e.code@ == "invalid_date"@ && e.message@
                == "trade_date must be YYYY-MM-DD: "@ + debug_text(self.trade_date@)),
            ymd_date(trim(self.trade_date@)) is Some && !decimal_field_ok(opt_view(self.price))
                ==> (r matches Err(e) && e.code@ == "invalid_decimal"@),
            r matches Ok(p) ==> {
                &&& ymd_date(trim(self.trade_date@)) == Some(
                    (p.trade_date.year as int, p.trade_date.month as int, p.trade_date.day as int),
                )
                &&& p.kind == dto_kind(self.kind)
                &&& p.quantity == self.quantity
                &&& decimal_matches(p.price, opt_view(self.price))
                &&& decimal_matches(p.dividend_per_share, opt_view(self.dividend_per_share))
                &&& decimal_matches(p.fx_rate_to_base, opt_view(self.fx_rate_to_base))
                &&& decimal_matches(p.brokerage_base, opt_view(self.brokerage))
                &&& opt_view(p.currency) == spec_normalize(opt_view(self.currency))
            },
            (ymd_date(trim(self.trade_date@)) is Some && decimal_field_ok(opt_view(self.price))
                && decimal_field_ok(opt_view(self.dividend_per_share)) && decimal_field_ok(
                opt_view(self.fx_rate_to_base),
            ) && decimal_field_ok(opt_view(self.brokerage))) <==> r is Ok,
    {
        let trimmed = trim_string(self.trade_date.as_str());
        let trade_date = match parse_ymd(trimmed.as_str()) {
            Ok(d) => d,
            Err(_) => {
                let mut m = "trade_date must be YYYY-MM-DD: ".to_owned();
                let q = debug_string(self.trade_date.as_str());
                append_str(&mut m, q.as_str());
                return Err(ApiError::bad_request("invalid_date", m));
            },
        };
        let price = parse_decimal("price", &self.price)?;
        let dividend_per_share = parse_decimal("dividend_per_share", &self.dividend_per_share)?;
        let fx_rate_to_base = parse_decimal("fx_rate_to_base", &self.fx_rate_to_base)?;
        let brokerage_base = parse_decimal("brokerage", &self.brokerage)?;
        Ok(ProposedTransaction {
            kind: self.kind.to_kind(),
            trade_date,
            quantity: self.quantity,
            price,
            dividend_per_share,
            currency: normalize(&self.currency),
            fx_rate_to_base,
            brokerage_base,
        })
    }
}

/// A priced transaction whose currency differs from the instrument's.
pub open spec fn currency_mismatch(proposed: &ProposedTransaction, instrument: &InstrumentRow) -> bool {
    match proposed.currency {
        Some(c) => proposed.kind != TransactionKind::Split && !eq_ignore_case(c@, instrument.currency@),
        None => false,
    }
}

/// A Buy, Sell or Dividend whose currency differs (ignoring ASCII case) from the
/// instrument's is rejected; splits and currency-less rows pass.
pub fn assert_currency_matches(proposed: &ProposedTransaction, instrument: &InstrumentRow) -> (r:
    Result<(), ApiError>)
    ensures
        currency_mismatch(proposed, instrument) <==> r is Err,
        r matches Err(e) ==> (e.status == STATUS_UNPROCESSABLE_ENTITY && e.code@
            == "currency_mismatch"@ && e.details is None && (proposed.currency matches Some(c)
            && e.message@ == "transaction currency "@ + c@ + " does not match instrument currency "@
            + instrument.currency@)),
{
    if !proposed.kind.is_priced() {
        return Ok(());
    }
    match &proposed.currency {
        Some(currency) => {
            if !eq_ignore_case_exec(currency.as_str(), instrument.currency.as_str()) {
                let mut m = "transaction currency ".to_owned();
                append_str(&mut m, currency.as_str());
                append_str(&mut m, " does not match instrument currency ");
                append_str(&mut m, instrument.currency.as_str());
                return Err(ApiError::new(STATUS_UNPROCESSABLE_ENTITY, "currency_mismatch", m));
            }
            Ok(())
        },
        None => Ok(()),
    }
}

/// The stored currency: the instrument's for priced kinds, as given otherwise.
pub fn transaction_currency(proposed: &ProposedTransaction, instrument: &InstrumentRow) -> (r:
    Option<String>)
    ensures
        proposed.kind != TransactionKind::Split ==> r == Some(instrument.currency),
        proposed.kind == TransactionKind::Split ==> r == proposed.currency,
{
    if proposed.kind.is_priced() {
        Some(instrument.currency.clone())
    } else {
        proposed.currency.clone()
    }
}

/// A transaction as the ledger replays it; `quantity` is the signed position effect.
#[derive(Clone, Copy, Debug)]
pub struct LedgerTransaction {
    pub id: i64,
    pub trade_date: TradeDate,
    pub kind: TransactionKind,
    pub quantity: i64,
    pub price: Option<DecimalNum>,
    pub dividend_per_share: Option<DecimalNum>,
    pub fx_rate_to_base: Option<DecimalNum>,
    pub brokerage_base: DecimalNum,
}

/// The ledger entry for a proposed transaction; missing brokerage is zero.
pub fn ledger_transaction(id: i64, signed_quantity: i64, proposed: &ProposedTransaction) -> (t:
    LedgerTransaction)
    ensures
        t.id == id,
        t.trade_date == proposed.trade_date,
        t.kind == proposed.kind,
        t.quantity == signed_quantity,
        t.price == proposed.price,
        t.dividend_per_share == proposed.dividend_per_share,
        t.fx_rate_to_base == proposed.fx_rate_to_base,
        match proposed.brokerage_base {
            Some(b) => t.brokerage_base == b,
            None => t.brokerage_base == DecimalNum { mantissa: 0, scale: 0 },
        },
{
    LedgerTransaction {
        id,
        trade_date: proposed.trade_date,
        kind: proposed.kind,
        quantity: signed_quantity,
        price: proposed.price,
        dividend_per_share: proposed.dividend_per_share,
        fx_rate_to_base: proposed.fx_rate_to_base,
        brokerage_base: match proposed.brokerage_base {
            Some(b) => b,
            None => DecimalNum::zero(),
        },
    }
}

/// Whether an optional stored decimal decodes: absent, or text that parses.
pub open spec fn stored_decimal_ok(value: Option<String>) -> bool {
    match value {
        Some(s) => decimal_from_text(s@) is Some,
        None => true,
    }
}

/// `d` is the decoding of an optional stored decimal.
pub open spec fn stored_decimal_is(d: Option<DecimalNum>, value: Option<String>) -> bool {
    match value {
        None => d is None,
        Some(s) => match decimal_from_text(s@) {
            Some((m, sc)) => d matches Some(x) && x.mantissa == m && x.scale == sc && x.wf(),
            None => false,
        },
    }
}

/// The start of the decode error for stored decimal text `raw`.
pub open spec fn bad_decimal_prefix(raw: Seq<char>) -> Seq<char> {
    "bad decimal "@ + debug_text(raw) + ": "@
}

/// `e` is a decode error whose message starts with `prefix`.
pub open spec fn decode_starts(e: RepoError, prefix: Seq<char>) -> bool {
    e matches RepoError::Decode(m) && prefix.len() <= m@.len() && m@.subrange(0, prefix.len() as int)
        == prefix
}

/// `r` is a decode error whose message starts with `prefix`.
pub open spec fn decode_error_starting<T>(r: Result<T, RepoError>, prefix: Seq<char>) -> bool {
    r matches Err(e) && decode_starts(e, prefix)
}

/// The decimal an optional stored text decodes to, when it does.
pub open spec fn stored_decimal(value: Option<String>) -> Option<DecimalNum> {
    match value {
        Some(s) => match decimal_from_text(s@) {
            Some((m, sc)) => Some(DecimalNum { mantissa: m as i128, scale: sc as u32 }),
            None => None,
        },
        None => None,
    }
}

/// An optional stored decimal: absent stays absent, present text must parse;
/// a failure is a decode error quoting the text, then the parser's message.
pub fn parse_stored_decimal(value: &Option<String>) -> (r: Result<Option<DecimalNum>, RepoError>)
    ensures
        stored_decimal_ok(*value) <==> r is Ok,
        r matches Ok(d) ==> stored_decimal_is(d, *value),
        !stored_decimal_ok(*value) ==> decode_error_starting(r, bad_decimal_prefix(value.unwrap()@)),
{
    match value {
        None => Ok(None),
        Some(raw) => match decimal_from_str(raw.as_str()) {
            Ok(d) => Ok(Some(d)),
            Err(error) => {
                let mut m = "bad decimal ".to_owned();
                let q = debug_string(raw.as_str());
                append_str(&mut m, q.as_str());
                append_str(&mut m, ": ");
                let ghost prefix = m@;
                append_str(&mut m, error.as_str());
                assert(m@.subrange(0, prefix.len() as int) =~= prefix);
                Err(RepoError::Decode(m))
            },
        },
    }
}

/// The start of the decode error for a stored trade date `raw`.
pub open spec fn bad_trade_date_prefix(raw: Seq<char>) -> Seq<char> {
    "bad trade_date "@ + debug_text(raw) + ": "@
}

impl TransactionRow {
    /// Whether every column the ledger reads decodes.
    pub open spec fn decodes(&self) -> bool {
        &&& transaction_kind_from_db(self.kind@) is Some
        &&& ymd_date(self.trade_date@) is Some
        &&& stored_decimal_ok(self.price)
        &&& stored_decimal_ok(self.dividend_per_share)
        &&& stored_decimal_ok(self.fx_rate_to_base)
        &&& stored_decimal_ok(self.brokerage)
    }

    /// The ledger entry of a row whose columns decode.
    pub open spec fn ledger_entry(&self) -> LedgerTransaction {
        let (y, m, d) = ymd_date(self.trade_date@).unwrap();
        LedgerTransaction {
            id: self.id,
            trade_date: TradeDate { year: y as i32, month: m as u32, day: d as u32 },
            kind: transaction_kind_from_db(self.kind@).unwrap(),
            quantity: self.quantity,
            price: stored_decimal(self.price),
            dividend_per_share: stored_decimal(self.dividend_per_share),
            fx_rate_to_base: stored_decimal(self.fx_rate_to_base),
            brokerage_base: match stored_decimal(self.brokerage) {
                Some(b) => b,
                None => DecimalNum { mantissa: 0, scale: 0 },
            },
        }
    }

    /// The error of a row that does not decode: for the first column that
    /// fails (type, date, price, dividend per share, FX rate, brokerage), the
    /// exact text for the type, else a message quoting the column's text.
    pub open spec fn ledger_failure(&self, e: RepoError) -> bool {
        if transaction_kind_from_db(self.kind@) is None {
            e matches RepoError::Decode(m) && m@ == "unknown transaction type "@ + debug_text(
                self.kind@,
            )
        } else if ymd_date(self.trade_date@) is None {
            decode_starts(e, bad_trade_date_prefix(self.trade_date@))
        } else if !stored_decimal_ok(self.price) {
            decode_starts(e, bad_decimal_prefix(self.price.unwrap()@))
        } else if !stored_decimal_ok(self.dividend_per_share) {
            decode_starts(e, bad_decimal_prefix(self.dividend_per_share.unwrap()@))
        } else if !stored_decimal_ok(self.fx_rate_to_base) {
            decode_starts(e, bad_decimal_prefix(self.fx_rate_to_base.unwrap()@))
        } else {
            decode_starts(e, bad_decimal_prefix(self.brokerage.unwrap()@))
        }
    }

    /// The stored row as the ledger replays it: the type, the date and the
    /// decimals decoded, missing brokerage as zero; the first column that
    /// does not decode is the error.
    pub fn to_ledger(&self) -> (r: Result<LedgerTransaction, RepoError>)
        ensures
            self.decodes() ==> r == Ok::<LedgerTransaction, RepoError>(self.ledger_entry()),
            !self.decodes() ==> (r matches Err(e) && self.ledger_failure(e)),
    {
        let kind = match TransactionKind::from_db_str(self.kind.as_str()) {
            Some(k) => k,
            None => {
                let mut m = "unknown transaction type ".to_owned();
                let q = debug_string(self.kind.as_str());
                append_str(&mut m, q.as_str());
                return Err(RepoError::Decode(m));
            },
        };
        let trade_date = match parse_ymd(self.trade_date.as_str()) {
            Ok(d) => d,
            Err(error) => {
                let mut m = "bad trade_date ".to_owned();
                let q = debug_string(self.trade_date.as_str());
                append_str(&mut m, q.as_str());
                append_str(&mut m, ": ");
                let ghost prefix = m@;
                append_str(&mut m, error.as_str());
                assert(m@.subrange(0, prefix.len() as int) =~= prefix);
                return Err(RepoError::Decode(m));
            },
        };
        let price = match parse_stored_decimal(&self.price) {
            Ok(d) => d,
            Err(e) => {
                return Err(e);
            },
        };
        let dividend_per_share = match parse_stored_decimal(&self.dividend_per_share) {
            Ok(d) => d,
            Err(e) => {
                return Err(e);
            },
        };
        let fx_rate_to_base = match parse_stored_decimal(&self.fx_rate_to_base) {
            Ok(d) => d,
            Err(e) => {
                return Err(e);
            },
        };
        let brokerage = match parse_stored_decimal(&self.brokerage) {
            Ok(d) => d,
            Err(e) => {
                return Err(e);
            },
        };
        Ok(LedgerTransaction {
            id: self.id,
            trade_date,
            kind,
            quantity: self.quantity,
            price,
            dividend_per_share,
            fx_rate_to_base,
            brokerage_base: match brokerage {
                Some(b) => b,
                None => DecimalNum::zero(),
            },
        })
    }
}

/// The ledger entries of instrument `k`'s rows, in row order.
pub open spec fn instrument_entries(rows: Seq<TransactionRow>, k: i64) -> Seq<LedgerTransaction>
    decreases rows.len(),
{
    if rows.len() == 0 {
        Seq::empty()
    } else {
        let rest = instrument_entries(rows.drop_last(), k);
        if rows.last().instrument_id == k {
            rest.push(rows.last().ledger_entry())
        } else {
            rest
        }
    }
}

/// The ledger entries of instrument `k`'s rows traded on or before `end`, in row order.
pub open spec fn entries_through(rows: Seq<TransactionRow>, k: i64, end: TradeDate) -> Seq<
    LedgerTransaction,
>
    decreases rows.len(),
{
    if rows.len() == 0 {
        Seq::empty()
    } else {
        let rest = entries_through(rows.drop_last(), k, end);
        if rows.last().instrument_id == k && !date_lt(end, rows.last().ledger_entry().trade_date) {
            rest.push(rows.last().ledger_entry())
        } else {
            rest
        }
    }
}

/// A ledger cut at `end` is the full ledger with the entries traded after
/// `end` left out.
pub proof fn lemma_cut_ledger_is_filtered_full_ledger(
    rows: Seq<TransactionRow>,
    k: i64,
    end: TradeDate,
)
    ensures
        entries_through(rows, k, end) == instrument_entries(rows, k).filter(
            |t: LedgerTransaction| !date_lt(end, t.trade_date),
        ),
    decreases rows.len(),
{
    reveal(Seq::filter);
    if rows.len() > 0 {
        lemma_cut_ledger_is_filtered_full_ledger(rows.drop_last(), k, end);
        let full = instrument_entries(rows.drop_last(), k);
        if rows.last().instrument_id == k {
            assert(full.push(rows.last().ledger_entry()).drop_last() =~= full);
        }
    }
}

/// Trades after the end of a report change none of its ledgers: appending
/// rows that all trade after `end` leaves every ledger cut at `end` as it was.
pub proof fn lemma_later_trades_leave_cut_ledgers(
    rows: Seq<TransactionRow>,
    later: Seq<TransactionRow>,
    k: i64,
    end: TradeDate,
)
    requires
        forall|i: int| 0 <= i < later.len() ==> date_lt(end, (#[trigger] later[i]).ledger_entry().trade_date),
    ensures
        entries_through(rows + later, k, end) == entries_through(rows, k, end),
    decreases later.len(),
{
    if later.len() == 0 {
        assert(rows + later =~= rows);
    } else {
        assert((rows + later).drop_last() =~= rows + later.drop_last());
        assert((rows + later).last() == later[later.len() - 1]);
        lemma_later_trades_leave_cut_ledgers(rows, later.drop_last(), k, end);
    }
}

/// Whether the ledgers hold, for every instrument with at least one entry,
/// exactly `entries(k)`.
pub open spec fn holds_ledgers(
    m: Map<i64, Vec<LedgerTransaction>>,
    entries: spec_fn(i64) -> Seq<LedgerTransaction>,
) -> bool {
    forall|k: i64|
        #![trigger m.contains_key(k)]
        #![trigger entries(k)]
        (m.contains_key(k) <==> entries(k).len() > 0) && (m.contains_key(k) ==> m[k]@ == entries(k))
}

/// Appends `t` to the ledger of instrument `k`.
fn push_entry(m: &mut BTreeMap<i64, Vec<LedgerTransaction>>, k: i64, t: LedgerTransaction)
    ensures
        final(m)@.contains_key(k),
        final(m)@[k]@ == (if old(m)@.contains_key(k) {
            old(m)@[k]@
        } else {
            Seq::empty()
        }).push(t),
        forall|j: i64| j != k ==> #[trigger] final(m)@.contains_key(j) == old(m)@.contains_key(j),
        forall|j: i64| j != k && old(m)@.contains_key(j) ==> #[trigger] final(m)@[j] == old(m)@[j],
{
    broadcast use vstd::laws_cmp::group_laws_cmp;

    let mut v = match m.remove(&k) {
        Some(v) => v,
        None => Vec::new(),
    };
    v.push(t);
    m.insert(k, v);
}

/// Each instrument's ledger from the stored rows (in row order), and the same
/// ledgers cut at `end`: entries traded after `end` left out, and an
/// instrument left out when nothing of it remains. The first row that does
/// not decode is the error.
pub fn instrument_ledgers(rows: &Vec<TransactionRow>, end: TradeDate) -> (r: Result<
    (BTreeMap<i64, Vec<LedgerTransaction>>, BTreeMap<i64, Vec<LedgerTransaction>>),
    RepoError,
>)
    ensures
        (forall|i: int| 0 <= i < rows@.len() ==> #[trigger] rows@[i].decodes()) <==> r is Ok,
        r matches Ok((full, through)) ==> {
            &&& holds_ledgers(full@, |k: i64| instrument_entries(rows@, k))
            &&& holds_ledgers(through@, |k: i64| entries_through(rows@, k, end))
        },
        r matches Err(e) ==> exists|i: int|
            0 <= i < rows@.len() && !#[trigger] rows@[i].decodes() && (forall|j: int|
                0 <= j < i ==> rows@[j].decodes()) && rows@[i].ledger_failure(e),
{
    let mut full: BTreeMap<i64, Vec<LedgerTransaction>> = BTreeMap::new();
    let mut through: BTreeMap<i64, Vec<LedgerTransaction>> = BTreeMap::new();
    let mut i: usize = 0;
    while i < rows.len()
        invariant
            i <= rows@.len(),
            forall|j: int| 0 <= j < i ==> #[trigger] rows@[j].decodes(),
            holds_ledgers(full@, |k: i64| instrument_entries(rows@.subrange(0, i as int), k)),
            holds_ledgers(through@, |k: i64| entries_through(rows@.subrange(0, i as int), k, end)),
        decreases rows.len() - i,
    {
        let row = &rows[i];
        let t = match row.to_ledger() {
            Ok(t) => t,
            Err(e) => {
                return Err(e);
            },
        };
        let ghost pre = rows@.subrange(0, i as int);
        let ghost next = rows@.subrange(0, i + 1);
        proof {
            assert(next.drop_last() =~= pre);
            assert(next.last() == rows@[i as int]);
        }
        let ghost full0 = full@;
        let ghost through0 = through@;
        push_entry(&mut full, row.instrument_id, t);
        let kept = !date_after(t.trade_date, end);
        if kept {
            push_entry(&mut through, row.instrument_id, t);
        }
        proof {
            assert forall|k: i64| #![trigger full@.contains_key(k)]
                (full@.contains_key(k) <==> instrument_entries(next, k).len() > 0) && (
                full@.contains_key(k) ==> full@[k]@ == instrument_entries(next, k)) by {
                assert(instrument_entries(pre, k) == (|k: i64| instrument_entries(pre, k))(k));
                if k != row.instrument_id {
                    assert(full0.contains_key(k) <==> instrument_entries(pre, k).len() > 0);
                }
            }
            assert forall|k: i64| #![trigger through@.contains_key(k)]
                (through@.contains_key(k) <==> entries_through(next, k, end).len() > 0) && (
                through@.contains_key(k) ==> through@[k]@ == entries_through(next, k, end)) by {
                assert(entries_through(pre, k, end) == (|k: i64| entries_through(pre, k, end))(k));
                if k != row.instrument_id || !kept {
                    assert(through0.contains_key(k) <==> entries_through(pre, k, end).len() > 0);
                }
            }
        }
        i = i + 1;
    }
    proof {
        assert(rows@.subrange(0, i as int) =~= rows@);
    }
    Ok((full, through))
}

/// Persistable transaction fields.
#[derive(Clone, Debug)]
pub struct NewTransaction {
    pub instrument_id: i64,
    pub kind: TransactionKind,
    pub trade_date: TradeDate,
    pub quantity: i64,
    pub price: Option<DecimalNum>,
    pub dividend_per_share: Option<DecimalNum>,
    pub currency: Option<String>,
    pub fx_rate_to_base: Option<DecimalNum>,
    pub brokerage: Option<DecimalNum>,
    pub note: Option<String>,
}

/// The row to store. Dividends keep the eligible share count as entered, not
/// their zero position effect, so income can be computed from the row.
pub fn new_transaction(
    instrument_id: i64,
    signed_quantity: i64,
    proposed: &ProposedTransaction,
    currency: Option<String>,
    note: Option<String>,
) -> (t: NewTransaction)
    ensures
        t.instrument_id == instrument_id,
        t.kind == proposed.kind,
        t.trade_date == proposed.trade_date,
        t.quantity == (if proposed.kind == TransactionKind::Dividend {
            proposed.quantity
        } else {
            signed_quantity
        }),
        t.price == proposed.price,
        t.dividend_per_share == proposed.dividend_per_share,
        t.currency == currency,
        t.fx_rate_to_base == proposed.fx_rate_to_base,
        t.brokerage == proposed.brokerage_base,
        t.note == note,
{
    let db_quantity = match proposed.kind {
        TransactionKind::Dividend => proposed.quantity,
        _ => signed_quantity,
    };
    NewTransaction {
        instrument_id,
        kind: proposed.kind,
        trade_date: proposed.trade_date,
        quantity: db_quantity,
        price: proposed.price,
        dividend_per_share: proposed.dividend_per_share,
        currency,
        fx_rate_to_base: proposed.fx_rate_to_base,
        brokerage: proposed.brokerage_base,
        note,
    }
}

/// The answer to a ledger replay that fails: the breaking transaction is named
/// in the details unless it is the prospective one being written.
pub fn ledger_violation(error: LedgerError) -> (e: ApiError)
    ensures
        e.status == STATUS_UNPROCESSABLE_ENTITY,
        e.code@ == ledger_code(error),
        e.message@ == ledger_text(error),
        ledger_transaction_id(error) == PROSPECTIVE_TRANSACTION_ID ==> e.details is None,
        ledger_transaction_id(error) != PROSPECTIVE_TRANSACTION_ID ==> e.details == Some(
            ErrorDetails::TransactionId(ledger_transaction_id(error)),
        ),
{
    let id = error.transaction_id();
    let transaction_id = if id != PROSPECTIVE_TRANSACTION_ID {
        Some(id)
    } else {
        None
    };
    ApiError::from_ledger_error(error, transaction_id)
}


/// Replay order: by trade date, then by id.
pub open spec fn replays_before(a: LedgerTransaction, b: LedgerTransaction) -> bool {
    date_lt(a.trade_date, b.trade_date) || (a.trade_date == b.trade_date && a.id <= b.id)
}

pub open spec fn replay_ordered(s: Seq<LedgerTransaction>) -> bool {
    forall|i: int, j: int| 0 <= i < j < s.len() ==> replays_before(#[trigger] s[i], #[trigger] s[j])
}

fn replays_before_exec(a: &LedgerTransaction, b: &LedgerTransaction) -> (r: bool)
    ensures
        r == replays_before(*a, *b),
{
    let (x, y) = (a.trade_date, b.trade_date);
    if x.year != y.year {
        x.year < y.year
    } else if x.month != y.month {
        x.month < y.month
    } else if x.day != y.day {
        x.day < y.day
    } else {
        a.id <= b.id
    }
}

/// Inserts a transaction after every one that replays no later than it.
fn insert_in_replay_order(v: &mut Vec<LedgerTransaction>, t: LedgerTransaction)
    requires
        replay_ordered(old(v)@),
    ensures
        replay_ordered(final(v)@),
        final(v)@.to_multiset() == old(v)@.to_multiset().insert(t),
{
    broadcast use vstd::seq_lib::group_to_multiset_ensures;

    let ghost old_v = v@;
    let mut i: usize = 0;
    while i < v.len()
        invariant
            i <= v.len(),
            v@ == old_v,
            forall|j: int| 0 <= j < i ==> replays_before(#[trigger] old_v[j], t),
        ensures
            i <= v.len(),
            v@ == old_v,
            forall|j: int| 0 <= j < i ==> replays_before(#[trigger] old_v[j], t),
            i == v.len() || !replays_before(old_v[i as int], t),
        decreases v.len() - i,
    {
        if !replays_before_exec(&v[i], &t) {
            break;
        }
        i = i + 1;
    }
    v.insert(i, t);
    proof {
        let nv = v@;
        let at = i as int;
        assert(nv =~= old_v.insert(at, t));
        assert forall|a: int, b: int| 0 <= a < b < nv.len() implies replays_before(
            #[trigger] nv[a],
            #[trigger] nv[b],
        ) by {
            if b < at {
                assert(nv[a] == old_v[a] && nv[b] == old_v[b]);
            } else if b == at {
                assert(nv[a] == old_v[a]);
            } else if a < at {
                assert(nv[a] == old_v[a] && nv[b] == old_v[b - 1]);
            } else if a == at {
                assert(nv[b] == old_v[b - 1]);
                assert(!replays_before(old_v[at], t));
                if b - 1 > at {
                    assert(replays_before(old_v[at], old_v[b - 1]));
                }
            } else {
                assert(nv[a] == old_v[a - 1] && nv[b] == old_v[b - 1]);
            }
        }
    }
}

/// The transactions kept when `exclude` (if any) is left out.
pub open spec fn kept_transactions(ledger: Seq<LedgerTransaction>, exclude: Option<i64>) -> Seq<
    LedgerTransaction,
> {
    match exclude {
        Some(x) => ledger.filter(|t: LedgerTransaction| t.id != x),
        None => ledger,
    }
}

/// The ledger a write would leave: the stored transactions without the one
/// being replaced, plus the new one, in replay order.
pub fn candidate_ledger(
    ledger: &Vec<LedgerTransaction>,
    exclude_id: Option<i64>,
    extra: Option<LedgerTransaction>,
) -> (r: Vec<LedgerTransaction>)
    ensures
        replay_ordered(r@),
        r@.to_multiset() == match extra {
            Some(e) => kept_transactions(ledger@, exclude_id).to_multiset().insert(e),
            None => kept_transactions(ledger@, exclude_id).to_multiset(),
        },
{
    broadcast use vstd::seq_lib::group_to_multiset_ensures;

    let mut out: Vec<LedgerTransaction> = Vec::new();
    let mut i: usize = 0;
    while i < ledger.len()
        invariant
            i <= ledger@.len(),
            replay_ordered(out@),
            out@.to_multiset() == kept_transactions(ledger@.subrange(0, i as int), exclude_id).to_multiset(),
        decreases ledger.len() - i,
    {
        let t = ledger[i];
        let ghost pre = ledger@.subrange(0, i as int);
        let ghost next = ledger@.subrange(0, i + 1);
        proof {
            reveal(Seq::filter);
            assert(next.drop_last() =~= pre);
            assert(next.last() == t);
        }
        let keep = match exclude_id {
            Some(x) => t.id != x,
            None => true,
        };
        let ghost before = out@.to_multiset();
        if keep {
            insert_in_replay_order(&mut out, t);
        }
        proof {
            match exclude_id {
                Some(x) => {
                    let f = |u: LedgerTransaction| u.id != x;
                    assert(kept_transactions(next, exclude_id) == next.filter(f));
                    assert(kept_transactions(pre, exclude_id) == pre.filter(f));
                    assert(next.filter(f) == (if f(t) {
                        pre.filter(f).push(t)
                    } else {
                        pre.filter(f)
                    }));
                    vstd::seq_lib::to_multiset_build(pre.filter(f), t);
                },
                None => {
                    assert(next =~= pre.push(t));
                    vstd::seq_lib::to_multiset_build(pre, t);
                },
            }
            assert(out@.to_multiset() == kept_transactions(next, exclude_id).to_multiset());
        }
        i = i + 1;
    }
    assert(ledger@.subrange(0, i as int) =~= ledger@);
    if let Some(e) = extra {
        insert_in_replay_order(&mut out, e);
    }
    out
}
} // verus!
