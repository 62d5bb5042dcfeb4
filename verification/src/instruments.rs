//! Instruments: stored rows, the API's kind and conviction vocabularies, and the
//! validation of a new instrument.
use vstd::prelude::*;

use crate::config::debug_string;
use crate::config::debug_text;
use crate::error::{
    ApiError, ErrorDetails, RepoError, STATUS_BAD_REQUEST, STATUS_CONFLICT,
    STATUS_INTERNAL_SERVER_ERROR,
};
use crate::text::{
    append_str, i64_string, int_text, str_eq, trim, trim_string, upper, upper_string,
};

verus! {

/// A stored instrument row.
#[derive(Clone, Debug)]
pub struct InstrumentRow {
    pub id: i64,
    pub symbol: String,
    pub exchange: String,
    pub name: String,
    /// The stored type string: `STOCK`, `ETF` or `FUND`.
    pub kind: String,
    pub currency: String,
    pub isin: Option<String>,
    /// The stored conviction: `OTHER`, `LOW`, `MEDIUM` or `HIGH`.
    pub conviction: String,
}

/// Fields for creating an instrument. `kind` is the stored type string. New
/// rows default to `OTHER` conviction in storage.
#[derive(Clone, Debug)]
pub struct NewInstrument {
    pub symbol: String,
    pub exchange: String,
    pub name: String,
    pub kind: String,
    pub currency: String,
    pub isin: Option<String>,
}

#[derive(Clone, Copy, Debug, PartialEq, Eq, Structural)]
pub enum InstrumentKindDto {
    Stock,
    Etf,
    Fund,
}

pub open spec fn kind_db(k: InstrumentKindDto) -> Seq<char> {
    match k {
        InstrumentKindDto::Stock => "STOCK"@,
        InstrumentKindDto::Etf => "ETF"@,
        InstrumentKindDto::Fund => "FUND"@,
    }
}

pub open spec fn kind_from_db(s: Seq<char>) -> Option<InstrumentKindDto> {
    if s == "STOCK"@ {
        Some(InstrumentKindDto::Stock)
    } else if s == "ETF"@ {
        Some(InstrumentKindDto::Etf)
    } else if s == "FUND"@ {
        Some(InstrumentKindDto::Fund)
    } else {
        None
    }
}

impl InstrumentKindDto {
    pub fn as_db_str(self) -> (s: &'static str)
        ensures
            s@ == kind_db(self),
    {
        match self {
            InstrumentKindDto::Stock => "STOCK",
            InstrumentKindDto::Etf => "ETF",
            InstrumentKindDto::Fund => "FUND",
        }
    }

    pub fn from_db_str(value: &str) -> (k: Option<Self>)
        ensures
            k == kind_from_db(value@),
    {
        if str_eq(value, "STOCK") {
            Some(InstrumentKindDto::Stock)
        } else if str_eq(value, "ETF") {
            Some(InstrumentKindDto::Etf)
        } else if str_eq(value, "FUND") {
            Some(InstrumentKindDto::Fund)
        } else {
            None
        }
    }
}

/// How strongly the user believes in an instrument.
#[derive(Clone, Copy, Debug, PartialEq, Eq, Structural)]
pub enum ConvictionLevel {
    Other,
    Low,
    Medium,
    High,
}

pub open spec fn conviction_db(c: ConvictionLevel) -> Seq<char> {
    match c {
        ConvictionLevel::Other => "OTHER"@,
        ConvictionLevel::Low => "LOW"@,
        ConvictionLevel::Medium => "MEDIUM"@,
        ConvictionLevel::High => "HIGH"@,
    }
}

pub open spec fn conviction_from_db(s: Seq<char>) -> Option<ConvictionLevel> {
    if s == "OTHER"@ {
        Some(ConvictionLevel::Other)
    } else if s == "LOW"@ {
        Some(ConvictionLevel::Low)
    } else if s == "MEDIUM"@ {
        Some(ConvictionLevel::Medium)
    } else if s == "HIGH"@ {
        Some(ConvictionLevel::High)
    } else {
        None
    }
}

impl ConvictionLevel {
    pub fn db_str(self) -> (s: &'static str)
        ensures
            s@ == conviction_db(self),
    {
        match self {
            ConvictionLevel::Other => "OTHER",
            ConvictionLevel::Low => "LOW",
            ConvictionLevel::Medium => "MEDIUM",
            ConvictionLevel::High => "HIGH",
        }
    }

    pub fn from_db_str(value: &str) -> (c: Option<Self>)
        ensures
            c == conviction_from_db(value@),
    {
        if str_eq(value, "OTHER") {
            Some(ConvictionLevel::Other)
        } else if str_eq(value, "LOW") {
            Some(ConvictionLevel::Low)
        } else if str_eq(value, "MEDIUM") {
            Some(ConvictionLevel::Medium)
        } else if str_eq(value, "HIGH") {
            Some(ConvictionLevel::High)
        } else {
            None
        }
    }
}

/// API-facing conviction value. Serialises as `Other`/`Low`/`Medium`/`High`.
#[derive(Clone, Copy, Debug, PartialEq, Eq, Structural)]
pub enum ConvictionDto {
    Other,
    Low,
    Medium,
    High,
}

pub open spec fn dto_level(c: ConvictionDto) -> ConvictionLevel {
    match c {
        ConvictionDto::Other => ConvictionLevel::Other,
        ConvictionDto::Low => ConvictionLevel::Low,
        ConvictionDto::Medium => ConvictionLevel::Medium,
        ConvictionDto::High => ConvictionLevel::High,
    }
}

pub open spec fn level_dto(c: ConvictionLevel) -> ConvictionDto {
    match c {
        ConvictionLevel::Other => ConvictionDto::Other,
        ConvictionLevel::Low => ConvictionDto::Low,
        ConvictionLevel::Medium => ConvictionDto::Medium,
        ConvictionLevel::High => ConvictionDto::High,
    }
}

impl ConvictionDto {
    pub fn to_level(self) -> (l: ConvictionLevel)
        ensures
            l == dto_level(self),
    {
        match self {
            ConvictionDto::Other => ConvictionLevel::Other,
            ConvictionDto::Low => ConvictionLevel::Low,
            ConvictionDto::Medium => ConvictionLevel::Medium,
            ConvictionDto::High => ConvictionLevel::High,
        }
    }

    pub fn from_level(level: ConvictionLevel) -> (c: Self)
        ensures
            c == level_dto(level),
    {
        match level {
            ConvictionLevel::Other => ConvictionDto::Other,
            ConvictionLevel::Low => ConvictionDto::Low,
            ConvictionLevel::Medium => ConvictionDto::Medium,
            ConvictionLevel::High => ConvictionDto::High,
        }
    }

    pub fn from_db_str(value: &str) -> (c: Option<Self>)
        ensures
            match conviction_from_db(value@) {
                Some(l) => c == Some(level_dto(l)),
                None => c is None,
            },
    {
        match ConvictionLevel::from_db_str(value) {
            Some(l) => Some(ConvictionDto::from_level(l)),
            None => None,
        }
    }

    pub fn db_str(self) -> (s: &'static str)
        ensures
            s@ == conviction_db(dto_level(self)),
    {
        self.to_level().db_str()
    }
}

/// Conviction values survive both boundaries unchanged: API value to level and
/// back, and level to stored string and back.
pub proof fn lemma_conviction_round_trips(c: ConvictionDto, l: ConvictionLevel)
    ensures
        level_dto(dto_level(c)) == c,
        dto_level(level_dto(l)) == l,
        conviction_from_db(conviction_db(l)) == Some(l),
{
    reveal_strlit("OTHER");
    reveal_strlit("LOW");
    reveal_strlit("MEDIUM");
    reveal_strlit("HIGH");
    assert("OTHER"@.len() == 5 && "LOW"@.len() == 3 && "MEDIUM"@.len() == 6 && "HIGH"@.len() == 4);
    assert("LOW"@ != "OTHER"@);
    assert("MEDIUM"@ != "OTHER"@ && "MEDIUM"@ != "LOW"@);
    assert("HIGH"@ != "OTHER"@ && "HIGH"@ != "LOW"@ && "HIGH"@ != "MEDIUM"@);
}

/// Instrument kinds survive the stored string unchanged.
pub proof fn lemma_kind_round_trips(k: InstrumentKindDto)
    ensures
        kind_from_db(kind_db(k)) == Some(k),
{
    reveal_strlit("STOCK");
    reveal_strlit("ETF");
    reveal_strlit("FUND");
    assert("STOCK"@.len() == 5 && "ETF"@.len() == 3 && "FUND"@.len() == 4);
    assert("ETF"@ != "STOCK"@ && "FUND"@ != "STOCK"@ && "FUND"@ != "ETF"@);
}

/// An instrument as the API returns it.
#[derive(Clone, Debug)]
pub struct InstrumentResponse {
    pub id: i64,
    pub symbol: String,
    pub exchange: String,
    pub name: String,
    pub kind: InstrumentKindDto,
    pub currency: String,
    pub conviction: ConvictionDto,
}

/// Whether a stored row's type and conviction are known values.
pub open spec fn row_decodes(row: InstrumentRow) -> bool {
    kind_from_db(row.kind@) is Some && conviction_from_db(row.conviction@) is Some
}

/// The response for a stored row whose type and conviction are known.
pub open spec fn response_of(row: InstrumentRow) -> InstrumentResponse {
    InstrumentResponse {
        id: row.id,
        symbol: row.symbol,
        exchange: row.exchange,
        name: row.name,
        kind: kind_from_db(row.kind@).unwrap(),
        currency: row.currency,
        conviction: level_dto(conviction_from_db(row.conviction@).unwrap()),
    }
}

/// The internal error for a stored row whose type (checked first) or
/// conviction is unknown.
pub open spec fn row_failure(row: InstrumentRow, e: ApiError) -> bool {
    &&& e.status == STATUS_INTERNAL_SERVER_ERROR
    &&& e.code@ == "internal_error"@
    &&& e.details is None
    &&& if kind_from_db(row.kind@) is None {
        e.message@ == "stored unknown instrument type "@ + debug_text(row.kind@)
    } else {
        e.message@ == "stored unknown conviction "@ + debug_text(row.conviction@)
    }
}

impl InstrumentResponse {
    /// The response for a stored row; an unknown stored type or conviction is
    /// an internal error naming the stored value.
    pub fn from_row(row: &InstrumentRow) -> (r: Result<Self, ApiError>)
        ensures
            row_decodes(*row) ==> r == Ok::<InstrumentResponse, ApiError>(response_of(*row)),
            !row_decodes(*row) ==> (r matches Err(e) && row_failure(*row, e)),
            match (kind_from_db(row.kind@), conviction_from_db(row.conviction@)) {
                (Some(k), Some(c)) => r matches Ok(resp) && resp.id == row.id && resp.symbol
                    == row.symbol && resp.exchange == row.exchange && resp.name == row.name
                    && resp.kind == k && resp.currency == row.currency && resp.conviction
                    == level_dto(c),
                (None, _) => r matches Err(e) && e.status == STATUS_INTERNAL_SERVER_ERROR
                    && e.code@ == "internal_error"@ && e.message@ == "stored unknown instrument type "@
                    + debug_text(row.kind@) && e.details is None,
                (Some(_), None) => r matches Err(e) && e.status == STATUS_INTERNAL_SERVER_ERROR
                    && e.code@ == "internal_error"@ && e.message@ == "stored unknown conviction "@
                    + debug_text(row.conviction@) && e.details is None,
            },
    {
        let kind = match InstrumentKindDto::from_db_str(row.kind.as_str()) {
            Some(k) => k,
            None => {
                let mut m = "stored unknown instrument type ".to_owned();
                let q = debug_string(row.kind.as_str());
                append_str(&mut m, q.as_str());
                return Err(ApiError::internal(m));
            },
        };
        let conviction = match ConvictionDto::from_db_str(row.conviction.as_str()) {
            Some(c) => c,
            None => {
                let mut m = "stored unknown conviction ".to_owned();
                let q = debug_string(row.conviction.as_str());
                append_str(&mut m, q.as_str());
                return Err(ApiError::internal(m));
            },
        };
        Ok(InstrumentResponse {
            id: row.id,
            symbol: row.symbol.clone(),
            exchange: row.exchange.clone(),
            name: row.name.clone(),
            kind,
            currency: row.currency.clone(),
            conviction,
        })
    }
}

pub open spec fn spec_normalize_isin(value: Option<Seq<char>>) -> Option<Seq<char>> {
    match value {
        Some(v) => if trim(v).len() == 0 {
            None
        } else {
            Some(upper(trim(v)))
        },
        None => None,
    }
}

/// An ISIN trimmed and upper-cased; blank or absent becomes absent.
pub fn normalize_isin(value: Option<String>) -> (r: Option<String>)
    ensures
        match value {
            Some(v) => match spec_normalize_isin(Some(v@)) {
                Some(n) => r matches Some(s) && s@ == n,
                None => r is None,
            },
            None => r is None,
        },
{
    match value {
        Some(v) => {
            let t = trim_string(v.as_str());
            if t.unicode_len() == 0 {
                None
            } else {
                Some(upper_string(t.as_str()))
            }
        },
        None => None,
    }
}

/// The body of `POST /api/instruments`.
#[derive(Clone, Debug)]
pub struct CreateInstrument {
    pub symbol: String,
    pub exchange: String,
    pub name: String,
    pub kind: InstrumentKindDto,
    pub currency: String,
    pub isin: Option<String>,
}

/// The instrument a create request asks for: fields trimmed, exchange
/// upper-cased, ISIN normalised; symbol, exchange, name and currency must
/// not be blank.
pub fn new_instrument_from(body: &CreateInstrument) -> (r: Result<NewInstrument, ApiError>)
    ensures
        (trim(body.symbol@).len() == 0 || trim(body.exchange@).len() == 0 || trim(
            body.name@,
        ).len() == 0 || trim(body.currency@).len() == 0) ==> (r matches Err(e) && e.status
            == STATUS_BAD_REQUEST && e.code@ == "invalid_instrument"@ && e.message@
            == "symbol, exchange, name, and currency are required"@ && e.details is None),
        !(trim(body.symbol@).len() == 0 || trim(body.exchange@).len() == 0 || trim(
            body.name@,
        ).len() == 0 || trim(body.currency@).len() == 0) ==> (r matches Ok(n) && n.symbol@
            == trim(body.symbol@) && n.exchange@ == upper(trim(body.exchange@)) && n.name@ == trim(
            body.name@,
        ) && n.kind@ == kind_db(body.kind) && n.currency@ == trim(body.currency@) && match body.isin {
            Some(v) => match spec_normalize_isin(Some(v@)) {
                Some(t) => n.isin matches Some(s) && s@ == t,
                None => n.isin is None,
            },
            None => n.isin is None,
        }),
{
    let symbol = trim_string(body.symbol.as_str());
    let exchange = upper_string(trim_string(body.exchange.as_str()).as_str());
    let name = trim_string(body.name.as_str());
    let currency = trim_string(body.currency.as_str());
    let isin = normalize_isin(body.isin.clone());
    if symbol.unicode_len() == 0 || exchange.unicode_len() == 0 || name.unicode_len() == 0
        || currency.unicode_len() == 0 {
        return Err(
            ApiError::bad_request(
                "invalid_instrument",
                "symbol, exchange, name, and currency are required".to_owned(),
            ),
        );
    }
    Ok(NewInstrument {
        symbol,
        exchange,
        name,
        kind: body.kind.as_db_str().to_owned(),
        currency,
        isin,
    })
}


/// What an upsert on `(exchange, symbol)` does once both identities were looked up.
#[derive(Clone, Debug)]
pub enum UpsertDecision {
    /// The instrument exists: return it unchanged.
    Existing(InstrumentRow),
    /// The instrument exists without an ISIN: store the requested one.
    BackfillIsin(i64),
    /// No such instrument: insert it.
    Insert,
}

/// The message of an identity conflict between a stored and a requested ISIN.
pub open spec fn isin_conflict_text(
    exchange: Seq<char>,
    symbol: Seq<char>,
    stored: Seq<char>,
    requested: Seq<char>,
) -> Seq<char> {
    "instrument identity conflict for "@ + exchange + "/"@ + symbol + ": stored isin "@ + stored
        + " differs from requested "@ + requested
}

/// The message of an identity conflict between the ISIN and the symbol lookups.
pub open spec fn lookup_conflict_text(
    exchange: Seq<char>,
    symbol: Seq<char>,
    isin_id: i64,
    symbol_id: i64,
) -> Seq<char> {
    "instrument identity conflict for "@ + exchange + "/"@ + symbol + ": ISIN lookup id "@
        + int_text(isin_id as int) + " differs from symbol lookup id "@ + int_text(symbol_id as int)
}

/// Whether `r` is the upsert decision for the rows found by ISIN and by symbol.
pub open spec fn resolved(
    new: NewInstrument,
    by_isin: Option<InstrumentRow>,
    by_symbol: Option<InstrumentRow>,
    r: Result<UpsertDecision, RepoError>,
) -> bool {
    match (by_isin, by_symbol) {
        (Some(i), Some(s)) => if i.id != s.id {
            r matches Err(RepoError::Decode(m)) && m@ == lookup_conflict_text(
                new.exchange@,
                new.symbol@,
                i.id,
                s.id,
            )
        } else {
            r matches Ok(UpsertDecision::Existing(row)) && row == i
        },
        (Some(i), None) => r matches Ok(UpsertDecision::Existing(row)) && row == i,
        (None, Some(s)) => match (new.isin, s.isin) {
            (Some(requested), None) => r matches Ok(UpsertDecision::BackfillIsin(id)) && id
                == s.id,
            (Some(requested), Some(stored)) => if stored@ == requested@ {
                r matches Ok(UpsertDecision::Existing(row)) && row == s
            } else {
                r matches Err(RepoError::Decode(m)) && m@ == isin_conflict_text(
                    new.exchange@,
                    new.symbol@,
                    stored@,
                    requested@,
                )
            },
            (None, _) => r matches Ok(UpsertDecision::Existing(row)) && row == s,
        },
        (None, None) => r matches Ok(UpsertDecision::Insert),
    }
}

/// The decode error of a symbol match whose stored ISIN differs from the requested one.
pub fn identity_conflict(exchange: &str, symbol: &str, stored: &str, requested: &str) -> (e:
    RepoError)
    ensures
        e matches RepoError::Decode(m) && m@ == isin_conflict_text(exchange@, symbol@, stored@, requested@),
{
    let mut m = "instrument identity conflict for ".to_owned();
    append_str(&mut m, exchange);
    append_str(&mut m, "/");
    append_str(&mut m, symbol);
    append_str(&mut m, ": stored isin ");
    append_str(&mut m, stored);
    append_str(&mut m, " differs from requested ");
    append_str(&mut m, requested);
    RepoError::Decode(m)
}

/// Decides an upsert from the rows found by ISIN and by exchange and symbol.
/// The ISIN match wins unless the symbol lookup found a different row; a
/// symbol match without an ISIN gets the requested one; a symbol match with
/// another ISIN is a conflict.
pub fn resolve_existing(
    new: &NewInstrument,
    by_isin: Option<InstrumentRow>,
    by_symbol: Option<InstrumentRow>,
) -> (r: Result<UpsertDecision, RepoError>)
    ensures
        resolved(*new, by_isin, by_symbol, r),
{
    if let Some(found) = by_isin {
        if let Some(other) = by_symbol {
            if found.id != other.id {
                let mut m = "instrument identity conflict for ".to_owned();
                append_str(&mut m, new.exchange.as_str());
                append_str(&mut m, "/");
                append_str(&mut m, new.symbol.as_str());
                append_str(&mut m, ": ISIN lookup id ");
                let a = i64_string(found.id);
                append_str(&mut m, a.as_str());
                append_str(&mut m, " differs from symbol lookup id ");
                let b = i64_string(other.id);
                append_str(&mut m, b.as_str());
                return Err(RepoError::Decode(m));
            }
        }
        return Ok(UpsertDecision::Existing(found));
    }
    if let Some(existing) = by_symbol {
        match &new.isin {
            Some(requested) => match &existing.isin {
                None => {
                    return Ok(UpsertDecision::BackfillIsin(existing.id));
                },
                Some(stored) => {
                    if str_eq(stored.as_str(), requested.as_str()) {
                        return Ok(UpsertDecision::Existing(existing));
                    }
                    return Err(
                        identity_conflict(
                            new.exchange.as_str(),
                            new.symbol.as_str(),
                            stored.as_str(),
                            requested.as_str(),
                        ),
                    );
                },
            },
            None => {
                return Ok(UpsertDecision::Existing(existing));
            },
        }
    }
    Ok(UpsertDecision::Insert)
}

/// The decision after an insert lost a race on a unique index: the rows are
/// looked up again, and finding neither is a decode error.
pub fn resolve_after_unique_violation(
    new: &NewInstrument,
    by_isin: Option<InstrumentRow>,
    by_symbol: Option<InstrumentRow>,
) -> (r: Result<UpsertDecision, RepoError>)
    ensures
        (by_isin is None && by_symbol is None) ==> (r matches Err(RepoError::Decode(m)) && m@
            == "instrument unique violation but no matching row was found"@),
        !(by_isin is None && by_symbol is None) ==> resolved(*new, by_isin, by_symbol, r),
{
    match resolve_existing(new, by_isin, by_symbol) {
        Ok(UpsertDecision::Insert) => Err(
            RepoError::Decode(
                "instrument unique violation but no matching row was found".to_owned(),
            ),
        ),
        other => other,
    }
}


/// Every row as the API returns it, in order; the first row that does not
/// convert fails the whole list.
pub fn instrument_responses(rows: &Vec<InstrumentRow>) -> (r: Result<Vec<InstrumentResponse>, ApiError>)
    ensures
        match r {
            Ok(v) => v@.len() == rows@.len() && forall|i: int|
                0 <= i < rows@.len() ==> (kind_from_db(rows@[i].kind@) matches Some(k) && (
                conviction_from_db(rows@[i].conviction@) matches Some(c) && (#[trigger] v@[i]).id
                    == rows@[i].id && v@[i].symbol == rows@[i].symbol && v@[i].exchange
                    == rows@[i].exchange && v@[i].name == rows@[i].name && v@[i].kind == k
                    && v@[i].currency == rows@[i].currency && v@[i].conviction == level_dto(c))),
            Err(e) => e.status == STATUS_INTERNAL_SERVER_ERROR && exists|i: int|
                0 <= i < rows@.len() && !(kind_from_db(#[trigger] rows@[i].kind@) is Some
                    && conviction_from_db(rows@[i].conviction@) is Some),
        },
{
    let mut out: Vec<InstrumentResponse> = Vec::new();
    let mut i: usize = 0;
    while i < rows.len()
        invariant
            i <= rows@.len(),
            out@.len() == i,
            forall|j: int|
                0 <= j < i ==> (kind_from_db(rows@[j].kind@) matches Some(k) && (conviction_from_db(
                    rows@[j].conviction@,
                ) matches Some(c) && (#[trigger] out@[j]).id == rows@[j].id && out@[j].symbol
                    == rows@[j].symbol && out@[j].exchange == rows@[j].exchange && out@[j].name
                    == rows@[j].name && out@[j].kind == k && out@[j].currency == rows@[j].currency
                    && out@[j].conviction == level_dto(c))),
        decreases rows.len() - i,
    {
        match InstrumentResponse::from_row(&rows[i]) {
            Ok(resp) => {
                out.push(resp);
            },
            Err(e) => {
                assert(!(kind_from_db(rows@[i as int].kind@) is Some && conviction_from_db(
                    rows@[i as int].conviction@,
                ) is Some));
                return Err(e);
            },
        }
        i = i + 1;
    }
    Ok(out)
}

/// The body of `PUT /api/instruments/{id}/conviction`.
#[derive(Clone, Copy, Debug)]
pub struct UpdateConviction {
    pub conviction: ConvictionDto,
}

/// One change of a batch conviction update.
#[derive(Clone, Copy, Debug)]
pub struct ConvictionChange {
    pub instrument_id: i64,
    pub conviction: ConvictionDto,
}

/// The body of `PUT /api/instruments/convictions`.
#[derive(Clone, Debug)]
pub struct UpdateConvictions {
    pub changes: Vec<ConvictionChange>,
}

/// The (instrument, stored conviction) pairs a batch update writes, in order.
pub fn conviction_changes(body: &UpdateConvictions) -> (r: Vec<(i64, String)>)
    ensures
        r@.len() == body.changes@.len(),
        forall|i: int|
            0 <= i < r@.len() ==> (#[trigger] r@[i]).0 == body.changes@[i].instrument_id && r@[i].1@
                == conviction_db(dto_level(body.changes@[i].conviction)),
{
    let mut r: Vec<(i64, String)> = Vec::new();
    let mut i: usize = 0;
    while i < body.changes.len()
        invariant
            i <= body.changes@.len(),
            r@.len() == i,
            forall|j: int|
                0 <= j < i ==> (#[trigger] r@[j]).0 == body.changes@[j].instrument_id && r@[j].1@
                    == conviction_db(dto_level(body.changes@[j].conviction)),
        decreases body.changes.len() - i,
    {
        let change = body.changes[i];
        r.push((change.instrument_id, change.conviction.db_str().to_owned()));
        i = i + 1;
    }
    r
}

/// An instrument can be deleted only when it has no transactions and no
/// position; otherwise the answer is `409` naming the first reason that applies.
pub fn deletion_check(instrument_id: i64, transactions: usize, quantity: i64) -> (r: Result<(), ApiError>)
    ensures
        (transactions == 0 && quantity == 0) ==> r is Ok,
        !(transactions == 0 && quantity == 0) ==> (r matches Err(e) && e.status == STATUS_CONFLICT
            && e.code@ == "instrument_not_deletable"@ && e.message@
            == "Instrument can only be deleted when it has no transactions and zero quantity."@
            && (e.details matches Some(ErrorDetails::NotDeletable { instrument_id: id, reason, transactions: t, quantity: q })
            && id == instrument_id && t == transactions && q == quantity && reason@ == (if transactions
            > 0 {
            "has_transactions"@
        } else {
            "nonzero_quantity"@
        }))),
{
    if transactions == 0 && quantity == 0 {
        return Ok(());
    }
    let reason = if transactions > 0 {
        "has_transactions"
    } else {
        "nonzero_quantity"
    };
    Err(
        ApiError::conflict(
            "instrument_not_deletable",
            "Instrument can only be deleted when it has no transactions and zero quantity.".to_owned(),
        ).with_details(ErrorDetails::NotDeletable { instrument_id, reason, transactions, quantity }),
    )
}

/// The query of `GET /api/instrument-lookup`.
#[derive(Clone, Debug)]
pub struct InstrumentLookupQuery {
    pub query: String,
}

/// The trimmed search text of a lookup; blank is a bad request.
pub fn lookup_query(q: &InstrumentLookupQuery) -> (r: Result<String, ApiError>)
    ensures
        trim(q.query@).len() > 0 ==> (r matches Ok(s) && s@ == trim(q.query@)),
        trim(q.query@).len() == 0 ==> (r matches Err(e) && e.status == STATUS_BAD_REQUEST && e.code@
            == "invalid_query"@ && e.message@ == "query is required"@ && e.details is None),
{
    let query = trim_string(q.query.as_str());
    if query.unicode_len() == 0 {
        return Err(ApiError::bad_request("invalid_query", "query is required".to_owned()));
    }
    Ok(query)
}
} // verus!
