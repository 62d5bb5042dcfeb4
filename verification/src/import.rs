//! Broker-report import: the plan a parsed report yields, the preview and
//! commit responses built from it, and the decisions a commit makes before
//! anything is written.
use vstd::prelude::*;

use crate::config::{debug_string, debug_text};
use crate::decimal::DecimalNum;
use crate::error::{
    ApiError, ClosingPositionDetail, ErrorDetails, RowErrorDetail, STATUS_BAD_REQUEST,
    STATUS_CONFLICT, STATUS_NOT_FOUND, STATUS_UNPROCESSABLE_ENTITY,
};
use crate::instruments::{level_dto, ConvictionDto, ConvictionLevel};
use crate::key_set::{
    contains_key, insert_key, key_set, keys_filtered, listed_keys, parse_asset_key_set, raw_text,
    strictly_sorted,
};
use crate::text::{append_str, clone_opt, i64_string, int_text, str_eq, views};
use crate::transactions::{LedgerTransaction, ProposedTransaction, TransactionKind};
use std::collections::BTreeMap;
use std::collections::BTreeSet;

verus! {

broadcast use vstd::laws_cmp::group_laws_cmp;

/// A note on one source row (or on the file when `row` is absent).
#[derive(Clone, Debug)]
pub struct RowNote {
    pub row: Option<usize>,
    pub code: &'static str,
    pub message: String,
}

/// Why a report could not be parsed at all.
#[derive(Clone, Debug)]
pub struct ParseError {
    pub row: Option<usize>,
    pub code: &'static str,
    pub message: String,
}

/// The instrument a report row names.
#[derive(Clone, Debug)]
pub struct InstrumentKey {
    pub exchange: String,
    pub symbol: String,
    pub name: String,
    pub currency: String,
    pub isin: Option<String>,
}

/// A report row mapped to a proposed ledger transaction.
#[derive(Clone, Debug)]
pub struct MappedRow {
    pub source_row_number: usize,
    pub instrument: InstrumentKey,
    pub proposed: ProposedTransaction,
    pub source_value: Option<DecimalNum>,
    pub source_currency: Option<String>,
    pub note: Option<String>,
    pub fx_warning: bool,
}

/// The rows of one asset in a report, by kind, split into new and already imported.
#[derive(Clone, Debug)]
pub struct AssetGroup {
    pub asset_key: String,
    pub name: String,
    pub currency: String,
    pub buys: usize,
    pub sells: usize,
    pub splits: usize,
    pub dividends: usize,
    pub already_imported_buys: usize,
    pub already_imported_sells: usize,
    pub already_imported_splits: usize,
    pub already_imported_dividends: usize,
    pub default_selected: bool,
    pub skipped_reason: Option<String>,
    pub warnings: Vec<RowNote>,
    pub errors: Vec<RowNote>,
    pub is_new_instrument: bool,
}

/// Row counts of a plan.
#[derive(Clone, Copy, Debug, Default)]
pub struct PlanCounts {
    pub rows: usize,
    pub buys: usize,
    pub sells: usize,
    pub splits: usize,
    pub dividends: usize,
    pub new_instruments: usize,
    pub skipped: usize,
    pub warnings: usize,
    pub errors: usize,
}

/// What importing a report would do.
#[derive(Clone, Debug)]
pub struct ImportPlan {
    pub counts: PlanCounts,
    pub new_instruments: Vec<InstrumentKey>,
    pub assets: Vec<AssetGroup>,
    pub already_imported_assets: Vec<AssetGroup>,
    pub new_mapped_rows: Vec<MappedRow>,
    pub warnings: Vec<RowNote>,
    pub errors: Vec<RowNote>,
}

/// An instrument already in the ledger, as the planner sees it.
#[derive(Clone, Debug)]
pub struct ExistingInstrument {
    pub id: i64,
    pub exchange: String,
    pub symbol: String,
    pub currency: String,
    pub isin: Option<String>,
}

/// The asset key of an existing instrument: its ISIN, or `EXCHANGE:SYMBOL` without one.
pub open spec fn existing_asset_key(e: ExistingInstrument) -> Seq<char> {
    match e.isin {
        Some(isin) => isin@,
        None => e.exchange@ + ":"@ + e.symbol@,
    }
}

impl ExistingInstrument {
    pub fn asset_key(&self) -> (k: String)
        ensures
            k@ == existing_asset_key(*self),
    {
        match &self.isin {
            Some(isin) => isin.clone(),
            None => {
                let mut k = self.exchange.clone();
                append_str(&mut k, ":");
                append_str(&mut k, self.symbol.as_str());
                k
            },
        }
    }
}

/// The ledger state a plan is built against.
pub struct PlanContext {
    pub existing_instruments: Vec<ExistingInstrument>,
    pub existing_ledgers: BTreeMap<i64, Vec<LedgerTransaction>>,
    pub max_existing_id: i64,
}

/// A convicted open position that the import would close.
#[derive(Clone, Debug)]
pub struct ClosingConvictedPosition {
    pub instrument_id: i64,
    pub asset_key: String,
    pub symbol: String,
    pub conviction: ConvictionLevel,
}

/// A row note as the API reports it.
#[derive(Clone, Debug)]
pub struct RowNoteDto {
    pub row: Option<usize>,
    pub code: &'static str,
    pub message: String,
}

/// Row counts as the API reports them.
#[derive(Clone, Copy, Debug, Default)]
pub struct PreviewCounts {
    pub rows: usize,
    pub buys: usize,
    pub sells: usize,
    pub splits: usize,
    pub dividends: usize,
    pub new_instruments: usize,
    pub skipped: usize,
    pub warnings: usize,
    pub errors: usize,
}

/// One asset of a preview.
#[derive(Clone, Debug)]
pub struct AssetGroupDto {
    pub asset_key: String,
    pub name: String,
    pub currency: String,
    pub buys: usize,
    pub sells: usize,
    pub splits: usize,
    pub dividends: usize,
    pub already_imported_buys: usize,
    pub already_imported_sells: usize,
    pub already_imported_splits: usize,
    pub already_imported_dividends: usize,
    pub default_selected: bool,
    pub skipped_reason: Option<String>,
    pub warnings: Vec<RowNoteDto>,
    pub errors: Vec<RowNoteDto>,
    pub is_new_instrument: bool,
}

/// An instrument the import would create.
#[derive(Clone, Debug)]
pub struct NewInstrumentDto {
    pub exchange: String,
    pub symbol: String,
    pub name: String,
    pub currency: String,
    pub isin: Option<String>,
}

/// A convicted position the import would close, as the preview lists it.
#[derive(Clone, Debug)]
pub struct ConvictionClosePositionDto {
    pub instrument_id: i64,
    pub asset_key: String,
    pub symbol: String,
    pub conviction: ConvictionDto,
}

impl ConvictionClosePositionDto {
    pub fn from_position(position: &ClosingConvictedPosition) -> (d: Self)
        ensures
            d.instrument_id == position.instrument_id,
            d.asset_key == position.asset_key,
            d.symbol == position.symbol,
            d.conviction == level_dto(position.conviction),
    {
        ConvictionClosePositionDto {
            instrument_id: position.instrument_id,
            asset_key: position.asset_key.clone(),
            symbol: position.symbol.clone(),
            conviction: ConvictionDto::from_level(position.conviction),
        }
    }
}

/// Title and period of a parsed report.
#[derive(Clone, Debug)]
pub struct PreviewMetadata {
    pub title: String,
    pub date_from: String,
    pub date_to: String,
}

/// What a commit of the report would do.
#[derive(Clone, Debug)]
pub struct ImportPreview {
    pub metadata: Option<PreviewMetadata>,
    pub counts: PreviewCounts,
    pub assets: Vec<AssetGroupDto>,
    pub already_imported_assets: Vec<AssetGroupDto>,
    pub new_instruments: Vec<NewInstrumentDto>,
    pub warnings: Vec<RowNoteDto>,
    pub errors: Vec<RowNoteDto>,
    pub duplicate_of_batch_id: Option<i64>,
    /// Batch id that a later refresh commit should target; absent before the first import.
    pub replace_candidate_batch_id: Option<i64>,
    /// Non-blocking warning when several live batches of the source exist.
    pub replace_candidate_warning: Option<String>,
    /// Convicted open positions this import would close; the commit must
    /// carry a keep or clear choice for each.
    pub conviction_close_positions: Vec<ConvictionClosePositionDto>,
}

/// The query of a commit request.
#[derive(Clone, Debug)]
pub struct CommitParams {
    pub allow_duplicate: bool,
    /// Comma-separated asset keys to leave out of the import.
    pub exclude: Option<String>,
    /// `replace` asks for a refresh of an earlier batch; anything else appends.
    pub mode: Option<String>,
    /// The batch a refresh replaces.
    pub replace_batch_id: Option<i64>,
    /// Comma-separated asset keys whose conviction is kept although the import closes them.
    pub conviction_keep: Option<String>,
    /// Comma-separated asset keys whose conviction is cleared to `Other`.
    pub conviction_to_other: Option<String>,
}

/// The answer to a commit.
#[derive(Clone, Debug)]
pub struct ImportResult {
    pub batch_id: i64,
    pub counts: PreviewCounts,
    pub warnings: Vec<RowNoteDto>,
}

/// The answer to a rollback.
#[derive(Clone, Debug)]
pub struct RollbackResult {
    pub batch_id: i64,
    pub removed: u64,
}

// ---------------------------------------------------------------------------
// Response shaping

pub open spec fn note_dto(n: RowNote) -> RowNoteDto {
    RowNoteDto { row: n.row, code: n.code, message: n.message }
}

pub open spec fn note_dtos(notes: Seq<RowNote>) -> Seq<RowNoteDto> {
    notes.map_values(|n: RowNote| note_dto(n))
}

pub fn row_note_dto(note: &RowNote) -> (d: RowNoteDto)
    ensures
        d == note_dto(*note),
{
    RowNoteDto { row: note.row, code: note.code, message: note.message.clone() }
}

/// Each note as the API reports it, in order.
pub fn row_note_dtos(notes: &Vec<RowNote>) -> (r: Vec<RowNoteDto>)
    ensures
        r@ == note_dtos(notes@),
{
    let mut r: Vec<RowNoteDto> = Vec::new();
    let mut i: usize = 0;
    while i < notes.len()
        invariant
            i <= notes.len(),
            r@ == note_dtos(notes@.subrange(0, i as int)),
        decreases notes.len() - i,
    {
        r.push(row_note_dto(&notes[i]));
        i = i + 1;
        assert(note_dtos(notes@.subrange(0, i as int)) =~= note_dtos(
            notes@.subrange(0, i - 1),
        ).push(note_dto(notes@[i - 1])));
    }
    assert(notes@.subrange(0, i as int) =~= notes@);
    r
}

pub open spec fn group_dto_of(d: AssetGroupDto, g: AssetGroup) -> bool {
    &&& d.asset_key == g.asset_key
    &&& d.name == g.name
    &&& d.currency == g.currency
    &&& d.buys == g.buys
    &&& d.sells == g.sells
    &&& d.splits == g.splits
    &&& d.dividends == g.dividends
    &&& d.already_imported_buys == g.already_imported_buys
    &&& d.already_imported_sells == g.already_imported_sells
    &&& d.already_imported_splits == g.already_imported_splits
    &&& d.already_imported_dividends == g.already_imported_dividends
    &&& d.default_selected == g.default_selected
    &&& d.skipped_reason == g.skipped_reason
    &&& d.warnings@ == note_dtos(g.warnings@)
    &&& d.errors@ == note_dtos(g.errors@)
    &&& d.is_new_instrument == g.is_new_instrument
}

pub fn asset_group_dto(group: &AssetGroup) -> (d: AssetGroupDto)
    ensures
        group_dto_of(d, *group),
{
    AssetGroupDto {
        asset_key: group.asset_key.clone(),
        name: group.name.clone(),
        currency: group.currency.clone(),
        buys: group.buys,
        sells: group.sells,
        splits: group.splits,
        dividends: group.dividends,
        already_imported_buys: group.already_imported_buys,
        already_imported_sells: group.already_imported_sells,
        already_imported_splits: group.already_imported_splits,
        already_imported_dividends: group.already_imported_dividends,
        default_selected: group.default_selected,
        skipped_reason: clone_opt(&group.skipped_reason),
        warnings: row_note_dtos(&group.warnings),
        errors: row_note_dtos(&group.errors),
        is_new_instrument: group.is_new_instrument,
    }
}

/// Each asset group as the API reports it, in order.
pub fn asset_group_dtos(groups: &Vec<AssetGroup>) -> (r: Vec<AssetGroupDto>)
    ensures
        r@.len() == groups@.len(),
        forall|i: int| 0 <= i < groups@.len() ==> group_dto_of(#[trigger] r@[i], groups@[i]),
{
    let mut r: Vec<AssetGroupDto> = Vec::new();
    let mut i: usize = 0;
    while i < groups.len()
        invariant
            i <= groups.len(),
            r@.len() == i,
            forall|j: int| 0 <= j < i ==> group_dto_of(#[trigger] r@[j], groups@[j]),
        decreases groups.len() - i,
    {
        r.push(asset_group_dto(&groups[i]));
        i = i + 1;
    }
    r
}

pub open spec fn new_instrument_view(k: InstrumentKey) -> NewInstrumentDto {
    NewInstrumentDto {
        exchange: k.exchange,
        symbol: k.symbol,
        name: k.name,
        currency: k.currency,
        isin: k.isin,
    }
}

pub fn new_instrument_dto(key: &InstrumentKey) -> (d: NewInstrumentDto)
    ensures
        d == new_instrument_view(*key),
{
    NewInstrumentDto {
        exchange: key.exchange.clone(),
        symbol: key.symbol.clone(),
        name: key.name.clone(),
        currency: key.currency.clone(),
        isin: clone_opt(&key.isin),
    }
}

/// Each instrument to create as the API reports it, in order.
pub fn new_instrument_dtos(keys: &Vec<InstrumentKey>) -> (r: Vec<NewInstrumentDto>)
    ensures
        r@ == keys@.map_values(|k: InstrumentKey| new_instrument_view(k)),
{
    let mut r: Vec<NewInstrumentDto> = Vec::new();
    let mut i: usize = 0;
    while i < keys.len()
        invariant
            i <= keys.len(),
            r@ == keys@.subrange(0, i as int).map_values(|k: InstrumentKey| new_instrument_view(k)),
        decreases keys.len() - i,
    {
        r.push(new_instrument_dto(&keys[i]));
        i = i + 1;
        assert(keys@.subrange(0, i as int).map_values(|k: InstrumentKey| new_instrument_view(k))
            =~= keys@.subrange(0, i - 1).map_values(|k: InstrumentKey| new_instrument_view(k)).push(
            new_instrument_view(keys@[i - 1]),
        ));
    }
    assert(keys@.subrange(0, i as int) =~= keys@);
    r
}

pub open spec fn counts_view(c: PlanCounts) -> PreviewCounts {
    PreviewCounts {
        rows: c.rows,
        buys: c.buys,
        sells: c.sells,
        splits: c.splits,
        dividends: c.dividends,
        new_instruments: c.new_instruments,
        skipped: c.skipped,
        warnings: c.warnings,
        errors: c.errors,
    }
}

pub fn counts_dto(plan: &ImportPlan) -> (c: PreviewCounts)
    ensures
        c == counts_view(plan.counts),
{
    PreviewCounts {
        rows: plan.counts.rows,
        buys: plan.counts.buys,
        sells: plan.counts.sells,
        splits: plan.counts.splits,
        dividends: plan.counts.dividends,
        new_instruments: plan.counts.new_instruments,
        skipped: plan.counts.skipped,
        warnings: plan.counts.warnings,
        errors: plan.counts.errors,
    }
}

/// How many of the rows are of the given kind.
pub open spec fn kind_total(rows: Seq<MappedRow>, kind: TransactionKind) -> nat {
    rows.filter(|r: MappedRow| r.proposed.kind == kind).len()
}

pub fn kind_count(mapped: &Vec<MappedRow>, kind: TransactionKind) -> (n: usize)
    ensures
        n == kind_total(mapped@, kind),
{
    let mut n: usize = 0;
    let mut i: usize = 0;
    while i < mapped.len()
        invariant
            i <= mapped.len(),
            n == kind_total(mapped@.subrange(0, i as int), kind),
            n <= i,
        decreases mapped.len() - i,
    {
        let ghost pre = mapped@.subrange(0, i as int);
        assert(mapped@.subrange(0, i + 1).drop_last() =~= pre);
        proof {
            reveal(Seq::filter);
        }
        if mapped[i].proposed.kind == kind {
            n = n + 1;
        }
        i = i + 1;
    }
    assert(mapped@.subrange(0, i as int) =~= mapped@);
    n
}

/// The counts a commit reports: the plan's counts, with the row and per-kind
/// counts taken from the rows actually written.
pub fn effective_counts(plan: &ImportPlan, mapped: &Vec<MappedRow>) -> (c: PreviewCounts)
    ensures
        c.rows == mapped@.len(),
        c.buys == kind_total(mapped@, TransactionKind::Buy),
        c.sells == kind_total(mapped@, TransactionKind::Sell),
        c.splits == kind_total(mapped@, TransactionKind::Split),
        c.dividends == kind_total(mapped@, TransactionKind::Dividend),
        c.new_instruments == plan.counts.new_instruments,
        c.skipped == plan.counts.skipped,
        c.warnings == plan.counts.warnings,
        c.errors == plan.counts.errors,
{
    let mut counts = counts_dto(plan);
    counts.rows = mapped.len();
    counts.buys = kind_count(mapped, TransactionKind::Buy);
    counts.sells = kind_count(mapped, TransactionKind::Sell);
    counts.splits = kind_count(mapped, TransactionKind::Split);
    counts.dividends = kind_count(mapped, TransactionKind::Dividend);
    counts
}


/// The preview of a report that could not be parsed: the parse error is its one error.
pub fn parse_error_preview(error: ParseError, duplicate_of_batch_id: Option<i64>) -> (p: ImportPreview)
    ensures
        p.metadata is None,
        p.counts == (PreviewCounts {
            rows: 0,
            buys: 0,
            sells: 0,
            splits: 0,
            dividends: 0,
            new_instruments: 0,
            skipped: 0,
            warnings: 0,
            errors: 1,
        }),
        p.assets@.len() == 0,
        p.already_imported_assets@.len() == 0,
        p.new_instruments@.len() == 0,
        p.warnings@.len() == 0,
        p.errors@ == seq![RowNoteDto { row: error.row, code: error.code, message: error.message }],
        p.duplicate_of_batch_id == duplicate_of_batch_id,
        p.replace_candidate_batch_id is None,
        p.replace_candidate_warning is None,
        p.conviction_close_positions@.len() == 0,
{
    let mut errors: Vec<RowNoteDto> = Vec::new();
    errors.push(RowNoteDto { row: error.row, code: error.code, message: error.message });
    ImportPreview {
        metadata: None,
        counts: PreviewCounts {
            rows: 0,
            buys: 0,
            sells: 0,
            splits: 0,
            dividends: 0,
            new_instruments: 0,
            skipped: 0,
            warnings: 0,
            errors: 1,
        },
        assets: Vec::new(),
        already_imported_assets: Vec::new(),
        new_instruments: Vec::new(),
        warnings: Vec::new(),
        errors,
        duplicate_of_batch_id,
        replace_candidate_batch_id: None,
        replace_candidate_warning: None,
        conviction_close_positions: Vec::new(),
    }
}

/// The preview of a parsed report: the plan's counts, assets, new
/// instruments and notes, with the positions the import would close.
pub fn plan_preview(
    metadata: PreviewMetadata,
    plan: &ImportPlan,
    duplicate_of_batch_id: Option<i64>,
    replace_candidate_batch_id: Option<i64>,
    replace_candidate_warning: Option<String>,
    closing: &Vec<ClosingConvictedPosition>,
) -> (p: ImportPreview)
    ensures
        p.metadata == Some(metadata),
        p.counts == counts_view(plan.counts),
        p.assets@.len() == plan.assets@.len(),
        forall|i: int|
            0 <= i < plan.assets@.len() ==> group_dto_of(#[trigger] p.assets@[i], plan.assets@[i]),
        p.already_imported_assets@.len() == plan.already_imported_assets@.len(),
        forall|i: int|
            0 <= i < plan.already_imported_assets@.len() ==> group_dto_of(
                #[trigger] p.already_imported_assets@[i],
                plan.already_imported_assets@[i],
            ),
        p.new_instruments@ == plan.new_instruments@.map_values(
            |k: InstrumentKey| new_instrument_view(k),
        ),
        p.warnings@ == note_dtos(plan.warnings@),
        p.errors@ == note_dtos(plan.errors@),
        p.duplicate_of_batch_id == duplicate_of_batch_id,
        p.replace_candidate_batch_id == replace_candidate_batch_id,
        p.replace_candidate_warning == replace_candidate_warning,
        p.conviction_close_positions@.len() == closing@.len(),
        forall|i: int|
            0 <= i < closing@.len() ==> {
                let d = #[trigger] p.conviction_close_positions@[i];
                &&& d.instrument_id == closing@[i].instrument_id
                &&& d.asset_key == closing@[i].asset_key
                &&& d.symbol == closing@[i].symbol
                &&& d.conviction == level_dto(closing@[i].conviction)
            },
{
    let mut positions: Vec<ConvictionClosePositionDto> = Vec::new();
    let mut i: usize = 0;
    while i < closing.len()
        invariant
            i <= closing.len(),
            positions@.len() == i,
            forall|j: int|
                0 <= j < i ==> {
                    let d = #[trigger] positions@[j];
                    &&& d.instrument_id == closing@[j].instrument_id
                    &&& d.asset_key == closing@[j].asset_key
                    &&& d.symbol == closing@[j].symbol
                    &&& d.conviction == level_dto(closing@[j].conviction)
                },
        decreases closing.len() - i,
    {
        positions.push(ConvictionClosePositionDto::from_position(&closing[i]));
        i = i + 1;
    }
    ImportPreview {
        metadata: Some(metadata),
        counts: counts_dto(plan),
        assets: asset_group_dtos(&plan.assets),
        already_imported_assets: asset_group_dtos(&plan.already_imported_assets),
        new_instruments: new_instrument_dtos(&plan.new_instruments),
        warnings: row_note_dtos(&plan.warnings),
        errors: row_note_dtos(&plan.errors),
        duplicate_of_batch_id,
        replace_candidate_batch_id,
        replace_candidate_warning,
        conviction_close_positions: positions,
    }
}

pub open spec fn row_error_of(n: RowNote) -> RowErrorDetail {
    RowErrorDetail { row: n.row, code: n.code, message: n.message }
}

/// A plan with errors is not committed: the answer is `422` with the first
/// error's code and message, and every error in the details.
pub fn reject_on_errors(plan: &ImportPlan) -> (r: Result<(), ApiError>)
    ensures
        plan.errors@.len() == 0 ==> r is Ok,
        plan.errors@.len() > 0 ==> (r matches Err(e) && e.status == STATUS_UNPROCESSABLE_ENTITY
            && e.code == plan.errors@[0].code && e.message == plan.errors@[0].message
            && (e.details matches Some(ErrorDetails::RowErrors(v)) && v@ == plan.errors@.map_values(
            |n: RowNote| row_error_of(n),
        ))),
{
    if plan.errors.len() == 0 {
        return Ok(());
    }
    let mut details: Vec<RowErrorDetail> = Vec::new();
    let mut i: usize = 0;
    while i < plan.errors.len()
        invariant
            i <= plan.errors.len(),
            details@ == plan.errors@.subrange(0, i as int).map_values(
                |n: RowNote| row_error_of(n),
            ),
        decreases plan.errors.len() - i,
    {
        let n = &plan.errors[i];
        details.push(RowErrorDetail { row: n.row, code: n.code, message: n.message.clone() });
        i = i + 1;
        assert(plan.errors@.subrange(0, i as int).map_values(|n: RowNote| row_error_of(n))
            =~= plan.errors@.subrange(0, i - 1).map_values(|n: RowNote| row_error_of(n)).push(
            row_error_of(plan.errors@[i - 1]),
        ));
    }
    assert(plan.errors@.subrange(0, i as int) =~= plan.errors@);
    let first = &plan.errors[0];
    Err(
        ApiError::new(STATUS_UNPROCESSABLE_ENTITY, first.code, first.message.clone()).with_details(
            ErrorDetails::RowErrors(details),
        ),
    )
}

/// `409 duplicate_import` for a file already imported as `batch_id`.
pub fn duplicate_conflict(batch_id: i64) -> (e: ApiError)
    ensures
        e.status == STATUS_CONFLICT,
        e.code@ == "duplicate_import"@,
        e.message@ == "file already imported as batch "@ + int_text(batch_id as int),
        e.details == Some(ErrorDetails::DuplicateOfBatch(batch_id)),
{
    let mut m = "file already imported as batch ".to_owned();
    let digits = i64_string(batch_id);
    append_str(&mut m, digits.as_str());
    ApiError::new(STATUS_CONFLICT, "duplicate_import", m).with_details(
        ErrorDetails::DuplicateOfBatch(batch_id),
    )
}

/// The checks an appending commit passes before it writes: no plan errors,
/// something new to write when rows were already imported, and no earlier
/// import of the same file unless duplicates are allowed.
pub fn append_commit_check(
    plan: &ImportPlan,
    duplicate_of_batch_id: Option<i64>,
    allow_duplicate: bool,
) -> (r: Result<(), ApiError>)
    ensures
        plan.errors@.len() > 0 ==> (r matches Err(e) && e.status == STATUS_UNPROCESSABLE_ENTITY
            && e.code == plan.errors@[0].code),
        plan.errors@.len() == 0 && plan.new_mapped_rows@.len() == 0
            && plan.already_imported_assets@.len() > 0 ==> (r matches Err(e) && e.status
            == STATUS_BAD_REQUEST && e.code@ == "nothing_to_import"@ && e.message@
            == "All rows are already imported — nothing to write."@ && e.details is None),
        plan.errors@.len() == 0 && !(plan.new_mapped_rows@.len() == 0
            && plan.already_imported_assets@.len() > 0) ==> match duplicate_of_batch_id {
            Some(id) => if allow_duplicate {
                r is Ok
            } else {
                r matches Err(e) && e.status == STATUS_CONFLICT && e.code@ == "duplicate_import"@
                    && e.message@ == "file already imported as batch "@ + int_text(id as int)
                    && e.details == Some(ErrorDetails::DuplicateOfBatch(id))
            },
            None => r is Ok,
        },
{
    reject_on_errors(plan)?;
    if plan.new_mapped_rows.len() == 0 && plan.already_imported_assets.len() > 0 {
        return Err(
            ApiError::bad_request(
                "nothing_to_import",
                "All rows are already imported — nothing to write.".to_owned(),
            ),
        );
    }
    match duplicate_of_batch_id {
        Some(id) => {
            if !allow_duplicate {
                return Err(duplicate_conflict(id));
            }
            Ok(())
        },
        None => Ok(()),
    }
}


/// Rows of the group that were already imported, of any kind.
pub open spec fn already_imported_rows(g: AssetGroup) -> int {
    g.already_imported_buys + g.already_imported_sells + g.already_imported_splits
        + g.already_imported_dividends
}

/// Whether a group of `groups` has asset key `key` (and, when `mixed`, also
/// rows already imported).
pub open spec fn group_has_key(groups: Seq<AssetGroup>, key: Seq<char>, mixed: bool) -> bool {
    exists|i: int|
        0 <= i < groups.len() && (#[trigger] groups[i]).asset_key@ == key && (!mixed
            || already_imported_rows(groups[i]) > 0)
}

fn any_group_has_key(groups: &Vec<AssetGroup>, key: &str, mixed: bool) -> (r: bool)
    ensures
        r == group_has_key(groups@, key@, mixed),
{
    let mut i: usize = 0;
    while i < groups.len()
        invariant
            i <= groups.len(),
            forall|j: int|
                0 <= j < i ==> !((#[trigger] groups@[j]).asset_key@ == key@ && (!mixed
                    || already_imported_rows(groups@[j]) > 0)),
        decreases groups.len() - i,
    {
        let g = &groups[i];
        let has_rows = g.already_imported_buys > 0 || g.already_imported_sells > 0
            || g.already_imported_splits > 0 || g.already_imported_dividends > 0;
        if str_eq(g.asset_key.as_str(), key) && (!mixed || has_rows) {
            assert(groups@[i as int].asset_key@ == key@);
            return true;
        }
        i = i + 1;
    }
    false
}

/// Whether the commit leaves an existing instrument's earlier rows alone: the
/// user deselected it, every one of its rows was already imported, or some
/// of its rows were (a mixed asset).
pub open spec fn keeps_earlier_rows(
    e: ExistingInstrument,
    exclude: Set<Seq<char>>,
    plan: ImportPlan,
) -> bool {
    let key = existing_asset_key(e);
    ||| exclude.contains(key)
    ||| group_has_key(plan.already_imported_assets@, key, false)
    ||| group_has_key(plan.assets@, key, true)
}

pub open spec fn kept_instrument_ids(
    existing: Seq<ExistingInstrument>,
    exclude: Set<Seq<char>>,
    plan: ImportPlan,
) -> Set<i64> {
    Set::new(
        |id: i64|
            exists|i: int|
                0 <= i < existing.len() && (#[trigger] existing[i]).id == id && keeps_earlier_rows(
                    existing[i],
                    exclude,
                    plan,
                ),
    )
}

/// The existing instruments whose earlier batch rows a refresh must keep and
/// whose ledgers it must not re-validate.
pub fn compute_excluded_instrument_ids(
    ctx: &PlanContext,
    exclude: &Vec<String>,
    plan: &ImportPlan,
) -> (ids: BTreeSet<i64>)
    ensures
        ids@ == kept_instrument_ids(ctx.existing_instruments@, key_set(exclude@), *plan),
{
    let mut ids: BTreeSet<i64> = BTreeSet::new();
    let mut i: usize = 0;
    let ghost existing = ctx.existing_instruments@;
    let ghost ex = key_set(exclude@);
    assert(ids@ =~= Set::new(
        |id: i64|
            exists|j: int|
                0 <= j < 0 && (#[trigger] existing[j]).id == id && keeps_earlier_rows(
                    existing[j],
                    ex,
                    *plan,
                ),
    ));
    while i < ctx.existing_instruments.len()
        invariant
            i <= existing.len(),
            existing == ctx.existing_instruments@,
            ex == key_set(exclude@),
            ids@ == Set::new(
                |id: i64|
                    exists|j: int|
                        0 <= j < i && (#[trigger] existing[j]).id == id && keeps_earlier_rows(
                            existing[j],
                            ex,
                            *plan,
                        ),
            ),
        decreases existing.len() - i,
    {
        let e = &ctx.existing_instruments[i];
        let key = e.asset_key();
        let keep = contains_key(exclude, key.as_str()) || any_group_has_key(
            &plan.already_imported_assets,
            key.as_str(),
            false,
        ) || any_group_has_key(&plan.assets, key.as_str(), true);
        let ghost before = ids@;
        if keep {
            ids.insert(e.id);
        }
        proof {
            assert(ids@ =~= Set::new(
                |id: i64|
                    exists|j: int|
                        0 <= j < i + 1 && (#[trigger] existing[j]).id == id && keeps_earlier_rows(
                            existing[j],
                            ex,
                            *plan,
                        ),
            )) by {
                assert forall|id: i64|
                    (exists|j: int|
                        0 <= j < i + 1 && (#[trigger] existing[j]).id == id && keeps_earlier_rows(
                            existing[j],
                            ex,
                            *plan,
                        )) implies ids@.contains(id) by {
                    let j = choose|j: int|
                        0 <= j < i + 1 && (#[trigger] existing[j]).id == id && keeps_earlier_rows(
                            existing[j],
                            ex,
                            *plan,
                        );
                    if j < i {
                        assert(before.contains(id));
                    }
                }
                if keep {
                    assert(existing[i as int].id == e.id);
                }
            }
        }
        i = i + 1;
    }
    ids
}

/// How an Avanza commit proceeds: `Some(batch)` refreshes that batch,
/// `None` appends; `mode=replace` without a batch is refused.
pub fn commit_mode(params: &CommitParams) -> (r: Result<Option<i64>, ApiError>)
    ensures
        (params.mode matches Some(m) && m@ == "replace"@) ==> match params.replace_batch_id {
            Some(id) => r == Ok::<Option<i64>, ApiError>(Some(id)),
            None => (r matches Err(e) && e.status == STATUS_BAD_REQUEST && e.code@
                == "missing_replace_batch_id"@ && e.message@
                == "mode=replace requires replace_batch_id"@ && e.details is None),
        },
        !(params.mode matches Some(m) && m@ == "replace"@) ==> r == Ok::<Option<i64>, ApiError>(None),
{
    let is_replace = match &params.mode {
        Some(m) => str_eq(m.as_str(), "replace"),
        None => false,
    };
    if is_replace {
        match params.replace_batch_id {
            Some(id) => Ok(Some(id)),
            None => Err(
                ApiError::bad_request(
                    "missing_replace_batch_id",
                    "mode=replace requires replace_batch_id".to_owned(),
                ),
            ),
        }
    } else {
        Ok(None)
    }
}

/// The warning a preview carries when the refresh target is one of several
/// live batches of the source.
pub fn replace_candidate_warning(candidate: Option<i64>, live_batches: i64) -> (w: Option<String>)
    ensures
        match candidate {
            Some(id) => if live_batches > 1 {
                w matches Some(s) && s@ == "Multiple Avanza imports found; refreshing batch "@
                    + int_text(id as int) + ", others are left untouched"@
            } else {
                w is None
            },
            None => w is None,
        },
{
    match candidate {
        Some(id) => {
            if live_batches > 1 {
                let mut s = "Multiple Avanza imports found; refreshing batch ".to_owned();
                let digits = i64_string(id);
                append_str(&mut s, digits.as_str());
                append_str(&mut s, ", others are left untouched");
                Some(s)
            } else {
                None
            }
        },
        None => None,
    }
}

pub open spec fn unknown_key_note(key: Seq<char>, note: RowNoteDto) -> bool {
    &&& note.row is None
    &&& note.code@ == "unknown_exclude_key"@
    &&& note.message@ == "exclude key "@ + debug_text(key) + " matched no asset"@
}

/// One warning per exclude key that matched no asset, in order.
pub fn unknown_key_warnings(unknown: &Vec<String>) -> (r: Vec<RowNoteDto>)
    ensures
        r@.len() == unknown@.len(),
        forall|i: int| 0 <= i < unknown@.len() ==> unknown_key_note(unknown@[i]@, #[trigger] r@[i]),
{
    let mut r: Vec<RowNoteDto> = Vec::new();
    let mut i: usize = 0;
    while i < unknown.len()
        invariant
            i <= unknown.len(),
            r@.len() == i,
            forall|j: int| 0 <= j < i ==> unknown_key_note(unknown@[j]@, #[trigger] r@[j]),
        decreases unknown.len() - i,
    {
        let mut m = "exclude key ".to_owned();
        let q = debug_string(unknown[i].as_str());
        append_str(&mut m, q.as_str());
        append_str(&mut m, " matched no asset");
        r.push(RowNoteDto { row: None, code: "unknown_exclude_key", message: m });
        i = i + 1;
    }
    r
}

/// The warnings of a refresh commit: the unknown exclude keys, then the
/// plan's `missing_fx` notes.
pub fn refresh_warnings(unknown: &Vec<String>, plan: &ImportPlan) -> (r: Vec<RowNoteDto>)
    ensures
        r@.len() >= unknown@.len(),
        forall|i: int| 0 <= i < unknown@.len() ==> unknown_key_note(unknown@[i]@, #[trigger] r@[i]),
        r@.subrange(unknown@.len() as int, r@.len() as int) == note_dtos(
            plan.warnings@.filter(|n: RowNote| n.code@ == "missing_fx"@),
        ),
{
    let mut r = unknown_key_warnings(unknown);
    let ghost base = r@;
    let ghost missing_fx = |n: RowNote| n.code@ == "missing_fx"@;
    let mut i: usize = 0;
    assert(r@.subrange(unknown@.len() as int, r@.len() as int) =~= note_dtos(
        plan.warnings@.subrange(0, 0).filter(missing_fx),
    )) by {
        reveal(Seq::filter);
    }
    while i < plan.warnings.len()
        invariant
            i <= plan.warnings.len(),
            r@.len() >= unknown@.len(),
            r@.subrange(0, unknown@.len() as int) == base,
            base.len() == unknown@.len(),
            forall|j: int| 0 <= j < unknown@.len() ==> unknown_key_note(unknown@[j]@, #[trigger] base[j]),
            missing_fx == (|n: RowNote| n.code@ == "missing_fx"@),
            r@.subrange(unknown@.len() as int, r@.len() as int) == note_dtos(
                plan.warnings@.subrange(0, i as int).filter(missing_fx),
            ),
        decreases plan.warnings.len() - i,
    {
        let ghost old_r = r@;
        let n = &plan.warnings[i];
        proof {
            reveal(Seq::filter);
            assert(plan.warnings@.subrange(0, i + 1).drop_last() =~= plan.warnings@.subrange(
                0,
                i as int,
            ));
        }
        if str_eq(n.code, "missing_fx") {
            r.push(row_note_dto(n));
            assert(r@.subrange(unknown@.len() as int, r@.len() as int) =~= old_r.subrange(
                unknown@.len() as int,
                old_r.len() as int,
            ).push(note_dto(*n)));
        }
        assert(r@.subrange(0, unknown@.len() as int) =~= base);
        i = i + 1;
    }
    assert(plan.warnings@.subrange(0, i as int) =~= plan.warnings@);
    assert forall|j: int| 0 <= j < unknown@.len() implies unknown_key_note(unknown@[j]@, #[trigger] r@[j]) by {
        assert(r@[j] == r@.subrange(0, unknown@.len() as int)[j]);
    }
    r
}


/// The asset keys of the closing positions.
pub open spec fn closing_keys(closing: Seq<ClosingConvictedPosition>) -> Set<Seq<char>> {
    Set::new(
        |k: Seq<char>|
            exists|i: int| 0 <= i < closing.len() && (#[trigger] closing[i]).asset_key@ == k,
    )
}

/// The keys of `raw` that name a closing position.
pub open spec fn chosen_keys(raw: Option<String>, closing: Seq<ClosingConvictedPosition>) -> Set<
    Seq<char>,
> {
    listed_keys(raw_text(raw)).intersect(closing_keys(closing))
}

pub open spec fn closing_detail(p: ClosingConvictedPosition) -> ClosingPositionDetail {
    ClosingPositionDetail { instrument_id: p.instrument_id, asset_key: p.asset_key, symbol: p.symbol }
}

/// The closing positions that no choice covers, as error details, in order.
pub open spec fn uncovered_details(
    closing: Seq<ClosingConvictedPosition>,
    covered: Set<Seq<char>>,
) -> Seq<ClosingPositionDetail> {
    closing.filter(|p: ClosingConvictedPosition| !covered.contains(p.asset_key@)).map_values(
        |p: ClosingConvictedPosition| closing_detail(p),
    )
}

/// The instruments of the closing positions whose key is in `keys`.
pub open spec fn instruments_keyed(closing: Seq<ClosingConvictedPosition>, keys: Set<Seq<char>>) -> Set<
    i64,
> {
    Set::new(
        |id: i64|
            exists|i: int|
                0 <= i < closing.len() && (#[trigger] closing[i]).instrument_id == id && keys.contains(
                    closing[i].asset_key@,
                ),
    )
}

fn keys_of_positions(closing: &Vec<ClosingConvictedPosition>) -> (r: Vec<String>)
    ensures
        key_set(r@) == closing_keys(closing@),
{
    let mut r: Vec<String> = Vec::new();
    let mut i: usize = 0;
    while i < closing.len()
        invariant
            i <= closing.len(),
            r@.len() == i,
            forall|j: int| 0 <= j < i ==> (#[trigger] r@[j])@ == closing@[j].asset_key@,
        decreases closing.len() - i,
    {
        r.push(closing[i].asset_key.clone());
        i = i + 1;
    }
    assert forall|k: Seq<char>| key_set(r@).contains(k) <==> closing_keys(closing@).contains(k) by {
        if views(r@).contains(k) {
            let j = choose|j: int| 0 <= j < views(r@).len() && views(r@)[j] == k;
            assert(closing@[j].asset_key@ == k);
        }
        if closing_keys(closing@).contains(k) {
            let j = choose|j: int| 0 <= j < closing@.len() && (#[trigger] closing@[j]).asset_key@ == k;
            assert(views(r@)[j] == k);
        }
    }
    assert(key_set(r@) =~= closing_keys(closing@));
    r
}

proof fn lemma_closing_keys_finite(closing: Seq<ClosingConvictedPosition>)
    ensures
        closing_keys(closing).finite(),
{
    let keys = closing.map_values(|p: ClosingConvictedPosition| p.asset_key@);
    assert forall|k: Seq<char>| closing_keys(closing).contains(k) <==> keys.to_set().contains(k) by {
        if closing_keys(closing).contains(k) {
            let i = choose|i: int| 0 <= i < closing.len() && (#[trigger] closing[i]).asset_key@ == k;
            assert(keys[i] == k);
        }
        if keys.contains(k) {
            let i = choose|i: int| 0 <= i < keys.len() && keys[i] == k;
            assert(closing[i].asset_key@ == k);
        }
    }
    assert(closing_keys(closing) =~= keys.to_set());
    vstd::seq_lib::seq_to_set_is_finite(keys);
}

/// A commit's keep and clear choices are accepted exactly when every asset
/// key the import closes is chosen once: kept or cleared, never both.
/// Choices for keys that close nothing do not matter.
pub proof fn lemma_choices_accepted_iff_each_key_chosen_once(
    closing: Seq<ClosingConvictedPosition>,
    conviction_keep: Option<String>,
    conviction_to_other: Option<String>,
)
    ensures
        ({
            let keep = chosen_keys(conviction_keep, closing);
            let to_other = chosen_keys(conviction_to_other, closing);
            keep.intersect(to_other).len() == 0 && uncovered_details(closing, keep.union(to_other)).len() == 0
        }) <==> (forall|i: int|
            0 <= i < closing.len() ==> listed_keys(raw_text(conviction_keep)).contains(
                (#[trigger] closing[i]).asset_key@,
            ) != listed_keys(raw_text(conviction_to_other)).contains(closing[i].asset_key@)),
{
    broadcast use vstd::seq_lib::group_filter_ensures;

    let keep = chosen_keys(conviction_keep, closing);
    let to_other = chosen_keys(conviction_to_other, closing);
    let lk = listed_keys(raw_text(conviction_keep));
    let lo = listed_keys(raw_text(conviction_to_other));
    let covered = keep.union(to_other);
    let pred = |p: ClosingConvictedPosition| !covered.contains(p.asset_key@);
    let missing = closing.filter(pred);
    lemma_closing_keys_finite(closing);
    let both = keep.intersect(to_other);
    assert(both.finite()) by {
        assert(both.subset_of(closing_keys(closing)));
        vstd::set_lib::lemma_set_subset_finite(closing_keys(closing), both);
    }
    assert(uncovered_details(closing, covered).len() == missing.len());
    assert forall|i: int| 0 <= i < closing.len() implies closing_keys(closing).contains(
        (#[trigger] closing[i]).asset_key@,
    ) by {}
    if both.len() == 0 && missing.len() == 0 {
        both.lemma_len0_is_empty();
        assert forall|i: int| 0 <= i < closing.len() implies lk.contains(
            (#[trigger] closing[i]).asset_key@,
        ) != lo.contains(closing[i].asset_key@) by {
            let k = closing[i].asset_key@;
            assert(closing_keys(closing).contains(k));
            if lk.contains(k) && lo.contains(k) {
                assert(both.contains(k));
            }
            if !lk.contains(k) && !lo.contains(k) {
                assert(pred(closing[i]));
                assert(missing.contains(closing[i]));
            }
        }
    }
    if forall|i: int|
        0 <= i < closing.len() ==> lk.contains((#[trigger] closing[i]).asset_key@) != lo.contains(
            closing[i].asset_key@,
        ) {
        assert(both =~= Set::<Seq<char>>::empty()) by {
            assert forall|k: Seq<char>| !both.contains(k) by {
                if both.contains(k) {
                    let i = choose|i: int| 0 <= i < closing.len() && (#[trigger] closing[i]).asset_key@ == k;
                    assert(lk.contains(closing[i].asset_key@) != lo.contains(closing[i].asset_key@));
                }
            }
        }
        if missing.len() > 0 {
            let p = missing[0];
            assert(pred(p));
            assert(missing.contains(p));
            closing.lemma_filter_contains_rev(pred, p);
            let i = choose|i: int| 0 <= i < closing.len() && closing[i] == p;
            assert(lk.contains(closing[i].asset_key@) != lo.contains(closing[i].asset_key@));
            assert(closing_keys(closing).contains(p.asset_key@));
        }
    }
}

/// Checks the keep and clear choices against the positions the import
/// closes, and gives the instruments whose conviction is cleared to `Other`.
/// Every closing asset key needs exactly one choice; keys that close no
/// position are ignored.
pub fn resolve_conviction_choices(
    closing: &Vec<ClosingConvictedPosition>,
    params: &CommitParams,
) -> (r: Result<BTreeSet<i64>, ApiError>)
    ensures
        closing@.len() == 0 ==> (r matches Ok(ids) && ids@ == Set::<i64>::empty()),
        closing@.len() > 0 ==> {
            let keep = chosen_keys(params.conviction_keep, closing@);
            let to_other = chosen_keys(params.conviction_to_other, closing@);
            let both = keep.intersect(to_other);
            let uncovered = uncovered_details(closing@, keep.union(to_other));
            &&& both.len() > 0 ==> (r matches Err(e) && e.status == STATUS_UNPROCESSABLE_ENTITY
                && e.code@ == "conviction_choice_conflict"@ && e.message@
                == "an asset key was marked both keep and change-to-other"@ && (
            e.details matches Some(ErrorDetails::AssetKeys(v)) && strictly_sorted(views(v@))
                && key_set(v@) == both))
            &&& both.len() == 0 && uncovered.len() > 0 ==> (r matches Err(e) && e.status
                == STATUS_UNPROCESSABLE_ENTITY && e.code@ == "conviction_choice_required"@
                && e.message@
                == "closing convicted positions require a keep or change-to-other choice"@ && (
            e.details matches Some(ErrorDetails::ClosingPositions(v)) && v@ == uncovered))
            &&& both.len() == 0 && uncovered.len() == 0 ==> (r matches Ok(ids) && ids@
                == instruments_keyed(closing@, to_other))
        },
{
    if closing.len() == 0 {
        return Ok(BTreeSet::new());
    }
    let required = keys_of_positions(closing);
    let keep_all = parse_asset_key_set(&params.conviction_keep);
    let keep = keys_filtered(&keep_all, &required, true);
    let other_all = parse_asset_key_set(&params.conviction_to_other);
    let to_other = keys_filtered(&other_all, &required, true);
    let ghost keep_s = chosen_keys(params.conviction_keep, closing@);
    let ghost other_s = chosen_keys(params.conviction_to_other, closing@);
    assert(key_set(keep@) =~= keep_s);
    assert(key_set(to_other@) =~= other_s);
    let conflicting = keys_filtered(&keep, &to_other, true);
    assert(key_set(conflicting@) =~= keep_s.intersect(other_s));
    if conflicting.len() > 0 {
        proof {
            let x = views(conflicting@)[0];
            assert(views(conflicting@).contains(x));
            vstd::seq_lib::seq_to_set_is_finite(views(conflicting@));
            if key_set(conflicting@).len() == 0 {
                key_set(conflicting@).lemma_len0_is_empty();
                assert(!key_set(conflicting@).contains(x));
            }
        }
        return Err(
            ApiError::new(
                STATUS_UNPROCESSABLE_ENTITY,
                "conviction_choice_conflict",
                "an asset key was marked both keep and change-to-other".to_owned(),
            ).with_details(ErrorDetails::AssetKeys(conflicting)),
        );
    }
    assert(keep_s.intersect(other_s) =~= Set::<Seq<char>>::empty());
    let ghost covered = keep_s.union(other_s);
    let ghost uncovered_pred = |p: ClosingConvictedPosition| !covered.contains(p.asset_key@);
    let mut missing: Vec<ClosingPositionDetail> = Vec::new();
    let mut ids: BTreeSet<i64> = BTreeSet::new();
    let mut i: usize = 0;
    assert(ids@ =~= instruments_keyed(closing@.subrange(0, 0), other_s));
    proof {
        reveal(Seq::filter);
    }
    while i < closing.len()
        invariant
            i <= closing.len(),
            key_set(keep@) == keep_s,
            key_set(to_other@) == other_s,
            covered == keep_s.union(other_s),
            uncovered_pred == (|p: ClosingConvictedPosition| !covered.contains(p.asset_key@)),
            missing@ == closing@.subrange(0, i as int).filter(uncovered_pred).map_values(
                |p: ClosingConvictedPosition| closing_detail(p),
            ),
            ids@ == instruments_keyed(closing@.subrange(0, i as int), other_s),
        decreases closing.len() - i,
    {
        let p = &closing[i];
        let in_keep = contains_key(&keep, p.asset_key.as_str());
        let in_other = contains_key(&to_other, p.asset_key.as_str());
        let ghost pre = closing@.subrange(0, i as int);
        let ghost next = closing@.subrange(0, i + 1);
        let ghost old_ids = ids@;
        proof {
            reveal(Seq::filter);
            assert(next.drop_last() =~= pre);
        }
        if !in_keep && !in_other {
            missing.push(
                ClosingPositionDetail {
                    instrument_id: p.instrument_id,
                    asset_key: p.asset_key.clone(),
                    symbol: p.symbol.clone(),
                },
            );
        }
        assert(missing@ =~= next.filter(uncovered_pred).map_values(
            |p: ClosingConvictedPosition| closing_detail(p),
        ));
        if in_other {
            ids.insert(p.instrument_id);
        }
        proof {
            assert(ids@ =~= instruments_keyed(next, other_s)) by {
                assert forall|id: i64| instruments_keyed(next, other_s).contains(id) implies ids@.contains(id) by {
                    let j = choose|j: int|
                        0 <= j < next.len() && (#[trigger] next[j]).instrument_id == id && other_s.contains(
                            next[j].asset_key@,
                        );
                    if j < i {
                        assert(pre[j] == next[j]);
                        assert(old_ids.contains(id));
                    }
                }
                assert forall|id: i64| old_ids.contains(id) implies instruments_keyed(next, other_s).contains(id) by {
                    let j = choose|j: int|
                        0 <= j < pre.len() && (#[trigger] pre[j]).instrument_id == id && other_s.contains(
                            pre[j].asset_key@,
                        );
                    assert(next[j] == pre[j]);
                }
                if in_other {
                    assert(next[i as int] == *p);
                }
            }
        }
        i = i + 1;
    }
    assert(closing@.subrange(0, i as int) =~= closing@);
    if missing.len() > 0 {
        return Err(
            ApiError::new(
                STATUS_UNPROCESSABLE_ENTITY,
                "conviction_choice_required",
                "closing convicted positions require a keep or change-to-other choice".to_owned(),
            ).with_details(ErrorDetails::ClosingPositions(missing)),
        );
    }
    Ok(ids)
}


/// A stored import batch.
#[derive(Clone, Debug)]
pub struct ImportBatchRow {
    pub id: i64,
    pub source: String,
    pub imported_at: String,
    pub raw_file_hash: Option<String>,
}

/// The answer to a rollback once its rows were removed: a batch whose own
/// record was already gone is not found.
pub fn rollback_result(batch_id: i64, removed: u64, deleted_batches: u64) -> (r: Result<
    RollbackResult,
    ApiError,
>)
    ensures
        deleted_batches == 0 ==> (r matches Err(e) && e.status == STATUS_NOT_FOUND && e.message@
            == "import batch "@ + int_text(batch_id as int) + " not found"@),
        deleted_batches != 0 ==> (r matches Ok(res) && res.batch_id == batch_id && res.removed
            == removed),
{
    proof {
        reveal_strlit("import batch");
        reveal_strlit(" ");
        reveal_strlit("import batch ");
        assert("import batch"@ + " "@ =~= "import batch "@);
    }
    if deleted_batches == 0 {
        return Err(ApiError::not_found("import batch", batch_id));
    }
    Ok(RollbackResult { batch_id, removed })
}

/// The batch a rollback names; an unknown one is not found.
pub fn rollback_target(batch_id: i64, found: Option<ImportBatchRow>) -> (r: Result<
    ImportBatchRow,
    ApiError,
>)
    ensures
        match found {
            Some(b) => r matches Ok(x) && x == b,
            None => (r matches Err(e) && e.status == STATUS_NOT_FOUND && e.message@
                == "import batch "@ + int_text(batch_id as int) + " not found"@),
        },
{
    proof {
        reveal_strlit("import batch");
        reveal_strlit(" ");
        reveal_strlit("import batch ");
        assert("import batch"@ + " "@ =~= "import batch "@);
    }
    match found {
        Some(b) => Ok(b),
        None => Err(ApiError::not_found("import batch", batch_id)),
    }
}
} // verus!
