use vstd::prelude::*;
use crate::cells::{Cell, SourceCell, TargetColumn, TargetRow, TypeOid};
use crate::errors::{FdwError, TypeError, UnsupportedOperation};
use crate::laws::{end_state, load_state, outcome_of, scan_step, ScanState};
use crate::options::{opt_lookup, Options};
use crate::parse::{parse_response, rows_view, spec_parse};
use crate::request::spec_url;
use crate::request::build_url;

verus! {

/// The default base path of the live service, used when no `base_url` server
/// option is given.
pub fn default_base_url() -> (r: &'static str)
    ensures
        r@ == "https://docs.google.com/spreadsheets/d"@,
{
    "https://docs.google.com/spreadsheets/d"
}

/// Every target column carries a 1-based ordinal position.
pub open spec fn cols_valid(cols: Seq<TargetColumn>) -> bool {
    forall|i: int| 0 <= i < cols.len() ==> (#[trigger] cols[i]).num >= 1
}

/// How one source row serves one target column. A declared type the connector
/// cannot produce at all is a hard error first, whatever the cell holds: that
/// limit is static, not a per-row condition. Then the cell at the column's
/// 1-based ordinal (source positions are 0-based) maps by the declared type:
/// an out-of-range position and a null cell both yield an absent value, and a
/// present value of the wrong shape is a hard error carrying the column's
/// ordinal.
pub open spec fn map_cell(row: Seq<SourceCell>, col: TargetColumn) -> Result<Option<Cell>, FdwError> {
    if !(col.ty is I64 || col.ty is Text) {
        Err(FdwError::Type(TypeError::UnsupportedColumnType(col.num)))
    } else {
        let pos = col.num as int - 1;
        if pos < 0 || pos >= row.len() || row[pos] is Null {
            Ok(None)
        } else {
            match (row[pos], col.ty) {
                (SourceCell::Num(n), TypeOid::I64) => Ok(Some(Cell::I64(n))),
                (SourceCell::Str(s), TypeOid::Text) => Ok(Some(Cell::Str(s))),
                (_, _) => Err(FdwError::Type(TypeError::UnsupportedConversion(col.num))),
            }
        }
    }
}

/// How one source row serves the target columns from position `i` on: one slot
/// per column, in ordinal order; the first failing column aborts.
pub open spec fn map_row_from(row: Seq<SourceCell>, cols: Seq<TargetColumn>, i: int) -> Result<
    Seq<Option<Cell>>,
    FdwError,
>
    decreases cols.len() - i,
{
    if i < 0 || i >= cols.len() {
        Ok(Seq::empty())
    } else {
        match map_cell(row, cols[i]) {
            Err(e) => Err(e),
            Ok(c) => match map_row_from(row, cols, i + 1) {
                Err(e) => Err(e),
                Ok(rest) => Ok(seq![c] + rest),
            },
        }
    }
}

/// How one source row serves the whole target column list.
pub open spec fn map_row(row: Seq<SourceCell>, cols: Seq<TargetColumn>) -> Result<
    Seq<Option<Cell>>,
    FdwError,
> {
    map_row_from(row, cols, 0)
}

/// Maps one source cell onto one target column, as `map_cell` says.
pub fn coerce_cell(row: &Vec<SourceCell>, col: &TargetColumn) -> (r: Result<Option<Cell>, FdwError>)
    requires
        col.num >= 1,
    ensures
        r == map_cell(row@, *col),
{
    match col.ty {
        TypeOid::I64 | TypeOid::Text => {},
        _ => {
            return Err(FdwError::Type(TypeError::UnsupportedColumnType(col.num)));
        },
    }
    let pos = col.num - 1;
    if pos >= row.len() {
        return Ok(None);
    }
    match (&row[pos], col.ty) {
        (SourceCell::Null, _) => Ok(None),
        (SourceCell::Num(n), TypeOid::I64) => Ok(Some(Cell::I64(*n))),
        (SourceCell::Str(s), TypeOid::Text) => Ok(Some(Cell::Str(s.clone()))),
        (_, _) => Err(FdwError::Type(TypeError::UnsupportedConversion(col.num))),
    }
}

/// Maps one source row onto the target columns, as `map_row` says.
pub fn map_source_row(row: &Vec<SourceCell>, cols: &Vec<TargetColumn>) -> (r: Result<
    TargetRow,
    FdwError,
>)
    requires
        cols_valid(cols@),
    ensures
        match (r, map_row(row@, cols@)) {
            (Ok(tr), Ok(m)) => tr@ == m,
            (Err(e1), Err(e2)) => e1 == e2,
            _ => false,
        },
{
    let mut out: Vec<Option<Cell>> = Vec::new();
    let n = cols.len();
    let mut i: usize = 0;
    while i < n
        invariant
            i <= n,
            n == cols@.len(),
            cols_valid(cols@),
            out@.len() == i,
            match map_row_from(row@, cols@, i as int) {
                Ok(rest) => map_row(row@, cols@) == Ok::<Seq<Option<Cell>>, FdwError>(out@ + rest),
                Err(e) => map_row(row@, cols@) == Err::<Seq<Option<Cell>>, FdwError>(e),
            },
        decreases n - i,
    {
        match coerce_cell(row, &cols[i]) {
            Err(e) => {
                return Err(e);
            },
            Ok(c) => {
                proof {
                    let rest = map_row_from(row@, cols@, i as int + 1);
                    if rest is Ok {
                        assert(out@ + (seq![c] + rest->Ok_0) =~= out@.push(c) + rest->Ok_0);
                    }
                }
                out.push(c);
            },
        }
        i = i + 1;
    }
    proof {
        assert(out@ + Seq::<Option<Cell>>::empty() =~= out@);
    }
    Ok(TargetRow { cells: out })
}

/// The connector instance: the base URL set at `init`, the row set fetched by
/// the current scan, and the cursor position over it.
pub struct Connector {
    pub base_url: String,
    pub src_rows: Vec<Vec<SourceCell>>,
    pub src_idx: usize,
}

impl Connector {
    /// The fetched rows, cell sequence by cell sequence.
    pub open spec fn rows_view(&self) -> Seq<Seq<SourceCell>> {
        rows_view(self.src_rows@)
    }

    /// The scan-relevant part of the instance, as the laws speak of it.
    pub open spec fn scan_state(&self) -> ScanState {
        ScanState { rows: self.rows_view(), idx: self.src_idx as int }
    }
}

/// What `begin_scan` needs from outside the library: the composed request URL
/// and the raw service-account key material to exchange for a bearer token.
pub struct ScanRequest {
    pub url: String,
    pub sa_key: String,
}

impl Connector {
    /// A fresh instance: no base URL, no rows, cursor at the start.
    pub fn new() -> (r: Connector)
        ensures
            r.base_url@ == Seq::<char>::empty(),
            r.src_rows@ == Seq::<Vec<SourceCell>>::empty(),
            r.src_idx == 0,
    {
        Connector { base_url: String::new(), src_rows: Vec::new(), src_idx: 0 }
    }

    /// Establishes the instance: takes the base URL from the server options,
    /// with the live service's base path as the default, and leaves no rows
    /// behind.
    pub fn init(&mut self, server_opts: &Options)
        ensures
            final(self).base_url@ == match opt_lookup(server_opts.pairs@, "base_url"@) {
                Some(v) => v,
                None => "https://docs.google.com/spreadsheets/d"@,
            },
            final(self).src_rows@ == Seq::<Vec<SourceCell>>::empty(),
            final(self).src_idx == 0,
    {
        self.base_url = server_opts.require_or("base_url", default_base_url());
        self.src_rows = Vec::new();
        self.src_idx = 0;
    }

    /// Reads the per-table options and composes the request: the raw key
    /// material under `sa_key` and the sheet set under `spread_sheet_id` are
    /// required, in that order of checking; a sub-sheet under `sheet_id` is
    /// optional and, when present, joins the URL as its `gid` query parameter.
    pub fn begin_scan_request(&self, table_opts: &Options) -> (r: Result<ScanRequest, FdwError>)
        ensures
            match (
                opt_lookup(table_opts.pairs@, "sa_key"@),
                opt_lookup(table_opts.pairs@, "spread_sheet_id"@),
            ) {
                (None, _) => r matches Err(FdwError::MissingOption(k)) && k@ == "sa_key"@,
                (Some(_), None) => r matches Err(FdwError::MissingOption(k)) && k@
                    == "spread_sheet_id"@,
                (Some(key), Some(sid)) => r matches Ok(req) && req.sa_key@ == key && req.url@
                    == spec_url(
                    self.base_url@,
                    sid,
                    opt_lookup(table_opts.pairs@, "sheet_id"@),
                ),
            },
    {
        let sa_key = match table_opts.require("sa_key") {
            Ok(k) => k,
            Err(e) => {
                return Err(e);
            },
        };
        let spread_sheet_id = match table_opts.require("spread_sheet_id") {
            Ok(s) => s,
            Err(e) => {
                return Err(e);
            },
        };
        let sheet_id = table_opts.get("sheet_id");
        let url = build_url(self.base_url.as_str(), spread_sheet_id.as_str(), sheet_id.as_ref());
        Ok(ScanRequest { url, sa_key })
    }

    /// Installs the rows parsed from a fetched body and rewinds the cursor to
    /// the first row; a parse failure aborts the scan and leaves the instance
    /// as it was. Returns the row count, for the operator-visible report.
    pub fn complete_scan(&mut self, body: &[u8]) -> (r: Result<usize, FdwError>)
        ensures
            match spec_parse(body@) {
                Ok(m) => r == Ok::<usize, FdwError>(m.len() as usize) && final(self).rows_view()
                    == m && final(self).src_idx == 0 && final(self).base_url == old(self).base_url,
                Err(e) => r == Err::<usize, FdwError>(FdwError::Parse(e)) && *final(self) == *old(
                    self,
                ),
            },
            final(self).scan_state() == load_state(old(self).scan_state(), body@),
    {
        match parse_response(body) {
            Ok(rows) => {
                let n = rows.len();
                self.src_rows = rows;
                self.src_idx = 0;
                Ok(n)
            },
            Err(e) => Err(FdwError::Parse(e)),
        }
    }

    /// One iteration step: at the end of the row set it reports "no more rows"
    /// and changes nothing; otherwise it materializes the current source row
    /// against the target columns, advances the cursor by one, and hands the
    /// row out. A coercion failure aborts the step and leaves the instance as
    /// it was.
    pub fn iterate(&mut self, cols: &Vec<TargetColumn>) -> (r: Result<Option<TargetRow>, FdwError>)
        requires
            cols_valid(cols@),
        ensures
            old(self).src_idx >= old(self).src_rows@.len() ==> (r matches Ok(o) && o is None
                && *final(self) == *old(self)),
            old(self).src_idx < old(self).src_rows@.len() ==> match map_row(
                old(self).rows_view()[old(self).src_idx as int],
                cols@,
            ) {
                Ok(m) => r matches Ok(o) && o matches Some(tr) && tr@ == m
                    && final(self).src_idx == old(self).src_idx + 1
                    && final(self).src_rows == old(self).src_rows
                    && final(self).base_url == old(self).base_url,
                Err(e) => r == Err::<Option<TargetRow>, FdwError>(e) && *final(self) == *old(self),
            },
            scan_step(old(self).scan_state(), cols@) == (final(self).scan_state(), outcome_of(r)),
    {
        if self.src_idx >= self.src_rows.len() {
            return Ok(None);
        }
        match map_source_row(&self.src_rows[self.src_idx], cols) {
            Ok(tr) => {
                self.src_idx = self.src_idx + 1;
                Ok(Some(tr))
            },
            Err(e) => Err(e),
        }
    }

    /// Rewinding a scan is refused in every state: the fetch model is
    /// single-shot per scan.
    pub fn re_scan(&self) -> (r: Result<(), FdwError>)
        ensures
            r == Err::<(), FdwError>(FdwError::Unsupported(UnsupportedOperation::ReScan)),
    {
        Err(FdwError::Unsupported(UnsupportedOperation::ReScan))
    }

    /// Ends the scan: releases the row set and returns the cursor to the
    /// start; the base URL persists across scans.
    pub fn end_scan(&mut self)
        ensures
            final(self).src_rows@ == Seq::<Vec<SourceCell>>::empty(),
            final(self).src_idx == 0,
            final(self).base_url == old(self).base_url,
            final(self).scan_state() == end_state(old(self).scan_state()),
    {
        self.src_rows.clear();
        self.src_idx = 0;
        proof {
            assert(rows_view(self.src_rows@) =~= Seq::<Seq<SourceCell>>::empty());
        }
    }

    /// The write path is unsupported: opening it is refused outright.
    pub fn begin_modify(&self) -> (r: Result<(), FdwError>)
        ensures
            r == Err::<(), FdwError>(FdwError::Unsupported(UnsupportedOperation::Modify)),
    {
        Err(FdwError::Unsupported(UnsupportedOperation::Modify))
    }

    /// Defined to succeed trivially for lifecycle completeness; unreachable in
    /// practice, since opening the write path already failed.
    pub fn insert(&self, _row: &TargetRow) -> (r: Result<(), FdwError>)
        ensures
            r == Ok::<(), FdwError>(()),
    {
        Ok(())
    }

    /// Defined to succeed trivially for lifecycle completeness; unreachable in
    /// practice, since opening the write path already failed.
    pub fn update(&self, _rowid: &Cell, _row: &TargetRow) -> (r: Result<(), FdwError>)
        ensures
            r == Ok::<(), FdwError>(()),
    {
        Ok(())
    }

    /// Defined to succeed trivially for lifecycle completeness; unreachable in
    /// practice, since opening the write path already failed.
    pub fn delete(&self, _rowid: &Cell) -> (r: Result<(), FdwError>)
        ensures
            r == Ok::<(), FdwError>(()),
    {
        Ok(())
    }

    /// Closing the (never opened) write path succeeds trivially.
    pub fn end_modify(&self) -> (r: Result<(), FdwError>)
        ensures
            r == Ok::<(), FdwError>(()),
    {
        Ok(())
    }
}

/// The semver requirement this connector states against the host's lifecycle
/// protocol version.
pub fn host_version_requirement() -> (r: &'static str)
    ensures
        r@ == "^0.1.0"@,
{
    "^0.1.0"
}

} // verus!
