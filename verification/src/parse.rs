use vstd::prelude::*;
use crate::cells::SourceCell;
use crate::errors::ParseError;
use crate::json::{decode_json, json_of, obj_get, obj_lookup, to_tree, Json};

verus! {

/// Whether the body begins with the exact anti-hijacking sentinel `)]}'\n`
/// that the remote service prepends to every response.
pub open spec fn has_sentinel(body: Seq<u8>) -> bool {
    &&& body.len() >= 5
    &&& body[0] == 41u8
    &&& body[1] == 93u8
    &&& body[2] == 125u8
    &&& body[3] == 39u8
    &&& body[4] == 10u8
}

/// The row array of a decoded response: the value under `table`, then under
/// `rows`, which must be an array. Anything else on that path means the
/// response carries no rows.
pub open spec fn table_rows(j: Json) -> Option<Seq<Json>> {
    match j {
        Json::Obj(pairs) => match obj_lookup(pairs@, "table"@) {
            Some(Json::Obj(tpairs)) => match obj_lookup(tpairs@, "rows"@) {
                Some(Json::Arr(rows)) => Some(rows@),
                _ => None,
            },
            _ => None,
        },
        _ => None,
    }
}

/// The source cell one decoded cell node stands for: the value under `v` when
/// it is a number or a string; a missing `v`, a null `v`, a non-object cell
/// entry, and any other value shape all read as nothing there.
pub open spec fn cell_of_json(j: Json) -> SourceCell {
    match j {
        Json::Obj(pairs) => match obj_lookup(pairs@, "v"@) {
            Some(Json::Num(n)) => SourceCell::Num(n),
            Some(Json::Str(s)) => SourceCell::Str(s),
            _ => SourceCell::Null,
        },
        _ => SourceCell::Null,
    }
}

/// The cells one decoded row node carries: its `c` array, cell by cell; a row
/// that is no object, or without an array under `c`, carries no cells.
pub open spec fn cells_of_row(j: Json) -> Seq<SourceCell> {
    match j {
        Json::Obj(pairs) => match obj_lookup(pairs@, "c"@) {
            Some(Json::Arr(cs)) => cs@.map_values(|c: Json| cell_of_json(c)),
            _ => Seq::empty(),
        },
        _ => Seq::empty(),
    }
}

/// A fetched row set, cell sequence by cell sequence.
pub open spec fn rows_view(rows: Seq<Vec<SourceCell>>) -> Seq<Seq<SourceCell>> {
    rows.map_values(|r: Vec<SourceCell>| r@)
}

/// What parsing a raw body yields: the sentinel must open the body exactly,
/// whatever follows it; the remainder must decode as one JSON document; the
/// document must carry the row array at its fixed path; and each row then
/// reads as `cells_of_row` says.
pub open spec fn spec_parse(body: Seq<u8>) -> Result<Seq<Seq<SourceCell>>, ParseError> {
    if !has_sentinel(body) {
        Err(ParseError::UnexpectedFormat)
    } else {
        match json_of(body.skip(5)) {
            None => Err(ParseError::InvalidJson),
            Some(j) => match table_rows(j) {
                None => Err(ParseError::MissingRows),
                Some(rows) => Ok(rows.map_values(|r: Json| cells_of_row(r))),
            },
        }
    }
}

/// Finds the row array of a decoded response, as `table_rows` says.
pub fn table_rows_of(j: &Json) -> (r: Option<&Vec<Json>>)
    ensures
        match r {
            Some(rows) => table_rows(*j) == Some(rows@),
            None => table_rows(*j) is None,
        },
{
    match j {
        Json::Obj(pairs) => match obj_get(pairs, "table") {
            Some(Json::Obj(tpairs)) => match obj_get(tpairs, "rows") {
                Some(Json::Arr(rows)) => Some(rows),
                _ => None,
            },
            _ => None,
        },
        _ => None,
    }
}

/// Reads one decoded cell node, as `cell_of_json` says.
pub fn cell_of(j: &Json) -> (r: SourceCell)
    ensures
        r == cell_of_json(*j),
{
    match j {
        Json::Obj(pairs) => match obj_get(pairs, "v") {
            Some(Json::Num(n)) => SourceCell::Num(*n),
            Some(Json::Str(s)) => SourceCell::Str(s.clone()),
            _ => SourceCell::Null,
        },
        _ => SourceCell::Null,
    }
}

/// Reads one decoded row node's cells, as `cells_of_row` says.
pub fn row_cells(row: &Json) -> (r: Vec<SourceCell>)
    ensures
        r@ == cells_of_row(*row),
{
    match row {
        Json::Obj(pairs) => match obj_get(pairs, "c") {
            Some(Json::Arr(cs)) => {
                let mut out: Vec<SourceCell> = Vec::new();
                let n = cs.len();
                let mut i: usize = 0;
                while i < n
                    invariant
                        i <= n,
                        n == cs@.len(),
                        out@.len() == i,
                        forall|k: int| 0 <= k < i ==> out@[k] == cell_of_json(cs@[k]),
                    decreases n - i,
                {
                    out.push(cell_of(&cs[i]));
                    i = i + 1;
                }
                proof {
                    assert(out@ =~= cs@.map_values(|c: Json| cell_of_json(c)));
                }
                out
            },
            _ => Vec::new(),
        },
        _ => Vec::new(),
    }
}

/// Strips the sentinel and decodes the rest of the raw response body into the
/// source row set.
pub fn parse_response(body: &[u8]) -> (r: Result<Vec<Vec<SourceCell>>, ParseError>)
    ensures
        match (r, spec_parse(body@)) {
            (Ok(rows), Ok(m)) => rows_view(rows@) == m,
            (Err(e1), Err(e2)) => e1 == e2,
            _ => false,
        },
{
    let ok = body.len() >= 5 && body[0] == 41u8 && body[1] == 93u8 && body[2] == 125u8 && body[3]
        == 39u8 && body[4] == 10u8;
    if !ok {
        return Err(ParseError::UnexpectedFormat);
    }
    let (_, rest) = body.split_at(5);
    proof {
        assert(rest@ =~= body@.skip(5));
    }
    let v = match decode_json(rest) {
        Some(v) => v,
        None => {
            return Err(ParseError::InvalidJson);
        },
    };
    let tree = to_tree(&v);
    let rows = match table_rows_of(&tree) {
        Some(rows) => rows,
        None => {
            return Err(ParseError::MissingRows);
        },
    };
    let mut out: Vec<Vec<SourceCell>> = Vec::new();
    let n = rows.len();
    let mut i: usize = 0;
    while i < n
        invariant
            i <= n,
            n == rows@.len(),
            out@.len() == i,
            forall|k: int| 0 <= k < i ==> (#[trigger] out@[k])@ == cells_of_row(rows@[k]),
        decreases n - i,
    {
        out.push(row_cells(&rows[i]));
        i = i + 1;
    }
    proof {
        assert(rows_view(out@) =~= rows@.map_values(|r: Json| cells_of_row(r)));
    }
    Ok(out)
}

} // verus!
