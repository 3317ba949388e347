use vstd::prelude::*;
use vstd::string::*;
use crate::database::Database;
use crate::engine::query_sql;
use crate::errors::StoreError;
use crate::sql_value::{SqlValModel, SqlValue, row_model};

verus! {

/// One hit of the existing-log search: a known call sign and locator, how
/// often the pair was logged, and whether the current grouping event
/// already holds a contact with that call.
pub struct CallSearchHit {
    pub call: String,
    pub locator: String,
    pub count: i64,
    pub has_duplicates: bool,
}

/// True of the rows the search accepts: call text, locator text, and an
/// occurrence count.
pub open spec fn spec_hit_row_ok(row: Seq<SqlValModel>) -> bool {
    &&& row.len() == 3
    &&& row[0] is Text
    &&& row[1] is Text
    &&& row[2] is Int
}

/// True when the hit's call, locator and count come from the row `row`.
/// The duplicate flag is not the row's: it comes from a separate lookup
/// against the current grouping event.
pub open spec fn hit_denotes(row: Seq<SqlValModel>, h: CallSearchHit) -> bool {
    &&& row.len() == 3
    &&& row[0] matches SqlValModel::Text(c) && h.call.view() == c
    &&& row[1] matches SqlValModel::Text(l) && h.locator.view() == l
    &&& row[2] matches SqlValModel::Int(n) && h.count == n
}

/// True of a hit whose call, locator and count are the denotation of some
/// well-shaped row: what the search promises of each hit it hands back.
pub open spec fn hit_from_some_row(h: CallSearchHit) -> bool {
    exists|row: Seq<SqlValModel>| spec_hit_row_ok(row) && #[trigger] hit_denotes(row, h)
}

/// Turns the rows of the search's result set into hits, in order, with the
/// duplicate flag still unset. It succeeds exactly when every row has the
/// search's three-column shape, and then the hit at each position denotes
/// the row at the same position.
pub fn parse_hit_rows(rows: &Vec<Vec<SqlValue>>) -> (r: Result<Vec<CallSearchHit>, StoreError>)
    ensures
        (r is Ok) <==> forall|i: int|
            0 <= i < rows.view().len() ==> spec_hit_row_ok(row_model(
                #[trigger] rows.view()[i].view(),
            )),
        match r {
            Ok(hits) => {
                &&& hits.view().len() == rows.view().len()
                &&& forall|i: int|
                    0 <= i < rows.view().len() ==> hit_denotes(
                        row_model(rows.view()[i].view()),
                        #[trigger] hits.view()[i],
                    ) && !hits.view()[i].has_duplicates
            },
            Err(e) => e is MalformedRow,
        },
{
    let mut hits: Vec<CallSearchHit> = Vec::new();
    let mut i: usize = 0;
    while i < rows.len()
        invariant
            0 <= i <= rows.view().len(),
            hits.view().len() == i,
            forall|j: int|
                0 <= j < i ==> spec_hit_row_ok(row_model(#[trigger] rows.view()[j].view())),
            forall|j: int|
                0 <= j < i ==> hit_denotes(
                    row_model(rows.view()[j].view()),
                    #[trigger] hits.view()[j],
                ) && !hits.view()[j].has_duplicates,
        decreases rows.view().len() - i,
    {
        let row = &rows[i];
        if row.len() != 3 {
            return Err(StoreError::MalformedRow);
        }
        let call: String = match &row[0] {
            SqlValue::Text(s) => s.clone(),
            _ => {
                return Err(StoreError::MalformedRow);
            },
        };
        let locator: String = match &row[1] {
            SqlValue::Text(s) => s.clone(),
            _ => {
                return Err(StoreError::MalformedRow);
            },
        };
        let count: i64 = match &row[2] {
            SqlValue::Int(n) => *n,
            _ => {
                return Err(StoreError::MalformedRow);
            },
        };
        hits.push(CallSearchHit { call, locator, count, has_duplicates: false });
        i += 1;
    }
    Ok(hits)
}

/// Wraps a search term in the engine's contains-pattern.
fn like_pattern(term: &str) -> (r: String)
    ensures
        r.view() == seq!['%'] + term.view() + seq!['%'],
{
    let mut pattern = "%".to_owned();
    pattern.append(term);
    pattern.append("%");
    proof {
        reveal_strlit("%");
        assert(pattern.view() =~= seq!['%'] + term.view() + seq!['%']);
    }
    pattern
}

/// Looks up the already-logged call/locator pairs matching either search
/// term, counting how often each pair occurs and whether the current
/// grouping event already worked that call. Terms under two bytes on both
/// sides ask for nothing and yield the empty list without touching the
/// store; otherwise every hit handed back carries the call, locator and
/// count of some well-shaped result row, in result order.
pub fn search_existing_logs(
    db: &mut Database,
    call_term: &str,
    locator_term: &str,
    current_race_id: Option<i64>,
) -> (r: Result<Vec<CallSearchHit>, StoreError>)
    ensures
        call_term.spec_bytes().len() < 2 && locator_term.spec_bytes().len() < 2 ==> (r matches Ok(
            v,
        ) && v.view().len() == 0),
        r matches Ok(hits) ==> forall|i: int|
            0 <= i < hits.view().len() ==> hit_from_some_row(#[trigger] hits.view()[i]),
{
    if call_term.len() < 2 && locator_term.len() < 2 {
        return Ok(Vec::new());
    }

    let cur_race_id: i64 = match current_race_id {
        Some(id) => id,
        None => 0,
    };

    let rows = if call_term.len() > 0 && locator_term.len() > 0 {
        let params = vec![
            SqlValue::Text(like_pattern(call_term)),
            SqlValue::Text(like_pattern(locator_term)),
        ];
        query_sql(
            db.connection(),
            "SELECT call, locator, COUNT(locator) FROM LogEntry WHERE like(?1, call) > 0 OR like(?2, locator) > 0 GROUP BY lower(call), lower(locator) ORDER BY call, locator",
            &params,
        )
    } else if call_term.len() > 0 {
        let params = vec![SqlValue::Text(like_pattern(call_term))];
        query_sql(
            db.connection(),
            "SELECT call, locator, COUNT(locator) FROM LogEntry WHERE like(?1, call) > 0 GROUP BY lower(call), lower(locator) ORDER BY call, locator",
            &params,
        )
    } else {
        let params = vec![SqlValue::Text(like_pattern(locator_term))];
        query_sql(
            db.connection(),
            "SELECT call, locator, COUNT(locator) FROM LogEntry WHERE like(?1, locator) > 0 GROUP BY lower(call), lower(locator) ORDER BY call, locator",
            &params,
        )
    };
    let rows = match rows {
        Ok(rows) => rows,
        Err(e) => {
            return Err(StoreError::Engine(e));
        },
    };

    let mut hits = match parse_hit_rows(&rows) {
        Ok(hits) => hits,
        Err(e) => {
            return Err(e);
        },
    };

    // Flag the hits whose call the current grouping event already worked.
    let total = hits.len();
    let mut i: usize = 0;
    while i < total
        invariant
            0 <= i <= total,
            total == hits.view().len(),
            call_term.spec_bytes().len() >= 2 || locator_term.spec_bytes().len() >= 2,
            forall|j: int| 0 <= j < total ==> hit_from_some_row(#[trigger] hits.view()[j]),
        decreases total - i,
    {
        let dupl_params = vec![
            SqlValue::Int(cur_race_id),
            SqlValue::Text(hits[i].call.clone()),
        ];
        let has_duplicates = match query_sql(
            db.connection(),
            "SELECT id FROM LogEntry WHERE race_id=?1 AND call=?2",
            &dupl_params,
        ) {
            Ok(dupl_rows) => dupl_rows.len() > 0,
            Err(e) => {
                return Err(StoreError::Engine(e));
            },
        };
        let ghost before = hits.view();
        hits[i].has_duplicates = has_duplicates;
        proof {
            assert forall|j: int| 0 <= j < total implies hit_from_some_row(
                #[trigger] hits.view()[j],
            ) by {
                if j == i {
                    let row = choose|row: Seq<SqlValModel>|
                        spec_hit_row_ok(row) && #[trigger] hit_denotes(row, before[j]);
                    assert(hit_denotes(row, hits.view()[j]));
                } else {
                    assert(hits.view()[j] == before[j]);
                }
            }
        }
        i += 1;
    }
    Ok(hits)
}

} // verus!
