use vstd::prelude::*;
use crate::data_store::DataStore;
use crate::db_object::{DBObjectSerializable, DBSchemaObject, DataStoreTrait, SchemaStep,
    StepModel};
use crate::engine::{exec_sql, last_insert_id};
use crate::errors::StoreError;
use crate::sql_value::{SqlValModel, SqlValue};

verus! {

/// One contact-log record: when the contact happened, the remote station's
/// call sign, its grid locator, a free-form exchange code, and an optional
/// reference to the grouping event it belongs to.
#[derive(Debug, PartialEq)]
pub struct LogEntry {
    pub id: i64,
    pub time: u32,
    pub call: String,
    pub locator: String,
    pub code: Option<String>,
    pub race_id: Option<i64>,
}

/// Whether a record belongs to the given grouping event: no event selected
/// means every record belongs.
pub open spec fn spec_in_race(v: LogEntry, race_id: Option<i64>) -> bool {
    race_id is None || v.race_id == race_id
}

/// The records of one grouping event, in store order: every cached record
/// when no event is selected, and exactly the records tied to the selected
/// event otherwise.
pub fn race_logs(logs: &DataStore<LogEntry>, race_id: Option<i64>) -> (r: Vec<LogEntry>)
    ensures
        r.view() == logs.view().filter(|v: LogEntry| spec_in_race(v, race_id)),
{
    let items = logs.iter();
    let mut result: Vec<LogEntry> = Vec::new();
    let n = items.len();
    let mut i: usize = 0;
    proof {
        assert(items.view().subrange(0, 0) =~= Seq::<LogEntry>::empty());
        assert(Seq::<LogEntry>::empty().filter(|v: LogEntry| spec_in_race(v, race_id))
            =~= Seq::<LogEntry>::empty());
    }
    while i < n
        invariant
            0 <= i <= n,
            n == items.view().len(),
            items.view() == logs.view(),
            result.view() == items.view().subrange(0, i as int).filter(
                |v: LogEntry| spec_in_race(v, race_id),
            ),
        decreases n - i,
    {
        let keep: bool = match race_id {
            None => true,
            Some(rid) => match items[i].race_id {
                Some(x) => x == rid,
                None => false,
            },
        };
        proof {
            assert(keep == spec_in_race(items.view()[i as int], race_id));
        }
        if keep {
            result.push(items[i].clone());
        }
        proof {
            let pred = |v: LogEntry| spec_in_race(v, race_id);
            let prefix = items.view().subrange(0, i as int);
            let one = seq![items.view()[i as int]];
            assert(items.view().subrange(0, i + 1) =~= prefix + one);
            Seq::filter_distributes_over_add(prefix, one, pred);
            assert(one.drop_last() =~= Seq::<LogEntry>::empty());
            reveal_with_fuel(Seq::filter, 3);
            assert(one.filter(pred) == if pred(items.view()[i as int]) {
                one
            } else {
                Seq::<LogEntry>::empty()
            });
            assert(result.view() =~= items.view().subrange(0, i + 1).filter(pred));
        }
        i += 1;
    }
    proof {
        assert(items.view().subrange(0, n as int) =~= items.view());
    }
    result
}

impl Clone for LogEntry {
    /// An exact copy, field for field.
    fn clone(&self) -> (r: Self)
        ensures
            r == self,
    {
        LogEntry {
            id: self.id,
            time: self.time,
            call: self.call.clone(),
            locator: self.locator.clone(),
            code: match &self.code {
                Some(c) => Some(c.clone()),
                None => None,
            },
            race_id: self.race_id,
        }
    }
}

impl DBSchemaObject for LogEntry {
    open spec fn spec_table_name() -> Seq<char> {
        "LogEntry"@
    }

    open spec fn spec_schema() -> Seq<StepModel> {
        seq![
            StepModel::Sql(
                "CREATE TABLE LogEntry (id INTEGER PRIMARY KEY, long REAL, lat REAL, time UINT, name TEXT)"@,
            ),
            StepModel::Sql("ALTER TABLE LogEntry RENAME COLUMN name TO call"@),
            StepModel::Transform,
            StepModel::Sql("ALTER TABLE LogEntry ADD COLUMN race_id INTEGER"@),
        ]
    }

    fn table_name() -> (r: &'static str) {
        "LogEntry"
    }

    fn schema() -> (r: Vec<SchemaStep>) {
        let steps = vec![
            SchemaStep::Sql(
                "CREATE TABLE LogEntry (id INTEGER PRIMARY KEY, long REAL, lat REAL, time UINT, name TEXT)",
            ),
            SchemaStep::Sql("ALTER TABLE LogEntry RENAME COLUMN name TO call"),
            SchemaStep::Transform,
            SchemaStep::Sql("ALTER TABLE LogEntry ADD COLUMN race_id INTEGER"),
        ];
        assert(steps.view()[0].model() == Self::spec_schema()[0]);
        assert(steps.view()[1].model() == Self::spec_schema()[1]);
        assert(steps.view()[2].model() == Self::spec_schema()[2]);
        assert(steps.view()[3].model() == Self::spec_schema()[3]);
        steps
    }
}

impl DataStoreTrait for LogEntry {
    open spec fn spec_id(&self) -> i64 {
        self.id
    }

    open spec fn with_id(&self, id: i64) -> Self {
        LogEntry { id, ..*self }
    }

    fn set_id(&mut self, id: i64) {
        self.id = id;
    }

    fn get_id(&self) -> (r: i64) {
        self.id
    }
}

impl DBObjectSerializable for LogEntry {
    open spec fn spec_row_ok(row: Seq<SqlValModel>) -> bool {
        &&& row.len() == 6
        &&& row[0] is Int
        &&& row[1] is Int && 0 <= row[1]->Int_0 <= u32::MAX
        &&& row[2] is Text
        &&& row[3] is Text
        &&& row[4] is Null || row[4] is Text
        &&& row[5] is Null || row[5] is Int
    }

    open spec fn row_denotes(row: Seq<SqlValModel>, v: Self) -> bool {
        &&& row.len() == 6
        &&& row[0] matches SqlValModel::Int(id) && v.id == id
        &&& row[1] matches SqlValModel::Int(t) && v.time == t
        &&& row[2] matches SqlValModel::Text(c) && v.call.view() == c
        &&& row[3] matches SqlValModel::Text(l) && v.locator.view() == l
        &&& match row[4] {
            SqlValModel::Null => v.code is None,
            SqlValModel::Text(s) => v.code matches Some(c) && c.view() == s,
            _ => false,
        }
        &&& match row[5] {
            SqlValModel::Null => v.race_id is None,
            SqlValModel::Int(r) => v.race_id == Some(r),
            _ => false,
        }
    }

    /// Reads one row in the order `id, time, call, locator, code, race_id`.
    fn from_row(row: &Vec<SqlValue>) -> (r: Result<Self, StoreError>) {
        if row.len() != 6 {
            return Err(StoreError::MalformedRow);
        }
        let id: i64 = match &row[0] {
            SqlValue::Int(i) => *i,
            _ => {
                return Err(StoreError::MalformedRow);
            },
        };
        let time: u32 = match &row[1] {
            SqlValue::Int(t) => {
                if 0 <= *t && *t <= u32::MAX as i64 {
                    *t as u32
                } else {
                    return Err(StoreError::MalformedRow);
                }
            },
            _ => {
                return Err(StoreError::MalformedRow);
            },
        };
        let call: String = match &row[2] {
            SqlValue::Text(s) => s.clone(),
            _ => {
                return Err(StoreError::MalformedRow);
            },
        };
        let locator: String = match &row[3] {
            SqlValue::Text(s) => s.clone(),
            _ => {
                return Err(StoreError::MalformedRow);
            },
        };
        let code: Option<String> = match &row[4] {
            SqlValue::Null => None,
            SqlValue::Text(s) => Some(s.clone()),
            _ => {
                return Err(StoreError::MalformedRow);
            },
        };
        let race_id: Option<i64> = match &row[5] {
            SqlValue::Null => None,
            SqlValue::Int(r) => Some(*r),
            _ => {
                return Err(StoreError::MalformedRow);
            },
        };
        Ok(LogEntry { id, time, call, locator, code, race_id })
    }

    fn insert_row(&mut self, conn: &rusqlite::Connection) -> (r: Result<(), StoreError>) {
        let params = vec![
            SqlValue::Int(self.time as i64),
            SqlValue::Text(self.call.clone()),
            SqlValue::Text(self.locator.clone()),
            match &self.code {
                Some(c) => SqlValue::Text(c.clone()),
                None => SqlValue::Null,
            },
            match &self.race_id {
                Some(r) => SqlValue::Int(*r),
                None => SqlValue::Null,
            },
        ];
        match exec_sql(
            conn,
            "INSERT INTO LogEntry (time, call, locator, code, race_id) VALUES (?1, ?2, ?3, ?4, ?5)",
            &params,
        ) {
            Ok(_) => (),
            Err(e) => {
                return Err(StoreError::Engine(e));
            },
        }
        let id = last_insert_id(conn);
        self.set_id(id);
        Ok(())
    }

    fn update_row(&self, conn: &rusqlite::Connection) -> Result<(), StoreError> {
        let params = vec![
            SqlValue::Int(self.time as i64),
            SqlValue::Text(self.call.clone()),
            SqlValue::Text(self.locator.clone()),
            match &self.code {
                Some(c) => SqlValue::Text(c.clone()),
                None => SqlValue::Null,
            },
            match &self.race_id {
                Some(r) => SqlValue::Int(*r),
                None => SqlValue::Null,
            },
            SqlValue::Int(self.id),
        ];
        match exec_sql(
            conn,
            "UPDATE LogEntry SET time=?1, call=?2, locator=?3, code=?4, race_id=?5 WHERE id=?6",
            &params,
        ) {
            Ok(_) => Ok(()),
            Err(e) => Err(StoreError::Engine(e)),
        }
    }

    fn delete_row(&self, conn: &rusqlite::Connection) -> Result<(), StoreError> {
        let params = vec![SqlValue::Int(self.id)];
        match exec_sql(conn, "DELETE FROM LogEntry WHERE id=?1", &params) {
            Ok(_) => Ok(()),
            Err(e) => Err(StoreError::Engine(e)),
        }
    }

    open spec fn spec_select_sql() -> Seq<char> {
        "SELECT id, time, call, locator, code, race_id FROM LogEntry"@
    }

    fn select_sql() -> (r: &'static str) {
        "SELECT id, time, call, locator, code, race_id FROM LogEntry"
    }
}

} // verus!
