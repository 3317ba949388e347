use vstd::prelude::*;
use crate::db_object::{DBObjectSerializable, DBSchemaObject, DataStoreTrait, SchemaStep,
    StepModel};
use crate::engine::{exec_sql, last_insert_id};
use crate::errors::StoreError;
use crate::sql_value::{SqlValModel, SqlValue};

verus! {

/// One grouping/event record: its name, when it was created, and the
/// operator's own locator and call sign while it lasts.
#[derive(Debug, PartialEq)]
pub struct Race {
    pub id: i64,
    pub create_time: u32,
    pub name: String,
    pub my_location: String,
    pub my_call: String,
}

impl Clone for Race {
    /// An exact copy, field for field.
    fn clone(&self) -> (r: Self)
        ensures
            r == self,
    {
        Race {
            id: self.id,
            create_time: self.create_time,
            name: self.name.clone(),
            my_location: self.my_location.clone(),
            my_call: self.my_call.clone(),
        }
    }
}

impl DBSchemaObject for Race {
    open spec fn spec_table_name() -> Seq<char> {
        "Race"@
    }

    open spec fn spec_schema() -> Seq<StepModel> {
        seq![
            StepModel::Sql(
                "CREATE TABLE Race (id INTEGER PRIMARY KEY, create_time UINT, name TEXT, my_location TEXT, my_call TEXT)"@,
            ),
        ]
    }

    fn table_name() -> (r: &'static str) {
        "Race"
    }

    fn schema() -> (r: Vec<SchemaStep>) {
        let steps = vec![
            SchemaStep::Sql(
                "CREATE TABLE Race (id INTEGER PRIMARY KEY, create_time UINT, name TEXT, my_location TEXT, my_call TEXT)",
            ),
        ];
        assert(steps.view()[0].model() == Self::spec_schema()[0]);
        steps
    }
}

impl DataStoreTrait for Race {
    open spec fn spec_id(&self) -> i64 {
        self.id
    }

    open spec fn with_id(&self, id: i64) -> Self {
        Race { id, ..*self }
    }

    fn set_id(&mut self, id: i64) {
        self.id = id;
    }

    fn get_id(&self) -> (r: i64) {
        self.id
    }
}

impl DBObjectSerializable for Race {
    open spec fn spec_row_ok(row: Seq<SqlValModel>) -> bool {
        &&& row.len() == 5
        &&& row[0] is Int
        &&& row[1] is Int && 0 <= row[1]->Int_0 <= u32::MAX
        &&& row[2] is Text
        &&& row[3] is Text
        &&& row[4] is Text
    }

    open spec fn row_denotes(row: Seq<SqlValModel>, v: Self) -> bool {
        &&& row.len() == 5
        &&& row[0] matches SqlValModel::Int(id) && v.id == id
        &&& row[1] matches SqlValModel::Int(t) && v.create_time == t
        &&& row[2] matches SqlValModel::Text(n) && v.name.view() == n
        &&& row[3] matches SqlValModel::Text(l) && v.my_location.view() == l
        &&& row[4] matches SqlValModel::Text(c) && v.my_call.view() == c
    }

    /// Reads one row in the order
    /// `id, create_time, name, my_location, my_call`.
    fn from_row(row: &Vec<SqlValue>) -> (r: Result<Self, StoreError>) {
        if row.len() != 5 {
            return Err(StoreError::MalformedRow);
        }
        let id: i64 = match &row[0] {
            SqlValue::Int(i) => *i,
            _ => {
                return Err(StoreError::MalformedRow);
            },
        };
        let create_time: u32 = match &row[1] {
            SqlValue::Int(t) => {
                if 0 <= *t && *t <= u32::MAX as i64 {
                    *t as u32
                } else {
                    return Err(StoreError::MalformedRow);
                }
            },
            _ => {
                return Err(StoreError::MalformedRow);
            },
        };
        let name: String = match &row[2] {
            SqlValue::Text(s) => s.clone(),
            _ => {
                return Err(StoreError::MalformedRow);
            },
        };
        let my_location: String = match &row[3] {
            SqlValue::Text(s) => s.clone(),
            _ => {
                return Err(StoreError::MalformedRow);
            },
        };
        let my_call: String = match &row[4] {
            SqlValue::Text(s) => s.clone(),
            _ => {
                return Err(StoreError::MalformedRow);
            },
        };
        Ok(Race { id, create_time, name, my_location, my_call })
    }

    fn insert_row(&mut self, conn: &rusqlite::Connection) -> (r: Result<(), StoreError>) {
        let params = vec![
            SqlValue::Int(self.create_time as i64),
            SqlValue::Text(self.name.clone()),
            SqlValue::Text(self.my_location.clone()),
            SqlValue::Text(self.my_call.clone()),
        ];
        match exec_sql(
            conn,
            "INSERT INTO Race (create_time, name, my_location, my_call) VALUES (?1, ?2, ?3, ?4)",
            &params,
        ) {
            Ok(_) => (),
            Err(e) => {
                return Err(StoreError::Engine(e));
            },
        }
        let id = last_insert_id(conn);
        self.set_id(id);
        Ok(())
    }

    fn update_row(&self, conn: &rusqlite::Connection) -> Result<(), StoreError> {
        let params = vec![
            SqlValue::Int(self.create_time as i64),
            SqlValue::Text(self.name.clone()),
            SqlValue::Text(self.my_location.clone()),
            SqlValue::Text(self.my_call.clone()),
            SqlValue::Int(self.id),
        ];
        match exec_sql(
            conn,
            "UPDATE Race SET create_time=?1, name=?2, my_location=?3, my_call=?4 WHERE id=?5",
            &params,
        ) {
            Ok(_) => Ok(()),
            Err(e) => Err(StoreError::Engine(e)),
        }
    }

    fn delete_row(&self, conn: &rusqlite::Connection) -> Result<(), StoreError> {
        let params = vec![SqlValue::Int(self.id)];
        match exec_sql(conn, "DELETE FROM Race WHERE id=?1", &params) {
            Ok(_) => Ok(()),
            Err(e) => Err(StoreError::Engine(e)),
        }
    }

    open spec fn spec_select_sql() -> Seq<char> {
        "SELECT id, create_time, name, my_location, my_call FROM Race"@
    }

    fn select_sql() -> (r: &'static str) {
        "SELECT id, create_time, name, my_location, my_call FROM Race"
    }
}

} // verus!
