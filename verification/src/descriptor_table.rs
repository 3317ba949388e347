use vstd::prelude::*;
use crate::db_object::{DBObjectSerializable, DBSchemaObject, DataStoreTrait, SchemaStep,
    StepModel};
use crate::engine::exec_sql;
use crate::errors::StoreError;
use crate::sql_value::{SqlValModel, SqlValue};

verus! {

/// The schema descriptor registry's own row: one entry per registered entity
/// type, recording how many of its migration steps have been applied.
pub struct TableDescriptor {
    pub name: String,
    pub schema_version: u32,
}

impl TableDescriptor {
    /// The descriptor an entity type earns once every compiled step has been
    /// applied: its recorded version equals the full step count.
    pub fn from_table<T: DBSchemaObject>() -> (r: Self)
        requires
            T::spec_schema().len() <= u32::MAX,
        ensures
            r.name.view() == T::spec_table_name(),
            r.schema_version == T::spec_schema().len(),
    {
        let steps = T::schema();
        Self {
            name: T::table_name().to_owned(),
            schema_version: steps.len() as u32,
        }
    }
}

impl DBSchemaObject for TableDescriptor {
    open spec fn spec_table_name() -> Seq<char> {
        "TableDescriptor"@
    }

    open spec fn spec_schema() -> Seq<StepModel> {
        seq![
            StepModel::Sql(
                "CREATE TABLE TableDescriptor (name TEXT PRIMARY KEY NOT NULL, schema_version UINT NOT NULL)"@,
            ),
        ]
    }

    fn table_name() -> (r: &'static str) {
        "TableDescriptor"
    }

    fn schema() -> (r: Vec<SchemaStep>) {
        let steps = vec![
            SchemaStep::Sql(
                "CREATE TABLE TableDescriptor (name TEXT PRIMARY KEY NOT NULL, schema_version UINT NOT NULL)",
            ),
        ];
        assert(steps.view()[0].model() == Self::spec_schema()[0]);
        steps
    }
}

/// The registry row is keyed by its table name, not by a store-assigned
/// integer: its identity is a constant and assigning one changes nothing.
impl DataStoreTrait for TableDescriptor {
    open spec fn spec_id(&self) -> i64 {
        0
    }

    open spec fn with_id(&self, id: i64) -> Self {
        *self
    }

    fn set_id(&mut self, id: i64) {
    }

    fn get_id(&self) -> (r: i64) {
        0
    }
}

impl DBObjectSerializable for TableDescriptor {
    open spec fn spec_row_ok(row: Seq<SqlValModel>) -> bool {
        true
    }

    open spec fn row_denotes(row: Seq<SqlValModel>, v: Self) -> bool {
        &&& v.name.view() == (if row.len() > 0 && row[0] is Text {
            row[0]->Text_0
        } else {
            Seq::<char>::empty()
        })
        &&& v.schema_version as int == (if row.len() > 1 && row[1] is Int && 0 <= row[1]->Int_0
            <= u32::MAX {
            row[1]->Int_0 as int
        } else {
            0
        })
    }

    /// Reads a descriptor row. Mirroring the store's lenient reading of its
    /// own registry, a missing or mistyped column falls back to the empty
    /// name or version zero rather than failing.
    fn from_row(row: &Vec<SqlValue>) -> (r: Result<Self, StoreError>) {
        let name: String = if row.len() > 0 {
            match &row[0] {
                SqlValue::Text(s) => s.clone(),
                _ => String::new(),
            }
        } else {
            String::new()
        };
        let schema_version: u32 = if row.len() > 1 {
            match &row[1] {
                SqlValue::Int(i) => {
                    if 0 <= *i && *i <= u32::MAX as i64 {
                        *i as u32
                    } else {
                        0
                    }
                },
                _ => 0,
            }
        } else {
            0
        };
        Ok(Self { name, schema_version })
    }

    fn insert_row(&mut self, conn: &rusqlite::Connection) -> (r: Result<(), StoreError>) {
        let params = vec![
            SqlValue::Text(self.name.clone()),
            SqlValue::Int(self.schema_version as i64),
        ];
        match exec_sql(
            conn,
            "INSERT INTO TableDescriptor (name, schema_version) VALUES (?1, ?2)",
            &params,
        ) {
            Ok(_) => Ok(()),
            Err(e) => Err(StoreError::Engine(e)),
        }
    }

    fn update_row(&self, conn: &rusqlite::Connection) -> Result<(), StoreError> {
        let params = vec![
            SqlValue::Int(self.schema_version as i64),
            SqlValue::Text(self.name.clone()),
        ];
        match exec_sql(
            conn,
            "UPDATE TableDescriptor SET schema_version=?1 WHERE name=?2",
            &params,
        ) {
            Ok(_) => Ok(()),
            Err(e) => Err(StoreError::Engine(e)),
        }
    }

    fn delete_row(&self, conn: &rusqlite::Connection) -> Result<(), StoreError> {
        let params = vec![SqlValue::Text(self.name.clone())];
        match exec_sql(conn, "DELETE FROM TableDescriptor WHERE name=?1", &params) {
            Ok(_) => Ok(()),
            Err(e) => Err(StoreError::Engine(e)),
        }
    }

    open spec fn spec_select_sql() -> Seq<char> {
        "SELECT name, schema_version FROM TableDescriptor"@
    }

    fn select_sql() -> (r: &'static str) {
        "SELECT name, schema_version FROM TableDescriptor"
    }
}

} // verus!
