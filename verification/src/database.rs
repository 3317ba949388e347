use vstd::prelude::*;
use crate::db_object::{DBObjectSerializable, DBSchemaObject, SchemaStep, SchemaTransform,
    NoTransforms, TransformError};
use crate::descriptor_table::TableDescriptor;
use crate::engine::{exec_sql, open_connection, query_sql};
use crate::errors::StoreError;
use crate::migrate::{MigrationPlan, plan_migration, spec_plan};
use crate::sql_value::{SqlValModel, SqlValue, row_model};

verus! {

/// The recorded version a descriptor lookup yields: the row's version when
/// one was found, and zero for an entity type that was never registered.
pub open spec fn spec_recorded_version(descriptor: Option<TableDescriptor>) -> nat {
    match descriptor {
        Some(d) => d.schema_version as nat,
        None => 0,
    }
}

/// True of an entity value that is the denotation of some well-shaped row:
/// what a select primitive can promise of each value it hands back.
pub open spec fn denotes_some_row<T: DBObjectSerializable>(v: T) -> bool {
    exists|row: Seq<SqlValModel>| T::spec_row_ok(row) && #[trigger] T::row_denotes(row, v)
}

/// Turns the rows of one result set into entity values, in order. It
/// succeeds exactly when every row has the entity's shape, and then the
/// value at each position denotes the row at the same position.
pub fn parse_rows<T: DBObjectSerializable>(rows: &Vec<Vec<SqlValue>>) -> (r: Result<
    Vec<T>,
    StoreError,
>)
    ensures
        (r is Ok) ==> forall|i: int|
            0 <= i < rows.view().len() ==> T::spec_row_ok(row_model(rows.view()[i].view())),
        match r {
            Ok(items) => {
                &&& items.view().len() == rows.view().len()
                &&& forall|i: int|
                    0 <= i < rows.view().len() ==> T::row_denotes(
                        row_model(rows.view()[i].view()),
                        #[trigger] items.view()[i],
                    )
            },
            Err(_) => exists|i: int|
                0 <= i < rows.view().len() && !T::spec_row_ok(row_model(rows.view()[i].view())),
        },
        r matches Ok(items) ==> forall|i: int|
            0 <= i < items.view().len() ==> denotes_some_row::<T>(#[trigger] items.view()[i]),
{
    let mut items: Vec<T> = Vec::new();
    let mut i: usize = 0;
    while i < rows.len()
        invariant
            0 <= i <= rows.view().len(),
            items.view().len() == i,
            forall|j: int| 0 <= j < i ==> T::spec_row_ok(row_model(rows.view()[j].view())),
            forall|j: int|
                0 <= j < i ==> T::row_denotes(
                    row_model(rows.view()[j].view()),
                    #[trigger] items.view()[j],
                ),
        decreases rows.view().len() - i,
    {
        match T::from_row(&rows[i]) {
            Ok(v) => items.push(v),
            Err(e) => {
                return Err(e);
            },
        }
        i += 1;
    }
    proof {
        assert forall|k: int| 0 <= k < items.view().len() implies denotes_some_row::<T>(
            #[trigger] items.view()[k],
        ) by {
            let row = row_model(rows.view()[k].view());
            assert(T::spec_row_ok(row) && T::row_denotes(row, items.view()[k]));
        }
    }
    Ok(items)
}

/// The connection wrapper: owns the one physical connection to the embedded
/// store and exposes the generic primitives every entity type is persisted
/// through.
pub struct Database {
    connection: rusqlite::Connection,
}

impl Database {
    /// The owned connection, for the crate's own query helpers.
    pub(crate) fn connection(&self) -> &rusqlite::Connection {
        &self.connection
    }

    /// Opens (creating if absent) the store at `path` and registers the
    /// schema descriptor registry's own table.
    pub fn new(path: &str) -> Result<Self, StoreError> {
        let connection = match open_connection(path) {
            Ok(c) => c,
            Err(e) => {
                return Err(StoreError::Engine(e));
            },
        };
        let mut inst = Self { connection };
        let mut no_transforms = NoTransforms;
        match inst.register_type::<TableDescriptor, NoTransforms>(&mut no_transforms) {
            Ok(_) => Ok(inst),
            Err(e) => Err(e),
        }
    }

    /// Brings the entity type `T` up to date: looks up its schema
    /// descriptor, treats a missing registry or row as an unregistered
    /// type, and replays whatever steps are missing. Succeeding, it reports
    /// how many steps it replayed this time: at most the compiled count,
    /// and zero for a type already up to date, so a second registration
    /// against an unmodified schema visibly performs no step at all.
    pub fn register_type<T: DBSchemaObject + DBObjectSerializable, R: SchemaTransform>(
        &mut self,
        runner: &mut R,
    ) -> (r: Result<usize, StoreError>)
        requires
            T::spec_schema().len() <= u32::MAX,
        ensures
            r matches Ok(n) ==> n <= T::spec_schema().len(),
    {
        let mut params = Vec::new();
        params.push(SqlValue::Text(T::table_name().to_owned()));
        let descriptor: Option<TableDescriptor> = match query_sql(
            &self.connection,
            "SELECT name, schema_version FROM TableDescriptor WHERE name=?1",
            &params,
        ) {
            Ok(rows) => {
                if rows.len() > 0 {
                    match TableDescriptor::from_row(&rows[0]) {
                        Ok(d) => Some(d),
                        Err(_) => None,
                    }
                } else {
                    None
                }
            },
            // On a fresh store the registry itself does not exist yet; any
            // failure of the lookup counts the type as unregistered.
            Err(_) => None,
        };
        self.update_schema::<T, R>(descriptor, runner)
    }

    /// The migration engine: given the descriptor row found for `T` (or
    /// `None` for an unregistered type), applies exactly the compiled steps
    /// the recorded version is missing, in declaration order, and then
    /// records the full step count in the registry. Succeeding, it reports
    /// how many steps it applied.
    ///
    /// The registry row is written only after every step went through, so a
    /// registration cut short mid-way leaves the recorded version at the
    /// last fully completed count and the next start replays the remainder;
    /// the steps themselves should stay safe under such a retry.
    pub fn update_schema<T: DBSchemaObject + DBObjectSerializable, R: SchemaTransform>(
        &mut self,
        descriptor: Option<TableDescriptor>,
        runner: &mut R,
    ) -> (r: Result<usize, StoreError>)
        requires
            T::spec_schema().len() <= u32::MAX,
        ensures
            spec_plan(spec_recorded_version(descriptor), T::spec_schema().len())
                == MigrationPlan::TooNew ==> (r matches Err(e) && e is SchemaNewer),
            spec_plan(spec_recorded_version(descriptor), T::spec_schema().len())
                == MigrationPlan::UpToDate ==> r == Result::<usize, StoreError>::Ok(0usize),
            r matches Ok(n) ==> spec_plan(spec_recorded_version(descriptor),
                T::spec_schema().len()) != MigrationPlan::TooNew && n
                == T::spec_schema().len() - spec_recorded_version(descriptor),
            r matches Err(e) && e is SchemaNewer ==> spec_plan(
                spec_recorded_version(descriptor),
                T::spec_schema().len(),
            ) == MigrationPlan::TooNew,
    {
        let schema = T::schema();
        let last_known_version: u32 = match &descriptor {
            Some(d) => d.schema_version,
            None => 0,
        };

        let (from, to): (usize, usize) = match plan_migration(last_known_version, schema.len()) {
            MigrationPlan::TooNew => {
                return Err(StoreError::SchemaNewer);
            },
            MigrationPlan::UpToDate => {
                return Ok(0);
            },
            MigrationPlan::Apply(from, to) => (from, to),
        };

        let mut i: usize = from;
        while i < to
            invariant
                from <= i <= to,
                to == schema.view().len(),
                to == T::spec_schema().len(),
                from == spec_recorded_version(descriptor),
                spec_plan(spec_recorded_version(descriptor), T::spec_schema().len())
                    == MigrationPlan::Apply(from, to),
            decreases to - i,
        {
            match &schema[i] {
                SchemaStep::Sql(sql) => {
                    let no_params = Vec::new();
                    match exec_sql(&self.connection, sql, &no_params) {
                        Ok(_) => (),
                        Err(e) => {
                            return Err(StoreError::Engine(e));
                        },
                    }
                },
                SchemaStep::Transform => {
                    match runner.run_step(&self.connection, T::table_name(), i) {
                        Ok(_) => (),
                        Err(TransformError::Engine(e)) => {
                            return Err(StoreError::Engine(e));
                        },
                        Err(TransformError::Missing) => {
                            return Err(StoreError::MissingTransform);
                        },
                    }
                },
            }
            i += 1;
        }

        match descriptor {
            Some(mut d) => {
                d.schema_version = schema.len() as u32;
                match d.update_row(&self.connection) {
                    Ok(_) => (),
                    Err(e) => {
                        return Err(e);
                    },
                }
            },
            None => {
                let mut d = TableDescriptor::from_table::<T>();
                match self.insert(&mut d) {
                    Ok(_) => (),
                    Err(e) => {
                        return Err(e);
                    },
                }
            },
        }
        Ok(to - from)
    }

    /// Reads the full row set of `T`'s table, each row turned back into an
    /// entity value through `T`'s own deserializer.
    pub fn select_all<T: DBObjectSerializable>(&mut self) -> (r: Result<Vec<T>, StoreError>)
        ensures
            r matches Ok(items) ==> forall|i: int|
                0 <= i < items.view().len() ==> denotes_some_row::<T>(
                    #[trigger] items.view()[i],
                ),
    {
        let no_params = Vec::new();
        let rows = match query_sql(&self.connection, T::select_sql(), &no_params) {
            Ok(rows) => rows,
            Err(e) => {
                return Err(StoreError::Engine(e));
            },
        };
        parse_rows::<T>(&rows)
    }

    /// Reads the rows of `T`'s table that satisfy the given predicate
    /// fragment, with `?`-numbered parameters bound in order.
    pub fn select_where<T: DBObjectSerializable>(
        &mut self,
        where_clause: &str,
        params: &Vec<SqlValue>,
    ) -> (r: Result<Vec<T>, StoreError>)
        ensures
            r matches Ok(items) ==> forall|i: int|
                0 <= i < items.view().len() ==> denotes_some_row::<T>(
                    #[trigger] items.view()[i],
                ),
    {
        let mut sql = T::select_sql().to_owned();
        sql.append(" WHERE ");
        sql.append(where_clause);
        let rows = match query_sql(&self.connection, sql.as_str(), params) {
            Ok(rows) => rows,
            Err(e) => {
                return Err(StoreError::Engine(e));
            },
        };
        parse_rows::<T>(&rows)
    }

    /// Persists `obj` as a fresh row and writes the store-assigned identity
    /// back into it; on failure the value is untouched and the error
    /// carries the engine's own verdict.
    pub fn insert<T: DBObjectSerializable>(&mut self, obj: &mut T) -> (r: Result<(), StoreError>)
        ensures
            r is Ok ==> *final(obj) == old(obj).with_id(final(obj).spec_id()),
            r is Err ==> *final(obj) == *old(obj),
            r matches Err(e) ==> e is Engine,
    {
        obj.insert_row(&self.connection)
    }

    /// Rewrites the persisted row that carries `obj`'s identity; an error
    /// carries the engine's own verdict.
    pub fn update<T: DBObjectSerializable>(&mut self, obj: &T) -> (r: Result<(), StoreError>)
        ensures
            r matches Err(e) ==> e is Engine,
    {
        obj.update_row(&self.connection)
    }

    /// Deletes the persisted row that carries `obj`'s identity; an error
    /// carries the engine's own verdict.
    pub fn delete<T: DBObjectSerializable>(&mut self, obj: &T) -> (r: Result<(), StoreError>)
        ensures
            r matches Err(e) ==> e is Engine,
    {
        obj.delete_row(&self.connection)
    }
}

} // verus!
