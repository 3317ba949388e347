use vstd::prelude::*;
use crate::errors::StoreError;
use crate::sql_value::{SqlValue, SqlValModel, row_model};

verus! {

/// One unit of schema evolution for an entity type: either a literal
/// DDL/DML statement applied verbatim, or a data-transformation procedure
/// that needs direct connection access and is supplied by the host
/// application through a `SchemaTransform`.
pub enum SchemaStep {
    Sql(&'static str),
    Transform,
}

/// The mathematical shape of a `SchemaStep`.
pub enum StepModel {
    Sql(Seq<char>),
    Transform,
}

impl SchemaStep {
    /// The model of this step.
    pub open spec fn model(&self) -> StepModel {
        match self {
            SchemaStep::Sql(s) => StepModel::Sql(s.view()),
            SchemaStep::Transform => StepModel::Transform,
        }
    }
}

/// How a transform step can fail: the engine rejected a statement the
/// runner issued, or the runner does not know the step at all. Keeping the
/// runner's error this narrow lets the migration engine promise that its
/// own `SchemaNewer` verdict comes from the recorded version alone.
pub enum TransformError {
    Engine(rusqlite::Error),
    Missing,
}

/// A host-supplied runner for the `SchemaStep::Transform` steps of a schema.
/// The engine hands it the table name and the index of the step being
/// applied; the runner performs the data transformation directly on the
/// connection. Nothing is promised of its outcome: the migration engine
/// treats every result as the step's own verdict.
pub trait SchemaTransform {
    fn run_step(
        &mut self,
        conn: &rusqlite::Connection,
        table: &str,
        step_index: usize,
    ) -> Result<(), TransformError>;
}

/// A runner for entity types whose schemas contain no transform steps: it
/// rejects every step it is asked to run.
pub struct NoTransforms;

impl SchemaTransform for NoTransforms {
    fn run_step(
        &mut self,
        _conn: &rusqlite::Connection,
        _table: &str,
        _step_index: usize,
    ) -> Result<(), TransformError> {
        Err(TransformError::Missing)
    }
}

/// The schema half of the object mapping contract: a persisted entity type
/// names its table and lists its migration steps in declaration order.
pub trait DBSchemaObject {
    /// The table name, as a sequence of characters.
    spec fn spec_table_name() -> Seq<char>;

    /// The full, ordered list of migration steps compiled into this build.
    spec fn spec_schema() -> Seq<StepModel>;

    fn table_name() -> (r: &'static str)
        ensures
            r.view() == Self::spec_table_name(),
    ;

    fn schema() -> (r: Vec<SchemaStep>)
        ensures
            r.view().len() == Self::spec_schema().len(),
            forall|i: int|
                0 <= i < r.view().len() ==> (#[trigger] r.view()[i].model())
                    == Self::spec_schema()[i],
    ;
}

/// The identity half of the object mapping contract: every cached entity
/// carries a store-assigned integer identity.
pub trait DataStoreTrait: Sized {
    /// The identity this value carries.
    spec fn spec_id(&self) -> i64;

    /// This value with its identity replaced and every other attribute kept.
    spec fn with_id(&self, id: i64) -> Self;

    fn set_id(&mut self, id: i64)
        ensures
            *final(self) == old(self).with_id(id),
    ;

    fn get_id(&self) -> (r: i64)
        ensures
            r == self.spec_id(),
    ;
}

/// The row half of the object mapping contract: how one entity value moves
/// between its typed form and a row of dynamic store values.
pub trait DBObjectSerializable: DataStoreTrait + Sized {
    /// True of the rows that have this entity's shape: exactly the rows
    /// `from_row` accepts.
    spec fn spec_row_ok(row: Seq<SqlValModel>) -> bool;

    /// True when `v` is the one entity value that the row `row` denotes.
    spec fn row_denotes(row: Seq<SqlValModel>, v: Self) -> bool;

    /// Reads one row, in the entity's declared column order, back into an
    /// entity value.
    fn from_row(row: &Vec<SqlValue>) -> (r: Result<Self, StoreError>)
        ensures
            Self::spec_row_ok(row_model(row.view())) <==> r is Ok,
            r matches Ok(v) ==> Self::row_denotes(row_model(row.view()), v),
            r matches Err(e) ==> e is MalformedRow,
    ;

    /// Persists this value as a fresh row and writes the store-assigned
    /// identity back into it. On failure the value is untouched and the
    /// error carries the engine's own verdict.
    fn insert_row(&mut self, conn: &rusqlite::Connection) -> (r: Result<(), StoreError>)
        ensures
            r is Ok ==> *final(self) == old(self).with_id(final(self).spec_id()),
            r is Err ==> *final(self) == *old(self),
            r matches Err(e) ==> e is Engine,
    ;

    /// Rewrites the persisted row that carries this value's identity; an
    /// error carries the engine's own verdict.
    fn update_row(&self, conn: &rusqlite::Connection) -> (r: Result<(), StoreError>)
        ensures
            r matches Err(e) ==> e is Engine,
    ;

    /// Deletes the persisted row that carries this value's identity; an
    /// error carries the engine's own verdict.
    fn delete_row(&self, conn: &rusqlite::Connection) -> (r: Result<(), StoreError>)
        ensures
            r matches Err(e) ==> e is Engine,
    ;

    /// The full-table read statement, word for word.
    spec fn spec_select_sql() -> Seq<char>;

    /// The statement that reads every row of the entity's table, columns in
    /// the entity's declared order.
    fn select_sql() -> (r: &'static str)
        ensures
            r.view() == Self::spec_select_sql(),
    ;
}

} // verus!
