use vstd::prelude::*;

verus! {

/// A dynamically typed value as the embedded store holds it: an integer,
/// a piece of text, or the absence of a value.
#[derive(Clone)]
pub enum SqlValue {
    Null,
    Int(i64),
    Text(String),
}

/// The mathematical shape of a `SqlValue`.
pub enum SqlValModel {
    Null,
    Int(i64),
    Text(Seq<char>),
}

impl SqlValue {
    /// The model of this value.
    pub open spec fn model(&self) -> SqlValModel {
        match self {
            SqlValue::Null => SqlValModel::Null,
            SqlValue::Int(i) => SqlValModel::Int(*i),
            SqlValue::Text(s) => SqlValModel::Text(s@),
        }
    }
}

/// The models of a whole row of values.
pub open spec fn row_model(r: Seq<SqlValue>) -> Seq<SqlValModel> {
    r.map(|_i: int, v: SqlValue| v.model())
}

} // verus!
