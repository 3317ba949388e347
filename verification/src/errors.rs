use vstd::prelude::*;
use vstd::string::*;
use crate::engine::engine_error_text;

verus! {

/// The error a store operation surfaces to its caller.
///
/// `Engine` carries the embedded engine's own error value; the other variants
/// report conditions this library detects itself. `SchemaNewer` and
/// `DuplicateId` signal deployment or invariant faults: a caller is expected
/// to treat them as fatal rather than recover.
#[derive(Debug)]
pub enum StoreError {
    /// The embedded relational engine rejected a statement.
    Engine(rusqlite::Error),
    /// A row read from the store did not have the shape the entity expects.
    MalformedRow,
    /// The recorded schema version exceeds the steps compiled into this build:
    /// the on-disk schema comes from a newer application.
    SchemaNewer,
    /// The store assigned an identity that the cache already holds.
    DuplicateId,
    /// A schema declared a transform step but the supplied runner does not
    /// know it.
    MissingTransform,
}

impl StoreError {
    /// True when this error is the fatal "schema is newer than the
    /// application" condition.
    pub fn is_schema_newer(&self) -> (r: bool)
        ensures
            r == (self is SchemaNewer),
    {
        match self {
            StoreError::SchemaNewer => true,
            _ => false,
        }
    }

    /// A short description for a user-visible notification. For an engine
    /// error it is the engine's own rendering of the fault.
    pub fn describe(&self) -> (r: String)
        ensures
            self is MalformedRow ==> r.view() == "malformed row"@,
            self is SchemaNewer ==> r.view() == "stored schema is newer than the application"@,
            self is DuplicateId ==> r.view() == "store assigned an identity the cache already holds"@,
            self is MissingTransform ==> r.view() == "no runner supplied for a transform step"@,
    {
        match self {
            StoreError::Engine(e) => engine_error_text(e),
            StoreError::MalformedRow => "malformed row".to_owned(),
            StoreError::SchemaNewer => "stored schema is newer than the application".to_owned(),
            StoreError::DuplicateId => {
                "store assigned an identity the cache already holds".to_owned()
            },
            StoreError::MissingTransform => "no runner supplied for a transform step".to_owned(),
        }
    }
}

} // verus!
