//! The failures the store reports, one type for each class of operation.

use vstd::prelude::*;

verus! {

/// A field model that no table can be derived from. Found when the
/// configuration is built, before any statement is sent.
#[derive(Clone, Copy, Debug, PartialEq, Eq, Structural)]
pub enum ConfigError {
    /// The table name is not a valid identifier.
    InvalidTableName,
    /// The batch size is zero.
    InvalidBatchSize,
    /// No identity field is declared.
    MissingIdentity,
    /// More than one identity field is declared.
    DuplicateIdentity,
    /// No content field is declared.
    MissingContent,
    /// More than one content field is declared.
    DuplicateContent,
    /// A vector field has no dimension of its own and the store has no
    /// default.
    MissingDimension,
    /// A vector field's dimension is below one.
    InvalidDimension,
    /// A column name is longer than an identifier may be.
    InvalidColumnName,
    /// Two fields are stored under the same column name.
    DuplicateColumn,
}

/// No connection handle is at hand for the operation.
#[derive(Clone, Copy, Debug, PartialEq, Eq, Structural)]
pub enum ConnectionError {
    /// The pool was never initialized, or connecting failed.
    PoolNotInitialized,
}

/// The schema could not be set up; nothing of it was committed.
#[derive(Clone, Copy, Debug, PartialEq, Eq, Structural)]
pub enum SchemaError {
    /// The transaction could not be opened or committed.
    Transaction,
    /// The vector extension could not be created.
    Extension,
    /// The table could not be created.
    Table,
    /// An index could not be created.
    Index,
}

/// A batch could not be written; none of its nodes was stored.
#[derive(Clone, Copy, Debug, PartialEq, Eq, Structural)]
pub enum PersistError {
    /// A node carries a vector whose length differs from the dimension of
    /// the field it belongs to.
    DimensionMismatch,
    /// The database refused the write or the transaction around it.
    WriteFailed,
}

/// A retrieval that cannot be turned into a query.
#[derive(Clone, Copy, Debug, PartialEq, Eq, Structural)]
pub enum QueryError {
    /// The pending query has no embedding.
    MissingEmbedding,
    /// No vector field of the requested name is configured.
    UnknownVectorField,
    /// No vector field is configured at all.
    NoVectorField,
    /// Several vector fields are configured and none was named.
    AmbiguousVectorField,
    /// The filter is not of the form `key = value`.
    InvalidFilter,
    /// The number of rows asked for does not fit the type of a row limit.
    TopKOutOfRange,
}

/// What is known of the connection pool, for diagnostics.
#[derive(Clone, Copy, Debug, PartialEq, Eq, Structural)]
pub enum ConnectionState {
    /// No connection was attempted yet.
    Uninitialized,
    /// The pool holds live connections.
    Connected,
    /// Connecting was attempted and failed.
    Failed,
}

impl ConnectionState {
    /// Whether a handle can be taken from a pool in this state: only a
    /// connected pool gives one.
    pub fn handle(self) -> (out: Result<(), ConnectionError>)
        ensures
            out == if self == ConnectionState::Connected {
                Ok::<(), ConnectionError>(())
            } else {
                Err::<(), ConnectionError>(ConnectionError::PoolNotInitialized)
            },
    {
        match self {
            ConnectionState::Connected => Ok(()),
            _ => Err(ConnectionError::PoolNotInitialized),
        }
    }
}

} // verus!
