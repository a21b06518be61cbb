//! Errors of the store's connections and of building the API.
use vstd::prelude::*;

verus! {

/// An error of the SurrealDB client.
#[verifier::external_type_specification]
#[verifier::external_body]
pub struct ExSurrealError(surrealdb::Error);

/// An error of the Redis client.
#[verifier::external_type_specification]
#[verifier::external_body]
pub struct ExRedisError(bb8_redis::redis::RedisError);

/// Why the store could not be reached.
pub enum DatabaseError {
    Connection(surrealdb::Error),
    Redis(bb8_redis::redis::RedisError),
    Unknown,
}

/// The message of a database error.
pub open spec fn database_error_message(e: DatabaseError) -> Seq<char> {
    match e {
        DatabaseError::Connection(_) => "data store disconnected"@,
        DatabaseError::Redis(_) => "data store disconnected"@,
        DatabaseError::Unknown => "unknown error"@,
    }
}

impl DatabaseError {
    /// The error's message.
    pub fn to_string(&self) -> (s: String)
        ensures
            s@ == database_error_message(*self),
    {
        match self {
            DatabaseError::Connection(_) => String::from_str("data store disconnected"),
            DatabaseError::Redis(_) => String::from_str("data store disconnected"),
            DatabaseError::Unknown => String::from_str("unknown error"),
        }
    }
}

/// Why the API could not be built.
pub enum SchemaError {
    Database(DatabaseError),
    Unknown,
}

/// The message of a schema error.
pub open spec fn schema_error_message(e: SchemaError) -> Seq<char> {
    match e {
        SchemaError::Database(_) => "could not establish database connection"@,
        SchemaError::Unknown => "unknown schema error"@,
    }
}

impl SchemaError {
    /// The error's message.
    pub fn to_string(&self) -> (s: String)
        ensures
            s@ == schema_error_message(*self),
    {
        match self {
            SchemaError::Database(_) => String::from_str("could not establish database connection"),
            SchemaError::Unknown => String::from_str("unknown schema error"),
        }
    }
}

impl From<DatabaseError> for SchemaError {
    fn from(e: DatabaseError) -> (r: SchemaError) {
        SchemaError::Database(e)
    }
}

impl vstd::std_specs::convert::FromSpecImpl<DatabaseError> for SchemaError {
    open spec fn obeys_from_spec() -> bool {
        true
    }

    open spec fn from_spec(e: DatabaseError) -> SchemaError {
        SchemaError::Database(e)
    }
}

} // verus!
