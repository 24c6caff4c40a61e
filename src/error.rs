use vstd::prelude::*;
use vstd::string::*;

verus! {

/// What an operation of the binding reports when it fails.
#[derive(Debug, PartialEq, Eq)]
pub enum DbError {
    CreationFailed,
    OperationFailed,
    Utf8Error,
    BufferTooSmall,
    InvalidArgument,
    FfiError(String),
}

/// The text that describes each error.
pub open spec fn message_of(e: DbError) -> Seq<char> {
    match e {
        DbError::CreationFailed => "Database creation failed"@,
        DbError::OperationFailed => "Database operation failed"@,
        DbError::Utf8Error => "Invalid UTF-8"@,
        DbError::BufferTooSmall => "Provided buffer was too small to retrieve data"@,
        DbError::InvalidArgument => "Invalid argument passed to FFI function"@,
        DbError::FfiError(msg) => "FFI error: "@ + msg@,
    }
}

impl DbError {
    /// A human-readable description of the error.
    pub fn message(&self) -> (r: String)
        ensures
            r@ == message_of(*self),
    {
        match self {
            DbError::CreationFailed => String::from_str("Database creation failed"),
            DbError::OperationFailed => String::from_str("Database operation failed"),
            DbError::Utf8Error => String::from_str("Invalid UTF-8"),
            DbError::BufferTooSmall => String::from_str(
                "Provided buffer was too small to retrieve data",
            ),
            DbError::InvalidArgument => String::from_str("Invalid argument passed to FFI function"),
            DbError::FfiError(msg) => {
                let mut r = String::from_str("FFI error: ");
                r.append(msg.as_str());
                r
            },
        }
    }
}

} // verus!
