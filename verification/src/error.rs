//! The error taxonomy of the core: a missing route, asset or row is
//! `NotFound`; every storage fault is `Database` with a message.
use vstd::prelude::*;
use vstd::string::StringExecFns;

verus! {

/// A request-level failure. `NotFound` covers a missing route, a missing
/// asset and a missing row; `Database` covers connection, constraint and
/// query faults.
#[derive(Debug)]
pub enum Error {
    NotFound,
    Database(String),
}

/// A fault reported by the storage engine, as the persistence layer
/// classifies it before mapping it into [`Error`].
pub enum StorageFault {
    ConnectionClosed,
    Close(String),
    Database(String),
    MissingFrom,
    InsertError(String),
    SqlConversion(String),
    RowNotFound,
}

impl Error {
    /// The HTTP status code and body that the dispatcher answers with for
    /// this error: 404 "not found" or 500 "internal server error".
    pub fn response_parts(&self) -> (r: (u16, String))
        ensures
            self is NotFound ==> r.0 == 404 && r.1@ == "not found"@,
            self is Database ==> r.0 == 500 && r.1@ == "internal server error"@,
    {
        match self {
            Error::NotFound => (404, String::from_str("not found")),
            Error::Database(_) => (500, String::from_str("internal server error")),
        }
    }

    /// Maps a storage fault into the taxonomy: a missing row becomes
    /// `NotFound`; every other fault becomes `Database` with a message.
    pub fn from_fault(fault: StorageFault) -> (r: Error)
        ensures
            fault is RowNotFound <==> r is NotFound,
            !(fault is RowNotFound) ==> r is Database,
            fault matches StorageFault::Database(m) ==> r == Error::Database(m),
            fault matches StorageFault::Close(m) ==> r == Error::Database(m),
            fault matches StorageFault::InsertError(m) ==> r == Error::Database(m),
            fault matches StorageFault::SqlConversion(m) ==> r == Error::Database(m),
            fault is ConnectionClosed ==> (r matches Error::Database(m) && m@
                == "connection closed"@),
            fault is MissingFrom ==> (r matches Error::Database(m) && m@
                == "missing from clause"@),
    {
        match fault {
            StorageFault::RowNotFound => Error::NotFound,
            StorageFault::Database(m) => Error::Database(m),
            StorageFault::ConnectionClosed => Error::Database(
                String::from_str("connection closed"),
            ),
            StorageFault::Close(m) => Error::Database(m),
            StorageFault::MissingFrom => Error::Database(
                String::from_str("missing from clause"),
            ),
            StorageFault::InsertError(m) => Error::Database(m),
            StorageFault::SqlConversion(m) => Error::Database(m),
        }
    }
}

} // verus!
