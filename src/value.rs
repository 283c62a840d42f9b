//! The values that can be bound to a placeholder.

use vstd::prelude::*;

verus! {

/// A value bound to one positional placeholder, in one of the PostgreSQL
/// types that a driver can encode for it.
#[derive(Clone, Debug, PartialEq, Eq)]
pub enum SqlValue {
    /// `BOOL`
    Bool(bool),
    /// `"char"`
    Char(i8),
    /// `INT2`
    SmallInt(i16),
    /// `INT4`
    Int(i32),
    /// `OID`
    Oid(u32),
    /// `INT8`
    BigInt(i64),
    /// `TEXT`, `VARCHAR` and the other text types
    Text(String),
    /// `BYTEA`
    Bytes(Vec<u8>),
}

} // verus!
