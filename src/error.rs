use vstd::prelude::*;

verus! {

/// Why a record could not be mapped to or from a row.
#[derive(Clone, Copy, Debug, PartialEq, Eq, Structural)]
pub enum MappingError {
    /// A stored value cannot be coerced to the type of its field.
    TypeMismatch,
    /// A stored string names no variant of the field's enumeration.
    UnknownEnumValue,
    /// A relation was written for a record that has no identifier yet.
    UnpersistedOwner,
    /// A field holds a value that the store's integer column cannot hold.
    OutOfRange,
}

/// Why the store refused an operation.
#[derive(Clone, Copy, Debug, PartialEq, Eq, Structural)]
pub enum StoreError {
    /// The statement names a table that was never created.
    NoSuchTable,
    /// A row's first column, its key, holds text.
    BadKey,
    /// The table's largest key is the largest integer, so no new key is left.
    KeysExhausted,
}

/// Any failure of a repository operation.
#[derive(Clone, Copy, Debug, PartialEq, Eq, Structural)]
pub enum Error {
    Mapping(MappingError),
    Store(StoreError),
}

} // verus!
