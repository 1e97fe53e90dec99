use vstd::prelude::*;

verus! {

/// Every failure that a repository operation can report.
#[derive(Debug, Clone, PartialEq, Eq)]
pub enum RepoError {
    /// The live table does not have the layout that the descriptor declares.
    SchemaMismatch,
    /// An insert would give two rows the same primary key.
    DuplicateKey,
    /// A stored or supplied token names no variant of the enum.
    InvalidEnumValue,
    /// An update names a primary key that no row has.
    NotFound,
    /// A delete was asked with a filter that constrains nothing.
    UnconstrainedDelete,
    /// Any other failure that the store reported, with its message.
    Store(String),
}

} // verus!
