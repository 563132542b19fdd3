//! What a lookup of a cell by role can fail with.

use vstd::prelude::*;

verus! {

#[derive(Clone, Copy, Debug, PartialEq, Eq, Structural)]
pub enum MxErrors {
    /// The cell has the other role.
    WrongMxCellType,
    /// No live cell has the identifier.
    MxCellNotFound,
}

impl MxErrors {
    /// The message of the error.
    pub fn message(&self) -> (r: &'static str)
        ensures
            r@ == (match self {
                MxErrors::WrongMxCellType => "Wrong cell type"@,
                MxErrors::MxCellNotFound => "Cell not found"@,
            }),
    {
        match self {
            MxErrors::WrongMxCellType => "Wrong cell type",
            MxErrors::MxCellNotFound => "Cell not found",
        }
    }
}

} // verus!
