//! The interface a record type implements to name its table and columns.

use vstd::prelude::*;

use crate::item::ColumnRef;
use crate::item::TableRef;

verus! {

/// A record type that knows the table it is stored in and the columns its
/// fields map to, in declaration order.
pub trait Schema {
    /// The table the record type is stored in.
    fn table() -> TableRef;

    /// The column references of the record's fields.
    fn columns() -> Vec<ColumnRef>;
}

} // verus!
