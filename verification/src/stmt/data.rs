//! The row-producing data forms a `Result` wrapper or an `INSERT` source
//! can take.

use vstd::prelude::*;

verus! {

/// A row-producing statement body: a `SELECT`, a `VALUES` list, or a set
/// operation.
#[derive(Debug, PartialEq, Eq)]
pub enum Data {
    Select(Box<crate::stmt::select::Select>),
    Values(crate::stmt::values::Values),
    Binary(crate::stmt::binary::Binary),
}

/// The mathematical model of a data form: `VALUES` rows are lifted to
/// their model so appended rows stay visible.
pub ghost enum DataV {
    Select(crate::stmt::select::Select),
    Values(crate::stmt::values::ValuesV),
    Binary(crate::stmt::binary::Binary),
}

impl View for Data {
    type V = DataV;

    open spec fn view(&self) -> DataV {
        match self {
            Data::Select(s) => DataV::Select(**s),
            Data::Values(v) => DataV::Values(v@),
            Data::Binary(b) => DataV::Binary(*b),
        }
    }
}

impl Clone for Data {
    fn clone(&self) -> Self
        decreases self,
    {
        match self {
            Data::Select(s) => Data::Select(Box::new((**s).clone())),
            Data::Values(v) => Data::Values(v.clone()),
            Data::Binary(b) => Data::Binary(b.clone()),
        }
    }
}

} // verus!
