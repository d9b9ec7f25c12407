//! Which value kinds each backend's binding interface can take, and the
//! typed error for the one failure class of parameterized execution.

use vstd::prelude::*;

use crate::value::Null;
use crate::value::Value;

verus! {

/// A database backend a compiled query may be bound against.
#[derive(Clone, Copy, Debug, PartialEq, Eq, Structural)]
pub enum Backend {
    Postgres,
    MySql,
    Sqlite,
}

impl Backend {
    /// The dialect this backend renders under.
    pub fn dialect(&self) -> (d: crate::build::Dialect)
        ensures
            self is Postgres ==> d == crate::build::Dialect::postgres_spec(),
            self is MySql ==> d == crate::build::Dialect::mysql_spec(),
            self is Sqlite ==> d == crate::build::Dialect::sqlite_spec(),
    {
        match self {
            Backend::Postgres => crate::build::Dialect::postgres(),
            Backend::MySql => crate::build::Dialect::mysql(),
            Backend::Sqlite => crate::build::Dialect::sqlite(),
        }
    }
}

/// Whether the backend's native binding interface has a faithful
/// representation for the kind: unsigned integers have none on the
/// backend with numbered placeholders, and the widest unsigned integer
/// has none on the double-quoting repeated-token backend.
pub open spec fn kind_supported(b: Backend, k: Null) -> bool {
    match b {
        Backend::Postgres => !(k == Null::TinyUInt || k == Null::SmallUInt || k == Null::UInt
            || k == Null::BigUInt),
        Backend::MySql => true,
        Backend::Sqlite => k != Null::BigUInt,
    }
}

/// The one failure class of parameterized execution: a value kind with no
/// faithful representation for the chosen backend.
#[derive(Clone, Copy, Debug, PartialEq, Eq, Structural)]
pub struct BindError {
    pub backend: Backend,
    pub kind: Null,
}

/// Whether the backend can bind this value.
pub fn supports(b: Backend, v: &Value) -> (r: bool)
    ensures
        r == kind_supported(b, v.spec_kind()),
{
    let k = v.kind();
    match b {
        Backend::Postgres => !(matches!(k, Null::TinyUInt) || matches!(k, Null::SmallUInt)
            || matches!(k, Null::UInt) || matches!(k, Null::BigUInt)),
        Backend::MySql => true,
        Backend::Sqlite => !matches!(k, Null::BigUInt),
    }
}

/// Check a whole argument list against a backend before binding: `Ok`
/// exactly when every value's kind is supported, otherwise the error
/// names the backend and the first offending value kind.
pub fn check_args(b: Backend, args: &Vec<Value>) -> (r: Result<(), BindError>)
    ensures
        r is Ok <==> forall|i: int|
            0 <= i < args@.len() ==> kind_supported(b, #[trigger] args@[i].spec_kind()),
        r matches Err(e) ==> e.backend == b && exists|i: int|
            0 <= i < args@.len() && #[trigger] args@[i].spec_kind() == e.kind && !kind_supported(
                b,
                e.kind,
            ),
{
    let n = args.len();
    let mut i: usize = 0;
    while i < n
        invariant
            i <= n,
            n == args@.len(),
            forall|j: int| 0 <= j < i ==> kind_supported(b, #[trigger] args@[j].spec_kind()),
        decreases n - i,
    {
        if !supports(b, &args[i]) {
            return Err(BindError { backend: b, kind: args[i].kind() });
        }
        i = i + 1;
    }
    Ok(())
}

} // verus!
