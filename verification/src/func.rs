//! Constructors for function call expressions.

use vstd::prelude::*;

use crate::expr::Expr;
use crate::item::FuncCall;
use crate::item::FuncRef;

verus! {

/// Construct a function call from a reference and its arguments.
pub fn func(fr: FuncRef, args: Vec<Expr>) -> (r: FuncCall)
    ensures
        r == FuncCall(fr, args),
{
    FuncCall(fr, args)
}

/// Construct a call to the `sum` aggregate function.
pub fn sum(arg: Expr) -> (r: FuncCall)
    ensures
        r matches FuncCall(FuncRef::Func(f), a) && f.0@ == "sum"@ && a@ == seq![arg],
{
    let mut args: Vec<Expr> = Vec::new();
    args.push(arg);
    proof {
        assert(args@ =~= seq![arg]);
    }
    FuncCall(FuncRef::func("sum"), args)
}

/// Construct a call to the `count` aggregate function.
pub fn count(arg: Expr) -> (r: FuncCall)
    ensures
        r matches FuncCall(FuncRef::Func(f), a) && f.0@ == "count"@ && a@ == seq![arg],
{
    let mut args: Vec<Expr> = Vec::new();
    args.push(arg);
    proof {
        assert(args@ =~= seq![arg]);
    }
    FuncCall(FuncRef::func("count"), args)
}

/// Construct a call to the `avg` aggregate function.
pub fn avg(arg: Expr) -> (r: FuncCall)
    ensures
        r matches FuncCall(FuncRef::Func(f), a) && f.0@ == "avg"@ && a@ == seq![arg],
{
    let mut args: Vec<Expr> = Vec::new();
    args.push(arg);
    proof {
        assert(args@ =~= seq![arg]);
    }
    FuncCall(FuncRef::func("avg"), args)
}

/// Construct a call to the `min` aggregate function.
pub fn min(arg: Expr) -> (r: FuncCall)
    ensures
        r matches FuncCall(FuncRef::Func(f), a) && f.0@ == "min"@ && a@ == seq![arg],
{
    let mut args: Vec<Expr> = Vec::new();
    args.push(arg);
    proof {
        assert(args@ =~= seq![arg]);
    }
    FuncCall(FuncRef::func("min"), args)
}

/// Construct a call to the `max` aggregate function.
pub fn max(arg: Expr) -> (r: FuncCall)
    ensures
        r matches FuncCall(FuncRef::Func(f), a) && f.0@ == "max"@ && a@ == seq![arg],
{
    let mut args: Vec<Expr> = Vec::new();
    args.push(arg);
    proof {
        assert(args@ =~= seq![arg]);
    }
    FuncCall(FuncRef::func("max"), args)
}

} // verus!
