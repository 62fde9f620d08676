use vstd::prelude::*;

use crate::error::{Error, Result};

verus! {

/// The operations that a deadline may bound.
#[derive(Clone, Copy, Debug, PartialEq, Eq, Structural)]
pub enum Operation {
    Connect,
    Send,
    Receive,
}

/// The text of the error reported when `op` overran its deadline.
pub open spec fn timeout_text(op: Operation) -> Seq<char> {
    match op {
        Operation::Connect => "Connect timeout exceeded"@,
        Operation::Send => "Send timeout exceeded"@,
        Operation::Receive => "Receive timeout exceeded"@,
    }
}

/// The error for `op` overrunning its deadline.
pub fn timeout_error(op: Operation) -> (r: Error)
    ensures
        r is Custom,
        r->Custom_0@ == timeout_text(op),
{
    let text: &str = match op {
        Operation::Connect => "Connect timeout exceeded",
        Operation::Send => "Send timeout exceeded",
        Operation::Receive => "Receive timeout exceeded",
    };
    Error::Custom(text.to_owned())
}

/// The result of `op` raced against its deadline: `None` when the deadline
/// came first, in which case the operation's own result is never looked at.
pub fn settle<T>(op: Operation, outcome: Option<Result<T>>) -> (r: Result<T>)
    ensures
        outcome is Some ==> r == outcome->Some_0,
        outcome is None ==> r is Err && r->Err_0 is Custom && r->Err_0->Custom_0@ == timeout_text(
            op,
        ),
{
    match outcome {
        Some(done) => done,
        None => Err(timeout_error(op)),
    }
}

} // verus!
