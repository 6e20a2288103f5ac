//! The error type surfaced by the keeper.

use vstd::prelude::*;

verus! {

/// A cloneable description of why a connection attempt or a query failed.
///
/// The keeper is a pass-through boundary for failures: it stores the error
/// produced by the single connection attempt and hands an equal value to
/// every caller that asks for the connection afterwards.
#[derive(Debug)]
pub struct QueryError {
    pub message: String,
}

impl View for QueryError {
    type V = Seq<char>;

    open spec fn view(&self) -> Seq<char> {
        self.message@
    }
}

impl QueryError {
    /// Wraps a failure description.
    pub fn new(message: String) -> (r: QueryError)
        ensures
            r@ == message@,
    {
        QueryError { message }
    }
}

impl Clone for QueryError {
    fn clone(&self) -> (r: Self)
        ensures
            r == *self,
    {
        QueryError { message: self.message.clone() }
    }
}

} // verus!
