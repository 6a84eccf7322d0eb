//! The query parameters of the read operation.

use vstd::prelude::*;

verus! {

/// Spec-level image of a [`QueryParams`].
pub ghost struct QueryParamsView {
    pub timestamp: Seq<char>,
    pub hash: Seq<char>,
    pub signature: Seq<char>,
}

/// The authenticated parameters of a get request.
#[derive(Debug)]
pub struct QueryParams {
    pub timestamp: String,
    pub hash: String,
    pub signature: String,
}

impl View for QueryParams {
    type V = QueryParamsView;

    open spec fn view(&self) -> QueryParamsView {
        QueryParamsView {
            timestamp: self.timestamp@,
            hash: self.hash@,
            signature: self.signature@,
        }
    }
}

} // verus!
