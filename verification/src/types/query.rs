//! The request sent to the validator source.

use vstd::prelude::*;

verus! {

/// The body of a request to the validator source. `t` names what is asked
/// for; on the wire the field is called `type`.
#[derive(Debug)]
pub struct Query {
    pub t: String,
}

/// The discriminator that asks for the validator summaries.
pub open spec fn validator_summaries() -> Seq<char> {
    "validatorSummaries"@
}

impl Query {
    /// The query for the summaries of all validators.
    pub fn validator_summaries() -> (query: Query)
        ensures
            query.t@ == validator_summaries(),
    {
        Query { t: String::from_str("validatorSummaries") }
    }
}

} // verus!
