//! The fields shared by the three query actions: action query, break query and verify checksum.
use super::query::action_query::ActionQueryRef;
use vstd::prelude::*;

verus! {

/// Adds a condition on the execution of the next group of actions: the fields of a query
/// action, whichever of the three op codes it is sent under.
pub type QueryAction<'data> = ActionQueryRef<'data>;

} // verus!
