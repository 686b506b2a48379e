use vstd::prelude::*;

use crate::types::AccountID;

verus! {

/// An account row as the storage layer hands it over: the unique id and the
/// email it was looked up by. Loaded once per request and never mutated here.
#[derive(Clone, Debug)]
pub struct Account {
    pub id: AccountID,
    pub email: String,
}

} // verus!
