use vstd::prelude::*;

use crate::state::{Addr, State};

verus! {

/// The creation message: every field of the initial record except the owner,
/// which is the authenticated deployer, and the released counter, which
/// starts at zero.
pub struct InitMsg {
    pub region: String,
    pub beneficiary: Addr,
    pub oracle: Addr,
    pub ecostate: i64,
    pub total_tokens: i64,
}

/// The five mutating operations.
pub enum HandleMsg {
    UpdateEcostate { ecostate: i64 },
    Lock {},
    Unlock {},
    ChangeBeneficiary { beneficiary: Addr },
    TransferOwnership { owner: Addr },
}

/// The two read-only projections.
pub enum QueryMsg {
    GetState {},
    GetEcostate {},
}

/// The full-state view: every field of the record.
pub struct StateResponse {
    pub state: State,
}

/// The metric-only view.
pub struct EcostateResponse {
    pub ecostate: i64,
}

/// What a query returns: one of the two projections, matching the variant of
/// [`QueryMsg`] that asked for it.
pub enum QueryResponse {
    State(StateResponse),
    Ecostate(EcostateResponse),
}

} // verus!
