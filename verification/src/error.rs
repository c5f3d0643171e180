use vstd::prelude::*;

verus! {

/// The failures a mutating call can surface. Every check is local and
/// immediate: the first failing check ends the call, and the state record is
/// left exactly as it was.
#[derive(Debug)]
pub enum ContractError {
    /// The sender does not match the role the operation requires.
    Unauthorized,
    /// The operation is lock-gated and the record is locked.
    ContractLocked,
    /// The supplied metric value lies outside `[0, 10000)`.
    InvalidEcostate,
}

} // verus!
