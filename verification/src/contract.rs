use vstd::prelude::*;

use crate::error::ContractError;
use crate::msg::{EcostateResponse, HandleMsg, InitMsg, QueryMsg, QueryResponse, StateResponse};
use crate::state::{addr_eq, well_formed, Addr, State, StateView};

verus! {

/// Whether a mutating operation is subject to the lock gate.
pub open spec fn lock_gated(msg: HandleMsg) -> bool {
    ||| msg matches HandleMsg::UpdateEcostate { .. }
    ||| msg matches HandleMsg::ChangeBeneficiary { .. }
    ||| msg matches HandleMsg::TransferOwnership { .. }
}

/// The role a mutating operation requires: the oracle for metric updates,
/// the owner for everything else.
pub open spec fn required_signer(s: StateView, msg: HandleMsg) -> Seq<u8> {
    if msg matches HandleMsg::UpdateEcostate { .. } {
        s.oracle
    } else {
        s.owner
    }
}

/// How many tokens a metric change moves from `total_tokens` to
/// `released_tokens`: a positive delta pays out one token per point, capped
/// at what is left; a zero or negative delta moves nothing.
pub open spec fn moved_amount(total_tokens: int, delta: int) -> int {
    if delta > 0 {
        if delta <= total_tokens {
            delta
        } else {
            total_tokens
        }
    } else {
        0
    }
}

/// The record built by a successful init: fields from the message, the
/// deployer as owner, nothing released yet, unlocked.
pub open spec fn init_view(signer: Seq<u8>, msg: InitMsg) -> StateView {
    StateView {
        region: msg.region@,
        beneficiary: msg.beneficiary@,
        owner: signer,
        oracle: msg.oracle@,
        ecostate: msg.ecostate as int,
        total_tokens: msg.total_tokens as int,
        released_tokens: 0,
        is_locked: false,
    }
}

/// The full transition relation of the contract: what one mutating message
/// does to the record, or which error it fails with. Checks run in a fixed
/// order — lock gate first (for the gated operations), then authorization,
/// then, for a metric update, the range check — and the first failure wins.
pub open spec fn handle_transition(s: StateView, signer: Seq<u8>, msg: HandleMsg) -> Result<
    StateView,
    ContractError,
> {
    if lock_gated(msg) && s.is_locked {
        Err(ContractError::ContractLocked)
    } else if signer != required_signer(s, msg) {
        Err(ContractError::Unauthorized)
    } else {
        match msg {
            HandleMsg::Lock {  } => Ok(StateView { is_locked: true, ..s }),
            HandleMsg::Unlock {  } => Ok(StateView { is_locked: false, ..s }),
            HandleMsg::ChangeBeneficiary { beneficiary } => Ok(
                StateView { beneficiary: beneficiary@, ..s },
            ),
            HandleMsg::TransferOwnership { owner } => Ok(StateView { owner: owner@, ..s }),
            HandleMsg::UpdateEcostate { ecostate } => {
                if !(0 <= ecostate < 10000) {
                    Err(ContractError::InvalidEcostate)
                } else {
                    let moved = moved_amount(s.total_tokens, ecostate - s.ecostate);
                    Ok(
                        StateView {
                            ecostate: ecostate as int,
                            total_tokens: s.total_tokens - moved,
                            released_tokens: s.released_tokens + moved,
                            ..s
                        },
                    )
                }
            },
        }
    }
}

/// The ecostate validator: a metric value is admissible exactly when it lies
/// in `[0, 10000)`.
pub fn valid_ecostate(ecostate: &i64) -> (r: Result<i64, ContractError>)
    ensures
        match r {
            Ok(v) => v == ecostate && 0 <= v < 10000,
            Err(e) => e == ContractError::InvalidEcostate && !(0 <= *ecostate < 10000),
        },
{
    if *ecostate >= 0 && *ecostate < 10000 {
        Ok(*ecostate)
    } else {
        Err(ContractError::InvalidEcostate)
    }
}

/// The lock gate: passes exactly when the record is not locked.
pub fn check_lock(state: &State) -> (r: Result<(), ContractError>)
    ensures
        match r {
            Ok(_) => !state.is_locked,
            Err(e) => e == ContractError::ContractLocked && state.is_locked,
        },
{
    if state.is_locked {
        Err(ContractError::ContractLocked)
    } else {
        Ok(())
    }
}

/// Builds the initial record: fields from the message, the authenticated
/// deployer as owner, nothing released, unlocked. Fails only when the metric
/// value is out of range; the host persists the result.
pub fn init(signer: Addr, msg: InitMsg) -> (r: Result<State, ContractError>)
    requires
        msg.total_tokens >= 0,
    ensures
        match r {
            Ok(s) => {
                &&& 0 <= msg.ecostate < 10000
                &&& s@ == init_view(signer@, msg)
                &&& well_formed(s@)
                &&& s@.total_tokens + s@.released_tokens == msg.total_tokens
            },
            Err(e) => e == ContractError::InvalidEcostate && !(0 <= msg.ecostate < 10000),
        },
{
    let ecostate = match valid_ecostate(&msg.ecostate) {
        Ok(v) => v,
        Err(e) => {
            return Err(e);
        },
    };
    Ok(
        State {
            region: msg.region,
            beneficiary: msg.beneficiary,
            owner: signer,
            oracle: msg.oracle,
            ecostate,
            total_tokens: msg.total_tokens,
            released_tokens: 0,
            is_locked: false,
        },
    )
}

/// The message router: applies one mutating message to the record in place.
/// On success the record is exactly what [`handle_transition`] gives; on any
/// failure the record is unchanged and the transition's error is returned.
pub fn handle(state: &mut State, signer: &Addr, msg: HandleMsg) -> (r: Result<(), ContractError>)
    requires
        well_formed(old(state)@),
    ensures
        match handle_transition(old(state)@, signer@, msg) {
            Ok(sv) => r is Ok && final(state)@ == sv,
            Err(e) => (r matches Err(a) && a == e) && final(state)@ == old(state)@,
        },
{
    match msg {
        HandleMsg::Lock {  } => try_set_lock(state, signer, true),
        HandleMsg::Unlock {  } => try_set_lock(state, signer, false),
        HandleMsg::ChangeBeneficiary { beneficiary } => try_change_beneficiary(
            state,
            signer,
            beneficiary,
        ),
        HandleMsg::UpdateEcostate { ecostate } => try_update_ecostate(state, signer, ecostate),
        HandleMsg::TransferOwnership { owner } => try_transfer_ownership(state, signer, owner),
    }
}

/// Sets or clears the lock. Owner-only, and never blocked by the lock gate:
/// the owner can always toggle the lock, even while locked.
pub fn try_set_lock(state: &mut State, signer: &Addr, locked: bool) -> (r: Result<
    (),
    ContractError,
>)
    ensures
        signer@ == old(state)@.owner ==> r is Ok && final(state)@ == (StateView {
            is_locked: locked,
            ..old(state)@
        }),
        signer@ != old(state)@.owner ==> (r matches Err(e) && e == ContractError::Unauthorized)
            && final(state)@ == old(state)@,
{
    if !addr_eq(signer, &state.owner) {
        return Err(ContractError::Unauthorized);
    }
    state.is_locked = locked;
    Ok(())
}

/// Replaces the beneficiary of record. Lock-gated, then owner-only.
pub fn try_change_beneficiary(state: &mut State, signer: &Addr, beneficiary: Addr) -> (r: Result<
    (),
    ContractError,
>)
    ensures
        old(state)@.is_locked ==> (r matches Err(e) && e == ContractError::ContractLocked)
            && final(state)@ == old(state)@,
        !old(state)@.is_locked && signer@ != old(state)@.owner ==> (r matches Err(e) && e
            == ContractError::Unauthorized) && final(state)@ == old(state)@,
        !old(state)@.is_locked && signer@ == old(state)@.owner ==> r is Ok && final(state)@
            == (StateView { beneficiary: beneficiary@, ..old(state)@ }),
{
    if let Err(e) = check_lock(state) {
        return Err(e);
    }
    if !addr_eq(signer, &state.owner) {
        return Err(ContractError::Unauthorized);
    }
    state.beneficiary = beneficiary;
    Ok(())
}

/// Transfers administrative control to a new owner (self-transfer by the
/// current owner). Lock-gated, then owner-only.
pub fn try_transfer_ownership(state: &mut State, signer: &Addr, owner: Addr) -> (r: Result<
    (),
    ContractError,
>)
    ensures
        old(state)@.is_locked ==> (r matches Err(e) && e == ContractError::ContractLocked)
            && final(state)@ == old(state)@,
        !old(state)@.is_locked && signer@ != old(state)@.owner ==> (r matches Err(e) && e
            == ContractError::Unauthorized) && final(state)@ == old(state)@,
        !old(state)@.is_locked && signer@ == old(state)@.owner ==> r is Ok && final(state)@
            == (StateView { owner: owner@, ..old(state)@ }),
{
    if let Err(e) = check_lock(state) {
        return Err(e);
    }
    if !addr_eq(signer, &state.owner) {
        return Err(ContractError::Unauthorized);
    }
    state.owner = owner;
    Ok(())
}

/// Records a new metric reading and runs the payout engine. Lock-gated, then
/// oracle-only, then range-checked; on success the metric always takes the
/// new value, and a positive delta moves that many tokens, capped at what is
/// left.
pub fn try_update_ecostate(state: &mut State, signer: &Addr, ecostate: i64) -> (r: Result<
    (),
    ContractError,
>)
    requires
        well_formed(old(state)@),
    ensures
        match handle_transition(
            old(state)@,
            signer@,
            (HandleMsg::UpdateEcostate { ecostate }),
        ) {
            Ok(sv) => r is Ok && final(state)@ == sv,
            Err(e) => (r matches Err(a) && a == e) && final(state)@ == old(state)@,
        },
{
    if let Err(e) = check_lock(state) {
        return Err(e);
    }
    if !addr_eq(signer, &state.oracle) {
        return Err(ContractError::Unauthorized);
    }
    let validated = match valid_ecostate(&ecostate) {
        Ok(v) => v,
        Err(e) => {
            return Err(e);
        },
    };
    let ecostate_delta = validated - state.ecostate;
    state.ecostate = validated;
    if ecostate_delta > 0 {
        execute_payout(state, ecostate_delta);
    }
    Ok(())
}

/// The payout engine: moves `ecostate_delta` tokens from `total_tokens` to
/// `released_tokens`, saturating at zero remaining tokens. A negative payout
/// is an internal invariant violation; the precondition proves it
/// unreachable, so no runtime guard is needed.
pub fn execute_payout(state: &mut State, ecostate_delta: i64)
    requires
        ecostate_delta > 0,
        old(state)@.total_tokens >= 0,
        old(state)@.released_tokens >= 0,
        old(state)@.total_tokens + old(state)@.released_tokens <= i64::MAX,
    ensures
        final(state)@ == (StateView {
            total_tokens: old(state)@.total_tokens - moved_amount(
                old(state)@.total_tokens,
                ecostate_delta as int,
            ),
            released_tokens: old(state)@.released_tokens + moved_amount(
                old(state)@.total_tokens,
                ecostate_delta as int,
            ),
            ..old(state)@
        }),
{
    if state.total_tokens >= ecostate_delta {
        state.total_tokens = state.total_tokens - ecostate_delta;
        state.released_tokens = state.released_tokens + ecostate_delta;
    } else {
        state.released_tokens = state.released_tokens + state.total_tokens;
        state.total_tokens = 0;
    }
}

/// The query projector: renders the requested read-only view. Queries never
/// check authorization or lock state and never mutate.
pub fn query(state: &State, msg: QueryMsg) -> (r: QueryResponse)
    ensures
        match msg {
            QueryMsg::GetState {  } => r matches QueryResponse::State(sr) && sr.state@ == state@,
            QueryMsg::GetEcostate {  } => r matches QueryResponse::Ecostate(er) && er.ecostate
                == state.ecostate,
        },
{
    match msg {
        QueryMsg::GetState {  } => QueryResponse::State(query_state(state)),
        QueryMsg::GetEcostate {  } => QueryResponse::Ecostate(query_ecostate(state)),
    }
}

/// The full-state view: a copy of every field of the record.
pub fn query_state(state: &State) -> (r: StateResponse)
    ensures
        r.state@ == state@,
{
    StateResponse { state: state.clone() }
}

/// The metric-only view.
pub fn query_ecostate(state: &State) -> (r: EcostateResponse)
    ensures
        r.ecostate == state.ecostate,
{
    EcostateResponse { ecostate: state.ecostate }
}

/// Token conservation: no successful transition changes the sum of
/// `total_tokens` and `released_tokens`, so the sum stays what init supplied.
pub proof fn lemma_token_conservation(s: StateView, signer: Seq<u8>, msg: HandleMsg)
    ensures
        handle_transition(s, signer, msg) matches Ok(ns) ==> ns.total_tokens + ns.released_tokens
            == s.total_tokens + s.released_tokens,
{
}

/// Invariant preservation: every successful transition from a well-formed
/// record yields a well-formed record — the metric stays in `[0, 10000)` and
/// both counters stay nonnegative.
pub proof fn lemma_invariants_preserved(s: StateView, signer: Seq<u8>, msg: HandleMsg)
    requires
        well_formed(s),
    ensures
        handle_transition(s, signer, msg) matches Ok(ns) ==> well_formed(ns),
{
}

/// Oracle authorization: a metric update succeeds only for the oracle, and
/// while unlocked every other sender is rejected as unauthorized (and so, by
/// [`handle`]'s contract, leaves the record unchanged).
pub proof fn lemma_oracle_only_updates(s: StateView, signer: Seq<u8>, ecostate: i64)
    ensures
        handle_transition(s, signer, (HandleMsg::UpdateEcostate { ecostate })) is Ok ==> signer
            == s.oracle,
        !s.is_locked && signer != s.oracle ==> handle_transition(
            s,
            signer,
            (HandleMsg::UpdateEcostate { ecostate }),
        ) == Err::<StateView, ContractError>(ContractError::Unauthorized),
{
}

/// Owner authorization: the four administrative operations succeed only for
/// the owner, and any other sender whom the lock gate does not reject first
/// is rejected as unauthorized (while locked, the gated operations fail with
/// the lock error instead — see [`lemma_lock_gate`]).
pub proof fn lemma_owner_only_admin(s: StateView, signer: Seq<u8>, msg: HandleMsg)
    requires
        !(msg matches HandleMsg::UpdateEcostate { .. }),
    ensures
        handle_transition(s, signer, msg) is Ok ==> signer == s.owner,
        signer != s.owner && !(lock_gated(msg) && s.is_locked) ==> handle_transition(s, signer, msg)
            == Err::<StateView, ContractError>(ContractError::Unauthorized),
{
}

/// The lock gate: while the record is locked, every gated operation fails
/// with the lock error regardless of the sender, before any other check; the
/// owner can still lock and unlock.
pub proof fn lemma_lock_gate(s: StateView, signer: Seq<u8>, msg: HandleMsg)
    requires
        s.is_locked,
    ensures
        lock_gated(msg) ==> handle_transition(s, signer, msg) == Err::<StateView, ContractError>(
            ContractError::ContractLocked,
        ),
        (msg matches HandleMsg::Lock {  } || msg matches HandleMsg::Unlock {  }) && signer
            == s.owner ==> handle_transition(s, signer, msg) is Ok,
{
}

/// The payout rule: when the gates pass and the new value is in range, the
/// metric always takes the new value; a positive delta moves
/// `min(total_tokens, delta)` tokens from `total_tokens` to
/// `released_tokens`, and a zero or negative delta moves nothing.
pub proof fn lemma_payout(s: StateView, signer: Seq<u8>, ecostate: i64)
    requires
        !s.is_locked,
        signer == s.oracle,
        0 <= ecostate < 10000,
    ensures
        handle_transition(s, signer, (HandleMsg::UpdateEcostate { ecostate })) matches Ok(ns) && {
            let delta = ecostate - s.ecostate;
            &&& ns.ecostate == ecostate
            &&& delta > 0 ==> {
                let moved = if delta <= s.total_tokens {
                    delta
                } else {
                    s.total_tokens
                };
                ns.total_tokens == s.total_tokens - moved && ns.released_tokens
                    == s.released_tokens + moved
            }
            &&& delta <= 0 ==> ns.total_tokens == s.total_tokens && ns.released_tokens
                == s.released_tokens
        },
{
}

/// Range validation: when the gates pass but the new value lies outside
/// `[0, 10000)`, the update fails with the range error (and so, by
/// [`handle`]'s contract, leaves the record unchanged).
pub proof fn lemma_invalid_ecostate_rejected(s: StateView, signer: Seq<u8>, ecostate: i64)
    requires
        !s.is_locked,
        signer == s.oracle,
        !(0 <= ecostate < 10000),
    ensures
        handle_transition(s, signer, (HandleMsg::UpdateEcostate { ecostate })) == Err::<
            StateView,
            ContractError,
        >(ContractError::InvalidEcostate),
{
}

} // verus!

