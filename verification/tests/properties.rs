//! Scenario tests for the lock gate, the saturating payout, the range check,
//! the owner-only operations, and token conservation.

use ecodata_payout::contract::{handle, init, query, query_state};
use ecodata_payout::error::ContractError;
use ecodata_payout::msg::{HandleMsg, InitMsg, QueryMsg, QueryResponse};
use ecodata_payout::state::{Addr, State};

/// A canonical address of the fixed width 20 the host's canonicalizer uses:
/// the identifier's bytes, zero-padded.
fn canonical(human: &str) -> Addr {
    let mut bytes = human.as_bytes().to_vec();
    assert!(bytes.len() <= 20);
    bytes.resize(20, 0);
    Addr(bytes)
}

fn init_helper() -> State {
    let msg = InitMsg {
        beneficiary: canonical("beneficiary"),
        ecostate: 3500,
        oracle: canonical("oracle"),
        region: String::from("angeles national forest"),
        total_tokens: 100000,
    };
    init(canonical("creator"), msg).unwrap()
}

fn assert_same_state(a: &State, b: &State) {
    assert_eq!(a.region, b.region);
    assert_eq!(a.beneficiary.0, b.beneficiary.0);
    assert_eq!(a.owner.0, b.owner.0);
    assert_eq!(a.oracle.0, b.oracle.0);
    assert_eq!(a.ecostate, b.ecostate);
    assert_eq!(a.total_tokens, b.total_tokens);
    assert_eq!(a.released_tokens, b.released_tokens);
    assert_eq!(a.is_locked, b.is_locked);
}

#[test]
fn lock_blocks_updates_until_unlock() {
    let mut state = init_helper();

    handle(&mut state, &canonical("creator"), HandleMsg::Lock {}).unwrap();
    assert!(state.is_locked);

    let before = state.clone();
    let res = handle(
        &mut state,
        &canonical("oracle"),
        HandleMsg::UpdateEcostate { ecostate: 4000 },
    );
    assert!(matches!(res, Err(ContractError::ContractLocked)));
    assert_same_state(&before, &state);

    handle(&mut state, &canonical("creator"), HandleMsg::Unlock {}).unwrap();
    assert!(!state.is_locked);

    handle(
        &mut state,
        &canonical("oracle"),
        HandleMsg::UpdateEcostate { ecostate: 4000 },
    )
    .unwrap();
    assert_eq!(4000, state.ecostate);
    assert_eq!(500, state.released_tokens);
    assert_eq!(99500, state.total_tokens);
}

#[test]
fn lock_is_checked_before_authorization() {
    let mut state = init_helper();
    handle(&mut state, &canonical("creator"), HandleMsg::Lock {}).unwrap();

    // a sender with no role at all gets the lock error, not the auth error
    let res = handle(
        &mut state,
        &canonical("anyone"),
        HandleMsg::ChangeBeneficiary {
            beneficiary: canonical("anyone"),
        },
    );
    assert!(matches!(res, Err(ContractError::ContractLocked)));

    let res = handle(
        &mut state,
        &canonical("anyone"),
        HandleMsg::TransferOwnership {
            owner: canonical("anyone"),
        },
    );
    assert!(matches!(res, Err(ContractError::ContractLocked)));

    let res = handle(
        &mut state,
        &canonical("anyone"),
        HandleMsg::UpdateEcostate { ecostate: 4000 },
    );
    assert!(matches!(res, Err(ContractError::ContractLocked)));

    // lock and unlock are still owner-gated while locked
    let res = handle(&mut state, &canonical("anyone"), HandleMsg::Unlock {});
    assert!(matches!(res, Err(ContractError::Unauthorized)));
    handle(&mut state, &canonical("creator"), HandleMsg::Unlock {}).unwrap();
    assert!(!state.is_locked);
}

#[test]
fn payout_saturates_at_remaining_tokens() {
    let msg = InitMsg {
        beneficiary: canonical("beneficiary"),
        ecostate: 3500,
        oracle: canonical("oracle"),
        region: String::from("angeles national forest"),
        total_tokens: 100,
    };
    let mut state = init(canonical("creator"), msg).unwrap();

    // delta = 150 exceeds the 100 tokens left: the cap moves 100, not 150
    handle(
        &mut state,
        &canonical("oracle"),
        HandleMsg::UpdateEcostate { ecostate: 3650 },
    )
    .unwrap();
    assert_eq!(0, state.total_tokens);
    assert_eq!(100, state.released_tokens);
    assert_eq!(3650, state.ecostate);

    // once drained, further rises move nothing more
    handle(
        &mut state,
        &canonical("oracle"),
        HandleMsg::UpdateEcostate { ecostate: 5000 },
    )
    .unwrap();
    assert_eq!(0, state.total_tokens);
    assert_eq!(100, state.released_tokens);
    assert_eq!(5000, state.ecostate);
}

#[test]
fn update_rejects_out_of_range_values() {
    let mut state = init_helper();
    let before = state.clone();

    let res = handle(
        &mut state,
        &canonical("oracle"),
        HandleMsg::UpdateEcostate { ecostate: 10000 },
    );
    assert!(matches!(res, Err(ContractError::InvalidEcostate)));
    assert_same_state(&before, &state);

    let res = handle(
        &mut state,
        &canonical("oracle"),
        HandleMsg::UpdateEcostate { ecostate: -1 },
    );
    assert!(matches!(res, Err(ContractError::InvalidEcostate)));
    assert_same_state(&before, &state);

    // the boundary values 0 and 9999 are both admissible
    handle(
        &mut state,
        &canonical("oracle"),
        HandleMsg::UpdateEcostate { ecostate: 0 },
    )
    .unwrap();
    assert_eq!(0, state.ecostate);
    handle(
        &mut state,
        &canonical("oracle"),
        HandleMsg::UpdateEcostate { ecostate: 9999 },
    )
    .unwrap();
    assert_eq!(9999, state.ecostate);
}

#[test]
fn init_rejects_out_of_range_ecostate() {
    let msg = InitMsg {
        beneficiary: canonical("beneficiary"),
        ecostate: 10000,
        oracle: canonical("oracle"),
        region: String::from("angeles national forest"),
        total_tokens: 100000,
    };
    let res = init(canonical("creator"), msg);
    assert!(matches!(res, Err(ContractError::InvalidEcostate)));
}

#[test]
fn admin_operations_are_owner_only() {
    let mut state = init_helper();
    let before = state.clone();

    for msg in [
        HandleMsg::Lock {},
        HandleMsg::Unlock {},
        HandleMsg::ChangeBeneficiary {
            beneficiary: canonical("anyone"),
        },
        HandleMsg::TransferOwnership {
            owner: canonical("anyone"),
        },
    ] {
        let res = handle(&mut state, &canonical("anyone"), msg);
        assert!(matches!(res, Err(ContractError::Unauthorized)));
        assert_same_state(&before, &state);
    }

    // the oracle holds no administrative role either
    let res = handle(&mut state, &canonical("oracle"), HandleMsg::Lock {});
    assert!(matches!(res, Err(ContractError::Unauthorized)));
    assert_same_state(&before, &state);
}

#[test]
fn owner_changes_beneficiary_and_transfers_ownership() {
    let mut state = init_helper();

    handle(
        &mut state,
        &canonical("creator"),
        HandleMsg::ChangeBeneficiary {
            beneficiary: canonical("charity"),
        },
    )
    .unwrap();
    assert_eq!(canonical("charity").0, state.beneficiary.0);

    handle(
        &mut state,
        &canonical("creator"),
        HandleMsg::TransferOwnership {
            owner: canonical("heir"),
        },
    )
    .unwrap();
    assert_eq!(canonical("heir").0, state.owner.0);

    // the old owner has no power left; the new one has it all
    let res = handle(&mut state, &canonical("creator"), HandleMsg::Lock {});
    assert!(matches!(res, Err(ContractError::Unauthorized)));
    handle(&mut state, &canonical("heir"), HandleMsg::Lock {}).unwrap();
    assert!(state.is_locked);
}

#[test]
fn full_state_view_reflects_every_field() {
    let state = init_helper();
    match query(&state, QueryMsg::GetState {}) {
        QueryResponse::State(value) => {
            assert_eq!("angeles national forest", value.state.region);
            assert_eq!(canonical("beneficiary").0, value.state.beneficiary.0);
            assert_eq!(canonical("creator").0, value.state.owner.0);
            assert_eq!(canonical("oracle").0, value.state.oracle.0);
            assert_eq!(3500, value.state.ecostate);
            assert_eq!(100000, value.state.total_tokens);
            assert_eq!(0, value.state.released_tokens);
            assert!(!value.state.is_locked);
        }
        _ => panic!("expected the full-state view"),
    }

    let copy = query_state(&state);
    assert_same_state(&state, &copy.state);
}

#[test]
fn token_sum_is_conserved_across_updates() {
    let mut state = init_helper();
    for ecostate in [5000, 2000, 9999, 0, 7500] {
        handle(
            &mut state,
            &canonical("oracle"),
            HandleMsg::UpdateEcostate { ecostate },
        )
        .unwrap();
        assert_eq!(100000, state.total_tokens + state.released_tokens);
        assert!(state.total_tokens >= 0);
        assert!(state.released_tokens >= 0);
        assert_eq!(ecostate, state.ecostate);
    }
}
