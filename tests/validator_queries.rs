use ream_rpc_validator::balances::{get_validator_balances_from_state, ValidatorBalancesResponse};
use ream_rpc_validator::error::{ApiError, StoreError};
use ream_rpc_validator::id::{ValidatorID, ID};
use ream_rpc_validator::query::ValidatorBalanceQuery;
use ream_rpc_validator::text::to_hex_string;
use ream_rpc_validator::types::{BeaconState, Validator};
use ream_rpc_validator::validator::{
    find_validator, get_validator_from_state, head_state_id, validator_status, ValidatorData,
};

const FAR_FUTURE_EPOCH: u64 = u64::MAX;

fn validator(key_byte: u8, exit_epoch: u64) -> Validator {
    Validator {
        pubkey: [key_byte; 48],
        withdrawal_credentials: [0; 32],
        effective_balance: 32_000_000_000,
        slashed: false,
        activation_eligibility_epoch: 0,
        activation_epoch: 0,
        exit_epoch,
        withdrawable_epoch: FAR_FUTURE_EPOCH,
    }
}

fn three_validators() -> BeaconState {
    BeaconState {
        slot: 64,
        validators: vec![
            validator(0xa1, FAR_FUTURE_EPOCH),
            validator(0xb2, 1),
            validator(0xc3, 7),
        ],
        balances: vec![32000000000, 31500000000, 0],
    }
}

fn head_at_slot(slot: u64) -> BeaconState {
    BeaconState { slot, validators: vec![], balances: vec![] }
}

fn pubkey_string(key_byte: u8) -> String {
    to_hex_string(&[key_byte; 48])
}

fn listing(resp: &ValidatorBalancesResponse) -> Vec<(String, String)> {
    resp.data.iter().map(|b| (b.index.clone(), b.balance.clone())).collect()
}

fn filter(ids: &[&str]) -> ValidatorBalanceQuery {
    ValidatorBalanceQuery { id: Some(ids.iter().map(|s| s.to_string()).collect()) }
}

#[test]
fn lookup_by_each_index_returns_that_validator() {
    let state = three_validators();
    for i in 0..3u64 {
        let data = get_validator_from_state(&state, &ValidatorID::Index(i), Ok(head_at_slot(64))).unwrap();
        assert_eq!(data.index, i);
        assert_eq!(data.balance, state.balances[i as usize]);
        assert_eq!(data.validator, state.validators[i as usize]);
    }
}

#[test]
fn lookup_by_pubkey_finds_the_holder() {
    let state = three_validators();
    let data = get_validator_from_state(&state, &ValidatorID::Address([0xc3; 48]), Ok(head_at_slot(64))).unwrap();
    assert_eq!(data.index, 2);
    assert_eq!(data.balance, 0);
    assert_eq!(data.validator.pubkey, [0xc3; 48]);
}

#[test]
fn lookup_by_duplicate_pubkey_takes_the_first() {
    let mut state = three_validators();
    state.validators[2].pubkey = [0xb2; 48];
    assert_eq!(find_validator(&state, &ValidatorID::Address([0xb2; 48])).unwrap(), 1);
}

#[test]
fn lookup_by_unknown_pubkey_fails() {
    let state = three_validators();
    match get_validator_from_state(&state, &ValidatorID::Address([0x01; 48]), Ok(head_at_slot(64))) {
        Err(ApiError::ValidatorNotFound(m)) => {
            assert_eq!(m, format!("Validator not found for pubkey: 0x{}", "01".repeat(48)));
        }
        other => panic!("unexpected {other:?}"),
    }
}

#[test]
fn lookup_past_the_end_fails_with_validator_not_found() {
    let state = three_validators();
    for (i, msg) in [(3u64, "Validator not found for index: 3"), (5, "Validator not found for index: 5")] {
        match get_validator_from_state(&state, &ValidatorID::Index(i), Ok(head_at_slot(64))) {
            Err(ApiError::ValidatorNotFound(m)) => assert_eq!(m, msg),
            other => panic!("unexpected {other:?}"),
        }
    }
    match get_validator_from_state(&state, &ValidatorID::Index(u64::MAX), Err(ApiError::InternalError)) {
        Err(ApiError::ValidatorNotFound(m)) => {
            assert_eq!(m, "Validator not found for index: 18446744073709551615")
        }
        other => panic!("unexpected {other:?}"),
    }
}

#[test]
fn lookup_with_missing_balance_fails_with_not_found() {
    let mut state = three_validators();
    state.balances.truncate(2);
    match get_validator_from_state(&state, &ValidatorID::Index(2), Ok(head_at_slot(64))) {
        Err(ApiError::NotFound(m)) => assert_eq!(m, "Validator not found for index: 2"),
        other => panic!("unexpected {other:?}"),
    }
}

#[test]
fn lookup_passes_on_a_head_failure() {
    let state = three_validators();
    let r = get_validator_from_state(&state, &ValidatorID::Index(0), Err(ApiError::InternalError));
    assert!(matches!(r, Err(ApiError::InternalError)));
    let r = get_validator_from_state(
        &state,
        &ValidatorID::Index(0),
        Err(ApiError::NotFound("Failed to find highest slot".to_string())),
    );
    assert!(matches!(r, Err(ApiError::NotFound(m)) if m == "Failed to find highest slot"));
}

#[test]
fn lookup_status_is_relative_to_the_head() {
    let state = three_validators();
    // validator 1 exits at epoch 1; the queried state is at epoch 2, the head at epoch 1
    let data = get_validator_from_state(&state, &ValidatorID::Index(1), Ok(head_at_slot(32))).unwrap();
    assert_eq!(data.status, "active_ongoing");
    let data = get_validator_from_state(&state, &ValidatorID::Index(1), Ok(head_at_slot(64))).unwrap();
    assert_eq!(data.status, "offline");
}

#[test]
fn status_boundaries() {
    let head = head_at_slot(160);
    assert_eq!(head.get_current_epoch(), 5);
    assert_eq!(validator_status(&validator(1, 4), &head), "offline");
    assert_eq!(validator_status(&validator(1, 5), &head), "active_ongoing");
    assert_eq!(validator_status(&validator(1, 6), &head), "active_ongoing");
    assert_eq!(validator_status(&validator(1, FAR_FUTURE_EPOCH), &head), "active_ongoing");
    assert_eq!(validator_status(&validator(1, 0), &head_at_slot(31)), "active_ongoing");
    assert_eq!(validator_status(&validator(1, 0), &head_at_slot(32)), "offline");
}

#[test]
fn head_state_id_cases() {
    assert!(matches!(head_state_id(Ok(Some(77))), Ok(ID::Slot(77))));
    assert!(matches!(head_state_id(Ok(None)), Err(ApiError::NotFound(m)) if m == "Failed to find highest slot"));
    assert!(matches!(head_state_id(Err(StoreError)), Err(ApiError::InternalError)));
}

#[test]
fn validator_data_new_keeps_fields() {
    let v = validator(9, 3);
    let d = ValidatorData::new(4, 17, "offline".to_string(), v);
    assert_eq!((d.index, d.balance, d.status.as_str(), d.validator), (4, 17, "offline", v));
}

#[test]
fn hex_form_of_pubkey() {
    assert_eq!(to_hex_string(&[0xab, 0x01, 0x00, 0xff]), "0xab0100ff");
    assert_eq!(to_hex_string(&[]), "0x");
}

#[test]
fn balances_without_filter_and_with_empty_filter_agree() {
    let state = three_validators();
    let all = vec![
        ("0".to_string(), "32000000000".to_string()),
        ("1".to_string(), "31500000000".to_string()),
        ("2".to_string(), "0".to_string()),
    ];
    let none = get_validator_balances_from_state(&state, &ValidatorBalanceQuery { id: None }).unwrap();
    let empty = get_validator_balances_from_state(&state, &ValidatorBalanceQuery { id: Some(vec![]) }).unwrap();
    assert_eq!(listing(&none), all);
    assert_eq!(listing(&empty), all);
    assert!(!none.execution_optimistic && !none.finalized);
}

#[test]
fn balances_filter_by_one_index() {
    let state = three_validators();
    let resp = get_validator_balances_from_state(&state, &filter(&["1"])).unwrap();
    assert_eq!(listing(&resp), vec![("1".to_string(), "31500000000".to_string())]);
    let data = find_validator(&state, &ValidatorID::Index(5));
    assert!(matches!(data, Err(ApiError::ValidatorNotFound(_))));
}

#[test]
fn balances_filter_too_many_ids() {
    let state = three_validators();
    let ids: Vec<String> = (0..1001).map(|i| i.to_string()).collect();
    let r = get_validator_balances_from_state(&state, &ValidatorBalanceQuery { id: Some(ids) });
    assert!(matches!(r, Err(ApiError::TooManyValidatorIds(m)) if m == "Too many validator IDs in request"));
}

#[test]
fn balances_filter_of_exactly_the_limit() {
    let state = three_validators();
    let ids: Vec<String> = (0..1000).map(|i| i.to_string()).collect();
    let resp = get_validator_balances_from_state(&state, &ValidatorBalanceQuery { id: Some(ids) }).unwrap();
    assert_eq!(resp.data.len(), 3);
    let mut ids: Vec<String> = (0..1000).map(|i| i.to_string()).collect();
    ids.push("0".to_string());
    let resp = get_validator_balances_from_state(&state, &ValidatorBalanceQuery { id: Some(ids) }).unwrap();
    assert_eq!(resp.data.len(), 3);
}

#[test]
fn balances_filter_by_index_and_pubkey_lists_once() {
    let state = three_validators();
    let key = pubkey_string(0xb2);
    let resp = get_validator_balances_from_state(&state, &filter(&["1", &key])).unwrap();
    assert_eq!(listing(&resp), vec![("1".to_string(), "31500000000".to_string())]);
}

#[test]
fn balances_filter_mixes_kinds_in_index_order() {
    let state = three_validators();
    let key = pubkey_string(0xa1);
    let resp = get_validator_balances_from_state(&state, &filter(&["2", &key, "9", "01"])).unwrap();
    assert_eq!(
        listing(&resp),
        vec![("0".to_string(), "32000000000".to_string()), ("2".to_string(), "0".to_string())]
    );
}

#[test]
fn balances_missing_entry_reads_zero() {
    let mut state = three_validators();
    state.balances = vec![5];
    let resp = get_validator_balances_from_state(&state, &ValidatorBalanceQuery { id: None }).unwrap();
    assert_eq!(
        listing(&resp),
        vec![
            ("0".to_string(), "5".to_string()),
            ("1".to_string(), "0".to_string()),
            ("2".to_string(), "0".to_string())
        ]
    );
}
