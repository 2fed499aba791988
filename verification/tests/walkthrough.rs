use cosmwasm_std::StdError;
use ownable_cookie::address::{EvmAddress, NativeAddress};
use ownable_cookie::caip::{parse_namespace, Namespace};
use ownable_cookie::contract::{
    authorize_release, execute, instantiate, query, try_lock, validate_lock_event,
};
use ownable_cookie::error::ContractError;
use ownable_cookie::msg::{ExecuteMsg, ExternalEventMsg, InstantiateMsg, QueryMsg, QueryResponse};
use ownable_cookie::state::{Config, ExternalBinding, OwnableState};

const OWNER_KEY: &str = "jesTu2BpszP8DKSoi1R5G6ggjHrsrVnboLdx6V47vkoR";
const OWNER_ADDRESS: &str = "3Jf41MBQQ3SJ7bowWcoHpzEKeFNTFYTRGkU";

fn fresh() -> OwnableState {
    let msg = InstantiateMsg {
        network_id: b'L',
        nft: Some(ExternalBinding {
            token_id: "7".to_string(),
            contract_address: "0xABC".to_string(),
            network: "eip155:1".to_string(),
            lock_service: None,
        }),
        package: "bafy-package".to_string(),
    };
    instantiate(OWNER_KEY, msg).unwrap().0
}

fn locked() -> OwnableState {
    let mut state = fresh();
    try_lock(&mut state, OWNER_KEY).unwrap();
    state
}

fn lock_event() -> ExternalEventMsg {
    ExternalEventMsg::new("lock".to_string(), Some("eip155:1".to_string()))
        .with_attribute("owner".to_string(), "0xOWNER".to_string())
        .with_attribute("token_id".to_string(), "7".to_string())
        .with_attribute("contract".to_string(), "0xABC".to_string())
}

fn evm(text: &str) -> Result<EvmAddress, StdError> {
    Ok(EvmAddress::new(text.to_string()))
}

#[test]
fn lock_then_lock_again() {
    let mut state = fresh();
    assert_eq!(query(&state, QueryMsg::IsLocked {}), QueryResponse::Locked(false));
    assert!(try_lock(&mut state, OWNER_KEY).is_ok());
    assert_eq!(query(&state, QueryMsg::IsLocked {}), QueryResponse::Locked(true));
    assert_eq!(
        try_lock(&mut state, OWNER_KEY),
        Err(ContractError::LockError { val: "Already locked".to_string() })
    );
    assert_eq!(query(&state, QueryMsg::IsLocked {}), QueryResponse::Locked(true));
    assert_eq!(state.info.owner.text, OWNER_ADDRESS);
}

#[test]
fn release_event_signed_by_another_is_unauthorized() {
    let mut state = locked();
    let claim = validate_lock_event(&state, &lock_event()).unwrap();
    assert_eq!(claim.owner, "0xOWNER");
    assert_eq!(parse_namespace(&claim.network), Namespace::Eip155);
    let result = authorize_release(
        &mut state,
        evm("0xSOMEONE"),
        evm("0xOWNER"),
        Ok(NativeAddress::new("3JheirOfTheOwner".to_string())),
    );
    assert_eq!(
        result,
        Err(ContractError::Unauthorized {
            val: "Only the owner can release an ownable".to_string()
        })
    );
    assert_eq!(state, locked());
    assert!(state.locked);
    assert_eq!(state.info.owner.text, OWNER_ADDRESS);
}

#[test]
fn release_event_signed_by_the_owner_releases() {
    let mut state = locked();
    let claim = validate_lock_event(&state, &lock_event()).unwrap();
    assert_eq!(parse_namespace(&claim.network), Namespace::Eip155);
    let heir = NativeAddress::new("3JheirOfTheOwner".to_string());
    let result = authorize_release(&mut state, evm("0xOWNER"), evm("0xOWNER"), Ok(heir.clone()));
    assert!(result.is_ok());
    assert_eq!(state.info.owner, heir);
    assert_eq!(query(&state, QueryMsg::IsLocked {}), QueryResponse::Locked(false));
    assert_eq!(state.info.issuer.text, OWNER_ADDRESS);
    assert_eq!(state.nft, locked().nft);
}

#[test]
fn transfer_while_locked_fails() {
    let mut state = locked();
    let to = NativeAddress::new("3Jx9Srf4v2TNMtbtYy5A6bD121pEqSmnwxs".to_string());
    assert_eq!(
        execute(&mut state, OWNER_KEY, ExecuteMsg::Transfer { to }),
        Err(ContractError::LockError { val: "Unable to transfer a locked ownable".to_string() })
    );
    assert_eq!(state.info.owner.text, OWNER_ADDRESS);
    assert_eq!(state, locked());
}

#[test]
fn consume_less_than_the_counter_fails() {
    let mut state = fresh();
    assert!(execute(&mut state, OWNER_KEY, ExecuteMsg::Eat { amount: 2 }).is_ok());
    assert_eq!(
        execute(&mut state, OWNER_KEY, ExecuteMsg::Eat { amount: 1 }),
        Err(ContractError::CustomError { val: "Attempt to eat more than available".to_string() })
    );
    assert_eq!(state.config, Some(Config { max_capacity: 3, current_amount: 2 }));
    assert_eq!(
        query(&state, QueryMsg::GetWidgetState {}),
        QueryResponse::WidgetState(Some(Config { max_capacity: 3, current_amount: 2 }))
    );
}
