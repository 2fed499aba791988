//! The operations of an ownable. Each takes the state as an explicit handle,
//! either changes it as the model says or refuses and leaves it untouched.
//!
//! An operation that needs the signer's address comes in two forms: one that
//! takes the sender's public key and derives the address, and one (`*_as`,
//! [`authorize_release`]) that takes the outcome of the derivation and holds
//! all the rules.

use vstd::prelude::*;
use vstd::pervasive::unreached;
use vstd::string::StringExecFns;
use crate::address::base58_decoded;
use crate::address::derive_evm_address;
use crate::address::derive_native_address;
use crate::address::evm_text;
use crate::address::native_address_of;
use crate::address::native_text;
use crate::address::EvmAddress;
use crate::address::NativeAddress;
use crate::caip::parse_namespace;
use crate::caip::Namespace;
use crate::error::ContractError;
use crate::error::Failure;
use crate::model::admissible;
use crate::model::answer;
use crate::model::authorization_rejection;
use crate::model::claimed_owner;
use crate::model::created;
use crate::model::eat_effect;
use crate::model::eat_rejection;
use crate::model::eat_report;
use crate::model::event_admissible;
use crate::model::event_network;
use crate::model::fails_with_cause;
use crate::model::instantiate_report;
use crate::model::lock_effect;
use crate::model::lock_rejection;
use crate::model::lock_report;
use crate::model::outcome_is;
use crate::model::register_lock_rejection;
use crate::model::register_rejection;
use crate::model::register_report;
use crate::model::rejection;
use crate::model::release_effect;
use crate::model::release_rejection;
use crate::model::release_report;
use crate::model::released_to;
use crate::model::step;
use crate::model::Action;
use crate::model::transfer_effect;
use crate::model::transfer_rejection;
use crate::model::transfer_report;
use crate::model::validation_rejection;
use crate::msg::event_kind;
use crate::msg::parse_event_kind;
use crate::msg::EventKind;
use crate::msg::ExecuteMsg;
use crate::msg::ExternalEventMsg;
use crate::msg::InfoResponse;
use crate::msg::InstantiateMsg;
use crate::msg::QueryMsg;
use crate::msg::QueryResponse;
use crate::msg::Response;
use crate::state::copy_optional_binding;
use crate::state::optional_binding;
use crate::state::Config;
use crate::state::Metadata;
use crate::state::OwnableInfo;
use crate::state::OwnableState;
use crate::state::COOKIE_CAPACITY;
use crate::text::bool_text;
use crate::text::copy_optional_text;
use crate::text::u8_text;

verus! {

/// Creates a cookie for an owner whose address was derived already.
///
/// Fails exactly when the derivation failed, and with the failure it gave.
/// Otherwise the owner is also the issuer, the ownable is unlocked, nothing is
/// eaten, and the binding is the one the message supplies.
pub fn instantiate_as(
    owner: Result<NativeAddress, cosmwasm_std::StdError>,
    sender: &str,
    msg: InstantiateMsg,
) -> (result: Result<(OwnableState, Response), ContractError>)
    ensures
        match native_text(owner) {
            Some(address) => result matches Ok(made) && made.0@ == created(
                msg.network_id,
                address,
                optional_binding(msg.nft),
                msg.package@,
            ) && made.1@ == instantiate_report(sender@),
            None => result matches Err(e) && e@ == Failure::Std,
        },
        owner matches Err(cause) ==> fails_with_cause(result, cause),
{
    let owner = match owner {
        Ok(address) => address,
        Err(e) => {
            return Err(ContractError::Std(e));
        },
    };
    let config = Config { max_capacity: COOKIE_CAPACITY, current_amount: 0 };
    let info = OwnableInfo {
        owner: owner.clone(),
        issuer: owner,
        ownable_type: Some(String::from_str("cookie")),
    };
    let state = OwnableState {
        network_id: msg.network_id,
        info,
        nft: msg.nft,
        locked: false,
        config: Some(config),
        metadata: Metadata::cookie(),
        package_cid: msg.package,
    };
    let capacity = u8_text(config.max_capacity);
    let response = Response::new().add_attribute("method", "instantiate").add_attribute(
        "owner",
        sender,
    ).add_attribute("issuer", sender).add_attribute("current_amount", capacity.as_str());
    assert(response@ =~= instantiate_report(sender@));
    Ok((state, response))
}

/// Creates a cookie owned by the sender.
///
/// The owner is the home-chain address of the sender's public key under the
/// network tag of the message; the creation fails exactly when that address
/// cannot be derived.
pub fn instantiate(sender: &str, msg: InstantiateMsg) -> (result: Result<
    (OwnableState, Response),
    ContractError,
>)
    ensures
        match native_address_of(msg.network_id, sender@) {
            Some(address) => result matches Ok(made) && made.0@ == created(
                msg.network_id,
                address,
                optional_binding(msg.nft),
                msg.package@,
            ) && made.1@ == instantiate_report(sender@),
            None => result matches Err(e) && e@ == Failure::Std,
        },
        result is Ok <==> (msg.network_id == 0x4c || msg.network_id == 0x54) && base58_decoded(
            sender@,
        ) is Some,
{
    let owner = derive_native_address(msg.network_id, sender);
    instantiate_as(owner, sender, msg)
}

/// Locks the ownable for a caller whose address was derived already.
pub fn lock_as(state: &mut OwnableState, caller: Result<NativeAddress, cosmwasm_std::StdError>) -> (result:
    Result<Response, ContractError>)
    ensures
        outcome_is(
            result,
            old(state)@,
            final(state)@,
            lock_rejection(old(state)@, native_text(caller)),
            lock_effect(old(state)@),
            lock_report(),
        ),
        caller matches Err(cause) ==> fails_with_cause(result, cause),
{
    let caller = match caller {
        Ok(address) => address,
        Err(e) => {
            return Err(ContractError::Std(e));
        },
    };
    if !caller.same_as(&state.info.owner) {
        return Err(ContractError::unauthorized("Unauthorized"));
    }
    if state.locked {
        return Err(ContractError::lock("Already locked"));
    }
    state.locked = true;
    let flag = bool_text(state.locked);
    let response = Response::new().add_attribute("method", "try_lock").add_attribute(
        "is_locked",
        flag.as_str(),
    );
    assert(response@ =~= lock_report());
    Ok(response)
}

/// Locks the ownable. Only the owner can, and only while it is unlocked.
pub fn try_lock(state: &mut OwnableState, sender: &str) -> (result: Result<Response, ContractError>)
    ensures
        outcome_is(
            result,
            old(state)@,
            final(state)@,
            lock_rejection(old(state)@, native_address_of(old(state).network_id, sender@)),
            lock_effect(old(state)@),
            lock_report(),
        ),
{
    let caller = derive_native_address(state.network_id, sender);
    lock_as(state, caller)
}

/// Releases a locked ownable to a new owner: the owner changes and the lock
/// is cleared in one step, or nothing changes.
///
/// This is the transition itself, not a command: no message of a user
/// reaches it but a lock event that [`authorize_release`] has accepted.
pub fn try_release(state: &mut OwnableState, to: NativeAddress) -> (result: Result<
    Response,
    ContractError,
>)
    ensures
        outcome_is(
            result,
            old(state)@,
            final(state)@,
            release_rejection(old(state)@),
            release_effect(old(state)@, to@),
            release_report(to@),
        ),
{
    if !state.locked {
        return Err(ContractError::lock("Not locked"));
    }
    let flag = bool_text(false);
    let response = Response::new().add_attribute("method", "try_release").add_attribute(
        "is_locked",
        flag.as_str(),
    ).add_attribute("owner", to.text.as_str());
    assert(response@ =~= release_report(to@));
    state.info.owner = to;
    state.locked = false;
    Ok(response)
}

/// Hands the ownable to `to`, for a caller whose address was derived already.
pub fn transfer_as(
    state: &mut OwnableState,
    caller: Result<NativeAddress, cosmwasm_std::StdError>,
    to: NativeAddress,
) -> (result: Result<Response, ContractError>)
    ensures
        outcome_is(
            result,
            old(state)@,
            final(state)@,
            transfer_rejection(old(state)@, native_text(caller)),
            transfer_effect(old(state)@, to@),
            transfer_report(to@),
        ),
        caller matches Err(cause) ==> !old(state).locked ==> fails_with_cause(result, cause),
{
    if state.locked {
        return Err(ContractError::lock("Unable to transfer a locked ownable"));
    }
    let caller = match caller {
        Ok(address) => address,
        Err(e) => {
            return Err(ContractError::Std(e));
        },
    };
    if !caller.same_as(&state.info.owner) {
        return Err(ContractError::unauthorized("Unauthorized transfer attempt"));
    }
    let response = Response::new().add_attribute("method", "try_transfer").add_attribute(
        "new_owner",
        to.text.as_str(),
    );
    assert(response@ =~= transfer_report(to@));
    state.info.owner = to;
    Ok(response)
}

/// Hands the ownable to `to`. Only the owner can, and only while it is
/// unlocked; the lock state stays as it is.
pub fn try_transfer(state: &mut OwnableState, sender: &str, to: NativeAddress) -> (result: Result<
    Response,
    ContractError,
>)
    ensures
        outcome_is(
            result,
            old(state)@,
            final(state)@,
            transfer_rejection(old(state)@, native_address_of(old(state).network_id, sender@)),
            transfer_effect(old(state)@, to@),
            transfer_report(to@),
        ),
{
    let caller = derive_native_address(state.network_id, sender);
    transfer_as(state, caller, to)
}

/// Raises the consumed amount to `amount`, for a caller whose address was
/// derived already.
///
/// The amount may neither fall below what is consumed already nor exceed the
/// capacity, so a counter that is within its capacity stays within it.
pub fn eat_as(
    state: &mut OwnableState,
    caller: Result<NativeAddress, cosmwasm_std::StdError>,
    amount: u8,
) -> (result: Result<Response, ContractError>)
    ensures
        outcome_is(
            result,
            old(state)@,
            final(state)@,
            eat_rejection(old(state)@, native_text(caller), amount),
            eat_effect(old(state)@, amount),
            eat_report(amount),
        ),
        caller matches Err(cause) ==> !old(state).locked ==> fails_with_cause(result, cause),
{
    if state.locked {
        return Err(ContractError::lock("Unable to eat cookie"));
    }
    let caller = match caller {
        Ok(address) => address,
        Err(e) => {
            return Err(ContractError::Std(e));
        },
    };
    if !caller.same_as(&state.info.owner) {
        return Err(ContractError::unauthorized("Unable to eat cookie"));
    }
    match state.config {
        None => Err(ContractError::custom("No config found")),
        Some(config) => {
            if amount < config.current_amount || amount > config.max_capacity {
                return Err(ContractError::custom("Attempt to eat more than available"));
            }
            state.config = Some(
                Config { max_capacity: config.max_capacity, current_amount: amount },
            );
            let eaten = u8_text(amount);
            let response = Response::new().add_attribute("method", "try_eat").add_attribute(
                "new_amount",
                eaten.as_str(),
            );
            assert(response@ =~= eat_report(amount));
            Ok(response)
        },
    }
}

/// Raises the consumed amount to `amount`. Only the owner can, and only while
/// the ownable is unlocked.
pub fn try_eat(state: &mut OwnableState, sender: &str, amount: u8) -> (result: Result<
    Response,
    ContractError,
>)
    ensures
        outcome_is(
            result,
            old(state)@,
            final(state)@,
            eat_rejection(old(state)@, native_address_of(old(state).network_id, sender@), amount),
            eat_effect(old(state)@, amount),
            eat_report(amount),
        ),
{
    let caller = derive_native_address(state.network_id, sender);
    eat_as(state, caller, amount)
}

/// The message that a command of `sender` is to the state machine.
pub open spec fn command(sender: Seq<char>, msg: ExecuteMsg) -> Action {
    match msg {
        ExecuteMsg::Transfer { to } => Action::Transfer { sender, to: to@ },
        ExecuteMsg::Lock {  } => Action::Lock { sender },
        ExecuteMsg::Eat { amount } => Action::Eat { sender, amount },
    }
}

/// Carries out a command of the sender: one step of the state machine.
pub fn execute(state: &mut OwnableState, sender: &str, msg: ExecuteMsg) -> (result: Result<
    Response,
    ContractError,
>)
    ensures
        final(state)@ == step(old(state)@, command(sender@, msg)),
        result is Err <==> rejection(old(state)@, command(sender@, msg)) is Some,
        match msg {
            ExecuteMsg::Transfer { to } => outcome_is(
                result,
                old(state)@,
                final(state)@,
                transfer_rejection(old(state)@, native_address_of(old(state).network_id, sender@)),
                transfer_effect(old(state)@, to@),
                transfer_report(to@),
            ),
            ExecuteMsg::Lock {  } => outcome_is(
                result,
                old(state)@,
                final(state)@,
                lock_rejection(old(state)@, native_address_of(old(state).network_id, sender@)),
                lock_effect(old(state)@),
                lock_report(),
            ),
            ExecuteMsg::Eat { amount } => outcome_is(
                result,
                old(state)@,
                final(state)@,
                eat_rejection(
                    old(state)@,
                    native_address_of(old(state).network_id, sender@),
                    amount,
                ),
                eat_effect(old(state)@, amount),
                eat_report(amount),
            ),
        },
{
    match msg {
        ExecuteMsg::Transfer { to } => try_transfer(state, sender, to),
        ExecuteMsg::Lock {  } => try_lock(state, sender),
        ExecuteMsg::Eat { amount } => try_eat(state, sender, amount),
    }
}

/// What a lock event that matches the binding claims.
#[derive(Debug, PartialEq, Eq)]
pub struct LockClaim {
    /// The public key of the owner the event names.
    pub owner: String,
    /// The network the event was observed on.
    pub network: String,
}

/// Holds a lock event against the stored binding: its attributes must be
/// complete, its token and contract must be those of the binding, and its
/// network must be given and be that of the binding. The first check that
/// fails decides the error.
///
/// An ownable without a binding takes no event whose attributes are complete.
pub fn validate_lock_event(state: &OwnableState, event: &ExternalEventMsg) -> (result: Result<
    LockClaim,
    ContractError,
>)
    requires
        event_admissible(state@, event@),
    ensures
        match validation_rejection(state@, event@) {
            Some(failure) => result matches Err(e) && e@ == failure,
            None => result matches Ok(claim) && claim.owner@ == claimed_owner(event@)
                && claim.network@ == event_network(event@),
        },
{
    let owner = event.attribute("owner");
    let token_id = event.attribute("token_id");
    let contract = event.attribute("contract");
    if owner.as_str().is_empty() || token_id.as_str().is_empty() || contract.as_str().is_empty() {
        return Err(ContractError::InvalidExternalEventArgs {  });
    }
    let binding = match &state.nft {
        Some(binding) => binding,
        None => unreached(),
    };
    if binding.token_id != token_id {
        return Err(ContractError::lock("nft_id mismatch"));
    }
    if binding.contract_address != contract {
        return Err(ContractError::lock("locking contract mismatch"));
    }
    let network = match &event.network {
        Some(network) => network.clone(),
        None => {
            proof {
                reveal_strlit("");
            }
            String::from_str("")
        },
    };
    if network.as_str().is_empty() {
        return Err(ContractError::unknown_chain("No network"));
    }
    if network != binding.network {
        return Err(ContractError::lock("network mismatch"));
    }
    Ok(LockClaim { owner, network })
}

/// Decides whether the signer of a matching lock event may release the
/// ownable, and releases it if so. It takes the three derived addresses as
/// they came out: the signer's and the claimed owner's in the EVM family,
/// which must be equal, and the claimed owner's on the home chain, which
/// becomes the new owner.
pub fn authorize_release(
    state: &mut OwnableState,
    signer: Result<EvmAddress, cosmwasm_std::StdError>,
    claimed: Result<EvmAddress, cosmwasm_std::StdError>,
    new_owner: Result<NativeAddress, cosmwasm_std::StdError>,
) -> (result: Result<Response, ContractError>)
    ensures
        outcome_is(
            result,
            old(state)@,
            final(state)@,
            authorization_rejection(
                old(state)@,
                evm_text(signer),
                evm_text(claimed),
                native_text(new_owner),
            ),
            release_effect(old(state)@, native_text(new_owner)->0),
            release_report(native_text(new_owner)->0),
        ),
        signer matches Err(cause) ==> fails_with_cause(result, cause),
        claimed matches Err(cause) ==> signer is Ok ==> fails_with_cause(result, cause),
        new_owner matches Err(cause) ==> evm_text(signer) is Some && evm_text(signer) == evm_text(
            claimed,
        ) ==> fails_with_cause(result, cause),
{
    let signer = match signer {
        Ok(address) => address,
        Err(e) => {
            return Err(ContractError::Std(e));
        },
    };
    let claimed = match claimed {
        Ok(address) => address,
        Err(e) => {
            return Err(ContractError::Std(e));
        },
    };
    if !signer.same_as(&claimed) {
        return Err(ContractError::unauthorized("Only the owner can release an ownable"));
    }
    let new_owner = match new_owner {
        Ok(address) => address,
        Err(e) => {
            return Err(ContractError::Std(e));
        },
    };
    try_release(state, new_owner)
}

/// Takes a lock event signed by `sender` and, where it matches the binding
/// and the sender is the owner it names, releases the ownable to that owner's
/// home-chain address.
///
/// Nothing is derived before the event has matched the binding and its
/// namespace is known to be supported.
pub fn try_register_lock(state: &mut OwnableState, sender: &str, event: &ExternalEventMsg) -> (result:
    Result<Response, ContractError>)
    requires
        event_admissible(old(state)@, event@),
    ensures
        outcome_is(
            result,
            old(state)@,
            final(state)@,
            register_lock_rejection(old(state)@, sender@, event@),
            release_effect(old(state)@, released_to(old(state)@, event@)),
            release_report(released_to(old(state)@, event@)),
        ),
{
    let claim = match validate_lock_event(state, event) {
        Ok(claim) => claim,
        Err(e) => {
            return Err(e);
        },
    };
    match parse_namespace(claim.network.as_str()) {
        Namespace::Eip155 => {
            let signer = derive_evm_address(sender);
            let claimed = derive_evm_address(claim.owner.as_str());
            let new_owner = derive_native_address(state.network_id, claim.owner.as_str());
            authorize_release(state, signer, claimed, new_owner)
        },
        Namespace::Unsupported => Err(ContractError::unknown_chain(claim.network.as_str())),
    }
}

/// Whether the ownable can take an external event at all: a lock event whose
/// attributes are complete needs a binding to be held against. Every other
/// event can be taken, and is answered with its refusal.
pub fn can_register(state: &OwnableState, event: &ExternalEventMsg) -> (ok: bool)
    ensures
        ok == admissible(state@, (Action::ExternalEvent { sender: Seq::empty(), event: event@ })),
        ok == (event_kind(event@.event_type) == EventKind::Lock ==> event_admissible(
            state@,
            event@,
        )),
{
    match parse_event_kind(event.event_type.as_str()) {
        EventKind::Lock => {},
        EventKind::Unrecognized => {
            return true;
        },
    }
    let owner = event.attribute("owner");
    let token_id = event.attribute("token_id");
    let contract = event.attribute("contract");
    if owner.as_str().is_empty() || token_id.as_str().is_empty() || contract.as_str().is_empty() {
        return true;
    }
    state.nft.is_some()
}

/// Routes an external event by its kind: one step of the state machine. Only
/// `lock` is known; it releases the ownable as [`try_register_lock`] says.
/// The identifier of the ownable is not read.
pub fn register_external_event(
    state: &mut OwnableState,
    sender: &str,
    event: &ExternalEventMsg,
    _ownable_id: String,
) -> (result: Result<Response, ContractError>)
    requires
        event_kind(event@.event_type) == EventKind::Lock ==> event_admissible(old(state)@, event@),
    ensures
        outcome_is(
            result,
            old(state)@,
            final(state)@,
            register_rejection(old(state)@, sender@, event@),
            release_effect(old(state)@, released_to(old(state)@, event@)),
            register_report(),
        ),
        final(state)@ == step(
            old(state)@,
            (Action::ExternalEvent { sender: sender@, event: event@ }),
        ),
{
    match parse_event_kind(event.event_type.as_str()) {
        EventKind::Lock => match try_register_lock(state, sender, event) {
            Ok(_) => {
                let response = Response::new().add_attribute(
                    "method",
                    "register_external_event",
                ).add_attribute("event_type", "lock");
                assert(response@ =~= register_report());
                Ok(response)
            },
            Err(e) => Err(e),
        },
        EventKind::Unrecognized => Err(ContractError::unknown_event(event.event_type.as_str())),
    }
}

/// Who owns the ownable, who issued it, and what it is bound to.
pub fn query_ownable_info(state: &OwnableState) -> (info: InfoResponse)
    ensures
        QueryResponse::Info(info)@ == answer(state@, QueryMsg::GetInfo {  }),
{
    InfoResponse {
        owner: state.info.owner.clone(),
        issuer: state.info.issuer.clone(),
        nft: copy_optional_binding(&state.nft),
        ownable_type: copy_optional_text(&state.info.ownable_type),
    }
}

/// The descriptive metadata.
pub fn query_ownable_metadata(state: &OwnableState) -> (meta: Metadata)
    ensures
        QueryResponse::Metadata(meta)@ == answer(state@, QueryMsg::GetMetadata {  }),
{
    state.metadata.clone()
}

/// The resource counter.
pub fn query_ownable_widget_state(state: &OwnableState) -> (config: Option<Config>)
    ensures
        QueryResponse::WidgetState(config)@ == answer(state@, QueryMsg::GetWidgetState {  }),
{
    state.config
}

/// The lock flag.
pub fn query_lock_state(state: &OwnableState) -> (locked: bool)
    ensures
        QueryResponse::Locked(locked)@ == answer(state@, QueryMsg::IsLocked {  }),
{
    state.locked
}

/// Answers a question. The state is only read, and the answer depends on
/// nothing else.
pub fn query(state: &OwnableState, msg: QueryMsg) -> (response: QueryResponse)
    ensures
        response@ == answer(state@, msg),
{
    match msg {
        QueryMsg::GetInfo {  } => QueryResponse::Info(query_ownable_info(state)),
        QueryMsg::GetMetadata {  } => QueryResponse::Metadata(query_ownable_metadata(state)),
        QueryMsg::GetWidgetState {  } => QueryResponse::WidgetState(
            query_ownable_widget_state(state),
        ),
        QueryMsg::IsLocked {  } => QueryResponse::Locked(query_lock_state(state)),
    }
}

} // verus!
