//! The custody state machine as mathematics: for each operation, when it is
//! refused and with what, and what it does to the state when it is not.
//!
//! The executable operations are verified against these functions.

use vstd::prelude::*;
use crate::address::evm_address_of;
use crate::address::native_address_of;
use crate::caip::namespace_kind;
use crate::caip::namespace_of;
use crate::caip::Namespace;
use crate::error::{
    already_locked, contract_mismatch, eat_locked, eat_unauthorized, invalid_consumption,
    lock_unauthorized, network_mismatch, no_config, no_network, not_locked, release_unauthorized,
    token_mismatch, transfer_locked, transfer_unauthorized, unknown_event_type,
    unsupported_namespace, ContractError, Failure,
};
use crate::msg::attribute_text;
use crate::msg::event_kind;
use crate::msg::AnswerView;
use crate::msg::EventKind;
use crate::msg::EventView;
use crate::msg::InfoView;
use crate::msg::QueryMsg;
use crate::msg::Response;
use crate::state::cookie_metadata;
use crate::state::BindingView;
use crate::state::Config;
use crate::state::StateView;
use crate::state::COOKIE_CAPACITY;
use crate::text::decimal;
use crate::text::flag_text;

verus! {

/// The keys and values of a response, in order.
pub type Report = Seq<(Seq<char>, Seq<char>)>;

/// The first of two checks that refuses.
pub open spec fn first_failure(first: Option<Failure>, second: Option<Failure>) -> Option<Failure> {
    if first is Some {
        first
    } else {
        second
    }
}

/// How the result of an operation and the state it leaves relate to the
/// model: a refusal is reported as it is and leaves the state as it was; a
/// success gives the report and the new state together.
pub open spec fn outcome_is(
    result: Result<Response, ContractError>,
    before: StateView,
    after: StateView,
    rejection: Option<Failure>,
    effect: StateView,
    report: Report,
) -> bool {
    match rejection {
        Some(failure) => result matches Err(e) && e@ == failure && after == before,
        None => result matches Ok(response) && response@ == report && after == effect,
    }
}

/// The operation failed, and with the very host failure that is its cause.
pub open spec fn fails_with_cause<T>(
    result: Result<T, ContractError>,
    cause: cosmwasm_std::StdError,
) -> bool {
    result matches Err(ContractError::Std(e)) && e == cause
}

/// The state of a cookie that `owner` has just created.
pub open spec fn created(
    network_id: u8,
    owner: Seq<char>,
    nft: Option<BindingView>,
    package: Seq<char>,
) -> StateView {
    StateView {
        network_id,
        owner,
        issuer: owner,
        ownable_type: Some("cookie"@),
        nft,
        locked: false,
        config: Some(Config { max_capacity: COOKIE_CAPACITY, current_amount: 0 }),
        metadata: cookie_metadata(),
        package_cid: package,
    }
}

/// What a creation reports.
pub open spec fn instantiate_report(sender: Seq<char>) -> Report {
    seq![
        ("method"@, "instantiate"@),
        ("owner"@, sender),
        ("issuer"@, sender),
        ("current_amount"@, decimal(COOKIE_CAPACITY as nat)),
    ]
}

/// Why a lock by `caller` is refused, if it is: the caller must be known and
/// be the owner, and the ownable must not be locked already.
pub open spec fn lock_rejection(s: StateView, caller: Option<Seq<char>>) -> Option<Failure> {
    if caller is None {
        Some(Failure::Std)
    } else if caller != Some(s.owner) {
        Some(lock_unauthorized())
    } else if s.locked {
        Some(already_locked())
    } else {
        None
    }
}

/// The state after a lock.
pub open spec fn lock_effect(s: StateView) -> StateView {
    StateView { locked: true, ..s }
}

/// What a lock reports.
pub open spec fn lock_report() -> Report {
    seq![("method"@, "try_lock"@), ("is_locked"@, flag_text(true))]
}

/// Why a release is refused, if it is: only a locked ownable is released.
pub open spec fn release_rejection(s: StateView) -> Option<Failure> {
    if !s.locked {
        Some(not_locked())
    } else {
        None
    }
}

/// The state after a release to `to`: the new owner and the cleared lock,
/// together.
pub open spec fn release_effect(s: StateView, to: Seq<char>) -> StateView {
    StateView { owner: to, locked: false, ..s }
}

/// What a release reports.
pub open spec fn release_report(to: Seq<char>) -> Report {
    seq![("method"@, "try_release"@), ("is_locked"@, flag_text(false)), ("owner"@, to)]
}

/// Why a transfer by `caller` is refused, if it is: the ownable must not be
/// locked, and the caller must be known and be the owner.
pub open spec fn transfer_rejection(s: StateView, caller: Option<Seq<char>>) -> Option<Failure> {
    if s.locked {
        Some(transfer_locked())
    } else if caller is None {
        Some(Failure::Std)
    } else if caller != Some(s.owner) {
        Some(transfer_unauthorized())
    } else {
        None
    }
}

/// The state after a transfer to `to`.
pub open spec fn transfer_effect(s: StateView, to: Seq<char>) -> StateView {
    StateView { owner: to, ..s }
}

/// What a transfer reports.
pub open spec fn transfer_report(to: Seq<char>) -> Report {
    seq![("method"@, "try_transfer"@), ("new_owner"@, to)]
}

/// Why raising the consumed amount to `amount` is refused, if it is: the
/// ownable must not be locked, the caller must be known and be the owner, a
/// counter must exist, and the amount must neither fall below the counter nor
/// exceed the capacity.
pub open spec fn eat_rejection(s: StateView, caller: Option<Seq<char>>, amount: u8) -> Option<
    Failure,
> {
    if s.locked {
        Some(eat_locked())
    } else if caller is None {
        Some(Failure::Std)
    } else if caller != Some(s.owner) {
        Some(eat_unauthorized())
    } else {
        match s.config {
            None => Some(no_config()),
            Some(config) => if amount < config.current_amount || amount > config.max_capacity {
                Some(invalid_consumption())
            } else {
                None
            },
        }
    }
}

/// The state after the consumed amount was raised to `amount`.
pub open spec fn eat_effect(s: StateView, amount: u8) -> StateView {
    match s.config {
        Some(config) => StateView {
            config: Some(Config { current_amount: amount, ..config }),
            ..s
        },
        None => s,
    }
}

/// What a consumption reports.
pub open spec fn eat_report(amount: u8) -> Report {
    seq![("method"@, "try_eat"@), ("new_amount"@, decimal(amount as nat))]
}

/// The public key that a lock event names as the releasing owner.
pub open spec fn claimed_owner(event: EventView) -> Seq<char> {
    attribute_text(event, "owner"@)
}

/// The network of an event, empty where it names none.
pub open spec fn event_network(event: EventView) -> Seq<char> {
    match event.network {
        Some(network) => network,
        None => Seq::empty(),
    }
}

/// A lock event must carry an owner, a token and a contract, none of them
/// empty.
pub open spec fn claim_rejection(event: EventView) -> Option<Failure> {
    if attribute_text(event, "owner"@).len() == 0 || attribute_text(event, "token_id"@).len() == 0
        || attribute_text(event, "contract"@).len() == 0 {
        Some(Failure::InvalidExternalEventArgs)
    } else {
        None
    }
}

/// The token and the contract of the event must be those of the binding,
/// character for character.
pub open spec fn binding_rejection(binding: BindingView, event: EventView) -> Option<Failure> {
    if binding.token_id != attribute_text(event, "token_id"@) {
        Some(token_mismatch())
    } else if binding.contract_address != attribute_text(event, "contract"@) {
        Some(contract_mismatch())
    } else {
        None
    }
}

/// The event must name a network, and it must be that of the binding.
pub open spec fn network_rejection(binding: BindingView, event: EventView) -> Option<Failure> {
    if event_network(event).len() == 0 {
        Some(no_network())
    } else if event_network(event) != binding.network {
        Some(network_mismatch())
    } else {
        None
    }
}

/// A lock event can be held against a state only where the state has a
/// binding, once the event's attributes are complete.
pub open spec fn event_admissible(s: StateView, event: EventView) -> bool {
    claim_rejection(event) is None ==> s.nft is Some
}

/// Why a lock event does not match the stored binding, if it does not:
/// attributes first, then token and contract, then the network.
pub open spec fn validation_rejection(s: StateView, event: EventView) -> Option<Failure>
    recommends
        event_admissible(s, event),
{
    first_failure(
        claim_rejection(event),
        first_failure(binding_rejection(s.nft->0, event), network_rejection(s.nft->0, event)),
    )
}

/// Only events of a supported namespace release an ownable.
pub open spec fn namespace_rejection(event: EventView) -> Option<Failure> {
    match namespace_kind(namespace_of(event_network(event))) {
        Namespace::Eip155 => None,
        Namespace::Unsupported => Some(unsupported_namespace(event_network(event))),
    }
}

/// Why the signer of a matching event may not release the ownable, if they
/// may not: the signer's EVM address and that of the claimed owner must both
/// be known and be equal, the claimed owner's home-chain address must be
/// known, and the ownable must be locked.
pub open spec fn authorization_rejection(
    s: StateView,
    signer: Option<Seq<char>>,
    claimed: Option<Seq<char>>,
    new_owner: Option<Seq<char>>,
) -> Option<Failure> {
    if signer is None || claimed is None {
        Some(Failure::Std)
    } else if signer != claimed {
        Some(release_unauthorized())
    } else if new_owner is None {
        Some(Failure::Std)
    } else {
        release_rejection(s)
    }
}

/// Why a lock event signed by `sender` does not release the ownable, if it
/// does not. The order is fixed: the event is matched against the binding
/// before its namespace is read, and the namespace is read before any address
/// is derived.
pub open spec fn register_lock_rejection(s: StateView, sender: Seq<char>, event: EventView) -> Option<
    Failure,
>
    recommends
        event_admissible(s, event),
{
    first_failure(
        validation_rejection(s, event),
        first_failure(
            namespace_rejection(event),
            authorization_rejection(
                s,
                evm_address_of(sender),
                evm_address_of(claimed_owner(event)),
                native_address_of(s.network_id, claimed_owner(event)),
            ),
        ),
    )
}

/// The address a lock event releases the ownable to: the home-chain address
/// of the owner it claims.
pub open spec fn released_to(s: StateView, event: EventView) -> Seq<char> {
    match native_address_of(s.network_id, claimed_owner(event)) {
        Some(address) => address,
        None => Seq::empty(),
    }
}

/// Why an external event signed by `sender` is refused, if it is: an event
/// of an unrecognized kind always is.
pub open spec fn register_rejection(s: StateView, sender: Seq<char>, event: EventView) -> Option<
    Failure,
> {
    match event_kind(event.event_type) {
        EventKind::Lock => register_lock_rejection(s, sender, event),
        EventKind::Unrecognized => Some(unknown_event_type(event.event_type)),
    }
}

/// What a registered external event reports.
pub open spec fn register_report() -> Report {
    seq![("method"@, "register_external_event"@), ("event_type"@, "lock"@)]
}

/// One message to an ownable, with the public key of its sender.
pub enum Action {
    Lock { sender: Seq<char> },
    Transfer { sender: Seq<char>, to: Seq<char> },
    Eat { sender: Seq<char>, amount: u8 },
    ExternalEvent { sender: Seq<char>, event: EventView },
}

/// Whether the ownable can take the message at all: a lock event needs a
/// binding to be held against, once its attributes are complete.
pub open spec fn admissible(s: StateView, action: Action) -> bool {
    match action {
        Action::ExternalEvent { sender, event } => event_kind(event.event_type) == EventKind::Lock
            ==> event_admissible(s, event),
        _ => true,
    }
}

/// Why a message is refused, if it is.
pub open spec fn rejection(s: StateView, action: Action) -> Option<Failure>
    recommends
        admissible(s, action),
{
    match action {
        Action::Lock { sender } => lock_rejection(s, native_address_of(s.network_id, sender)),
        Action::Transfer { sender, to } => transfer_rejection(
            s,
            native_address_of(s.network_id, sender),
        ),
        Action::Eat { sender, amount } => eat_rejection(
            s,
            native_address_of(s.network_id, sender),
            amount,
        ),
        Action::ExternalEvent { sender, event } => register_rejection(s, sender, event),
    }
}

/// The state a message leaves where it is not refused.
pub open spec fn effect(s: StateView, action: Action) -> StateView {
    match action {
        Action::Lock { sender } => lock_effect(s),
        Action::Transfer { sender, to } => transfer_effect(s, to),
        Action::Eat { sender, amount } => eat_effect(s, amount),
        Action::ExternalEvent { sender, event } => release_effect(s, released_to(s, event)),
    }
}

/// The state after one message: changed as the message says, or, where the
/// message is refused, as it was.
pub open spec fn step(s: StateView, action: Action) -> StateView
    recommends
        admissible(s, action),
{
    if rejection(s, action) is None {
        effect(s, action)
    } else {
        s
    }
}

/// The state after a series of messages, taken one at a time in order.
pub open spec fn run(s: StateView, actions: Seq<Action>) -> StateView
    decreases actions.len(),
{
    if actions.len() == 0 {
        s
    } else {
        run(step(s, actions[0]), actions.drop_first())
    }
}

/// The answer to a query: a function of the state alone.
pub open spec fn answer(s: StateView, question: QueryMsg) -> AnswerView {
    match question {
        QueryMsg::GetInfo {  } => AnswerView::Info(
            InfoView { owner: s.owner, issuer: s.issuer, nft: s.nft, ownable_type: s.ownable_type },
        ),
        QueryMsg::GetMetadata {  } => AnswerView::Metadata(s.metadata),
        QueryMsg::GetWidgetState {  } => AnswerView::WidgetState(s.config),
        QueryMsg::IsLocked {  } => AnswerView::Locked(s.locked),
    }
}

} // verus!
