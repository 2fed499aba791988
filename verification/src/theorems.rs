//! What holds of the custody state machine in every state, proved of the
//! model that the operations are verified against.

use vstd::prelude::*;
use crate::address::native_address_of;
use crate::caip::namespace_kind;
use crate::caip::namespace_of;
use crate::caip::Namespace;
use crate::error::not_locked;
use crate::error::Failure;
use crate::error::unsupported_namespace;
use crate::model::answer;
use crate::model::created;
use crate::model::event_network;
use crate::model::lock_effect;
use crate::model::lock_rejection;
use crate::model::register_lock_rejection;
use crate::model::register_rejection;
use crate::model::rejection;
use crate::model::release_effect;
use crate::model::release_rejection;
use crate::model::released_to;
use crate::model::run;
use crate::model::step;
use crate::model::validation_rejection;
use crate::model::Action;
use crate::msg::event_kind;
use crate::msg::EventKind;
use crate::msg::EventView;
use crate::msg::QueryMsg;
use crate::state::BindingView;
use crate::state::StateView;

verus! {

/// Lock exclusivity: a lock succeeds exactly when the ownable is unlocked and
/// the caller's derived address is the owner. Then only the flag changes;
/// otherwise the lock fails and the state is as it was.
pub proof fn lemma_lock_exclusive(s: StateView, sender: Seq<char>, caller: Option<Seq<char>>)
    ensures
        lock_rejection(s, caller) is None <==> !s.locked && caller == Some(s.owner),
        rejection(s, Action::Lock { sender }) is Some ==> step(s, Action::Lock { sender }) == s,
        rejection(s, Action::Lock { sender }) is None ==> step(s, Action::Lock { sender })
            == lock_effect(s) && lock_effect(s).locked && lock_effect(s).owner == s.owner,
{
}

/// An event that matches the binding, is of a supported namespace and is
/// signed by the owner it names: one that releases the ownable if the
/// ownable is locked.
pub open spec fn releases_when_locked(s: StateView, sender: Seq<char>, event: EventView) -> bool {
    register_lock_rejection(StateView { locked: true, ..s }, sender, event) is None
}

/// Release requires lock: releasing an unlocked ownable fails as not locked,
/// and so does every lock event that would release it were it locked. The
/// state, and with it the owner, stays as it was.
pub proof fn lemma_release_requires_lock(s: StateView, sender: Seq<char>, event: EventView)
    requires
        !s.locked,
    ensures
        release_rejection(s) == Some(not_locked()),
        releases_when_locked(s, sender, event) ==> register_lock_rejection(s, sender, event)
            == Some(not_locked()),
        releases_when_locked(s, sender, event) && event_kind(event.event_type) == EventKind::Lock
            ==> step(
            s,
            Action::ExternalEvent { sender, event },
        ) == s,
{
}

/// Atomic release: after a release the owner is the new owner and the ownable
/// is unlocked, both at once and nothing else changed; an external event
/// leaves either that state or the state it found, never one between them.
pub proof fn lemma_release_atomic(s: StateView, to: Seq<char>, sender: Seq<char>, event: EventView)
    ensures
        release_effect(s, to).owner == to,
        !release_effect(s, to).locked,
        release_effect(s, to) == (StateView { owner: to, locked: false, ..s }),
        ({
            let after = step(s, Action::ExternalEvent { sender, event });
            after == s || (after.owner == released_to(s, event) && !after.locked && s.locked)
        }),
{
}

/// Binding immutability, one message at a time: no message changes the
/// binding, the issuer or the network tag.
pub proof fn lemma_step_keeps_binding(s: StateView, action: Action)
    ensures
        step(s, action).nft == s.nft,
        step(s, action).issuer == s.issuer,
        step(s, action).network_id == s.network_id,
{
}

/// No series of messages changes the binding, the issuer or the network tag.
pub proof fn lemma_run_keeps_binding(s: StateView, actions: Seq<Action>)
    ensures
        run(s, actions).nft == s.nft,
        run(s, actions).issuer == s.issuer,
        run(s, actions).network_id == s.network_id,
    decreases actions.len(),
{
    if actions.len() > 0 {
        lemma_step_keeps_binding(s, actions[0]);
        lemma_run_keeps_binding(step(s, actions[0]), actions.drop_first());
    }
}

/// Binding immutability for the lifetime of an ownable: whatever messages
/// follow its creation, the binding is the one supplied at creation, and the
/// issuer is the creator.
pub proof fn lemma_binding_immutable(
    network_id: u8,
    owner: Seq<char>,
    nft: Option<BindingView>,
    package: Seq<char>,
    actions: Seq<Action>,
)
    ensures
        created(network_id, owner, nft, package).nft == nft,
        run(created(network_id, owner, nft, package), actions).nft == nft,
        run(created(network_id, owner, nft, package), actions).issuer == owner,
        run(created(network_id, owner, nft, package), actions).network_id == network_id,
{
    lemma_run_keeps_binding(created(network_id, owner, nft, package), actions);
}

/// The order of the checks on a lock event: an event that does not match the
/// binding is refused for that, whoever signed it, whatever its namespace is
/// and whether or not the ownable is locked.
pub proof fn lemma_mismatch_decides_first(
    s: StateView,
    sender: Seq<char>,
    other_sender: Seq<char>,
    event: EventView,
)
    requires
        validation_rejection(s, event) is Some,
    ensures
        register_lock_rejection(s, sender, event) == validation_rejection(s, event),
        register_lock_rejection(s, sender, event) == register_lock_rejection(
            StateView { locked: !s.locked, ..s },
            other_sender,
            event,
        ),
{
}

/// Namespace whitelist: a lock event that matches the binding but whose
/// network is of an unsupported namespace is refused with that network as
/// the unknown chain, whoever signed it and whatever the lock state is.
pub proof fn lemma_unsupported_namespace_refused(s: StateView, sender: Seq<char>, event: EventView)
    requires
        event_kind(event.event_type) == EventKind::Lock,
        validation_rejection(s, event) is None,
        namespace_kind(namespace_of(event_network(event))) == Namespace::Unsupported,
    ensures
        register_rejection(s, sender, event) == Some(unsupported_namespace(event_network(event))),
        step(s, Action::ExternalEvent { sender, event }) == s,
{
}

/// Idempotent queries: an answer depends on the state alone, so asking again
/// of the same state gives the same answer; and a refused message is no
/// mutation.
pub proof fn lemma_queries_idempotent(
    s: StateView,
    again: StateView,
    question: QueryMsg,
    action: Action,
)
    ensures
        s == again ==> answer(s, question) == answer(again, question),
        rejection(s, action) is Some ==> answer(step(s, action), question) == answer(s, question),
{
}

/// No owner can undo a lock: a locked ownable stays locked under every
/// command, and only an external event that is not refused unlocks it.
pub proof fn lemma_only_release_unlocks(s: StateView, action: Action)
    requires
        s.locked,
        !step(s, action).locked,
    ensures
        action is ExternalEvent,
        rejection(s, action) is None,
{
}

/// The consumed amount never decreases and, once within the capacity, stays
/// within it.
pub proof fn lemma_counter_monotone(s: StateView, action: Action)
    requires
        s.config is Some,
    ensures
        step(s, action).config is Some,
        step(s, action).config->0.max_capacity == s.config->0.max_capacity,
        step(s, action).config->0.current_amount >= s.config->0.current_amount,
        s.config->0.wf() ==> step(s, action).config->0.wf(),
{
}

/// Every method of a cookie is implemented: no message is refused as not
/// implemented.
pub proof fn lemma_every_method_is_implemented(s: StateView, action: Action)
    ensures
        rejection(s, action) != Some(Failure::NotImplemented),
{
}

/// Only the owner changes an ownable by a command.
pub proof fn lemma_commands_need_owner(s: StateView, action: Action)
    requires
        !(action is ExternalEvent),
        rejection(s, action) is None,
    ensures
        match action {
            Action::Lock { sender } => native_address_of(s.network_id, sender)
                == Some(s.owner),
            Action::Transfer { sender, to } => native_address_of(
                s.network_id,
                sender,
            ) == Some(s.owner),
            Action::Eat { sender, amount } => native_address_of(
                s.network_id,
                sender,
            ) == Some(s.owner),
            Action::ExternalEvent { sender, event } => true,
        },
{
}

} // verus!
