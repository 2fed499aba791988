//! The messages an ownable takes and the answers it gives.

use vstd::prelude::*;
use vstd::hash_map::StringHashMap;
use vstd::string::StringExecFns;
use crate::address::NativeAddress;
use crate::state::BindingView;
use crate::state::Config;
use crate::state::ExternalBinding;
use crate::state::Metadata;
use crate::state::MetadataView;
use crate::state::optional_binding;
use crate::text::optional_text;
use crate::text::same_text;

verus! {

/// What is needed to create an ownable.
#[derive(Debug, PartialEq, Eq)]
pub struct InstantiateMsg {
    /// The one-character tag of the home chain.
    pub network_id: u8,
    /// The external token to bind the ownable to, if any.
    pub nft: Option<ExternalBinding>,
    /// The content identifier of the package.
    pub package: String,
}

/// A command of the owner.
#[derive(Debug, PartialEq, Eq)]
pub enum ExecuteMsg {
    /// Hand the ownable to another owner.
    Transfer { to: NativeAddress },
    /// Lock the ownable until an external event releases it.
    Lock {},
    /// Raise the consumed amount to `amount`.
    Eat { amount: u8 },
}

/// A read-only question.
#[derive(Debug, Clone, Copy, PartialEq, Eq)]
pub enum QueryMsg {
    GetInfo {},
    GetMetadata {},
    GetWidgetState {},
    IsLocked {},
}

/// The kinds of external event. New kinds are added as new variants;
/// everything else stays `Unrecognized` and is always refused.
#[derive(Debug, Clone, Copy, PartialEq, Eq, Structural)]
pub enum EventKind {
    /// The token was locked on the external chain: the ownable is released.
    Lock,
    /// Any kind that no variant stands for.
    Unrecognized,
}

/// The kind that the type of an event stands for.
pub open spec fn event_kind(event_type: Seq<char>) -> EventKind {
    if event_type == "lock"@ {
        EventKind::Lock
    } else {
        EventKind::Unrecognized
    }
}

/// Reads the kind of an event from its type.
pub fn parse_event_kind(event_type: &str) -> (kind: EventKind)
    ensures
        kind == event_kind(event_type@),
{
    if same_text(event_type, "lock") {
        EventKind::Lock
    } else {
        EventKind::Unrecognized
    }
}

/// An event observed on another chain, as it is handed to the ownable.
pub struct ExternalEventMsg {
    /// The chain the event was observed on, as a CAIP-2 identifier.
    pub network: Option<String>,
    pub event_type: String,
    pub attributes: StringHashMap<String>,
}

/// [`ExternalEventMsg`] as a mathematical value.
pub struct EventView {
    pub network: Option<Seq<char>>,
    pub event_type: Seq<char>,
    pub attributes: Map<Seq<char>, Seq<char>>,
}

impl View for ExternalEventMsg {
    type V = EventView;

    open spec fn view(&self) -> EventView {
        EventView {
            network: optional_text(self.network),
            event_type: self.event_type@,
            attributes: self.attributes@.map_values(|value: String| value@),
        }
    }
}

impl ExternalEventMsg {
    /// An event of the given kind and network, without attributes.
    pub fn new(event_type: String, network: Option<String>) -> (event: Self)
        ensures
            event@ == (EventView {
                network: optional_text(network),
                event_type: event_type@,
                attributes: Map::<Seq<char>, Seq<char>>::empty(),
            }),
    {
        let event = ExternalEventMsg { network, event_type, attributes: StringHashMap::new() };
        assert(event@.attributes =~= Map::<Seq<char>, Seq<char>>::empty());
        event
    }

    /// The same event with one attribute set; a later value replaces an
    /// earlier one under the same key.
    pub fn with_attribute(self, key: String, value: String) -> (event: Self)
        ensures
            event@ == (EventView { attributes: self@.attributes.insert(key@, value@), ..self@ }),
    {
        let ghost before = self@;
        let mut event = self;
        event.attributes.insert(key, value);
        assert(event@.attributes =~= before.attributes.insert(key@, value@));
        event
    }

    /// The value of an attribute, empty where the event does not carry it.
    pub fn attribute(&self, key: &str) -> (value: String)
        ensures
            value@ == attribute_text(self@, key@),
    {
        match self.attributes.get(key) {
            Some(value) => value.clone(),
            None => {
                proof {
                    reveal_strlit("");
                }
                String::from_str("")
            },
        }
    }
}

/// The value an event carries under a key, empty where it carries none.
pub open spec fn attribute_text(event: EventView, key: Seq<char>) -> Seq<char> {
    if event.attributes.contains_key(key) {
        event.attributes[key]
    } else {
        Seq::empty()
    }
}

/// One key and value of a response.
#[derive(Debug, PartialEq, Eq)]
pub struct Attribute {
    pub key: String,
    pub value: String,
}

impl View for Attribute {
    type V = (Seq<char>, Seq<char>);

    open spec fn view(&self) -> (Seq<char>, Seq<char>) {
        (self.key@, self.value@)
    }
}

/// What a successful operation reports: keys and values, in order.
#[derive(Debug, PartialEq, Eq)]
pub struct Response {
    pub attributes: Vec<Attribute>,
}

impl View for Response {
    type V = Seq<(Seq<char>, Seq<char>)>;

    open spec fn view(&self) -> Seq<(Seq<char>, Seq<char>)> {
        self.attributes@.map_values(|a: Attribute| a@)
    }
}

impl Response {
    /// A response without attributes.
    pub fn new() -> (response: Self)
        ensures
            response@ == Seq::<(Seq<char>, Seq<char>)>::empty(),
    {
        let response = Response { attributes: Vec::new() };
        assert(response@ =~= Seq::<(Seq<char>, Seq<char>)>::empty());
        response
    }

    /// The same response with one more attribute at its end.
    pub fn add_attribute(self, key: &str, value: &str) -> (response: Self)
        ensures
            response@ == self@.push((key@, value@)),
    {
        let ghost before = self@;
        let mut response = self;
        response.attributes.push(
            Attribute { key: String::from_str(key), value: String::from_str(value) },
        );
        assert(response@ =~= before.push((key@, value@)));
        response
    }
}

/// The answer to [`QueryMsg::GetInfo`].
#[derive(Debug, PartialEq, Eq)]
pub struct InfoResponse {
    pub owner: NativeAddress,
    pub issuer: NativeAddress,
    pub nft: Option<ExternalBinding>,
    pub ownable_type: Option<String>,
}

/// [`InfoResponse`] with every text as a sequence of characters.
pub struct InfoView {
    pub owner: Seq<char>,
    pub issuer: Seq<char>,
    pub nft: Option<BindingView>,
    pub ownable_type: Option<Seq<char>>,
}

impl View for InfoResponse {
    type V = InfoView;

    open spec fn view(&self) -> InfoView {
        InfoView {
            owner: self.owner@,
            issuer: self.issuer@,
            nft: optional_binding(self.nft),
            ownable_type: optional_text(self.ownable_type),
        }
    }
}

/// The answer to a query, one variant for each question.
#[derive(Debug, PartialEq, Eq)]
pub enum QueryResponse {
    Info(InfoResponse),
    Metadata(Metadata),
    WidgetState(Option<Config>),
    Locked(bool),
}

/// [`QueryResponse`] as a mathematical value.
pub enum AnswerView {
    Info(InfoView),
    Metadata(MetadataView),
    WidgetState(Option<Config>),
    Locked(bool),
}

impl View for QueryResponse {
    type V = AnswerView;

    open spec fn view(&self) -> AnswerView {
        match self {
            QueryResponse::Info(info) => AnswerView::Info(info@),
            QueryResponse::Metadata(meta) => AnswerView::Metadata(meta@),
            QueryResponse::WidgetState(config) => AnswerView::WidgetState(*config),
            QueryResponse::Locked(flag) => AnswerView::Locked(*flag),
        }
    }
}

} // verus!
