//! The record of one ownable: who owns it, what external token it is bound
//! to, whether it is locked, and its resource counter.

use vstd::prelude::*;
use vstd::string::StringExecFns;
use crate::address::NativeAddress;
use crate::text::copy_optional_text;
use crate::text::optional_text;

verus! {

/// Who owns the ownable and who issued it.
#[derive(Debug, PartialEq, Eq)]
pub struct OwnableInfo {
    /// The sole authority for lock, transfer and consume.
    pub owner: NativeAddress,
    /// Who created the ownable; never changes.
    pub issuer: NativeAddress,
    pub ownable_type: Option<String>,
}

/// [`OwnableInfo`] with every text as a sequence of characters.
pub struct OwnableInfoView {
    pub owner: Seq<char>,
    pub issuer: Seq<char>,
    pub ownable_type: Option<Seq<char>>,
}

impl View for OwnableInfo {
    type V = OwnableInfoView;

    open spec fn view(&self) -> OwnableInfoView {
        OwnableInfoView {
            owner: self.owner@,
            issuer: self.issuer@,
            ownable_type: optional_text(self.ownable_type),
        }
    }
}

impl Clone for OwnableInfo {
    fn clone(&self) -> (copy: Self)
        ensures
            copy@ == self@,
    {
        OwnableInfo {
            owner: self.owner.clone(),
            issuer: self.issuer.clone(),
            ownable_type: copy_optional_text(&self.ownable_type),
        }
    }
}

/// The external token an ownable is pegged to. Set at most once, when the
/// ownable is created.
#[derive(Debug, PartialEq, Eq)]
pub struct ExternalBinding {
    /// The token's identifier on the external chain.
    pub token_id: String,
    /// The address of the contract that holds the token.
    pub contract_address: String,
    /// The external chain, as a CAIP-2 identifier such as `eip155:1`.
    pub network: String,
    /// The service that watches the external lock, where one is named.
    pub lock_service: Option<String>,
}

/// [`ExternalBinding`] with every text as a sequence of characters.
pub struct BindingView {
    pub token_id: Seq<char>,
    pub contract_address: Seq<char>,
    pub network: Seq<char>,
    pub lock_service: Option<Seq<char>>,
}

impl View for ExternalBinding {
    type V = BindingView;

    open spec fn view(&self) -> BindingView {
        BindingView {
            token_id: self.token_id@,
            contract_address: self.contract_address@,
            network: self.network@,
            lock_service: optional_text(self.lock_service),
        }
    }
}

impl Clone for ExternalBinding {
    fn clone(&self) -> (copy: Self)
        ensures
            copy@ == self@,
    {
        ExternalBinding {
            token_id: self.token_id.clone(),
            contract_address: self.contract_address.clone(),
            network: self.network.clone(),
            lock_service: copy_optional_text(&self.lock_service),
        }
    }
}

/// The view of an optional binding.
pub open spec fn optional_binding(binding: Option<ExternalBinding>) -> Option<BindingView> {
    match binding {
        Some(b) => Some(b@),
        None => None,
    }
}

/// A copy of an optional binding.
pub fn copy_optional_binding(binding: &Option<ExternalBinding>) -> (copy: Option<ExternalBinding>)
    ensures
        optional_binding(copy) == optional_binding(*binding),
{
    match binding {
        Some(b) => Some(b.clone()),
        None => None,
    }
}

/// The resource counter of a cookie: how much of it has been eaten.
#[derive(Debug, Clone, Copy, PartialEq, Eq, Structural)]
pub struct Config {
    /// The fixed capacity; the counter never exceeds it.
    pub max_capacity: u8,
    /// The counter; it never decreases.
    pub current_amount: u8,
}

impl Config {
    /// The counter is within the capacity.
    pub open spec fn wf(self) -> bool {
        self.current_amount <= self.max_capacity
    }
}

/// The capacity of a fresh cookie.
pub const COOKIE_CAPACITY: u8 = 3;

/// Descriptive metadata of the ownable, in the shape of on-chain NFT metadata.
#[derive(Debug, PartialEq, Eq)]
pub struct Metadata {
    pub image: Option<String>,
    pub image_data: Option<String>,
    pub external_url: Option<String>,
    pub description: Option<String>,
    pub name: Option<String>,
    pub background_color: Option<String>,
    pub animation_url: Option<String>,
    pub youtube_url: Option<String>,
}

/// [`Metadata`] with every text as a sequence of characters.
pub struct MetadataView {
    pub image: Option<Seq<char>>,
    pub image_data: Option<Seq<char>>,
    pub external_url: Option<Seq<char>>,
    pub description: Option<Seq<char>>,
    pub name: Option<Seq<char>>,
    pub background_color: Option<Seq<char>>,
    pub animation_url: Option<Seq<char>>,
    pub youtube_url: Option<Seq<char>>,
}

impl View for Metadata {
    type V = MetadataView;

    open spec fn view(&self) -> MetadataView {
        MetadataView {
            image: optional_text(self.image),
            image_data: optional_text(self.image_data),
            external_url: optional_text(self.external_url),
            description: optional_text(self.description),
            name: optional_text(self.name),
            background_color: optional_text(self.background_color),
            animation_url: optional_text(self.animation_url),
            youtube_url: optional_text(self.youtube_url),
        }
    }
}

impl Clone for Metadata {
    fn clone(&self) -> (copy: Self)
        ensures
            copy@ == self@,
    {
        Metadata {
            image: copy_optional_text(&self.image),
            image_data: copy_optional_text(&self.image_data),
            external_url: copy_optional_text(&self.external_url),
            description: copy_optional_text(&self.description),
            name: copy_optional_text(&self.name),
            background_color: copy_optional_text(&self.background_color),
            animation_url: copy_optional_text(&self.animation_url),
            youtube_url: copy_optional_text(&self.youtube_url),
        }
    }
}

/// The metadata every cookie is created with.
pub open spec fn cookie_metadata() -> MetadataView {
    MetadataView {
        image: None,
        image_data: None,
        external_url: None,
        description: Some("Have a bite"@),
        name: Some("Cookie"@),
        background_color: None,
        animation_url: None,
        youtube_url: None,
    }
}

impl Metadata {
    /// The metadata of a fresh cookie.
    pub fn cookie() -> (meta: Metadata)
        ensures
            meta@ == cookie_metadata(),
    {
        Metadata {
            image: None,
            image_data: None,
            external_url: None,
            description: Some(String::from_str("Have a bite")),
            name: Some(String::from_str("Cookie")),
            background_color: None,
            animation_url: None,
            youtube_url: None,
        }
    }
}

/// The whole persisted record of one ownable. Every operation takes it as an
/// explicit handle; nothing is read from or written to ambient storage.
#[derive(Debug, PartialEq, Eq)]
pub struct OwnableState {
    /// The one-character tag of the home chain, fixed at creation.
    pub network_id: u8,
    pub info: OwnableInfo,
    /// The external token the ownable is pegged to, if any.
    pub nft: Option<ExternalBinding>,
    /// The lock flag: `false` at creation.
    pub locked: bool,
    pub config: Option<Config>,
    pub metadata: Metadata,
    /// The content identifier of the package the ownable was made from.
    pub package_cid: String,
}

/// The state of an ownable as a mathematical value.
pub struct StateView {
    pub network_id: u8,
    pub owner: Seq<char>,
    pub issuer: Seq<char>,
    pub ownable_type: Option<Seq<char>>,
    pub nft: Option<BindingView>,
    pub locked: bool,
    pub config: Option<Config>,
    pub metadata: MetadataView,
    pub package_cid: Seq<char>,
}

impl View for OwnableState {
    type V = StateView;

    open spec fn view(&self) -> StateView {
        StateView {
            network_id: self.network_id,
            owner: self.info.owner@,
            issuer: self.info.issuer@,
            ownable_type: optional_text(self.info.ownable_type),
            nft: optional_binding(self.nft),
            locked: self.locked,
            config: self.config,
            metadata: self.metadata@,
            package_cid: self.package_cid@,
        }
    }
}

impl Clone for OwnableState {
    fn clone(&self) -> (copy: Self)
        ensures
            copy@ == self@,
    {
        OwnableState {
            network_id: self.network_id,
            info: self.info.clone(),
            nft: copy_optional_binding(&self.nft),
            locked: self.locked,
            config: self.config,
            metadata: self.metadata.clone(),
            package_cid: self.package_cid.clone(),
        }
    }
}

} // verus!
