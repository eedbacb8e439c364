//! Resolving a request to a client handle: with the account's key at once,
//! or with a bearer token that has to be asked for first.

use crate::container::Container;
use crate::request::{CredentialMode, FetchRequest, FetchRequestView};
use vstd::prelude::*;

verus! {

/// The secret a client authenticates with.
#[derive(Clone, Debug, PartialEq, Eq)]
pub enum Credential {
    /// The access key of the storage account.
    AccessKey(String),
    /// A bearer token granted for the storage audience.
    BearerToken(String),
}

/// A credential as a mathematical value.
pub enum CredentialView {
    AccessKey(Seq<char>),
    BearerToken(Seq<char>),
}

impl View for Credential {
    type V = CredentialView;

    open spec fn view(&self) -> CredentialView {
        match *self {
            Credential::AccessKey(key) => CredentialView::AccessKey(key@),
            Credential::BearerToken(secret) => CredentialView::BearerToken(secret@),
        }
    }
}

/// Where a blob is: the storage account, the container and the blob's name.
#[derive(Clone, Debug, PartialEq, Eq)]
pub struct BlobTarget {
    /// The storage account.
    pub account_name: String,
    /// The container that holds the blob.
    pub container_name: String,
    /// The blob.
    pub blob_name: String,
}

/// The place of a blob as a mathematical value.
pub struct BlobTargetView {
    pub account_name: Seq<char>,
    pub container_name: Seq<char>,
    pub blob_name: Seq<char>,
}

impl View for BlobTarget {
    type V = BlobTargetView;

    open spec fn view(&self) -> BlobTargetView {
        BlobTargetView {
            account_name: self.account_name@,
            container_name: self.container_name@,
            blob_name: self.blob_name@,
        }
    }
}

/// All that is needed to open a client for one blob: where it is, and one
/// resolved credential.
#[derive(Clone, Debug, PartialEq, Eq)]
pub struct BlobClientHandle {
    /// The blob the client is bound to.
    pub target: BlobTarget,
    /// The credential to authenticate with.
    pub credential: Credential,
}

/// A client handle as a mathematical value.
pub struct BlobClientHandleView {
    pub target: BlobTargetView,
    pub credential: CredentialView,
}

impl View for BlobClientHandle {
    type V = BlobClientHandleView;

    open spec fn view(&self) -> BlobClientHandleView {
        BlobClientHandleView { target: self.target@, credential: self.credential@ }
    }
}

/// The answer of the identity providers to a request for a bearer token.
#[derive(Clone, Debug, PartialEq, Eq)]
pub enum TokenOutcome {
    /// A token was granted; its secret.
    Granted(String),
    /// No provider of the chain granted a token.
    Refused,
}

/// The answer to a token request as a mathematical value.
pub enum TokenOutcomeView {
    Granted(Seq<char>),
    Refused,
}

impl View for TokenOutcome {
    type V = TokenOutcomeView;

    open spec fn view(&self) -> TokenOutcomeView {
        match *self {
            TokenOutcome::Granted(secret) => TokenOutcomeView::Granted(secret@),
            TokenOutcome::Refused => TokenOutcomeView::Refused,
        }
    }
}

/// What the resolver does first for a request.
#[derive(Clone, Debug, PartialEq, Eq)]
pub enum CredentialPlan {
    /// The request carries its key: this is its handle.
    Ready(BlobClientHandle),
    /// A bearer token has to be asked for, for a client of this blob.
    AcquireToken(BlobTarget),
    /// The static key was chosen and the request carries none: the process
    /// cannot go on.
    Abort,
}

/// The resolver's first decision as a mathematical value.
pub enum CredentialPlanView {
    Ready(BlobClientHandleView),
    AcquireToken(BlobTargetView),
    Abort,
}

impl View for CredentialPlan {
    type V = CredentialPlanView;

    open spec fn view(&self) -> CredentialPlanView {
        match *self {
            CredentialPlan::Ready(handle) => CredentialPlanView::Ready(handle@),
            CredentialPlan::AcquireToken(target) => CredentialPlanView::AcquireToken(target@),
            CredentialPlan::Abort => CredentialPlanView::Abort,
        }
    }
}

/// The blob that `request` asks for.
pub open spec fn target_of(request: FetchRequestView) -> BlobTargetView {
    BlobTargetView {
        account_name: request.account_name,
        container_name: request.container_name,
        blob_name: request.blob_name,
    }
}

/// The resolver's first decision for `request`: with the default chain a
/// token is asked for; with the static key the handle is made at once, and
/// a request without a key is fatal.
pub open spec fn credential_plan(request: FetchRequestView) -> CredentialPlanView {
    match request.credential_mode {
        CredentialMode::DefaultChain => CredentialPlanView::AcquireToken(target_of(request)),
        CredentialMode::StaticKey => match request.access_key {
            Some(key) => CredentialPlanView::Ready(
                BlobClientHandleView {
                    target: target_of(request),
                    credential: CredentialView::AccessKey(key),
                },
            ),
            None => CredentialPlanView::Abort,
        },
    }
}

/// What the resolver makes of the answer to its token request: a handle
/// that carries the token, or nothing if none was granted.
pub open spec fn token_resolution(
    target: BlobTargetView,
    token: TokenOutcomeView,
) -> Option<BlobClientHandleView> {
    match token {
        TokenOutcomeView::Granted(secret) => Some(
            BlobClientHandleView { target, credential: CredentialView::BearerToken(secret) },
        ),
        TokenOutcomeView::Refused => None,
    }
}

impl Container {
    /// Decides how `request` gets its credential. Nothing is kept from one
    /// call to the next: every request is resolved afresh.
    pub fn credential_plan(request: FetchRequest) -> (plan: CredentialPlan)
        ensures
            plan@ == credential_plan(request@),
    {
        let FetchRequest { container_name, blob_name, credential_mode, account_name, access_key } =
            request;
        let target = BlobTarget { account_name, container_name, blob_name };
        match credential_mode {
            CredentialMode::DefaultChain => CredentialPlan::AcquireToken(target),
            CredentialMode::StaticKey => match access_key {
                Some(key) => CredentialPlan::Ready(
                    BlobClientHandle { target, credential: Credential::AccessKey(key) },
                ),
                None => CredentialPlan::Abort,
            },
        }
    }

    /// Resolves the client handle for the blob at `target` from the answer
    /// to the token request that [`Container::credential_plan`] asked for.
    pub fn resolve_blob_client(target: BlobTarget, token: TokenOutcome) -> (handle: Option<
        BlobClientHandle,
    >)
        ensures
            handle_view(handle) == token_resolution(target@, token@),
    {
        match token {
            TokenOutcome::Granted(secret) => Some(
                BlobClientHandle { target, credential: Credential::BearerToken(secret) },
            ),
            TokenOutcome::Refused => None,
        }
    }
}

/// The view of an optional handle.
pub open spec fn handle_view(handle: Option<BlobClientHandle>) -> Option<BlobClientHandleView> {
    match handle {
        Some(h) => Some(h@),
        None => None,
    }
}

} // verus!
