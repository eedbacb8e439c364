//! What a fetch is asked for: the settings a host supplies, and the request
//! that is made of them.

use vstd::prelude::*;

verus! {

/// How a fetch authenticates against the storage account.
#[derive(Clone, Copy, Debug, PartialEq, Eq, Structural)]
pub enum CredentialMode {
    /// With the account's access key.
    StaticKey,
    /// With a bearer token from the default chain of identity providers.
    DefaultChain,
}

/// One blob to fetch, and how to authenticate for it.
#[derive(Clone, Debug, PartialEq, Eq)]
pub struct FetchRequest {
    /// The container that holds the blob.
    pub container_name: String,
    /// The blob.
    pub blob_name: String,
    /// How to authenticate.
    pub credential_mode: CredentialMode,
    /// The storage account.
    pub account_name: String,
    /// The account's access key; only `StaticKey` uses it.
    pub access_key: Option<String>,
}

/// A request as a mathematical value.
pub struct FetchRequestView {
    pub container_name: Seq<char>,
    pub blob_name: Seq<char>,
    pub credential_mode: CredentialMode,
    pub account_name: Seq<char>,
    pub access_key: Option<Seq<char>>,
}

/// The view of an optional text.
pub open spec fn text_view(text: Option<String>) -> Option<Seq<char>> {
    match text {
        Some(s) => Some(s@),
        None => None,
    }
}

impl View for FetchRequest {
    type V = FetchRequestView;

    open spec fn view(&self) -> FetchRequestView {
        FetchRequestView {
            container_name: self.container_name@,
            blob_name: self.blob_name@,
            credential_mode: self.credential_mode,
            account_name: self.account_name@,
            access_key: text_view(self.access_key),
        }
    }
}

/// What a host has configured for a fetch. Every entry may be absent.
#[derive(Clone, Debug, PartialEq, Eq)]
pub struct Settings {
    /// The entry `container_name`.
    pub container_name: Option<String>,
    /// The entry `blob_name`.
    pub blob_name: Option<String>,
    /// The entry `account_name`.
    pub account_name: Option<String>,
    /// The flag `use_default_credentials`; absent counts as off.
    pub use_default_credentials: Option<bool>,
    /// The environment variable `STORAGE_ACCOUNT`.
    pub storage_account: Option<String>,
    /// The environment variable `STORAGE_ACCESS_KEY`.
    pub storage_access_key: Option<String>,
}

/// Settings as a mathematical value.
pub struct SettingsView {
    pub container_name: Option<Seq<char>>,
    pub blob_name: Option<Seq<char>>,
    pub account_name: Option<Seq<char>>,
    pub use_default_credentials: Option<bool>,
    pub storage_account: Option<Seq<char>>,
    pub storage_access_key: Option<Seq<char>>,
}

impl View for Settings {
    type V = SettingsView;

    open spec fn view(&self) -> SettingsView {
        SettingsView {
            container_name: text_view(self.container_name),
            blob_name: text_view(self.blob_name),
            account_name: text_view(self.account_name),
            use_default_credentials: self.use_default_credentials,
            storage_account: text_view(self.storage_account),
            storage_access_key: text_view(self.storage_access_key),
        }
    }
}

/// What reading the settings comes to.
#[derive(Clone, Debug, PartialEq, Eq)]
pub enum Intake {
    /// The settings make this request.
    Request(FetchRequest),
    /// A required entry is absent: there is nothing to fetch.
    Incomplete,
    /// The static key was chosen and the environment does not hold it: the
    /// process cannot go on.
    Fatal,
}

/// The outcome of reading settings, as a mathematical value.
pub enum IntakeView {
    Request(FetchRequestView),
    Incomplete,
    Fatal,
}

impl View for Intake {
    type V = IntakeView;

    open spec fn view(&self) -> IntakeView {
        match *self {
            Intake::Request(request) => IntakeView::Request(request@),
            Intake::Incomplete => IntakeView::Incomplete,
            Intake::Fatal => IntakeView::Fatal,
        }
    }
}

/// The three entries that every fetch needs are present.
pub open spec fn names_present(settings: SettingsView) -> bool {
    &&& settings.container_name is Some
    &&& settings.blob_name is Some
    &&& settings.account_name is Some
}

/// The credential mode that the settings select: the default chain if the
/// flag is on, the static key otherwise.
pub open spec fn selected_mode(settings: SettingsView) -> CredentialMode {
    if settings.use_default_credentials == Some(true) {
        CredentialMode::DefaultChain
    } else {
        CredentialMode::StaticKey
    }
}

/// Both environment variables of the static key are present.
pub open spec fn static_key_present(settings: SettingsView) -> bool {
    &&& settings.storage_account is Some
    &&& settings.storage_access_key is Some
}

/// What reading `settings` comes to.
///
/// The names come first: without a container, a blob and an account name
/// there is nothing to fetch, whatever else is set. With the default chain
/// the account is the configured one and no key is needed. With the static
/// key both the account and its key are the environment's, and the absence
/// of either is fatal.
pub open spec fn intake(settings: SettingsView) -> IntakeView {
    if !names_present(settings) {
        IntakeView::Incomplete
    } else if selected_mode(settings) == CredentialMode::DefaultChain {
        IntakeView::Request(
            FetchRequestView {
                container_name: settings.container_name->0,
                blob_name: settings.blob_name->0,
                credential_mode: CredentialMode::DefaultChain,
                account_name: settings.account_name->0,
                access_key: None,
            },
        )
    } else if !static_key_present(settings) {
        IntakeView::Fatal
    } else {
        IntakeView::Request(
            FetchRequestView {
                container_name: settings.container_name->0,
                blob_name: settings.blob_name->0,
                credential_mode: CredentialMode::StaticKey,
                account_name: settings.storage_account->0,
                access_key: settings.storage_access_key,
            },
        )
    }
}

impl Settings {
    /// Reads the settings: the request they make, or why they make none.
    pub fn intake(self) -> (outcome: Intake)
        ensures
            outcome@ == intake(self@),
    {
        let Settings {
            container_name,
            blob_name,
            account_name,
            use_default_credentials,
            storage_account,
            storage_access_key,
        } = self;
        let container_name = match container_name {
            Some(name) => name,
            None => { return Intake::Incomplete; },
        };
        let blob_name = match blob_name {
            Some(name) => name,
            None => { return Intake::Incomplete; },
        };
        let account_name = match account_name {
            Some(name) => name,
            None => { return Intake::Incomplete; },
        };
        let default_chain = match use_default_credentials {
            Some(flag) => flag,
            None => false,
        };
        if default_chain {
            return Intake::Request(
                FetchRequest {
                    container_name,
                    blob_name,
                    credential_mode: CredentialMode::DefaultChain,
                    account_name,
                    access_key: None,
                },
            );
        }
        match (storage_account, storage_access_key) {
            (Some(account), Some(key)) => Intake::Request(
                FetchRequest {
                    container_name,
                    blob_name,
                    credential_mode: CredentialMode::StaticKey,
                    account_name: account,
                    access_key: Some(key),
                },
            ),
            _ => Intake::Fatal,
        }
    }
}

} // verus!
