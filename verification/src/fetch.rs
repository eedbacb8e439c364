//! One fetch as a sequence of turns: the library names the next action, the
//! host performs it and reports the event that came of it.

use crate::container::Container;
use crate::credential::{
    credential_plan, token_resolution, BlobClientHandle, BlobClientHandleView, BlobTarget,
    BlobTargetView, CredentialPlan, CredentialPlanView, TokenOutcome, TokenOutcomeView,
};
use crate::download::{
    download_start, download_step, ChunkOutcome, ChunkOutcomeView, Download, DownloadPolicy,
    DownloadStep, DownloadStepView, DownloadView,
};
use crate::request::{intake, Intake, IntakeView, Settings, SettingsView};
use vstd::prelude::*;

verus! {

/// The audience that a bearer token is asked for.
pub const AUDIENCE: &'static str = "https://storage.azure.com/";

/// The nominal size, in bytes, of the chunks a blob is streamed in.
pub const CHUNK_SIZE: u64 = 0x2000;

/// The name of the binary attribute that the content is published under.
pub const CONTENT: &'static str = "content";

/// What the host is to do next.
#[derive(Clone, Debug, PartialEq, Eq)]
pub enum Action {
    /// Ask the default chain of identity providers for a bearer token for
    /// `audience`, and report a [`Event::Token`].
    AcquireToken { audience: &'static str },
    /// Open a stream over the whole blob behind `handle`, in chunks of
    /// `chunk_size` bytes, read its first item and report it.
    OpenStream { handle: BlobClientHandle, chunk_size: u64 },
    /// Read the next item of the open stream and report it.
    ReadNext,
    /// The fetch is over: store `content` under the name `attribute`.
    Publish { attribute: &'static str, content: Vec<u8> },
    /// The fetch is over and has nothing to store.
    GiveUp,
    /// The fetch is over and the process cannot go on.
    Abort,
}

/// An action as a mathematical value.
pub enum ActionView {
    AcquireToken { audience: Seq<char> },
    OpenStream { handle: BlobClientHandleView, chunk_size: u64 },
    ReadNext,
    Publish { attribute: Seq<char>, content: Seq<u8> },
    GiveUp,
    Abort,
}

impl View for Action {
    type V = ActionView;

    open spec fn view(&self) -> ActionView {
        match *self {
            Action::AcquireToken { audience } => ActionView::AcquireToken { audience: audience@ },
            Action::OpenStream { handle, chunk_size } => ActionView::OpenStream {
                handle: handle@,
                chunk_size,
            },
            Action::ReadNext => ActionView::ReadNext,
            Action::Publish { attribute, content } => ActionView::Publish {
                attribute: attribute@,
                content: content@,
            },
            Action::GiveUp => ActionView::GiveUp,
            Action::Abort => ActionView::Abort,
        }
    }
}

impl ActionView {
    /// The action reaches out to the network.
    pub open spec fn is_network(self) -> bool {
        self is AcquireToken || self is OpenStream || self is ReadNext
    }

    /// The action ends the fetch.
    pub open spec fn is_final(self) -> bool {
        self is Publish || self is GiveUp || self is Abort
    }
}

/// What the host reports back.
#[derive(Clone, Debug, PartialEq, Eq)]
pub enum Event {
    /// The answer to [`Action::AcquireToken`].
    Token(TokenOutcome),
    /// The stream delivered an item.
    Chunk(ChunkOutcome),
    /// The stream has no further item.
    EndOfStream,
}

/// An event as a mathematical value.
pub enum EventView {
    Token(TokenOutcomeView),
    Chunk(ChunkOutcomeView),
    EndOfStream,
}

impl View for Event {
    type V = EventView;

    open spec fn view(&self) -> EventView {
        match *self {
            Event::Token(outcome) => EventView::Token(outcome@),
            Event::Chunk(outcome) => EventView::Chunk(outcome@),
            Event::EndOfStream => EventView::EndOfStream,
        }
    }
}

/// Where a fetch stands between two turns.
#[derive(Clone, Debug, PartialEq, Eq)]
pub enum Phase {
    /// A token has been asked for, for a client of the blob at `target`.
    AwaitingToken { target: BlobTarget, policy: DownloadPolicy },
    /// The stream is open and `download` holds what it has delivered.
    Streaming { download: Download },
    /// The fetch is over.
    Finished,
}

/// A phase as a mathematical value.
pub enum PhaseView {
    AwaitingToken { target: BlobTargetView, policy: DownloadPolicy },
    Streaming { download: DownloadView },
    Finished,
}

impl View for Phase {
    type V = PhaseView;

    open spec fn view(&self) -> PhaseView {
        match *self {
            Phase::AwaitingToken { target, policy } => PhaseView::AwaitingToken {
                target: target@,
                policy,
            },
            Phase::Streaming { download } => PhaseView::Streaming { download: download@ },
            Phase::Finished => PhaseView::Finished,
        }
    }
}

/// The turn that opens the stream behind `handle`.
pub open spec fn open_stream(
    handle: BlobClientHandleView,
    policy: DownloadPolicy,
) -> (PhaseView, ActionView) {
    (
        PhaseView::Streaming { download: download_start(policy) },
        ActionView::OpenStream { handle, chunk_size: CHUNK_SIZE },
    )
}

/// The first turn of a fetch with `settings`.
///
/// Settings that make no request end the fetch at once: with nothing if an
/// entry is absent, fatally if the static key is. A request with its key
/// opens the stream; one for the default chain asks for a token first.
pub open spec fn begin(settings: SettingsView, policy: DownloadPolicy) -> (PhaseView, ActionView) {
    match intake(settings) {
        IntakeView::Incomplete => (PhaseView::Finished, ActionView::GiveUp),
        IntakeView::Fatal => (PhaseView::Finished, ActionView::Abort),
        IntakeView::Request(request) => match credential_plan(request) {
            CredentialPlanView::Ready(handle) => open_stream(handle, policy),
            CredentialPlanView::AcquireToken(target) => (
                PhaseView::AwaitingToken { target, policy },
                ActionView::AcquireToken { audience: AUDIENCE@ },
            ),
            CredentialPlanView::Abort => (PhaseView::Finished, ActionView::Abort),
        },
    }
}

/// The turn that follows a step of the download.
pub open spec fn after_item(step: DownloadStepView) -> (PhaseView, ActionView) {
    match step {
        DownloadStepView::Continue(download) => (
            PhaseView::Streaming { download },
            ActionView::ReadNext,
        ),
        DownloadStepView::Publish(content) => (
            PhaseView::Finished,
            ActionView::Publish { attribute: CONTENT@, content },
        ),
        DownloadStepView::GiveUp => (PhaseView::Finished, ActionView::GiveUp),
    }
}

/// The turn that follows `event` in `phase`.
///
/// A granted token opens the stream, a refused one ends the fetch with
/// nothing. An item of the stream goes to the download, which decides. An
/// event that the phase does not wait for ends the fetch with nothing.
pub open spec fn advance(phase: PhaseView, event: EventView) -> (PhaseView, ActionView) {
    match (phase, event) {
        (PhaseView::AwaitingToken { target, policy }, EventView::Token(token)) => {
            match token_resolution(target, token) {
                Some(handle) => open_stream(handle, policy),
                None => (PhaseView::Finished, ActionView::GiveUp),
            }
        },
        (PhaseView::Streaming { download }, EventView::Chunk(item)) => after_item(
            download_step(download, Some(item)),
        ),
        (PhaseView::Streaming { download }, EventView::EndOfStream) => after_item(
            download_step(download, None),
        ),
        _ => (PhaseView::Finished, ActionView::GiveUp),
    }
}

impl Container {
    /// Starts a fetch: reads `settings` and names the first action.
    pub fn begin(settings: Settings, policy: DownloadPolicy) -> (turn: (Phase, Action))
        ensures
            (turn.0@, turn.1@) == begin(settings@, policy),
    {
        match settings.intake() {
            Intake::Incomplete => (Phase::Finished, Action::GiveUp),
            Intake::Fatal => (Phase::Finished, Action::Abort),
            Intake::Request(request) => match Container::credential_plan(request) {
                CredentialPlan::Ready(handle) => Container::open_stream(handle, policy),
                CredentialPlan::AcquireToken(target) => (
                    Phase::AwaitingToken { target, policy },
                    Action::AcquireToken { audience: AUDIENCE },
                ),
                CredentialPlan::Abort => (Phase::Finished, Action::Abort),
            },
        }
    }

    /// Takes the event that came of the last action and names the next.
    pub fn advance(phase: Phase, event: Event) -> (turn: (Phase, Action))
        ensures
            (turn.0@, turn.1@) == advance(phase@, event@),
    {
        match (phase, event) {
            (Phase::AwaitingToken { target, policy }, Event::Token(token)) => {
                match Container::resolve_blob_client(target, token) {
                    Some(handle) => Container::open_stream(handle, policy),
                    None => (Phase::Finished, Action::GiveUp),
                }
            },
            (Phase::Streaming { download }, Event::Chunk(item)) => Container::after_item(
                download.on_item(Some(item)),
            ),
            (Phase::Streaming { download }, Event::EndOfStream) => Container::after_item(
                download.on_item(None),
            ),
            _ => (Phase::Finished, Action::GiveUp),
        }
    }

    fn open_stream(handle: BlobClientHandle, policy: DownloadPolicy) -> (turn: (Phase, Action))
        ensures
            (turn.0@, turn.1@) == open_stream(handle@, policy),
    {
        (
            Phase::Streaming { download: Download::new(policy) },
            Action::OpenStream { handle, chunk_size: CHUNK_SIZE },
        )
    }

    fn after_item(step: DownloadStep) -> (turn: (Phase, Action))
        ensures
            (turn.0@, turn.1@) == after_item(step@),
    {
        match step {
            DownloadStep::Continue(download) => (Phase::Streaming { download }, Action::ReadNext),
            DownloadStep::Publish(content) => (
                Phase::Finished,
                Action::Publish { attribute: CONTENT, content },
            ),
            DownloadStep::GiveUp => (Phase::Finished, Action::GiveUp),
        }
    }
}

} // verus!
