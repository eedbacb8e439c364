//! A whole fetch at once, against recorded answers of the network.

use crate::container::Container;
use crate::credential::{
    credential_plan, token_resolution, BlobClientHandleView, CredentialPlanView, TokenOutcome,
    TokenOutcomeView,
};
use crate::download::{
    all_arrived, chunks_read, download_result, download_start, is_first_arrival,
    lemma_first_arrival_unique, lemma_none_arrived, lemma_payload_none_arrived, lemma_take_next,
    none_arrived, payload, payload_of, ChunkOutcome, ChunkOutcomeView, DownloadPolicy,
    DownloadView,
};
use crate::fetch::{Action, ActionView, Event, PhaseView, CONTENT};
use crate::request::{intake, IntakeView, Settings, SettingsView};
use vstd::prelude::*;

verus! {

/// How a fetch ended.
#[derive(Clone, Debug, PartialEq, Eq)]
pub enum Outcome {
    /// With the content of the blob, as far as the policy asks for it.
    Content(Vec<u8>),
    /// With nothing.
    Nothing,
    /// Fatally: the process cannot go on.
    Fatal,
}

/// The end of a fetch as a mathematical value.
pub enum OutcomeView {
    Content(Seq<u8>),
    Nothing,
    Fatal,
}

impl View for Outcome {
    type V = OutcomeView;

    open spec fn view(&self) -> OutcomeView {
        match *self {
            Outcome::Content(bytes) => OutcomeView::Content(bytes@),
            Outcome::Nothing => OutcomeView::Nothing,
            Outcome::Fatal => OutcomeView::Fatal,
        }
    }
}

/// How a fetch ended and what it asked of the network on the way.
#[derive(Clone, Debug, PartialEq, Eq)]
pub struct Report {
    /// How the fetch ended.
    pub outcome: Outcome,
    /// Whether a bearer token was asked for.
    pub token_requested: bool,
    /// How many items were read from the stream.
    pub chunks_read: usize,
}

/// A report as a mathematical value.
pub struct ReportView {
    pub outcome: OutcomeView,
    pub token_requested: bool,
    pub chunks_read: nat,
}

impl View for Report {
    type V = ReportView;

    open spec fn view(&self) -> ReportView {
        ReportView {
            outcome: self.outcome@,
            token_requested: self.token_requested,
            chunks_read: self.chunks_read as nat,
        }
    }
}

/// The items of a recorded stream as mathematical values.
pub open spec fn item_views(items: Seq<ChunkOutcome>) -> Seq<ChunkOutcomeView> {
    Seq::new(items.len(), |i: int| items[i]@)
}

/// A fetch with `settings` asks for a bearer token: they make a request for
/// the default chain.
pub open spec fn token_requested(settings: SettingsView) -> bool {
    intake(settings) matches IntakeView::Request(request) && credential_plan(request)
        is AcquireToken
}

/// The client handle that a fetch with `settings` resolves when the answer
/// to a token request, should it make one, is `token`.
pub open spec fn resolved_handle(
    settings: SettingsView,
    token: TokenOutcomeView,
) -> Option<BlobClientHandleView> {
    match intake(settings) {
        IntakeView::Request(request) => match credential_plan(request) {
            CredentialPlanView::Ready(handle) => Some(handle),
            CredentialPlanView::AcquireToken(target) => token_resolution(target, token),
            CredentialPlanView::Abort => None,
        },
        _ => None,
    }
}

/// How a fetch with `settings` under `policy` ends when a token request is
/// answered with `token` and the stream delivers `items` and then ends.
///
/// It is fatal if the settings are; it has the result of the download if a
/// handle is resolved; it has nothing otherwise.
pub open spec fn fetch_outcome(
    settings: SettingsView,
    policy: DownloadPolicy,
    token: TokenOutcomeView,
    items: Seq<ChunkOutcomeView>,
) -> OutcomeView {
    if intake(settings) is Fatal {
        OutcomeView::Fatal
    } else if resolved_handle(settings, token) is None {
        OutcomeView::Nothing
    } else {
        match download_result(policy, items) {
            Some(bytes) => OutcomeView::Content(bytes),
            None => OutcomeView::Nothing,
        }
    }
}

/// The report of the fetch that [`fetch_outcome`] describes. The stream is
/// read only if a handle is resolved.
pub open spec fn fetch_report(
    settings: SettingsView,
    policy: DownloadPolicy,
    token: TokenOutcomeView,
    items: Seq<ChunkOutcomeView>,
) -> ReportView {
    ReportView {
        outcome: fetch_outcome(settings, policy, token, items),
        token_requested: token_requested(settings),
        chunks_read: if resolved_handle(settings, token) is Some {
            chunks_read(policy, items)
        } else {
            0
        },
    }
}

/// The state of a download that has read the first `n` of `items` and goes
/// on reading.
spec fn download_after(
    policy: DownloadPolicy,
    items: Seq<ChunkOutcomeView>,
    n: int,
) -> DownloadView {
    DownloadView {
        policy,
        buffer: payload(items.take(n)),
        arrived: !none_arrived(items.take(n)),
        failed: !all_arrived(items.take(n)),
    }
}

impl Container {
    /// Runs a whole fetch against recorded answers: `token` for a token
    /// request, `items` for the stream, which ends after them. The turns
    /// are those of [`Container::begin`] and [`Container::advance`].
    pub fn replay(
        settings: Settings,
        policy: DownloadPolicy,
        token: TokenOutcome,
        items: &Vec<ChunkOutcome>,
    ) -> (report: Report)
        ensures
            report@ == fetch_report(settings@, policy, token@, item_views(items@)),
    {
        let ghost views = item_views(items@);
        let (phase, action) = Container::begin(settings, policy);
        let token_requested = Container::asks_for_token(&action);
        let (mut phase, mut action) = if token_requested {
            Container::advance(phase, Event::Token(token))
        } else {
            (phase, action)
        };
        let mut reading = Container::reads(&action);
        let mut read: usize = 0;
        proof {
            assert(views.take(0) == Seq::<ChunkOutcomeView>::empty());
            assert(download_after(policy, views, 0) == download_start(policy));
        }
        while reading
            invariant
                views == item_views(items@),
                read <= items.len(),
                reading == (action@ is OpenStream || action@ is ReadNext),
                reading ==> phase@ == (PhaseView::Streaming {
                    download: download_after(policy, views, read as int),
                }),
                reading && policy is FirstChunk ==> none_arrived(views.take(read as int)),
                !reading && resolved_handle(settings@, token@) is Some ==> {
                    &&& read == chunks_read(policy, views)
                    &&& action@ == match download_result(policy, views) {
                        Some(content) => ActionView::Publish {
                            attribute: CONTENT@,
                            content,
                        },
                        None => ActionView::GiveUp,
                    }
                },
                resolved_handle(settings@, token@) is None ==> !reading && read == 0 && action@
                    == if intake(settings@) is Fatal {
                    ActionView::Abort
                } else {
                    ActionView::GiveUp
                },
            decreases items.len() - read + if reading { 1int } else { 0int },
        {
            if read < items.len() {
                let item = Container::copy_item(&items[read]);
                proof {
                    lemma_take_next(views, read as int);
                    if policy is FirstChunk {
                        lemma_payload_none_arrived(views.take(read as int));
                        if views[read as int] is Data {
                            assert(is_first_arrival(views, read as int)) by {
                                assert forall|j: int| 0 <= j < read implies views[j] is Failed by {
                                    assert(views.take(read as int)[j] is Failed);
                                }
                            }
                            lemma_first_arrival_unique(views, read as int);
                            assert(Seq::<u8>::empty() + payload_of(views[read as int])
                                == payload_of(views[read as int]));
                        }
                    }
                }
                let turn = Container::advance(phase, Event::Chunk(item));
                phase = turn.0;
                action = turn.1;
                read = read + 1;
            } else {
                proof {
                    assert(views.take(read as int) == views);
                    lemma_none_arrived(views);
                }
                let turn = Container::advance(phase, Event::EndOfStream);
                phase = turn.0;
                action = turn.1;
            }
            reading = Container::reads(&action);
        }
        let outcome = match action {
            Action::Publish { content, .. } => Outcome::Content(content),
            Action::Abort => Outcome::Fatal,
            _ => Outcome::Nothing,
        };
        Report { outcome, token_requested, chunks_read: read }
    }

    fn asks_for_token(action: &Action) -> (asks: bool)
        ensures
            asks == (action@ is AcquireToken),
    {
        match action {
            Action::AcquireToken { .. } => true,
            _ => false,
        }
    }

    fn reads(action: &Action) -> (reads: bool)
        ensures
            reads == (action@ is OpenStream || action@ is ReadNext),
    {
        match action {
            Action::OpenStream { .. } => true,
            Action::ReadNext => true,
            _ => false,
        }
    }

    fn copy_item(item: &ChunkOutcome) -> (copy: ChunkOutcome)
        ensures
            copy@ == item@,
    {
        match item {
            ChunkOutcome::Data(bytes) => ChunkOutcome::Data(bytes.clone()),
            ChunkOutcome::Failed => ChunkOutcome::Failed,
        }
    }
}

} // verus!
