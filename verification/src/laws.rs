//! What holds of every fetch, proved from the definitions of its turns and
//! of its outcome.

use crate::credential::TokenOutcomeView;
use crate::download::{
    all_arrived, download_result, first_arrival, is_first_arrival, lemma_first_arrival_unique,
    lemma_none_arrived, none_arrived, payload, payload_of, ChunkOutcomeView, DownloadPolicy,
};
use crate::fetch::{advance, begin, ActionView, EventView, PhaseView, AUDIENCE};
use crate::replay::{
    fetch_outcome, fetch_report, resolved_handle, token_requested, OutcomeView, ReportView,
};
use crate::request::{
    intake, names_present, selected_mode, static_key_present, CredentialMode, SettingsView,
};
use vstd::prelude::*;

verus! {

/// The report of a fetch that asked nothing of the network and ended with
/// `outcome`.
pub open spec fn offline(outcome: OutcomeView) -> ReportView {
    ReportView { outcome, token_requested: false, chunks_read: 0 }
}

/// The payload follows the order of the stream: that of two stretches of
/// a stream, one after the other, is the payload of the first and then the
/// payload of the second, each byte once.
pub proof fn law_payload_in_stream_order(
    before: Seq<ChunkOutcomeView>,
    after: Seq<ChunkOutcomeView>,
)
    ensures
        payload(before + after) == payload(before) + payload(after),
    decreases after.len(),
{
    if after.len() == 0 {
        assert(before + after == before);
        assert(payload(before) + Seq::<u8>::empty() == payload(before));
    } else {
        let whole = before + after;
        assert(whole.drop_last() == before + after.drop_last());
        assert(whole.last() == after.last());
        law_payload_in_stream_order(before, after.drop_last());
        assert((payload(before) + payload(after.drop_last())) + payload_of(after.last())
            == payload(before) + (payload(after.drop_last()) + payload_of(after.last())));
    }
}

/// The payload of a stream holds the payload of each of its items: it is
/// at least as long as any of them.
pub proof fn law_payload_holds_each_chunk(items: Seq<ChunkOutcomeView>, k: int)
    requires
        0 <= k < items.len(),
    ensures
        payload(items).len() >= payload_of(items[k]).len(),
{
    let upto = items.take(k + 1);
    assert(upto.drop_last() == items.take(k));
    assert(upto.last() == items[k]);
    assert(items == upto + items.skip(k + 1));
    law_payload_in_stream_order(upto, items.skip(k + 1));
}

/// Under `FirstChunk` a download has a result exactly if some chunk
/// arrived, and the result is the payload of one chunk: the first that
/// arrived.
pub proof fn law_first_chunk_is_one_chunk(items: Seq<ChunkOutcomeView>)
    ensures
        download_result(DownloadPolicy::FirstChunk, items) is None <==> none_arrived(items),
        download_result(DownloadPolicy::FirstChunk, items) matches Some(content) ==> exists|i: int|
            is_first_arrival(items, i) && content == payload_of(items[i]),
{
    lemma_none_arrived(items);
    if first_arrival(items) is Some {
        assert(is_first_arrival(items, first_arrival(items)->0));
    }
}

/// Under `WholeBlob` a download has a result exactly if the stream
/// delivered a chunk and none failed, and the result is the payload of
/// them all: no chunk is missing from it.
pub proof fn law_whole_blob_is_all_or_nothing(items: Seq<ChunkOutcomeView>)
    ensures
        download_result(DownloadPolicy::WholeBlob, items) is Some <==> items.len() > 0
            && all_arrived(items),
        download_result(DownloadPolicy::WholeBlob, items) matches Some(content) ==> content
            == payload(items),
{
}

/// With the static key in place, a blob that arrives as a single chunk is
/// fetched whole: the content is exactly that chunk's bytes, under either
/// policy, and no token is asked for.
pub proof fn law_static_key_single_chunk(
    settings: SettingsView,
    policy: DownloadPolicy,
    token: TokenOutcomeView,
    bytes: Seq<u8>,
)
    requires
        names_present(settings),
        selected_mode(settings) == CredentialMode::StaticKey,
        static_key_present(settings),
    ensures
        fetch_report(settings, policy, token, seq![ChunkOutcomeView::Data(bytes)]) == (ReportView {
            outcome: OutcomeView::Content(bytes),
            token_requested: false,
            chunks_read: 1,
        }),
{
    let items = seq![ChunkOutcomeView::Data(bytes)];
    assert(is_first_arrival(items, 0));
    lemma_first_arrival_unique(items, 0);
    assert(payload(items) == bytes) by {
        assert(items.drop_last() == Seq::<ChunkOutcomeView>::empty());
        assert(payload(items.drop_last()) == Seq::<u8>::empty());
        assert(Seq::<u8>::empty() + bytes == bytes);
    }
    assert(all_arrived(items));
}

/// Without a container name or without a blob name a fetch ends in its
/// first turn, with nothing and before any action on the network.
pub proof fn law_missing_name_gives_up(
    settings: SettingsView,
    policy: DownloadPolicy,
    token: TokenOutcomeView,
    items: Seq<ChunkOutcomeView>,
)
    requires
        settings.container_name is None || settings.blob_name is None,
    ensures
        begin(settings, policy) == (PhaseView::Finished, ActionView::GiveUp),
        fetch_report(settings, policy, token, items) == offline(OutcomeView::Nothing),
{
}

/// With the default chain a fetch first asks for a token, and if none is
/// granted it ends with nothing: the stream is never opened.
pub proof fn law_refused_token_gives_up(
    settings: SettingsView,
    policy: DownloadPolicy,
    items: Seq<ChunkOutcomeView>,
)
    requires
        names_present(settings),
        selected_mode(settings) == CredentialMode::DefaultChain,
    ensures
        begin(settings, policy).1 == (ActionView::AcquireToken { audience: AUDIENCE@ }),
        advance(begin(settings, policy).0, EventView::Token(TokenOutcomeView::Refused)) == (
            PhaseView::Finished,
            ActionView::GiveUp,
        ),
        fetch_report(settings, policy, TokenOutcomeView::Refused, items) == (ReportView {
            outcome: OutcomeView::Nothing,
            token_requested: true,
            chunks_read: 0,
        }),
{
}

/// Under `FirstChunk`, a blob that arrives in several chunks is fetched as
/// its first chunk alone: that chunk's bytes are the content and no other
/// item is read. The content is not the whole blob if a later chunk holds
/// a byte.
pub proof fn law_first_chunk_only(
    settings: SettingsView,
    token: TokenOutcomeView,
    items: Seq<ChunkOutcomeView>,
)
    requires
        resolved_handle(settings, token) is Some,
        items.len() > 1,
        all_arrived(items),
    ensures
        fetch_outcome(settings, DownloadPolicy::FirstChunk, token, items) == OutcomeView::Content(
            payload_of(items[0]),
        ),
        fetch_report(settings, DownloadPolicy::FirstChunk, token, items).chunks_read == 1,
        (exists|j: int| 0 < j < items.len() && payload_of(items[j]).len() > 0) ==> fetch_outcome(
            settings,
            DownloadPolicy::FirstChunk,
            token,
            items,
        ) != OutcomeView::Content(payload(items)),
{
    assert(is_first_arrival(items, 0));
    lemma_first_arrival_unique(items, 0);
    if exists|j: int| 0 < j < items.len() && payload_of(items[j]).len() > 0 {
        let j: int = choose|j: int| 0 < j < items.len() && payload_of(items[j]).len() > 0;
        let head = items.take(1);
        let rest = items.skip(1);
        assert(items == head + rest);
        law_payload_in_stream_order(head, rest);
        assert(payload(head) == payload_of(items[0])) by {
            assert(head.drop_last() == Seq::<ChunkOutcomeView>::empty());
            assert(payload(head.drop_last()) == Seq::<u8>::empty());
            assert(head.last() == items[0]);
            assert(Seq::<u8>::empty() + payload_of(items[0]) == payload_of(items[0]));
        }
        assert(rest[j - 1] == items[j]);
        law_payload_holds_each_chunk(rest, j - 1);
        assert(payload(items).len() > payload_of(items[0]).len());
    }
}

/// Under `WholeBlob`, a blob that arrives in several chunks is fetched as
/// all of them, joined in the order of the stream.
pub proof fn law_whole_blob_all_chunks(
    settings: SettingsView,
    token: TokenOutcomeView,
    items: Seq<ChunkOutcomeView>,
)
    requires
        resolved_handle(settings, token) is Some,
        items.len() > 1,
        all_arrived(items),
    ensures
        fetch_outcome(settings, DownloadPolicy::WholeBlob, token, items) == OutcomeView::Content(
            payload(items),
        ),
        fetch_report(settings, DownloadPolicy::WholeBlob, token, items).chunks_read == items.len(),
{
}

/// Two fetches with the same settings and policy against a blob whose
/// stream delivers the same items end alike, byte for byte, and ask the
/// same of the network, whatever the secrets of the tokens they were
/// granted. They can differ only where a token was asked for and granted
/// to one of them alone.
pub proof fn law_idempotent(
    settings: SettingsView,
    policy: DownloadPolicy,
    first_token: TokenOutcomeView,
    second_token: TokenOutcomeView,
    items: Seq<ChunkOutcomeView>,
)
    requires
        !token_requested(settings) || (first_token is Granted <==> second_token is Granted),
    ensures
        fetch_report(settings, policy, first_token, items) == fetch_report(
            settings,
            policy,
            second_token,
            items,
        ),
{
}

/// With the static key chosen and either of its environment variables
/// absent, a fetch that has its names ends in its first turn, fatally and
/// before any action on the network.
pub proof fn law_missing_static_key_is_fatal(
    settings: SettingsView,
    policy: DownloadPolicy,
    token: TokenOutcomeView,
    items: Seq<ChunkOutcomeView>,
)
    requires
        names_present(settings),
        selected_mode(settings) == CredentialMode::StaticKey,
        settings.storage_account is None || settings.storage_access_key is None,
    ensures
        begin(settings, policy) == (PhaseView::Finished, ActionView::Abort),
        fetch_report(settings, policy, token, items) == offline(OutcomeView::Fatal),
{
}

/// The first turn of a fetch reaches out to the network only if the
/// settings make a request, and a fetch is fatal only by its settings.
pub proof fn law_first_turn(settings: SettingsView, policy: DownloadPolicy)
    ensures
        begin(settings, policy).1.is_network() <==> intake(settings) is Request,
        begin(settings, policy).1 is Abort <==> intake(settings) is Fatal,
        begin(settings, policy).1.is_final() <==> begin(settings, policy).0 is Finished,
{
}

/// A turn ends the fetch exactly when its action is final, and no turn
/// after the first asks for a token or is fatal.
pub proof fn law_later_turns(phase: PhaseView, event: EventView)
    ensures
        advance(phase, event).1.is_final() <==> advance(phase, event).0 is Finished,
        !(advance(phase, event).1 is AcquireToken),
        !(advance(phase, event).1 is Abort),
        phase is Finished ==> advance(phase, event) == (PhaseView::Finished, ActionView::GiveUp),
{
}

} // verus!
