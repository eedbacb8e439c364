use blob_fetch::container::Container;
use blob_fetch::credential::{BlobClientHandle, BlobTarget, Credential, TokenOutcome};
use blob_fetch::download::{ChunkOutcome, Download, DownloadPolicy};
use blob_fetch::fetch::{Action, Event, Phase, AUDIENCE, CHUNK_SIZE, CONTENT};
use blob_fetch::request::Settings;

fn settings(default_chain: bool) -> Settings {
    Settings {
        container_name: Some("images".to_string()),
        blob_name: Some("cat.png".to_string()),
        account_name: Some("configured".to_string()),
        use_default_credentials: Some(default_chain),
        storage_account: Some("fromenv".to_string()),
        storage_access_key: Some("a2V5".to_string()),
    }
}

fn target(account: &str) -> BlobTarget {
    BlobTarget {
        account_name: account.to_string(),
        container_name: "images".to_string(),
        blob_name: "cat.png".to_string(),
    }
}

fn streaming(policy: DownloadPolicy) -> Phase {
    Phase::Streaming { download: Download::new(policy) }
}

#[test]
fn constants_are_the_published_ones() {
    assert_eq!(AUDIENCE, "https://storage.azure.com/");
    assert_eq!(CHUNK_SIZE, 8192);
    assert_eq!(CONTENT, "content");
}

#[test]
fn static_key_fetch_opens_the_stream_first() {
    let (phase, action) = Container::begin(settings(false), DownloadPolicy::FirstChunk);
    assert_eq!(phase, streaming(DownloadPolicy::FirstChunk));
    let handle = BlobClientHandle {
        target: target("fromenv"),
        credential: Credential::AccessKey("a2V5".to_string()),
    };
    assert_eq!(action, Action::OpenStream { handle, chunk_size: 0x2000 });
}

#[test]
fn default_chain_fetch_asks_for_a_token_first() {
    let (phase, action) = Container::begin(settings(true), DownloadPolicy::WholeBlob);
    assert_eq!(
        phase,
        Phase::AwaitingToken { target: target("configured"), policy: DownloadPolicy::WholeBlob }
    );
    assert_eq!(action, Action::AcquireToken { audience: "https://storage.azure.com/" });
}

#[test]
fn fetch_without_container_name_ends_at_once() {
    let mut incomplete = settings(true);
    incomplete.container_name = None;
    let turn = Container::begin(incomplete, DownloadPolicy::FirstChunk);
    assert_eq!(turn, (Phase::Finished, Action::GiveUp));
}

#[test]
fn fetch_without_blob_name_ends_at_once() {
    let mut incomplete = settings(false);
    incomplete.blob_name = None;
    let turn = Container::begin(incomplete, DownloadPolicy::FirstChunk);
    assert_eq!(turn, (Phase::Finished, Action::GiveUp));
}

#[test]
fn fetch_without_storage_account_aborts_at_once() {
    let mut keyless = settings(false);
    keyless.storage_account = None;
    let turn = Container::begin(keyless, DownloadPolicy::FirstChunk);
    assert_eq!(turn, (Phase::Finished, Action::Abort));
}

#[test]
fn fetch_without_storage_access_key_aborts_at_once() {
    let mut keyless = settings(false);
    keyless.storage_access_key = None;
    let turn = Container::begin(keyless, DownloadPolicy::WholeBlob);
    assert_eq!(turn, (Phase::Finished, Action::Abort));
}

#[test]
fn granted_token_opens_the_stream() {
    let (phase, _) = Container::begin(settings(true), DownloadPolicy::FirstChunk);
    let event = Event::Token(TokenOutcome::Granted("bearer".to_string()));
    let (phase, action) = Container::advance(phase, event);
    assert_eq!(phase, streaming(DownloadPolicy::FirstChunk));
    let handle = BlobClientHandle {
        target: target("configured"),
        credential: Credential::BearerToken("bearer".to_string()),
    };
    assert_eq!(action, Action::OpenStream { handle, chunk_size: 8192 });
}

#[test]
fn refused_token_ends_the_fetch_with_nothing() {
    let (phase, _) = Container::begin(settings(true), DownloadPolicy::FirstChunk);
    let turn = Container::advance(phase, Event::Token(TokenOutcome::Refused));
    assert_eq!(turn, (Phase::Finished, Action::GiveUp));
}

#[test]
fn first_chunk_is_published_under_the_name_content() {
    let event = Event::Chunk(ChunkOutcome::Data(vec![9, 9, 9]));
    let turn = Container::advance(streaming(DownloadPolicy::FirstChunk), event);
    let publish = Action::Publish { attribute: "content", content: vec![9, 9, 9] };
    assert_eq!(turn, (Phase::Finished, publish));
}

#[test]
fn failed_chunk_asks_for_the_next_one() {
    let start = streaming(DownloadPolicy::FirstChunk);
    let (phase, action) = Container::advance(start, Event::Chunk(ChunkOutcome::Failed));
    assert!(matches!(phase, Phase::Streaming { .. }));
    assert_eq!(action, Action::ReadNext);
    let (phase, action) = Container::advance(phase, Event::Chunk(ChunkOutcome::Data(vec![4])));
    assert_eq!(phase, Phase::Finished);
    assert_eq!(action, Action::Publish { attribute: "content", content: vec![4] });
}

#[test]
fn whole_blob_gives_up_at_the_end_if_a_chunk_failed() {
    let phase = streaming(DownloadPolicy::WholeBlob);
    let (phase, action) = Container::advance(phase, Event::Chunk(ChunkOutcome::Data(vec![1])));
    assert_eq!(action, Action::ReadNext);
    let (phase, action) = Container::advance(phase, Event::Chunk(ChunkOutcome::Failed));
    assert_eq!(action, Action::ReadNext);
    let turn = Container::advance(phase, Event::EndOfStream);
    assert_eq!(turn, (Phase::Finished, Action::GiveUp));
}

#[test]
fn whole_blob_reads_on_after_a_chunk_and_publishes_at_the_end() {
    let phase = streaming(DownloadPolicy::WholeBlob);
    let (phase, action) = Container::advance(phase, Event::Chunk(ChunkOutcome::Data(vec![1])));
    assert_eq!(action, Action::ReadNext);
    let (phase, action) = Container::advance(phase, Event::Chunk(ChunkOutcome::Data(vec![2])));
    assert_eq!(action, Action::ReadNext);
    let turn = Container::advance(phase, Event::EndOfStream);
    let publish = Action::Publish { attribute: "content", content: vec![1, 2] };
    assert_eq!(turn, (Phase::Finished, publish));
}

#[test]
fn exhausted_stream_without_arrival_gives_up() {
    let turn = Container::advance(streaming(DownloadPolicy::FirstChunk), Event::EndOfStream);
    assert_eq!(turn, (Phase::Finished, Action::GiveUp));
}

#[test]
fn an_event_out_of_turn_ends_the_fetch_with_nothing() {
    let (waiting, _) = Container::begin(settings(true), DownloadPolicy::FirstChunk);
    let turn = Container::advance(waiting.clone(), Event::EndOfStream);
    assert_eq!(turn, (Phase::Finished, Action::GiveUp));
    let turn = Container::advance(waiting, Event::Chunk(ChunkOutcome::Data(vec![1])));
    assert_eq!(turn, (Phase::Finished, Action::GiveUp));
    let token = Event::Token(TokenOutcome::Granted("t".to_string()));
    let turn = Container::advance(streaming(DownloadPolicy::WholeBlob), token);
    assert_eq!(turn, (Phase::Finished, Action::GiveUp));
}

#[test]
fn a_finished_fetch_stays_finished() {
    let chunk = Event::Chunk(ChunkOutcome::Data(vec![1]));
    assert_eq!(Container::advance(Phase::Finished, chunk), (Phase::Finished, Action::GiveUp));
    let end = Event::EndOfStream;
    assert_eq!(Container::advance(Phase::Finished, end), (Phase::Finished, Action::GiveUp));
}
