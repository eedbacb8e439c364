use blob_fetch::container::Container;
use blob_fetch::credential::TokenOutcome;
use blob_fetch::download::{ChunkOutcome, DownloadPolicy};
use blob_fetch::replay::{Outcome, Report};
use blob_fetch::request::Settings;

fn static_key() -> Settings {
    Settings {
        container_name: Some("c".to_string()),
        blob_name: Some("b".to_string()),
        account_name: Some("a".to_string()),
        use_default_credentials: None,
        storage_account: Some("acct".to_string()),
        storage_access_key: Some("key".to_string()),
    }
}

fn default_chain() -> Settings {
    Settings {
        container_name: Some("c".to_string()),
        blob_name: Some("b".to_string()),
        account_name: Some("a".to_string()),
        use_default_credentials: Some(true),
        storage_account: None,
        storage_access_key: None,
    }
}

fn granted(secret: &str) -> TokenOutcome {
    TokenOutcome::Granted(secret.to_string())
}

fn data(bytes: &[u8]) -> ChunkOutcome {
    ChunkOutcome::Data(bytes.to_vec())
}

fn offline(outcome: Outcome) -> Report {
    Report { outcome, token_requested: false, chunks_read: 0 }
}

#[test]
fn static_key_single_chunk_blob_is_fetched_whole() {
    let items = vec![data(b"hello blob")];
    for policy in [DownloadPolicy::FirstChunk, DownloadPolicy::WholeBlob] {
        let report = Container::replay(static_key(), policy, TokenOutcome::Refused, &items);
        let expected = Report {
            outcome: Outcome::Content(b"hello blob".to_vec()),
            token_requested: false,
            chunks_read: 1,
        };
        assert_eq!(report, expected);
    }
}

#[test]
fn missing_container_name_asks_nothing_of_the_network() {
    let mut settings = default_chain();
    settings.container_name = None;
    let items = vec![data(b"never read")];
    let report = Container::replay(settings, DownloadPolicy::FirstChunk, granted("t"), &items);
    assert_eq!(report, offline(Outcome::Nothing));
}

#[test]
fn missing_blob_name_asks_nothing_of_the_network() {
    let mut settings = static_key();
    settings.blob_name = None;
    let items = vec![data(b"never read")];
    let report = Container::replay(settings, DownloadPolicy::WholeBlob, granted("t"), &items);
    assert_eq!(report, offline(Outcome::Nothing));
}

#[test]
fn refused_token_never_opens_the_stream() {
    let items = vec![data(b"never read")];
    let report =
        Container::replay(default_chain(), DownloadPolicy::FirstChunk, TokenOutcome::Refused, &items);
    let expected = Report { outcome: Outcome::Nothing, token_requested: true, chunks_read: 0 };
    assert_eq!(report, expected);
}

#[test]
fn multi_chunk_blob_is_cut_to_its_first_chunk() {
    let items = vec![data(&[1, 2, 3]), data(&[4, 5, 6]), data(&[7])];
    let report =
        Container::replay(default_chain(), DownloadPolicy::FirstChunk, granted("t"), &items);
    let expected = Report {
        outcome: Outcome::Content(vec![1, 2, 3]),
        token_requested: true,
        chunks_read: 1,
    };
    assert_eq!(report, expected);
    assert_ne!(report.outcome, Outcome::Content(vec![1, 2, 3, 4, 5, 6, 7]));
}

#[test]
fn multi_chunk_blob_is_whole_under_the_whole_blob_policy() {
    let items = vec![data(&[1, 2, 3]), data(&[4, 5, 6]), data(&[7])];
    let report =
        Container::replay(default_chain(), DownloadPolicy::WholeBlob, granted("t"), &items);
    let expected = Report {
        outcome: Outcome::Content(vec![1, 2, 3, 4, 5, 6, 7]),
        token_requested: true,
        chunks_read: 3,
    };
    assert_eq!(report, expected);
}

#[test]
fn repeated_fetches_end_alike() {
    let items = vec![ChunkOutcome::Failed, data(&[0xde, 0xad]), data(&[0xbe, 0xef])];
    for policy in [DownloadPolicy::FirstChunk, DownloadPolicy::WholeBlob] {
        let first = Container::replay(default_chain(), policy, granted("monday"), &items);
        let second = Container::replay(default_chain(), policy, granted("tuesday"), &items);
        assert_eq!(first, second);
        let first = Container::replay(static_key(), policy, granted("x"), &items);
        let second = Container::replay(static_key(), policy, TokenOutcome::Refused, &items);
        assert_eq!(first, second);
    }
}

#[test]
fn missing_environment_is_fatal_before_any_network_use() {
    let items = vec![data(b"never read")];
    let mut settings = static_key();
    settings.storage_account = None;
    let report = Container::replay(settings, DownloadPolicy::FirstChunk, granted("t"), &items);
    assert_eq!(report, offline(Outcome::Fatal));
    let mut settings = static_key();
    settings.storage_access_key = None;
    let report = Container::replay(settings, DownloadPolicy::FirstChunk, granted("t"), &items);
    assert_eq!(report, offline(Outcome::Fatal));
}

#[test]
fn failures_before_the_first_arrival_are_read_and_skipped() {
    let items = vec![ChunkOutcome::Failed, ChunkOutcome::Failed, data(&[5]), data(&[6])];
    let report =
        Container::replay(static_key(), DownloadPolicy::FirstChunk, TokenOutcome::Refused, &items);
    let expected =
        Report { outcome: Outcome::Content(vec![5]), token_requested: false, chunks_read: 3 };
    assert_eq!(report, expected);
}

#[test]
fn a_stream_of_failures_ends_with_nothing() {
    let items = vec![ChunkOutcome::Failed, ChunkOutcome::Failed];
    for policy in [DownloadPolicy::FirstChunk, DownloadPolicy::WholeBlob] {
        let report = Container::replay(static_key(), policy, TokenOutcome::Refused, &items);
        let expected = Report { outcome: Outcome::Nothing, token_requested: false, chunks_read: 2 };
        assert_eq!(report, expected);
    }
}

#[test]
fn an_empty_stream_ends_with_nothing() {
    let items: Vec<ChunkOutcome> = Vec::new();
    let report =
        Container::replay(static_key(), DownloadPolicy::WholeBlob, TokenOutcome::Refused, &items);
    let expected = Report { outcome: Outcome::Nothing, token_requested: false, chunks_read: 0 };
    assert_eq!(report, expected);
}

#[test]
fn whole_blob_is_nothing_where_a_chunk_failed() {
    let items = vec![data(&[1]), ChunkOutcome::Failed, data(&[3])];
    let report =
        Container::replay(static_key(), DownloadPolicy::WholeBlob, TokenOutcome::Refused, &items);
    let expected = Report { outcome: Outcome::Nothing, token_requested: false, chunks_read: 3 };
    assert_eq!(report, expected);
}

#[test]
fn first_chunk_is_content_even_after_a_failure() {
    let items = vec![ChunkOutcome::Failed, data(&[3]), ChunkOutcome::Failed];
    let report =
        Container::replay(static_key(), DownloadPolicy::FirstChunk, TokenOutcome::Refused, &items);
    let expected =
        Report { outcome: Outcome::Content(vec![3]), token_requested: false, chunks_read: 2 };
    assert_eq!(report, expected);
}

#[test]
fn replay_leaves_the_recording_untouched() {
    let items = vec![data(&[1, 2]), data(&[3])];
    let before = items.clone();
    let _ = Container::replay(static_key(), DownloadPolicy::WholeBlob, granted("t"), &items);
    assert_eq!(items, before);
}
