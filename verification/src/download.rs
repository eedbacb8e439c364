//! Accumulating the chunks of a blob in the order the stream delivers them.

use vstd::prelude::*;

verus! {

/// One item delivered by the chunked stream of a blob.
#[derive(Clone, Debug, PartialEq, Eq)]
pub enum ChunkOutcome {
    /// The chunk arrived, with these bytes.
    Data(Vec<u8>),
    /// The transfer of the chunk failed.
    Failed,
}

/// A delivered item as a mathematical value.
pub enum ChunkOutcomeView {
    Data(Seq<u8>),
    Failed,
}

impl View for ChunkOutcome {
    type V = ChunkOutcomeView;

    open spec fn view(&self) -> ChunkOutcomeView {
        match *self {
            ChunkOutcome::Data(bytes) => ChunkOutcomeView::Data(bytes@),
            ChunkOutcome::Failed => ChunkOutcomeView::Failed,
        }
    }
}

/// When a download hands its buffer out.
#[derive(Clone, Copy, Debug, PartialEq, Eq, Structural)]
pub enum DownloadPolicy {
    /// The buffer is published as soon as one chunk has arrived. The rest of
    /// the stream is never read, so of a blob of several chunks only the
    /// first is fetched.
    FirstChunk,
    /// The buffer is published when the stream is exhausted, and only if
    /// every chunk arrived: the content is the whole blob or nothing.
    WholeBlob,
}

/// The bytes that `item` adds to the buffer: its payload, or nothing.
pub open spec fn payload_of(item: ChunkOutcomeView) -> Seq<u8> {
    match item {
        ChunkOutcomeView::Data(bytes) => bytes,
        ChunkOutcomeView::Failed => Seq::empty(),
    }
}

/// The payloads of the chunks that arrived among `items`, joined in stream
/// order.
pub open spec fn payload(items: Seq<ChunkOutcomeView>) -> Seq<u8>
    decreases items.len(),
{
    if items.len() == 0 {
        Seq::empty()
    } else {
        payload(items.drop_last()) + payload_of(items.last())
    }
}

/// `items[i]` arrived and every item before it failed.
pub open spec fn is_first_arrival(items: Seq<ChunkOutcomeView>, i: int) -> bool {
    &&& 0 <= i < items.len()
    &&& items[i] is Data
    &&& forall|j: int| 0 <= j < i ==> items[j] is Failed
}

/// No item of `items` arrived.
pub open spec fn none_arrived(items: Seq<ChunkOutcomeView>) -> bool {
    forall|j: int| 0 <= j < items.len() ==> items[j] is Failed
}

/// Every item of `items` arrived.
pub open spec fn all_arrived(items: Seq<ChunkOutcomeView>) -> bool {
    forall|j: int| 0 <= j < items.len() ==> items[j] is Data
}

/// The position of the first chunk that arrived, if any did.
pub open spec fn first_arrival(items: Seq<ChunkOutcomeView>) -> Option<int> {
    if exists|i: int| is_first_arrival(items, i) {
        Some(choose|i: int| is_first_arrival(items, i))
    } else {
        None
    }
}

/// What a download under `policy` returns when the stream delivers `items`
/// and then ends.
///
/// Under `FirstChunk` it is the payload of the first chunk that arrived,
/// whatever failed before it. Under `WholeBlob` it is the payload of all
/// the chunks, if there was one and none failed. Otherwise it is nothing.
pub open spec fn download_result(policy: DownloadPolicy, items: Seq<ChunkOutcomeView>) -> Option<
    Seq<u8>,
> {
    match policy {
        DownloadPolicy::FirstChunk => match first_arrival(items) {
            Some(i) => Some(payload_of(items[i])),
            None => None,
        },
        DownloadPolicy::WholeBlob => if items.len() > 0 && all_arrived(items) {
            Some(payload(items))
        } else {
            None
        },
    }
}

/// How many items of `items` a download under `policy` reads from the
/// stream: up to the first arrival under `FirstChunk`, all of them
/// otherwise. A failure does not end the reading.
pub open spec fn chunks_read(policy: DownloadPolicy, items: Seq<ChunkOutcomeView>) -> nat {
    match (policy, first_arrival(items)) {
        (DownloadPolicy::FirstChunk, Some(i)) => (i + 1) as nat,
        _ => items.len(),
    }
}

/// At most one position is the first arrival, and `first_arrival` names it.
pub proof fn lemma_first_arrival_unique(items: Seq<ChunkOutcomeView>, i: int)
    requires
        is_first_arrival(items, i),
    ensures
        first_arrival(items) == Some(i),
{
    let k: int = choose|k: int| is_first_arrival(items, k);
    assert(is_first_arrival(items, k));
    if k < i {
        assert(items[k] is Failed);
    } else if i < k {
        assert(items[i] is Failed);
    }
}

/// If nothing arrived there is no first arrival, and the other way round.
pub proof fn lemma_none_arrived(items: Seq<ChunkOutcomeView>)
    ensures
        none_arrived(items) <==> first_arrival(items) is None,
        first_arrival(items) matches Some(i) ==> is_first_arrival(items, i),
{
    if none_arrived(items) {
        assert forall|i: int| !is_first_arrival(items, i) by {
            if 0 <= i < items.len() {
                assert(items[i] is Failed);
            }
        }
    } else {
        let j: int = choose|j: int| 0 <= j < items.len() && !(items[j] is Failed);
        lemma_some_arrived(items, j);
    }
}

/// An item that arrived at `j` puts the first arrival at or before `j`.
pub proof fn lemma_some_arrived(items: Seq<ChunkOutcomeView>, j: int)
    requires
        0 <= j < items.len(),
        items[j] is Data,
    ensures
        first_arrival(items) matches Some(i) && 0 <= i <= j && is_first_arrival(items, i),
    decreases j,
{
    if forall|k: int| 0 <= k < j ==> items[k] is Failed {
        assert(is_first_arrival(items, j));
        lemma_first_arrival_unique(items, j);
    } else {
        let k: int = choose|k: int| 0 <= k < j && !(items[k] is Failed);
        lemma_some_arrived(items, k);
    }
}

/// A stream of which nothing arrived has an empty payload.
pub proof fn lemma_payload_none_arrived(items: Seq<ChunkOutcomeView>)
    requires
        none_arrived(items),
    ensures
        payload(items) == Seq::<u8>::empty(),
    decreases items.len(),
{
    if items.len() > 0 {
        assert(items.last() is Failed);
        lemma_payload_none_arrived(items.drop_last());
    }
}

/// Reading one more item appends what it adds to the payload. Nothing has
/// arrived after it only if nothing had before and it failed; everything
/// has arrived after it only if everything had before and it arrived.
pub proof fn lemma_take_next(items: Seq<ChunkOutcomeView>, n: int)
    requires
        0 <= n < items.len(),
    ensures
        payload(items.take(n + 1)) == payload(items.take(n)) + payload_of(items[n]),
        none_arrived(items.take(n + 1)) <==> none_arrived(items.take(n)) && items[n] is Failed,
        all_arrived(items.take(n + 1)) <==> all_arrived(items.take(n)) && items[n] is Data,
{
    let shorter = items.take(n);
    let longer = items.take(n + 1);
    assert(longer.drop_last() == shorter);
    assert(longer.last() == items[n]);
    assert(longer[n] == items[n]);
    assert forall|j: int| 0 <= j < n implies shorter[j] == longer[j] by {}
    if none_arrived(shorter) && items[n] is Failed {
        assert forall|j: int| 0 <= j < longer.len() implies longer[j] is Failed by {
            if j < n {
                assert(shorter[j] is Failed);
            }
        }
    }
    if all_arrived(shorter) && items[n] is Data {
        assert forall|j: int| 0 <= j < longer.len() implies longer[j] is Data by {
            if j < n {
                assert(shorter[j] is Data);
            }
        }
    }
    if none_arrived(longer) {
        assert(longer[n] is Failed);
        assert forall|j: int| 0 <= j < n implies shorter[j] is Failed by {
            assert(longer[j] is Failed);
        }
    }
    if all_arrived(longer) {
        assert(longer[n] is Data);
        assert forall|j: int| 0 <= j < n implies shorter[j] is Data by {
            assert(longer[j] is Data);
        }
    }
}

/// A download in progress: what has been accumulated so far.
#[derive(Clone, Debug, PartialEq, Eq)]
pub struct Download {
    policy: DownloadPolicy,
    buffer: Vec<u8>,
    arrived: bool,
    failed: bool,
}

/// A download in progress as a mathematical value.
pub struct DownloadView {
    /// When the buffer is handed out.
    pub policy: DownloadPolicy,
    /// The payloads accumulated so far, in stream order.
    pub buffer: Seq<u8>,
    /// Whether any chunk has arrived.
    pub arrived: bool,
    /// Whether any chunk has failed.
    pub failed: bool,
}

impl View for Download {
    type V = DownloadView;

    closed spec fn view(&self) -> DownloadView {
        DownloadView {
            policy: self.policy,
            buffer: self.buffer@,
            arrived: self.arrived,
            failed: self.failed,
        }
    }
}

/// What the accumulation loop does after an item of the stream.
#[derive(Clone, Debug, PartialEq, Eq)]
pub enum DownloadStep {
    /// Read the next item of the stream and hand it to the download.
    Continue(Download),
    /// The download is over and these bytes are its result.
    Publish(Vec<u8>),
    /// The download is over and has no result.
    GiveUp,
}

/// A step of the accumulation loop as a mathematical value.
pub enum DownloadStepView {
    Continue(DownloadView),
    Publish(Seq<u8>),
    GiveUp,
}

impl View for DownloadStep {
    type V = DownloadStepView;

    open spec fn view(&self) -> DownloadStepView {
        match *self {
            DownloadStep::Continue(download) => DownloadStepView::Continue(download@),
            DownloadStep::Publish(bytes) => DownloadStepView::Publish(bytes@),
            DownloadStep::GiveUp => DownloadStepView::GiveUp,
        }
    }
}

/// The download that has read nothing yet.
pub open spec fn download_start(policy: DownloadPolicy) -> DownloadView {
    DownloadView { policy, buffer: Seq::empty(), arrived: false, failed: false }
}

/// The step taken from `state` when the stream delivers `item`; `None` is
/// the end of the stream.
///
/// A chunk that arrived is appended to the buffer, which is published at
/// once under `FirstChunk`. A chunk that failed is noted, and the reading
/// goes on. At the end of the stream the buffer is published if a chunk
/// arrived and none failed.
pub open spec fn download_step(
    state: DownloadView,
    item: Option<ChunkOutcomeView>,
) -> DownloadStepView {
    match item {
        Some(ChunkOutcomeView::Data(bytes)) => match state.policy {
            DownloadPolicy::FirstChunk => DownloadStepView::Publish(state.buffer + bytes),
            DownloadPolicy::WholeBlob => DownloadStepView::Continue(
                DownloadView {
                    policy: state.policy,
                    buffer: state.buffer + bytes,
                    arrived: true,
                    failed: state.failed,
                },
            ),
        },
        Some(ChunkOutcomeView::Failed) => DownloadStepView::Continue(
            DownloadView {
                policy: state.policy,
                buffer: state.buffer,
                arrived: state.arrived,
                failed: true,
            },
        ),
        None => if state.arrived && !state.failed {
            DownloadStepView::Publish(state.buffer)
        } else {
            DownloadStepView::GiveUp
        },
    }
}

impl Download {
    /// A download that has read nothing yet.
    pub fn new(policy: DownloadPolicy) -> (download: Download)
        ensures
            download@ == download_start(policy),
    {
        Download { policy, buffer: Vec::new(), arrived: false, failed: false }
    }

    /// The policy this download runs under.
    pub fn policy(&self) -> (policy: DownloadPolicy)
        ensures
            policy == self@.policy,
    {
        self.policy
    }

    /// Takes one item of the stream, or its end (`None`), and says how the
    /// loop goes on.
    pub fn on_item(self, item: Option<ChunkOutcome>) -> (step: DownloadStep)
        ensures
            step@ == download_step(self@, option_view(item)),
    {
        let Download { policy, mut buffer, arrived, failed } = self;
        match item {
            Some(ChunkOutcome::Data(mut bytes)) => {
                buffer.append(&mut bytes);
                match policy {
                    DownloadPolicy::FirstChunk => DownloadStep::Publish(buffer),
                    DownloadPolicy::WholeBlob => DownloadStep::Continue(
                        Download { policy, buffer, arrived: true, failed },
                    ),
                }
            },
            Some(ChunkOutcome::Failed) => DownloadStep::Continue(
                Download { policy, buffer, arrived, failed: true },
            ),
            None => if arrived && !failed {
                DownloadStep::Publish(buffer)
            } else {
                DownloadStep::GiveUp
            },
        }
    }
}

/// The view of an optional item.
pub open spec fn option_view(item: Option<ChunkOutcome>) -> Option<ChunkOutcomeView> {
    match item {
        Some(outcome) => Some(outcome@),
        None => None,
    }
}

} // verus!
