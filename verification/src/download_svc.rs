//! The progress protocol between a download worker and its consumer.
//!
//! The worker reports through a [`DownloadProgress`]: once how much there is
//! to fetch, then every chunk as it arrives, then that it is done. Each report
//! yields the message that the worker is to send to the consumer over a
//! channel that holds one message at a time.

use vstd::prelude::*;
use crate::text::push_char;

verus! {

/// A message from the worker to the consumer.
#[derive(Clone, Copy, Debug, PartialEq, Eq, Structural)]
pub enum DownloadProgressMessage {
    /// The download starts; the number is the size of all there is to fetch.
    Setup(u64),
    /// A chunk arrived: what has been fetched so far, and the size of all.
    Update(u64, u64),
    /// The download is complete.
    End,
}

/// The worker's running account of a download.
#[derive(Clone, Copy, Debug, PartialEq, Eq)]
pub struct DownloadProgress {
    curr_progress: u64,
    max_progress: u64,
}

/// What a [`DownloadProgress`] stands for: what was fetched and what there is
/// to fetch.
pub struct Progress {
    pub done: int,
    pub total: int,
}

/// One report of the worker.
#[derive(Clone, Copy, Debug, PartialEq, Eq, Structural)]
pub enum ReporterCall {
    Setup(u64),
    Progress(u64),
    Done,
}

impl View for DownloadProgress {
    type V = Progress;

    closed spec fn view(&self) -> Progress {
        Progress { done: self.curr_progress as int, total: self.max_progress as int }
    }
}

/// The account after a report.
pub open spec fn account_after(p: Progress, call: ReporterCall) -> Progress {
    match call {
        ReporterCall::Setup(total) => Progress { total: total as int, ..p },
        ReporterCall::Progress(delta) => Progress { done: p.done + delta, ..p },
        ReporterCall::Done => p,
    }
}

/// The message that a report yields, if it yields one: an empty chunk is
/// counted but not announced.
pub open spec fn message_for(p: Progress, call: ReporterCall) -> Option<DownloadProgressMessage> {
    match call {
        ReporterCall::Setup(total) => Some(DownloadProgressMessage::Setup(total)),
        ReporterCall::Progress(delta) => if delta > 0 {
            Some(DownloadProgressMessage::Update((p.done + delta) as u64, p.total as u64))
        } else {
            None
        },
        ReporterCall::Done => Some(DownloadProgressMessage::End),
    }
}

impl DownloadProgress {
    /// A fresh account: nothing fetched, nothing known of the size.
    pub fn new() -> (r: Self)
        ensures
            r@ == (Progress { done: 0, total: 0 }),
    {
        DownloadProgress { curr_progress: 0, max_progress: 0 }
    }

    /// What has been fetched so far.
    pub fn current(&self) -> (r: u64)
        ensures
            r == self@.done,
    {
        self.curr_progress
    }

    /// The size of all there is to fetch.
    pub fn total(&self) -> (r: u64)
        ensures
            r == self@.total,
    {
        self.max_progress
    }

    /// Whether a chunk of the given size can still be counted in 64 bits.
    pub fn can_count(&self, delta: u64) -> (r: bool)
        ensures
            r == (self@.done + delta <= u64::MAX),
    {
        delta <= u64::MAX - self.curr_progress
    }

    /// Records the size of the download and yields the message that opens it.
    pub fn setup(&mut self, max_progress: u64) -> (msg: DownloadProgressMessage)
        ensures
            final(self)@ == account_after(old(self)@, ReporterCall::Setup(max_progress)),
            Some(msg) == message_for(old(self)@, ReporterCall::Setup(max_progress)),
    {
        self.max_progress = max_progress;
        DownloadProgressMessage::Setup(max_progress)
    }

    /// Counts a chunk and yields the message that announces the new total
    /// fetched, or nothing for an empty chunk.
    pub fn progress(&mut self, current: u64) -> (msg: Option<DownloadProgressMessage>)
        requires
            old(self)@.done + current <= u64::MAX,
        ensures
            final(self)@ == account_after(old(self)@, ReporterCall::Progress(current)),
            msg == message_for(old(self)@, ReporterCall::Progress(current)),
    {
        self.curr_progress = self.curr_progress + current;
        if current > 0 {
            Some(DownloadProgressMessage::Update(self.curr_progress, self.max_progress))
        } else {
            None
        }
    }

    /// Yields the message that closes the download.
    pub fn done(&mut self) -> (msg: DownloadProgressMessage)
        ensures
            final(self)@ == account_after(old(self)@, ReporterCall::Done),
            Some(msg) == message_for(old(self)@, ReporterCall::Done),
    {
        DownloadProgressMessage::End
    }
}

/// The sum of the chunk sizes.
pub open spec fn chunk_sum(chunks: Seq<u64>) -> int
    decreases chunks.len(),
{
    if chunks.len() == 0 {
        0
    } else {
        chunks[0] + chunk_sum(chunks.subrange(1, chunks.len() as int))
    }
}

/// The messages that the worker sends while it reports the chunks in order,
/// starting from the account `p`.
pub open spec fn chunk_messages(p: Progress, chunks: Seq<u64>) -> Seq<DownloadProgressMessage>
    decreases chunks.len(),
{
    if chunks.len() == 0 {
        Seq::<DownloadProgressMessage>::empty()
    } else {
        let call = ReporterCall::Progress(chunks[0]);
        let rest = chunk_messages(account_after(p, call), chunks.subrange(1, chunks.len() as int));
        match message_for(p, call) {
            Some(m) => seq![m] + rest,
            None => rest,
        }
    }
}

/// All that a worker sends for one download of the given size and chunks,
/// from a fresh account: the opening message, the announcements, the closing
/// message.
pub open spec fn worker_trace(total: u64, chunks: Seq<u64>) -> Seq<DownloadProgressMessage> {
    seq![DownloadProgressMessage::Setup(total)] + chunk_messages(
        Progress { done: 0, total: total as int },
        chunks,
    ) + seq![DownloadProgressMessage::End]
}

/// The total fetched that a message announces; zero for the other messages.
pub open spec fn announced(m: DownloadProgressMessage) -> int {
    match m {
        DownloadProgressMessage::Update(done, _) => done as int,
        _ => 0,
    }
}

/// Whether a message announces a total fetched between `low` and `total`, of
/// a download of size `total`.
pub open spec fn update_within(m: DownloadProgressMessage, low: int, total: int) -> bool {
    match m {
        DownloadProgressMessage::Update(done, of) => of == total && low <= done <= total,
        _ => false,
    }
}

/// Whether a sequence of messages is what a consumer sees of one completed
/// download: first the one opening message, then announcements that never go
/// back and never pass the size given at the opening, and last the one closing
/// message.
pub open spec fn complete_trace(msgs: Seq<DownloadProgressMessage>) -> bool {
    &&& msgs.len() >= 2
    &&& msgs[0] is Setup
    &&& msgs.last() == DownloadProgressMessage::End
    &&& forall|k: int|
        0 < k < msgs.len() - 1 ==> update_within(#[trigger] msgs[k], 0, msgs[0]->Setup_0 as int)
    &&& forall|j: int, k: int|
        0 < j <= k < msgs.len() - 1 ==> announced(#[trigger] msgs[j]) <= announced(
            #[trigger] msgs[k],
        )
}

/// The announcements of a run of chunks that fits in what is left of the
/// download all lie between the account's start and the size, and never go
/// back.
pub proof fn lemma_chunk_messages(p: Progress, chunks: Seq<u64>)
    requires
        0 <= p.done,
        p.done + chunk_sum(chunks) <= p.total <= u64::MAX,
    ensures
        chunk_sum(chunks) >= 0,
        forall|k: int|
            0 <= k < chunk_messages(p, chunks).len() ==> update_within(
                #[trigger] chunk_messages(p, chunks)[k],
                p.done,
                p.total,
            ),
        forall|j: int, k: int|
            0 <= j <= k < chunk_messages(p, chunks).len() ==> announced(
                #[trigger] chunk_messages(p, chunks)[j],
            ) <= announced(#[trigger] chunk_messages(p, chunks)[k]),
    decreases chunks.len(),
{
    lemma_chunk_sum_nonnegative(chunks);
    if chunks.len() > 0 {
        let call = ReporterCall::Progress(chunks[0]);
        let next = account_after(p, call);
        let tail = chunks.subrange(1, chunks.len() as int);
        lemma_chunk_sum_nonnegative(tail);
        lemma_chunk_messages(next, tail);
        assert(chunk_messages(p, chunks) == match message_for(p, call) {
            Some(m) => seq![m] + chunk_messages(next, tail),
            None => chunk_messages(next, tail),
        });
    }
}

/// A sum of chunk sizes is never negative.
pub proof fn lemma_chunk_sum_nonnegative(chunks: Seq<u64>)
    ensures
        chunk_sum(chunks) >= 0,
    decreases chunks.len(),
{
    if chunks.len() > 0 {
        lemma_chunk_sum_nonnegative(chunks.subrange(1, chunks.len() as int));
    }
}

/// Whatever the chunks, as long as together they do not pass the size given
/// at the opening, what a worker sends for one download is a complete trace:
/// one opening message, announcements that never go back and never pass the
/// size, one closing message, and nothing after it.
pub proof fn lemma_worker_trace_complete(total: u64, chunks: Seq<u64>)
    requires
        chunk_sum(chunks) <= total,
    ensures
        complete_trace(worker_trace(total, chunks)),
{
    let start = Progress { done: 0, total: total as int };
    let msgs = worker_trace(total, chunks);
    lemma_chunk_messages(start, chunks);
    assert forall|k: int| 0 < k < msgs.len() - 1 implies update_within(
        #[trigger] msgs[k],
        0,
        msgs[0]->Setup_0 as int,
    ) by {}
    assert forall|j: int, k: int| 0 < j <= k < msgs.len() - 1 implies announced(
        #[trigger] msgs[j],
    ) <= announced(#[trigger] msgs[k]) by {}
}

/// Whether the messages are what a consumer sees of one completed download.
pub fn is_complete_trace(msgs: &Vec<DownloadProgressMessage>) -> (r: bool)
    ensures
        r == complete_trace(msgs@),
{
    let n: usize = msgs.len();
    if n < 2 {
        return false;
    }
    let total: u64 = match msgs[0] {
        DownloadProgressMessage::Setup(t) => t,
        _ => {
            return false;
        },
    };
    match msgs[n - 1] {
        DownloadProgressMessage::End => {},
        _ => {
            return false;
        },
    }
    let mut last: u64 = 0;
    let mut k: usize = 1;
    while k < n - 1
        invariant
            n == msgs@.len(),
            n >= 2,
            1 <= k <= n - 1,
            msgs@[0] == DownloadProgressMessage::Setup(total),
            forall|j: int| 0 < j < k ==> update_within(#[trigger] msgs@[j], 0, total as int),
            forall|i: int, j: int|
                0 < i <= j < k ==> announced(#[trigger] msgs@[i]) <= announced(
                    #[trigger] msgs@[j],
                ),
            k == 1 ==> last == 0,
            k > 1 ==> last == announced(msgs@[k - 1]),
        decreases n - k,
    {
        match msgs[k] {
            DownloadProgressMessage::Update(done, of) => {
                if of != total || done > total {
                    return false;
                }
                if done < last {
                    return false;
                }
                last = done;
            },
            _ => {
                return false;
            },
        }
        k += 1;
    }
    true
}

/// The part of a text that follows its last slash; the whole text where it
/// holds none.
pub open spec fn last_segment(s: Seq<char>) -> Seq<char>
    decreases s.len(),
{
    if s.len() == 0 {
        Seq::<char>::empty()
    } else if s.last() == '/' {
        Seq::<char>::empty()
    } else {
        last_segment(s.drop_last()).push(s.last())
    }
}

/// The name of the file that an address points to: what follows its last slash.
pub fn file_name_of(url: &str) -> (r: String)
    ensures
        r@ == last_segment(url@),
{
    let mut name = String::new();
    for c in it: url.chars()
        invariant
            it.seq() == url@,
            name@ == last_segment(url@.subrange(0, it.index() as int)),
    {
        let ghost more = url@.subrange(0, it.index() + 1);
        assert(more.drop_last() =~= url@.subrange(0, it.index() as int));
        if c == '/' {
            name = String::new();
        } else {
            push_char(&mut name, c);
        }
    }
    assert(url@.subrange(0, url@.len() as int) =~= url@);
    name
}

/// For every address the name of the file that it is to be saved under, in
/// the order of the addresses.
pub fn download_targets(urls: &Vec<String>) -> (r: Vec<(String, String)>)
    ensures
        r@.len() == urls@.len(),
        forall|k: int|
            0 <= k < urls@.len() ==> (#[trigger] r@[k]).0@ == urls@[k]@ && r@[k].1@ == last_segment(
                urls@[k]@,
            ),
{
    let mut r: Vec<(String, String)> = Vec::new();
    let mut i: usize = 0;
    while i < urls.len()
        invariant
            i <= urls.len(),
            r@.len() == i,
            forall|k: int|
                0 <= k < i ==> (#[trigger] r@[k]).0@ == urls@[k]@ && r@[k].1@ == last_segment(
                    urls@[k]@,
                ),
        decreases urls.len() - i,
    {
        r.push((urls[i].clone(), file_name_of(urls[i].as_str())));
        i += 1;
    }
    r
}

} // verus!
