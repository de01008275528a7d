//! Progress events emitted while bytes move, and the counter that produces them.
use vstd::prelude::*;

verus! {

/// The stage a transfer is in when an event is emitted.
#[derive(Clone, Copy, Debug, PartialEq, Eq, Structural)]
pub enum Phase {
    Exists,
    Downloading,
    Uploading,
}

impl Phase {
    pub open spec fn spec_name(self) -> Seq<char> {
        match self {
            Phase::Exists => "exists"@,
            Phase::Downloading => "downloading"@,
            Phase::Uploading => "uploading"@,
        }
    }

    /// The status word carried by events of this phase.
    pub fn name(self) -> (r: String)
        ensures
            r@ == self.spec_name(),
    {
        match self {
            Phase::Exists => String::from_str("exists"),
            Phase::Downloading => String::from_str("downloading"),
            Phase::Uploading => String::from_str("uploading"),
        }
    }
}

/// One progress notification: bytes moved so far, the expected total (0 when
/// unknown) and the status word of the phase.
#[derive(Clone, Debug)]
pub struct ProgressPayload {
    pub progress: u64,
    pub total: u64,
    pub status: String,
}

impl ProgressPayload {
    pub fn new(progress: u64, total: u64, phase: Phase) -> (r: ProgressPayload)
        ensures
            r.progress == progress,
            r.total == total,
            r.status@ == phase.spec_name(),
    {
        ProgressPayload { progress, total, status: phase.name() }
    }

    /// The single event reporting that a valid cached file is reused.
    pub fn cached() -> (r: ProgressPayload)
        ensures
            r.progress == 100,
            r.total == 100,
            r.status@ == Phase::Exists.spec_name(),
    {
        ProgressPayload::new(100, 100, Phase::Exists)
    }
}

/// The sum of the chunk sizes.
pub open spec fn total_of(chunks: Seq<u64>) -> nat
    decreases chunks.len(),
{
    if chunks.len() == 0 {
        0
    } else {
        total_of(chunks.drop_last()) + chunks.last() as nat
    }
}

/// The progress values reported after each chunk, in order.
pub open spec fn progress_values(chunks: Seq<u64>) -> Seq<nat>
    decreases chunks.len(),
{
    if chunks.len() == 0 {
        Seq::empty()
    } else {
        progress_values(chunks.drop_last()).push(total_of(chunks))
    }
}

pub open spec fn length_or_zero(length: Option<u64>) -> u64 {
    match length {
        Some(n) => n,
        None => 0,
    }
}

/// Declared length of a body; a missing length is reported as 0, meaning unknown.
pub fn total_from_length(length: Option<u64>) -> (r: u64)
    ensures
        r == length_or_zero(length),
{
    match length {
        Some(n) => n,
        None => 0,
    }
}

/// Counts the bytes of one transfer and produces an event per chunk.
pub struct ProgressCounter {
    pub phase: Phase,
    pub total: u64,
    pub transferred: u64,
    pub chunks: Ghost<Seq<u64>>,
}

impl ProgressCounter {
    pub open spec fn wf(&self) -> bool {
        self.transferred == total_of(self.chunks@)
    }

    /// The progress values emitted so far.
    pub open spec fn emitted(&self) -> Seq<nat> {
        progress_values(self.chunks@)
    }

    pub fn new(phase: Phase, total: u64) -> (r: ProgressCounter)
        ensures
            r.wf(),
            r.phase == phase,
            r.total == total,
            r.transferred == 0,
            r.chunks@ == Seq::<u64>::empty(),
    {
        ProgressCounter { phase, total, transferred: 0, chunks: Ghost(Seq::empty()) }
    }

    /// Accounts for one chunk of `len` bytes and returns the event to emit for it.
    pub fn record(&mut self, len: u64) -> (r: ProgressPayload)
        requires
            old(self).wf(),
            old(self).transferred + len <= u64::MAX,
        ensures
            final(self).wf(),
            final(self).phase == old(self).phase,
            final(self).total == old(self).total,
            final(self).chunks@ == old(self).chunks@.push(len),
            final(self).transferred == old(self).transferred + len,
            final(self).emitted() == old(self).emitted().push(r.progress as nat),
            r.progress == final(self).transferred,
            r.total == old(self).total,
            r.status@ == old(self).phase.spec_name(),
    {
        let ghost before = self.chunks@;
        self.transferred = self.transferred + len;
        self.chunks = Ghost(self.chunks@.push(len));
        assert(self.chunks@.drop_last() =~= before);
        ProgressPayload::new(self.transferred, self.total, self.phase)
    }
}

proof fn lemma_total_of_prefix_le(chunks: Seq<u64>, i: int)
    requires
        0 <= i <= chunks.len(),
    ensures
        total_of(chunks.subrange(0, i)) <= total_of(chunks),
    decreases chunks.len() - i,
{
    if i < chunks.len() {
        lemma_total_of_prefix_le(chunks, i + 1);
        assert(chunks.subrange(0, i + 1).drop_last() =~= chunks.subrange(0, i));
    } else {
        assert(chunks.subrange(0, i) =~= chunks);
    }
}

proof fn lemma_progress_values_shape(chunks: Seq<u64>)
    ensures
        progress_values(chunks).len() == chunks.len(),
        forall|k: int|
            0 <= k < chunks.len() ==> #[trigger] progress_values(chunks)[k] == total_of(
                chunks.subrange(0, k + 1),
            ),
    decreases chunks.len(),
{
    if chunks.len() > 0 {
        let init = chunks.drop_last();
        lemma_progress_values_shape(init);
        assert forall|k: int| 0 <= k < chunks.len() implies #[trigger] progress_values(chunks)[k]
            == total_of(chunks.subrange(0, k + 1)) by {
            if k < init.len() {
                assert(init.subrange(0, k + 1) =~= chunks.subrange(0, k + 1));
            } else {
                assert(chunks.subrange(0, k + 1) =~= chunks);
            }
        }
    }
}

/// Within one transfer the reported progress never decreases, and once the
/// chunks add up to the declared total the last event reports exactly that total.
pub proof fn lemma_progress_monotone(chunks: Seq<u64>, total: u64)
    ensures
        forall|i: int, j: int|
            0 <= i <= j < progress_values(chunks).len() ==> progress_values(chunks)[i]
                <= progress_values(chunks)[j],
        chunks.len() > 0 && total_of(chunks) == total ==> progress_values(chunks).last()
            == total,
{
    lemma_progress_values_shape(chunks);
    assert forall|i: int, j: int|
        0 <= i <= j < progress_values(chunks).len() implies progress_values(chunks)[i]
        <= progress_values(chunks)[j] by {
        let upto = chunks.subrange(0, j + 1);
        lemma_total_of_prefix_le(upto, i + 1);
        assert(upto.subrange(0, i + 1) =~= chunks.subrange(0, i + 1));
    }
    if chunks.len() > 0 {
        assert(chunks.subrange(0, chunks.len() as int) =~= chunks);
    }
}

} // verus!
