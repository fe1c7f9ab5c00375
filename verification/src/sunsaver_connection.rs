//! The bounded-retry register reader and the transport-facing trait.
//!
//! A logical read (live status, or the whole log region) is split into
//! fixed-address block reads. `BlockReader` is the verified state machine
//! for one logical read: it hands out the next block to request, counts
//! failed attempts per block up to the fixed bound, assembles the words of
//! successful reads in address order, and refuses to surface any partial
//! buffer once a block has exhausted its attempts. The unverified caller
//! that owns the transport performs each block read and the fixed
//! inter-attempt wait, and feeds the outcome back in.

use vstd::prelude::*;

use crate::error::TransportError;
use crate::loggedresponse::LoggedResponse;
use crate::loggedresponse::spec_log_collection;
use crate::loggedresponse::spec_sorted_by_hourmeter;
use crate::loggedresponseday::spec_is_sentinel;
use crate::sunsaverresponse::SunSaverResponse;
use crate::sunsaverresponse::spec_status_from_raw;

verus! {

/// How many times one block read is attempted before the logical read is
/// declared failed.
pub const READ_ATTEMPTS: u32 = 3;

/// Fixed wait between two attempts on the same block, in milliseconds.
pub const RETRY_WAIT_MS: u64 = 100;

/// One fixed-address block read: `count` words starting at `address`.
#[derive(Clone, Copy, Debug, PartialEq, Eq, Structural)]
pub struct BlockSpec {
    /// Base register address of the block.
    pub address: u16,
    /// Number of 16-bit words to read.
    pub count: u16,
}

/// The block layout of a live-status read: two 22-word blocks at the
/// device's fixed status base addresses.
pub open spec fn spec_status_blocks() -> Seq<BlockSpec> {
    seq![
        BlockSpec { address: 0x08, count: 22 },
        BlockSpec { address: 0x1E, count: 22 },
    ]
}

/// The block layout of a log-region read: 32 sequential 16-word slots
/// starting at the log base address.
pub open spec fn spec_log_blocks() -> Seq<BlockSpec> {
    Seq::new(32, |i: int| BlockSpec { address: (0x8000 + 16 * i) as u16, count: 16 })
}

/// Words delivered by the first `n` blocks of a plan.
pub open spec fn spec_words_before(blocks: Seq<BlockSpec>, n: int) -> int
    decreases n,
{
    if n <= 0 {
        0
    } else {
        spec_words_before(blocks, n - 1) + blocks[n - 1].count
    }
}

/// `spec_words_before` grows with the number of blocks taken.
proof fn lemma_words_before_monotone(blocks: Seq<BlockSpec>, n: int, m: int)
    requires
        0 <= n <= m,
    ensures
        spec_words_before(blocks, n) <= spec_words_before(blocks, m),
    decreases m,
{
    if n < m {
        lemma_words_before_monotone(blocks, n, m - 1);
    }
}

/// The block plan of a live-status read, in address order.
pub fn status_read_blocks() -> (r: Vec<BlockSpec>)
    ensures
        r@ == spec_status_blocks(),
{
    let mut blocks: Vec<BlockSpec> = Vec::new();
    blocks.push(BlockSpec { address: 0x08, count: 22 });
    blocks.push(BlockSpec { address: 0x1E, count: 22 });
    proof {
        assert(blocks@ =~= spec_status_blocks());
    }
    blocks
}

/// The block plan of a log-region read: one block per slot, in address
/// order.
pub fn logged_read_blocks() -> (r: Vec<BlockSpec>)
    ensures
        r@ == spec_log_blocks(),
{
    let mut blocks: Vec<BlockSpec> = Vec::new();
    let mut i: usize = 0;
    while i < 32
        invariant
            i <= 32,
            blocks@.len() == i,
            forall|k: int| 0 <= k < i ==> blocks@[k] == spec_log_blocks()[k],
        decreases 32 - i,
    {
        blocks.push(BlockSpec { address: 0x8000 + 16 * (i as u16), count: 16 });
        i = i + 1;
    }
    proof {
        assert(blocks@ =~= spec_log_blocks());
    }
    blocks
}

/// The verified retry state machine for one logical read.
///
/// `blocks[.. next_block]` have succeeded and their words stand in
/// `words` in address order; `failures` counts failed attempts on block
/// `next_block`; once `failed` is set the read is exhausted and no data
/// comes out.
pub struct BlockReader {
    /// The fixed block plan of this logical read.
    pub blocks: Vec<BlockSpec>,
    /// Index of the block currently being read; everything before it
    /// succeeded.
    pub next_block: usize,
    /// Failed attempts on the current block so far.
    pub failures: u32,
    /// Whether the current block exhausted its attempts.
    pub failed: bool,
    /// The words of all completed blocks, in address order.
    pub words: Vec<u16>,
}

/// The state a failed attempt moves the reader to: one more failure on
/// the current block, or exhaustion once the attempt bound is reached.
pub open spec fn spec_fail_step(r: BlockReader) -> BlockReader {
    if r.failures + 1 < READ_ATTEMPTS {
        BlockReader { failures: (r.failures + 1) as u32, ..r }
    } else {
        BlockReader { failures: READ_ATTEMPTS, failed: true, ..r }
    }
}

impl BlockReader {
    /// Structural invariant of the state machine.
    pub open spec fn wf(self) -> bool {
        &&& self.next_block <= self.blocks@.len()
        &&& (!self.failed ==> self.failures < READ_ATTEMPTS)
        &&& (self.failed ==> self.failures == READ_ATTEMPTS && self.next_block
            < self.blocks@.len())
        &&& self.words@.len() == spec_words_before(self.blocks@, self.next_block as int)
        &&& spec_words_before(self.blocks@, self.blocks@.len() as int) <= usize::MAX
    }

    /// A block still awaits its read.
    pub open spec fn spec_in_progress(self) -> bool {
        !self.failed && self.next_block < self.blocks@.len()
    }

    /// Every block succeeded; the assembled buffer is complete.
    pub open spec fn spec_complete(self) -> bool {
        !self.failed && self.next_block == self.blocks@.len()
    }

    /// What a finished read surfaces: the full buffer, or the block that
    /// exhausted its attempts. A partial buffer is never surfaced.
    pub open spec fn spec_outcome(self) -> Result<Seq<u16>, TransportError> {
        if self.spec_complete() {
            Ok(self.words@)
        } else {
            Err(
                TransportError {
                    address: self.blocks@[self.next_block as int].address,
                    count: self.blocks@[self.next_block as int].count,
                },
            )
        }
    }

    /// Starts a logical read over the given block plan.
    pub fn new(blocks: Vec<BlockSpec>) -> (r: BlockReader)
        requires
            spec_words_before(blocks@, blocks@.len() as int) <= usize::MAX,
        ensures
            r.wf(),
            r.blocks@ == blocks@,
            r.next_block == 0,
            r.failures == 0,
            !r.failed,
            r.words@ == Seq::<u16>::empty(),
    {
        let reader = BlockReader {
            blocks,
            next_block: 0,
            failures: 0,
            failed: false,
            words: Vec::new(),
        };
        proof {
            assert(reader.words@ =~= Seq::<u16>::empty());
        }
        reader
    }

    /// The block read to issue next, while one is owed: the caller should
    /// read `count` words at `address` and report the attempt's outcome.
    pub fn current_request(&self) -> (r: Option<BlockSpec>)
        requires
            self.wf(),
        ensures
            self.spec_in_progress() ==> r == Some(self.blocks@[self.next_block as int]),
            !self.spec_in_progress() ==> r is None,
    {
        if !self.failed && self.next_block < self.blocks.len() {
            Some(self.blocks[self.next_block])
        } else {
            None
        }
    }

    /// Records a successful attempt: the block's words, which must be
    /// exactly as many as the block asked for, are appended in address
    /// order, and the read moves on to the next block with its attempt
    /// budget reset.
    pub fn record_success(&mut self, data: &[u16])
        requires
            old(self).wf(),
            old(self).spec_in_progress(),
            data@.len() == old(self).blocks@[old(self).next_block as int].count,
        ensures
            final(self).wf(),
            final(self).blocks@ == old(self).blocks@,
            final(self).next_block == old(self).next_block + 1,
            final(self).failures == 0,
            !final(self).failed,
            final(self).words@ == old(self).words@ + data@,
    {
        proof {
            lemma_words_before_monotone(
                self.blocks@,
                self.next_block + 1,
                self.blocks@.len() as int,
            );
        }
        let ghost words_at_entry = self.words@;
        let mut k: usize = 0;
        while k < data.len()
            invariant
                k <= data@.len(),
                self.words@ == words_at_entry + data@.subrange(0, k as int),
                words_at_entry.len() + data@.len() <= usize::MAX,
                self.blocks@ == old(self).blocks@,
                self.next_block == old(self).next_block,
                self.failures == old(self).failures,
                self.failed == old(self).failed,
            decreases data@.len() - k,
        {
            let word = data[k];
            self.words.push(word);
            proof {
                assert(self.words@ =~= words_at_entry + data@.subrange(0, k + 1));
            }
            k = k + 1;
        }
        proof {
            assert(data@.subrange(0, data@.len() as int) =~= data@);
            vstd::std_specs::vec::axiom_spec_len(&self.blocks);
        }
        self.next_block = self.next_block + 1;
        self.failures = 0;
    }

    /// Records a failed attempt on the current block. Returns whether the
    /// caller should retry the same block (after the fixed wait): true
    /// until the attempt bound is reached, after which the reader is
    /// exhausted and surfaces the failing block.
    pub fn record_failure(&mut self) -> (retry: bool)
        requires
            old(self).wf(),
            old(self).spec_in_progress(),
        ensures
            final(self).wf(),
            *final(self) == spec_fail_step(*old(self)),
            retry == !final(self).failed,
    {
        if self.failures + 1 < READ_ATTEMPTS {
            self.failures = self.failures + 1;
            true
        } else {
            self.failures = READ_ATTEMPTS;
            self.failed = true;
            false
        }
    }

    /// Whether the whole logical read has succeeded.
    pub fn is_complete(&self) -> (r: bool)
        requires
            self.wf(),
        ensures
            r == self.spec_complete(),
    {
        !self.failed && self.next_block == self.blocks.len()
    }

    /// Whether the logical read is exhausted.
    pub fn is_failed(&self) -> (r: bool)
        ensures
            r == self.failed,
    {
        self.failed
    }

    /// Finishes the logical read: the complete buffer on success, or the
    /// identity of the failing block after exhaustion. Partial buffers
    /// (some blocks read, one failed) are never returned.
    pub fn outcome(self) -> (r: Result<Vec<u16>, TransportError>)
        requires
            self.wf(),
            !self.spec_in_progress(),
        ensures
            self.spec_complete() ==> (r matches Ok(words) && words@ == self.words@),
            !self.spec_complete() ==> r == Err::<Vec<u16>, TransportError>(
                TransportError {
                    address: self.blocks@[self.next_block as int].address,
                    count: self.blocks@[self.next_block as int].count,
                },
            ),
            r matches Ok(words) ==> Ok::<Seq<u16>, TransportError>(words@) == self.spec_outcome(),
            r matches Err(e) ==> Err::<Seq<u16>, TransportError>(e) == self.spec_outcome(),
    {
        if !self.failed && self.next_block == self.blocks.len() {
            Ok(self.words)
        } else {
            let block = self.blocks[self.next_block];
            Err(TransportError { address: block.address, count: block.count })
        }
    }
}

/// Retry exhaustion: a block that fails three attempts in a row moves a
/// fresh reader to the exhausted state, its assembled words untouched, and
/// the read's outcome is the failing block's error — never a partial
/// buffer.
pub proof fn lemma_retry_exhaustion(r0: BlockReader)
    requires
        r0.wf(),
        r0.spec_in_progress(),
        r0.failures == 0,
    ensures
        !spec_fail_step(r0).failed,
        !spec_fail_step(spec_fail_step(r0)).failed,
        spec_fail_step(spec_fail_step(spec_fail_step(r0))).failed,
        spec_fail_step(spec_fail_step(spec_fail_step(r0))).words == r0.words,
        spec_fail_step(spec_fail_step(spec_fail_step(r0))).spec_outcome() == Err::<
            Seq<u16>,
            TransportError,
        >(
            TransportError {
                address: r0.blocks@[r0.next_block as int].address,
                count: r0.blocks@[r0.next_block as int].count,
            },
        ),
{
}

/// A register transport for the device, usually a serial connection or a
/// recorded register dump. Implementations supply the raw buffer reads;
/// the decoding into typed telemetry is fixed here.
pub trait SunSaverConnection {
    /// Reads the 44-word live status buffer: two 22-word blocks at the
    /// fixed status base addresses, concatenated in address order.
    fn read_raw_registers(&mut self) -> [u16; 44];

    /// Reads the 512-word log buffer: 32 sequential 16-word slots from
    /// the log base address.
    fn read_raw_logged(&mut self) -> [u16; 512];

    /// Reads and decodes one live status snapshot.
    fn read_status(&mut self) -> (r: SunSaverResponse)
        ensures
            exists|raw: Seq<u16>| raw.len() == 44 && r == spec_status_from_raw(raw),
    {
        let raw = self.read_raw_registers();
        let response = SunSaverResponse::from_raw_bits(raw);
        proof {
            assert(raw@.len() == 44 && response == spec_status_from_raw(raw@));
        }
        response
    }

    /// Reads and decodes the historical log: whatever buffer the
    /// transport supplies, the result is its valid records, sorted
    /// ascending by hourmeter, with sentinel slots excluded.
    fn read_logged(&mut self) -> (r: LoggedResponse)
        ensures
            spec_sorted_by_hourmeter(r.days@),
            forall|k: int| 0 <= k < r.days@.len() ==> !spec_is_sentinel(#[trigger] r.days@[k]),
            exists|raw: Seq<u16>|
                raw.len() == 512 && r.days@.to_multiset() == spec_log_collection(raw).to_multiset(),
    {
        let raw = self.read_raw_logged();
        let response = LoggedResponse::from_raw_bits(raw);
        proof {
            assert(raw@.len() == 512 && response.days@.to_multiset() == spec_log_collection(
                raw@,
            ).to_multiset());
        }
        response
    }
}

} // verus!
