//! Client side of the benchmark: the payload of one measured transfer, the
//! completion of one transfer session, and the bookkeeping of the repeated
//! iterations run for a single payload size.
//!
//! The transport I/O itself (connect, stream write, acknowledgment read)
//! happens outside this crate; it hands in the measured elapsed time and the
//! acknowledgment bytes, and this module decides whether the session
//! succeeded and what bandwidth it measured.

use vstd::prelude::*;

use crate::protocol::ack_spec;
use crate::protocol::ack_valid;
use crate::stats::all_valid;
use crate::stats::bandwidth_of;
use crate::stats::Bandwidth;
use crate::stats::mean_den;
use crate::stats::mean_num;
use crate::stats::Summary;
use crate::stats::summarize;
use crate::stats::summarizes;

verus! {

/// One mebibyte.
pub const MIB: u64 = 1024 * 1024;

/// How many transfer sessions are run for each payload size.
pub const DEFAULT_ITERATIONS: usize = 5;

/// The pause between two iterations of the same size, in milliseconds,
/// letting transient network state settle. No pause follows the last
/// iteration.
pub const QUIESCENCE_DELAY_MILLIS: u64 = 100;

/// The payload sizes of a full benchmark run, in bytes: 1, 2, 5 and 10 MiB,
/// measured in this order.
pub open spec fn default_sizes_spec() -> Seq<u64> {
    seq![(1 * MIB) as u64, (2 * MIB) as u64, (5 * MIB) as u64, (10 * MIB) as u64]
}

/// The payload sizes of a full benchmark run, as a vector in measurement
/// order.
pub fn default_payload_sizes() -> (r: Vec<u64>)
    ensures
        r@ == default_sizes_spec(),
        forall|i: int| 0 <= i < r@.len() ==> r@[i] > 0,
{
    let mut v: Vec<u64> = Vec::new();
    v.push(1 * MIB);
    v.push(2 * MIB);
    v.push(5 * MIB);
    v.push(10 * MIB);
    proof {
        assert(v@ =~= default_sizes_spec());
    }
    v
}

/// Why a single transfer session failed. A failure is fatal to the whole
/// benchmark run: nothing is retried.
#[derive(Clone, Copy, Debug, PartialEq, Eq)]
pub enum TransferError {
    /// Writing the payload or closing the send half failed.
    WriteFailed,
    /// Reading the acknowledgment failed.
    ReadFailed,
    /// The connection or stream closed before the exchange finished.
    ClosedEarly,
    /// The acknowledgment bytes were not the expected `received`.
    AckMismatch,
}

/// The record of one successful transfer session.
#[derive(Clone, Copy, Debug, PartialEq, Eq, Structural)]
pub struct TransferResult {
    /// How many payload bytes were sent.
    pub payload_size: u64,
    /// The measured interval, from first payload byte written to
    /// acknowledgment received. Connection establishment is excluded: the
    /// timer starts after the connection already exists.
    pub elapsed_nanos: u64,
    /// The exact bandwidth of this transfer.
    pub bandwidth: Bandwidth,
}

impl TransferResult {
    /// The recorded bandwidth is exactly
    /// `payload_size * 8 / elapsedSeconds / 1_000_000` Mbit/s, which reduces
    /// to the fraction `payload_size * 8000 / elapsed_nanos`.
    pub open spec fn wf(&self) -> bool {
        &&& self.bandwidth.valid()
        &&& self.bandwidth.num == self.payload_size * 8000
        &&& self.bandwidth.den == self.elapsed_nanos
    }
}

/// The payload of one transfer: exactly `size` zero bytes.
pub fn zero_payload(size: usize) -> (r: Vec<u8>)
    ensures
        r@.len() == size,
        forall|i: int| 0 <= i < r@.len() ==> r@[i] == 0,
{
    let mut v: Vec<u8> = Vec::new();
    let mut i: usize = 0;
    while i < size
        invariant
            i <= size,
            v@.len() == i,
            forall|j: int| 0 <= j < v@.len() ==> v@[j] == 0,
        decreases size - i,
    {
        v.push(0);
        i += 1;
    }
    v
}

/// Closes one measured transfer session: given the payload size, the
/// measured interval and the acknowledgment bytes read from the stream,
/// succeeds exactly when the acknowledgment equals `received`, and then
/// records the exact bandwidth of the transfer. Any other acknowledgment is
/// a protocol violation that fails the session.
pub fn finish_transfer(payload_size: u64, elapsed_nanos: u64, ack: &Vec<u8>) -> (r: Result<
    TransferResult,
    TransferError,
>)
    requires
        payload_size > 0,
        elapsed_nanos > 0,
        payload_size * 8000 <= u64::MAX,
    ensures
        r is Ok <==> ack@ == ack_spec(),
        r is Ok ==> {
            let t = r->Ok_0;
            &&& t.wf()
            &&& t.payload_size == payload_size
            &&& t.elapsed_nanos == elapsed_nanos
        },
        ack@ != ack_spec() ==> r == Err::<TransferResult, TransferError>(
            TransferError::AckMismatch,
        ),
{
    if ack_valid(ack) {
        match bandwidth_of(payload_size, elapsed_nanos) {
            Some(bandwidth) => Ok(
                TransferResult { payload_size, elapsed_nanos, bandwidth },
            ),
            None => vstd::pervasive::unreached(),
        }
    } else {
        Err(TransferError::AckMismatch)
    }
}

/// The iterations of one payload size: how many sessions are still owed and
/// the bandwidth samples recorded so far. The sessions of a run are strictly
/// sequential by design — concurrent transfers would contend for the network
/// path and contaminate each other's measurements — so one `SizeRun` is
/// driven by one loop, a sample at a time.
#[derive(Clone, Debug)]
pub struct SizeRun {
    /// The payload size of every session of this run, in bytes.
    pub size: u64,
    /// How many sessions this run performs in all.
    pub iterations: usize,
    /// The samples recorded so far, oldest first.
    pub samples: Vec<Bandwidth>,
}

impl SizeRun {
    /// A run is well formed when its size and iteration count are positive,
    /// it never holds more samples than iterations, and every sample is well
    /// formed.
    pub open spec fn wf(&self) -> bool {
        &&& self.size > 0
        &&& self.iterations > 0
        &&& self.samples@.len() <= self.iterations
        &&& all_valid(self.samples@)
    }

    /// Starts a run with no samples yet.
    pub fn new(size: u64, iterations: usize) -> (r: SizeRun)
        requires
            size > 0,
            iterations > 0,
        ensures
            r.wf(),
            r.size == size,
            r.iterations == iterations,
            r.samples@.len() == 0,
    {
        SizeRun { size, iterations, samples: Vec::new() }
    }

    /// All owed sessions have been measured.
    pub fn is_complete(&self) -> (r: bool)
        ensures
            r == (self.samples@.len() == self.iterations),
    {
        self.samples.len() == self.iterations
    }

    /// Records the bandwidth sample of one finished session.
    pub fn record(&mut self, sample: Bandwidth)
        requires
            old(self).wf(),
            old(self).samples@.len() < old(self).iterations,
            sample.valid(),
        ensures
            final(self).wf(),
            final(self).size == old(self).size,
            final(self).iterations == old(self).iterations,
            final(self).samples@ == old(self).samples@.push(sample),
    {
        self.samples.push(sample);
    }

    /// Whether the quiescence pause is owed after the session just recorded:
    /// it is inserted between iterations, never after the last one.
    pub fn needs_delay(&self) -> (r: bool)
        ensures
            r == (self.samples@.len() < self.iterations),
    {
        self.samples.len() < self.iterations
    }

    /// Reduces the recorded samples of a completed run to their summary
    /// statistics. `None` exactly when the exact mean outgrows a `u128`
    /// fraction.
    pub fn summarize(&self) -> (r: Option<Summary>)
        requires
            self.wf(),
            self.samples@.len() == self.iterations,
        ensures
            r is Some <==> (mean_num(self.samples@) <= u128::MAX && mean_den(self.samples@)
                <= u128::MAX),
            r is Some ==> summarizes(r->0, self.samples@),
    {
        summarize(&self.samples)
    }
}

} // verus!
