//! What a capture reports.

use vstd::prelude::*;

verus! {

/// One captured packet.
#[derive(Debug, Clone)]
pub struct CaptureResult {
    /// When the packet was captured, in milliseconds since the Unix epoch.
    pub timestamp: i64,
    /// The packet's bytes.
    pub data: Vec<u8>,
    /// The number of bytes.
    pub length: usize,
}

impl CaptureResult {
    /// The result for a packet with the given bytes, captured at the given
    /// time.
    pub fn new(timestamp: i64, data: Vec<u8>) -> (result: CaptureResult)
        ensures
            result.timestamp == timestamp,
            result.data == data,
            result.length == data@.len(),
    {
        let length = data.len();
        CaptureResult { timestamp, data, length }
    }
}

/// Counters of a capture.
#[derive(Debug, Clone, Copy, PartialEq, Eq, Structural)]
pub struct CaptureStats {
    /// Packets captured.
    pub packets_captured: u64,
    /// Packets dropped.
    pub packets_dropped: u64,
    /// Bytes captured.
    pub bytes_captured: u64,
}

/// What a capture attempt came to.
pub enum CaptureEvent {
    /// A packet arrived.
    Packet(CaptureResult),
    /// The wait for a packet timed out.
    Timeout,
    /// The capture failed.
    Failed,
}

/// What a capture loop does next.
#[derive(Debug, Clone, Copy, PartialEq, Eq, Structural)]
pub enum CaptureStep {
    /// Hand the packet to the handler, and go on only if it says so.
    Deliver,
    /// Try again.
    Retry,
    /// Stop.
    Stop,
}

/// What a capture loop does after an attempt: a packet goes to the handler, a
/// timeout is tried again, a failure ends the loop.
pub fn capture_step(event: &CaptureEvent) -> (step: CaptureStep)
    ensures
        step == match *event {
            CaptureEvent::Packet(_) => CaptureStep::Deliver,
            CaptureEvent::Timeout => CaptureStep::Retry,
            CaptureEvent::Failed => CaptureStep::Stop,
        },
{
    match event {
        CaptureEvent::Packet(_) => CaptureStep::Deliver,
        CaptureEvent::Timeout => CaptureStep::Retry,
        CaptureEvent::Failed => CaptureStep::Stop,
    }
}

} // verus!
