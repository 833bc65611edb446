//! Packets kept for export, within the limits of a configuration.
//!
//! Writing the capture file is for the program around the library. What is
//! here is what is kept to be written: the packets in the order they came,
//! with the oldest dropped where a limit is passed, and the record that goes
//! with them.

use crate::clock::wall_clock_millis;
use vstd::prelude::*;
use vstd::string::StringExecFns;

verus! {

/// A packet as it was captured.
#[derive(Debug, Clone)]
pub struct CapturedPacket {
    /// When it was captured, in milliseconds since the Unix epoch.
    pub timestamp: i64,
    /// The bytes captured.
    pub data: Vec<u8>,
    /// The packet's length on the wire.
    pub original_length: usize,
}

/// The record that goes with an exported capture. Times are milliseconds
/// since the Unix epoch.
#[derive(Debug, Clone)]
pub struct ExportMetadata {
    /// When the export was made.
    pub export_time: i64,
    /// When the capture started.
    pub start_time: i64,
    /// When the capture ended.
    pub end_time: i64,
    /// Packets exported.
    pub packet_count: usize,
    /// Bytes exported.
    pub total_bytes: usize,
    /// The interface captured on.
    pub interface: String,
    /// The channel captured on, if one.
    pub channel: Option<u8>,
    /// The capture filter, if one.
    pub filter: Option<String>,
    /// A description for people.
    pub description: String,
}

impl ExportMetadata {
    /// The record of an export made at `export_time`.
    pub fn new_at(
        export_time: i64,
        start_time: i64,
        end_time: i64,
        packet_count: usize,
        total_bytes: usize,
        interface: String,
        channel: Option<u8>,
        filter: Option<String>,
        description: String,
    ) -> (m: ExportMetadata)
        ensures
            m == (ExportMetadata {
                export_time,
                start_time,
                end_time,
                packet_count,
                total_bytes,
                interface,
                channel,
                filter,
                description,
            }),
    {
        ExportMetadata {
            export_time,
            start_time,
            end_time,
            packet_count,
            total_bytes,
            interface,
            channel,
            filter,
            description,
        }
    }

    /// The record of an export made now.
    pub fn new(
        start_time: i64,
        end_time: i64,
        packet_count: usize,
        total_bytes: usize,
        interface: String,
        channel: Option<u8>,
        filter: Option<String>,
        description: String,
    ) -> (m: ExportMetadata)
        ensures
            m == (ExportMetadata {
                export_time: m.export_time,
                start_time,
                end_time,
                packet_count,
                total_bytes,
                interface,
                channel,
                filter,
                description,
            }),
    {
        ExportMetadata::new_at(
            wall_clock_millis(),
            start_time,
            end_time,
            packet_count,
            total_bytes,
            interface,
            channel,
            filter,
            description,
        )
    }
}

/// What to export, and how much of it to keep.
#[derive(Debug, Clone)]
pub struct ExportConfig {
    /// The capture file's name.
    pub filename: String,
    /// Whether the record is written beside the capture.
    pub include_metadata: bool,
    /// Whether the capture is compressed.
    pub compress: bool,
    /// The most packets to keep, if there is a limit.
    pub max_packets: Option<usize>,
    /// The most bytes to keep, if there is a limit.
    pub max_size: Option<usize>,
}

/// `chrono::Utc::now` and `format`: the present date and time, as year,
/// month, day, an underscore, hour, minute and second. Nothing is claimed of
/// it.
#[verifier::external_body]
fn compact_utc_now() -> String {
    chrono::Utc::now().format("%Y%m%d_%H%M%S").to_string()
}

impl Default for ExportConfig {
    /// A capture file named by the present time, with its record, not
    /// compressed and without limits.
    fn default() -> (c: ExportConfig)
        ensures
            c.include_metadata,
            !c.compress,
            c.max_packets is None,
            c.max_size is None,
            exists|stamp: Seq<char>| c.filename@ == "capture_"@ + stamp + ".pcap"@,
    {
        let stamp = compact_utc_now();
        let filename = "capture_".to_string().concat(stamp.as_str()).concat(".pcap");
        ExportConfig {
            filename,
            include_metadata: true,
            compress: false,
            max_packets: None,
            max_size: None,
        }
    }
}

/// A byte count after `more` bytes were added, held to what a count can
/// show.
pub open spec fn grown(total: nat, more: nat) -> nat {
    if total + more > usize::MAX {
        usize::MAX as nat
    } else {
        total + more
    }
}

/// A byte count after `fewer` bytes were taken off, held at zero.
pub open spec fn shrunk(total: nat, fewer: nat) -> nat {
    if fewer > total {
        0
    } else {
        (total - fewer) as nat
    }
}

/// What an export manager keeps.
pub struct ExportState {
    /// The packets kept, oldest first.
    pub packets: Seq<CapturedPacket>,
    /// The bytes counted for them.
    pub total_bytes: nat,
    /// When the capture started, in milliseconds since the Unix epoch.
    pub start_time: i64,
}

impl ExportState {
    /// What is kept once the oldest packets were dropped until no more
    /// bytes are counted than `max_size`, or none is left.
    pub open spec fn within_size(self, max_size: nat) -> ExportState
        decreases self.packets.len(),
    {
        if self.total_bytes > max_size && self.packets.len() > 0 {
            (ExportState {
                packets: self.packets.drop_first(),
                total_bytes: shrunk(self.total_bytes, self.packets[0].data@.len()),
                ..self
            }).within_size(max_size)
        } else {
            self
        }
    }

    /// What is kept after a packet came: the packet is counted and kept;
    /// where that makes more packets than `max_packets`, the oldest is
    /// dropped, and stays counted; where more bytes are counted than
    /// `max_size`, the oldest are dropped until they are not.
    pub open spec fn added(
        self,
        packet: CapturedPacket,
        max_packets: Option<usize>,
        max_size: Option<usize>,
    ) -> ExportState {
        let counted = ExportState {
            packets: self.packets.push(packet),
            total_bytes: grown(self.total_bytes, packet.data@.len()),
            ..self
        };
        let capped = match max_packets {
            Some(most) if counted.packets.len() > most => ExportState {
                packets: counted.packets.drop_first(),
                ..counted
            },
            _ => counted,
        };
        match max_size {
            Some(most) => capped.within_size(most as nat),
            None => capped,
        }
    }
}

/// Dropping for size ends within the size, or with nothing kept, and keeps
/// no packet that was not kept before.
pub proof fn lemma_within_size(state: ExportState, max_size: nat)
    ensures
        state.within_size(max_size).total_bytes <= max_size || state.within_size(
            max_size,
        ).packets.len() == 0,
        state.within_size(max_size).packets.len() <= state.packets.len(),
        state.within_size(max_size).packets == state.packets.skip(
            state.packets.len() - state.within_size(max_size).packets.len(),
        ),
    decreases state.packets.len(),
{
    if state.total_bytes > max_size && state.packets.len() > 0 {
        let next = ExportState {
            packets: state.packets.drop_first(),
            total_bytes: shrunk(state.total_bytes, state.packets[0].data@.len()),
            ..state
        };
        lemma_within_size(next, max_size);
        let kept = next.within_size(max_size).packets;
        assert(state.packets.drop_first().skip(next.packets.len() - kept.len())
            =~= state.packets.skip(state.packets.len() - kept.len()));
    } else {
        assert(state.packets.skip(0) =~= state.packets);
    }
}

/// What is kept stays within the limits: a buffer that held no more packets
/// than the limit still does after a packet came, and no more bytes are
/// counted than the limit unless nothing is kept.
pub proof fn lemma_added_within_limits(
    state: ExportState,
    packet: CapturedPacket,
    max_packets: Option<usize>,
    max_size: Option<usize>,
)
    ensures
        max_packets matches Some(most) ==> (state.packets.len() <= most ==> state.added(
            packet,
            max_packets,
            max_size,
        ).packets.len() <= most),
        max_size matches Some(most) ==> state.added(packet, max_packets, max_size).total_bytes
            <= most || state.added(packet, max_packets, max_size).packets.len() == 0,
        state.added(packet, max_packets, max_size).packets.len() <= state.packets.len() + 1,
{
    let counted = ExportState {
        packets: state.packets.push(packet),
        total_bytes: grown(state.total_bytes, packet.data@.len()),
        ..state
    };
    let capped = match max_packets {
        Some(most) if counted.packets.len() > most => ExportState {
            packets: counted.packets.drop_first(),
            ..counted
        },
        _ => counted,
    };
    match max_size {
        Some(most) => {
            lemma_within_size(capped, most as nat);
        },
        None => {},
    }
}

/// Keeps the packets that are to be exported.
pub struct ExportManager {
    config: ExportConfig,
    packets: Vec<CapturedPacket>,
    start_time: i64,
    total_bytes: usize,
}

impl View for ExportManager {
    type V = ExportState;

    closed spec fn view(&self) -> ExportState {
        ExportState {
            packets: self.packets@,
            total_bytes: self.total_bytes as nat,
            start_time: self.start_time,
        }
    }
}

impl ExportManager {
    /// The configuration.
    pub closed spec fn spec_config(&self) -> ExportConfig {
        self.config
    }

    /// A manager that keeps nothing yet, for a capture that starts now.
    pub fn new(config: ExportConfig) -> (manager: ExportManager)
        ensures
            manager.spec_config() == config,
            manager@.packets == Seq::<CapturedPacket>::empty(),
            manager@.total_bytes == 0,
    {
        ExportManager { config, packets: Vec::new(), start_time: wall_clock_millis(), total_bytes: 0 }
    }

    /// The configuration.
    pub fn config(&self) -> (config: &ExportConfig)
        ensures
            *config == self.spec_config(),
    {
        &self.config
    }

    /// Keeps a packet, and drops the oldest where a limit is passed.
    pub fn add_packet(&mut self, packet: CapturedPacket)
        ensures
            final(self).spec_config() == old(self).spec_config(),
            final(self)@ == old(self)@.added(
                packet,
                old(self).spec_config().max_packets,
                old(self).spec_config().max_size,
            ),
    {
        self.total_bytes = self.total_bytes.saturating_add(packet.data.len());
        self.packets.push(packet);
        match self.config.max_packets {
            Some(max_packets) => {
                if self.packets.len() > max_packets {
                    let _ = self.packets.remove(0);
                    assert(self.packets@ =~= old(self).packets@.push(packet).drop_first());
                }
            },
            None => {},
        }
        match self.config.max_size {
            Some(max_size) => {
                let ghost capped = self@;
                while self.total_bytes > max_size && self.packets.len() > 0
                    invariant
                        self.config == old(self).config,
                        self@.within_size(max_size as nat) == capped.within_size(max_size as nat),
                    decreases self.packets@.len(),
                {
                    let ghost before = self@;
                    let removed = self.packets.remove(0);
                    self.total_bytes = self.total_bytes.saturating_sub(removed.data.len());
                    assert(self.packets@ =~= before.packets.drop_first());
                }
            },
            None => {},
        }
    }

    /// The record to write beside the capture, for an export made at `now`
    /// on the wall clock.
    pub fn metadata_at(&self, now: i64) -> (m: ExportMetadata)
        ensures
            m.export_time == now,
            m.start_time == self@.start_time,
            m.end_time == now,
            m.packet_count == self@.packets.len(),
            m.total_bytes == self@.total_bytes,
            m.interface@ == "wlan0"@,
            m.channel == Some(6u8),
            m.filter is None,
            m.description@ == "Wi-Fi Deauther capture"@,
    {
        ExportMetadata::new_at(
            now,
            self.start_time,
            now,
            self.packets.len(),
            self.total_bytes,
            "wlan0".to_string(),
            Some(6),
            None,
            "Wi-Fi Deauther capture".to_string(),
        )
    }

    /// The packets kept, oldest first.
    pub fn packets(&self) -> (packets: &[CapturedPacket])
        ensures
            packets@ == self@.packets,
    {
        self.packets.as_slice()
    }

    /// Forgets the packets kept; the capture starts anew, now.
    pub fn clear(&mut self)
        ensures
            final(self).spec_config() == old(self).spec_config(),
            final(self)@.packets == Seq::<CapturedPacket>::empty(),
            final(self)@.total_bytes == 0,
    {
        self.packets.clear();
        self.total_bytes = 0;
        self.start_time = wall_clock_millis();
    }

    /// The number of packets kept.
    pub fn packet_count(&self) -> (count: usize)
        ensures
            count == self@.packets.len(),
    {
        self.packets.len()
    }

    /// The bytes counted for the packets kept.
    pub fn total_bytes(&self) -> (total: usize)
        ensures
            total == self@.total_bytes,
    {
        self.total_bytes
    }
}

} // verus!
