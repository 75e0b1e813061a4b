//! Per-packet reports and per-APID statistics.
//!
//! After emitting a packet the processor reports a [`PacketUpdate`] to the
//! user-interface collaborator, which folds it into a [`PacketStats`] entry
//! of its [`ProcessingStats`] display.

use std::collections::HashMap;
use vstd::prelude::*;

use crate::parser::Packet;

verus! {

/// One emitted packet, as reported to the user-interface collaborator.
#[derive(Clone, Debug, PartialEq)]
pub struct PacketUpdate {
    /// The packet's APID.
    pub apid: u16,
    /// The packet's byte count (truncated to 16 bits, as displayed).
    pub packet_length: u16,
    /// The packet's sequence count.
    pub seq_count: u16,
    /// When the packet was received (monotonic nanoseconds).
    pub recv_time: u64,
    /// The packet's bytes.
    pub bytes: Vec<u8>,
}

impl PacketUpdate {
    /// The report for `packet`, received at `recv_time`.
    pub fn of_packet(packet: &Packet, recv_time: u64) -> (r: PacketUpdate)
        ensures
            r.apid == packet.header.apid,
            r.packet_length == packet.bytes@.len() % 0x10000,
            r.seq_count == packet.header.seq_count,
            r.recv_time == recv_time,
            r.bytes@ == packet.bytes@,
    {
        let mut bytes: Vec<u8> = Vec::new();
        crate::parser::extend_range(&mut bytes, packet.bytes.as_slice(), 0, packet.bytes.len());
        proof {
            assert(bytes@ =~= packet.bytes@);
        }
        let packet_length = (packet.bytes.len() % 0x10000) as u16;
        PacketUpdate {
            apid: packet.header.apid,
            packet_length,
            seq_count: packet.header.seq_count,
            recv_time,
            bytes,
        }
    }
}

/// Running statistics for one APID.
#[derive(Clone, Debug, PartialEq, Eq)]
pub struct PacketStats {
    /// The APID these statistics describe.
    pub apid: u16,
    /// Packets received of this APID (saturating).
    pub packet_count: u16,
    /// Bytes received of this APID (saturating).
    pub byte_count: u32,
    /// The last sequence count seen.
    pub last_seq: u16,
    /// The last packet length seen.
    pub last_len: u16,
    /// When the last packet was received (monotonic nanoseconds).
    pub recv_time: u64,
    /// The last packet's bytes.
    pub bytes: Vec<u8>,
}

impl Default for PacketStats {
    /// No packets seen.
    fn default() -> (r: Self)
        ensures
            r.apid == 0,
            r.packet_count == 0,
            r.byte_count == 0,
            r.last_seq == 0,
            r.last_len == 0,
            r.recv_time == 0,
            r.bytes@.len() == 0,
    {
        PacketStats {
            apid: 0,
            packet_count: 0,
            byte_count: 0,
            last_seq: 0,
            last_len: 0,
            recv_time: 0,
            bytes: Vec::new(),
        }
    }
}

impl PacketStats {
    /// Fold one report into the statistics: the counters grow (saturating),
    /// the last-seen fields and bytes are replaced.
    pub fn update(&mut self, packet_update: PacketUpdate)
        ensures
            final(self).apid == packet_update.apid,
            final(self).packet_count == if old(self).packet_count < u16::MAX {
                old(self).packet_count + 1
            } else {
                u16::MAX as int
            },
            final(self).byte_count == if old(self).byte_count + packet_update.packet_length
                <= u32::MAX {
                old(self).byte_count + packet_update.packet_length
            } else {
                u32::MAX as int
            },
            final(self).last_seq == packet_update.seq_count,
            final(self).last_len == packet_update.packet_length,
            final(self).recv_time == packet_update.recv_time,
            final(self).bytes@ == packet_update.bytes@,
    {
        self.apid = packet_update.apid;
        if self.packet_count < u16::MAX {
            self.packet_count = self.packet_count + 1;
        }
        if self.byte_count <= u32::MAX - packet_update.packet_length as u32 {
            self.byte_count = self.byte_count + packet_update.packet_length as u32;
        } else {
            self.byte_count = u32::MAX;
        }
        self.last_seq = packet_update.seq_count;
        self.last_len = packet_update.packet_length;
        self.recv_time = packet_update.recv_time;
        self.bytes = packet_update.bytes;
    }
}

/// The full statistics display: one entry per APID seen, plus overall rates.
#[derive(Debug)]
pub struct ProcessingStats {
    /// Statistics per APID.
    pub packet_history: HashMap<u16, PacketStats>,
    /// Packets emitted per second, over the last measuring window.
    pub packets_per_second: usize,
    /// Bytes emitted per second, over the last measuring window.
    pub bytes_per_second: usize,
}

impl Default for ProcessingStats {
    /// No packets seen.
    fn default() -> (r: Self)
        ensures
            r.packets_per_second == 0,
            r.bytes_per_second == 0,
    {
        ProcessingStats {
            packet_history: HashMap::new(),
            packets_per_second: 0,
            bytes_per_second: 0,
        }
    }
}

} // verus!
