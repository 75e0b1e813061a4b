//! Timing and shaping engine.
//!
//! For each packet the processor computes how long to pause before emitting
//! it. Four disciplines exist: emit as fast as possible, pause a fixed time
//! per packet, enforce a minimum inter-packet period (throttle), or replay
//! packets at the relative times given by a timestamp embedded in each
//! packet. Instants and durations are monotonic-clock nanoseconds carried as
//! plain integers; reading the clock is the caller's business.

use vstd::prelude::*;

use crate::parser::Packet;

verus! {

/// Nanoseconds per second.
pub const NANOS_PER_SEC: u64 = 1_000_000_000;

/// `v` clamped from above to what a `u64` can hold.
pub open spec fn clamp_u64(v: int) -> int {
    if v > u64::MAX {
        u64::MAX as int
    } else {
        v
    }
}

/// The width of a timestamp field: zero, one, two or four bytes.
#[derive(Clone, Copy, Debug, PartialEq, Eq, Structural)]
pub enum TimeSize {
    /// The field is absent.
    ZeroBytes,
    /// One byte.
    OneByte,
    /// Two bytes.
    TwoBytes,
    /// Four bytes.
    FourBytes,
}

impl TimeSize {
    /// The field width in bytes.
    pub open spec fn spec_num_bytes(self) -> int {
        match self {
            TimeSize::ZeroBytes => 0,
            TimeSize::OneByte => 1,
            TimeSize::TwoBytes => 2,
            TimeSize::FourBytes => 4,
        }
    }

    /// The field width in bytes.
    pub fn to_num_bytes(&self) -> (r: usize)
        ensures
            r == self.spec_num_bytes(),
    {
        match self {
            TimeSize::ZeroBytes => 0,
            TimeSize::OneByte => 1,
            TimeSize::TwoBytes => 2,
            TimeSize::FourBytes => 4,
        }
    }

    /// The width whose byte count is `num_bytes`; widths that no timestamp
    /// field can have fall back to an absent field.
    pub fn from_num_bytes(num_bytes: usize) -> (r: Self)
        ensures
            num_bytes == 0 ==> r is ZeroBytes,
            num_bytes == 1 ==> r is OneByte,
            num_bytes == 2 ==> r is TwoBytes,
            num_bytes == 4 ==> r is FourBytes,
            !(num_bytes == 0 || num_bytes == 1 || num_bytes == 2 || num_bytes == 4) ==> r is ZeroBytes,
    {
        match num_bytes {
            0 => TimeSize::ZeroBytes,
            1 => TimeSize::OneByte,
            2 => TimeSize::TwoBytes,
            4 => TimeSize::FourBytes,
            _ => TimeSize::ZeroBytes,
        }
    }
}

impl Default for TimeSize {
    /// An absent field.
    fn default() -> (r: Self)
        ensures
            r is ZeroBytes,
    {
        TimeSize::ZeroBytes
    }
}

/// Location and format of the timestamp embedded in a packet: a seconds
/// field followed by a subseconds field, each an integer of a configured
/// width and endianness, the subseconds scaled by a configured resolution.
#[derive(Clone, Copy, Debug, PartialEq, Eq, Structural)]
pub struct TimestampDef {
    /// Byte offset of the timestamp past the 6-byte primary header.
    pub offset: u32,
    /// Width of the seconds field.
    pub num_bytes_seconds: TimeSize,
    /// Width of the subseconds field, which follows the seconds field.
    pub num_bytes_subseconds: TimeSize,
    /// Nanoseconds per least-significant bit of the subseconds field.
    pub subsecond_resolution_ns: u64,
    /// Whether the seconds and subseconds fields are little-endian.
    pub is_little_endian: bool,
}

impl Default for TimestampDef {
    /// No timestamp: both fields absent, at offset zero.
    fn default() -> (r: Self)
        ensures
            r == (TimestampDef {
                offset: 0,
                num_bytes_seconds: TimeSize::ZeroBytes,
                num_bytes_subseconds: TimeSize::ZeroBytes,
                subsecond_resolution_ns: 0,
                is_little_endian: false,
            }),
    {
        TimestampDef {
            offset: 0,
            num_bytes_seconds: TimeSize::ZeroBytes,
            num_bytes_subseconds: TimeSize::ZeroBytes,
            subsecond_resolution_ns: 0,
            is_little_endian: false,
        }
    }
}

/// How packet emission is timed.
#[derive(Clone, Copy, Debug, PartialEq, Eq, Structural)]
pub enum TimestampSetting {
    /// Emit every packet as fast as possible.
    Asap,
    /// Emit packets at the relative times of their embedded timestamps.
    Replay,
    /// Pause this many nanoseconds before each packet.
    Delay(u64),
    /// Enforce a minimum period of this many nanoseconds between packets.
    Throttle(u64),
}

impl Default for TimestampSetting {
    /// As fast as possible.
    fn default() -> (r: Self)
        ensures
            r is Asap,
    {
        TimestampSetting::Asap
    }
}

/// The integer read from `size` bytes of `s` starting at `start`.
pub open spec fn spec_field_value(s: Seq<u8>, start: int, size: TimeSize, little_endian: bool) -> int
    recommends
        0 <= start,
        start + size.spec_num_bytes() <= s.len(),
{
    match size {
        TimeSize::ZeroBytes => 0,
        TimeSize::OneByte => s[start] as int,
        TimeSize::TwoBytes => if little_endian {
            s[start + 1] * 0x100 + s[start]
        } else {
            s[start] * 0x100 + s[start + 1]
        },
        TimeSize::FourBytes => if little_endian {
            s[start + 3] * 0x1000000 + s[start + 2] * 0x10000 + s[start + 1] * 0x100 + s[start]
        } else {
            s[start] * 0x1000000 + s[start + 1] * 0x10000 + s[start + 2] * 0x100 + s[start + 3]
        },
    }
}

/// The timestamp decoded from a packet's bytes, in nanoseconds: the seconds
/// field times a second plus the subseconds field times its resolution. A
/// packet too short to hold both fields decodes to zero.
pub open spec fn spec_timestamp_nanos(bytes: Seq<u8>, def: TimestampDef) -> int {
    let start = 6 + def.offset;
    let width = def.num_bytes_seconds.spec_num_bytes() + def.num_bytes_subseconds.spec_num_bytes();
    if start + width > bytes.len() {
        0
    } else {
        let secs = spec_field_value(bytes, start as int, def.num_bytes_seconds, def.is_little_endian);
        let subs = spec_field_value(
            bytes,
            start + def.num_bytes_seconds.spec_num_bytes(),
            def.num_bytes_subseconds,
            def.is_little_endian,
        );
        secs * NANOS_PER_SEC + subs * def.subsecond_resolution_ns
    }
}

/// Every timestamp field fits in 32 bits.
proof fn lemma_field_value_bound(s: Seq<u8>, start: int, size: TimeSize, little_endian: bool)
    requires
        0 <= start,
        start + size.spec_num_bytes() <= s.len(),
    ensures
        0 <= spec_field_value(s, start, size, little_endian) < 0x1_0000_0000,
{
}

/// Read the integer field of width `size` at `start`.
fn read_field(bytes: &Vec<u8>, start: usize, size: TimeSize, little_endian: bool) -> (r: u64)
    requires
        start + size.spec_num_bytes() <= bytes@.len(),
    ensures
        r == spec_field_value(bytes@, start as int, size, little_endian),
{
    let n = bytes.len();
    proof {
        assert(start + size.spec_num_bytes() <= n);
    }
    match size {
        TimeSize::ZeroBytes => 0,
        TimeSize::OneByte => bytes[start] as u64,
        TimeSize::TwoBytes => {
            let b0 = bytes[start] as u64;
            let b1 = bytes[start + 1] as u64;
            if little_endian {
                b1 * 0x100 + b0
            } else {
                b0 * 0x100 + b1
            }
        },
        TimeSize::FourBytes => {
            let b0 = bytes[start] as u64;
            let b1 = bytes[start + 1] as u64;
            let b2 = bytes[start + 2] as u64;
            let b3 = bytes[start + 3] as u64;
            if little_endian {
                b3 * 0x1000000 + b2 * 0x10000 + b1 * 0x100 + b0
            } else {
                b0 * 0x1000000 + b1 * 0x10000 + b2 * 0x100 + b3
            }
        },
    }
}

/// Decode a packet's embedded timestamp to nanoseconds, clamped to what a
/// `u64` can hold; a packet too short for the configured fields decodes to
/// zero.
pub fn decode_timestamp(bytes: &Vec<u8>, timestamp_def: &TimestampDef) -> (r: u64)
    ensures
        r == clamp_u64(spec_timestamp_nanos(bytes@, *timestamp_def)),
{
    let sec_n = timestamp_def.num_bytes_seconds.to_num_bytes();
    let sub_n = timestamp_def.num_bytes_subseconds.to_num_bytes();
    let start64: u64 = 6 + timestamp_def.offset as u64;
    if start64 + (sec_n as u64) + (sub_n as u64) > bytes.len() as u64 {
        return 0;
    }
    let start = start64 as usize;
    let secs = read_field(bytes, start, timestamp_def.num_bytes_seconds, timestamp_def.is_little_endian);
    let subs = read_field(
        bytes,
        start + sec_n,
        timestamp_def.num_bytes_subseconds,
        timestamp_def.is_little_endian,
    );
    proof {
        lemma_field_value_bound(
            bytes@,
            start as int,
            timestamp_def.num_bytes_seconds,
            timestamp_def.is_little_endian,
        );
        lemma_field_value_bound(
            bytes@,
            start + sec_n,
            timestamp_def.num_bytes_subseconds,
            timestamp_def.is_little_endian,
        );
        vstd::arithmetic::mul::lemma_mul_upper_bound(
            subs as int,
            0xFFFF_FFFF,
            timestamp_def.subsecond_resolution_ns as int,
            0xFFFF_FFFF_FFFF_FFFF,
        );
    }
    let resolution = timestamp_def.subsecond_resolution_ns;
    let total: u128 = (secs as u128) * (NANOS_PER_SEC as u128) + (subs as u128) * (resolution
        as u128);
    if total > u64::MAX as u128 {
        u64::MAX
    } else {
        total as u64
    }
}

/// The wall-clock instant that corresponds to a replayed stream's zero
/// timestamp: set from the first replayed packet, it anchors every later
/// packet's target emission time.
#[derive(Clone, Copy, Debug)]
pub struct ReplayAnchor {
    nanos: i128,
}

impl ReplayAnchor {
    #[verifier::type_invariant]
    spec fn type_wf(self) -> bool {
        -(u64::MAX as int) <= self.nanos <= u64::MAX as int
    }

    /// The anchor instant in nanoseconds (negative when the first packet's
    /// timestamp exceeded the clock reading).
    pub closed spec fn view(self) -> int {
        self.nanos as int
    }

    /// Anchor a replay: the instant `now` is to correspond to packet
    /// timestamp `first_timestamp`.
    pub fn set(now: u64, first_timestamp: u64) -> (r: Self)
        ensures
            r@ == now - first_timestamp,
    {
        ReplayAnchor { nanos: now as i128 - first_timestamp as i128 }
    }

    /// Nanoseconds from `now` until the anchored target instant for a packet
    /// with timestamp `t`, zero when the target has passed, clamped to a
    /// `u64`.
    pub fn remaining(&self, t: u64, now: u64) -> (r: u64)
        ensures
            r == spec_replay_timeout(self@, t as int, now),
    {
        proof {
            use_type_invariant(self);
        }
        let target: i128 = self.nanos + t as i128;
        if target > now as i128 {
            let diff: i128 = target - now as i128;
            if diff > u64::MAX as i128 {
                u64::MAX
            } else {
                diff as u64
            }
        } else {
            0
        }
    }
}

/// Nanoseconds to wait before emitting, under a throttle of one packet per
/// `d` nanoseconds, when the previous packet was emitted at `last_send` and
/// the clock reads `now`. A clock that appears to have gone backwards
/// counts as zero elapsed time.
pub open spec fn spec_throttle_timeout(d: u64, last_send: u64, now: u64) -> int {
    let elapsed = if now >= last_send {
        now - last_send
    } else {
        0
    };
    if d > elapsed {
        d - elapsed
    } else {
        0
    }
}

/// Nanoseconds to wait before emitting a replayed packet with timestamp `t`
/// under `anchor`, at clock reading `now`: the time left until the target
/// instant `anchor + t`, zero when the target has passed, clamped to a
/// `u64`.
pub open spec fn spec_replay_timeout(anchor: int, t: int, now: u64) -> int {
    if anchor + t > now {
        clamp_u64(anchor + t - now)
    } else {
        0
    }
}

/// The timing engine's state, owned by the processor: the configured
/// discipline, the timestamp layout, the replay anchor (if set) and the
/// instant of the previous emission.
#[derive(Clone, Debug)]
pub struct TimeState {
    /// The configured timing discipline.
    pub timestamp_setting: TimestampSetting,
    /// Where and how packets carry their timestamp.
    pub timestamp_def: TimestampDef,
    /// The replay anchor; `None` until the first replayed packet.
    pub system_to_packet_time: Option<ReplayAnchor>,
    /// When the previous packet was emitted (monotonic nanoseconds).
    pub last_send_time: u64,
}

/// How long the processor may wait before emitting `packet`, per the
/// configured timing discipline, when the monotonic clock reads `now`.
/// Replay sets the anchor on the first packet; nothing else in the state
/// changes.
pub fn determine_timeout(time_state: &mut TimeState, packet: &Packet, now: u64) -> (timeout: u64)
    ensures
        final(time_state).timestamp_setting == old(time_state).timestamp_setting,
        final(time_state).timestamp_def == old(time_state).timestamp_def,
        final(time_state).last_send_time == old(time_state).last_send_time,
        old(time_state).timestamp_setting is Asap ==> timeout == 0
            && final(time_state).system_to_packet_time == old(time_state).system_to_packet_time,
        old(time_state).timestamp_setting matches TimestampSetting::Delay(d) ==> timeout == d
            && final(time_state).system_to_packet_time == old(time_state).system_to_packet_time,
        old(time_state).timestamp_setting matches TimestampSetting::Throttle(d) ==> timeout
            == spec_throttle_timeout(d, old(time_state).last_send_time, now)
            && final(time_state).system_to_packet_time == old(time_state).system_to_packet_time,
        old(time_state).timestamp_setting is Replay ==> {
            let t = clamp_u64(spec_timestamp_nanos(packet.bytes@, old(time_state).timestamp_def));
            &&& (old(time_state).system_to_packet_time is None ==> timeout == 0
                && (final(time_state).system_to_packet_time matches Option::Some(a) && a@ == now
                - t))
            &&& (old(time_state).system_to_packet_time matches Option::Some(a) ==> timeout
                == spec_replay_timeout(a@, t, now) && final(time_state).system_to_packet_time
                == old(time_state).system_to_packet_time)
        },
{
    match time_state.timestamp_setting {
        TimestampSetting::Asap => 0,
        TimestampSetting::Delay(d) => d,
        TimestampSetting::Throttle(d) => {
            let elapsed: u64 = if now >= time_state.last_send_time {
                now - time_state.last_send_time
            } else {
                0
            };
            if d > elapsed {
                d - elapsed
            } else {
                0
            }
        },
        TimestampSetting::Replay => {
            let t = decode_timestamp(&packet.bytes, &time_state.timestamp_def);
            match &time_state.system_to_packet_time {
                Option::None => {
                    time_state.system_to_packet_time = Option::Some(ReplayAnchor::set(now, t));
                    0
                },
                Option::Some(anchor) => anchor.remaining(t, now),
            }
        },
    }
}

/// Throttle law: under `Throttle(d)`, a packet emitted after the computed
/// timeout goes out no less than `d` nanoseconds after the previous one.
pub proof fn lemma_throttle_law(d: u64, last_send: u64, now: u64)
    requires
        now >= last_send,
    ensures
        now + spec_throttle_timeout(d, last_send, now) >= last_send + d,
{
}

/// Replay anchor law: with the anchor set at the first packet's emission
/// (instant `now1`, decoded timestamp `t1`), any later packet with decoded
/// timestamp `ti` that is polled before its target instant is emitted at
/// exactly `now1 + (ti - t1)`: emission spacing reproduces timestamp
/// spacing.
pub proof fn lemma_replay_anchor_law(now1: u64, t1: u64, ti: u64, now_i: u64)
    requires
        now1 - t1 + ti >= now_i,
        now1 - t1 + ti - now_i <= u64::MAX,
    ensures
        now_i + spec_replay_timeout(now1 - t1, ti as int, now_i) - now1 == ti - t1,
{
}

/// The instant `timeout` nanoseconds after `now`, clamped to a `u64`: the
/// deadline by which a waiting processor must emit.
pub fn deadline_after(now: u64, timeout: u64) -> (r: u64)
    ensures
        r == clamp_u64(now + timeout),
{
    if now > u64::MAX - timeout {
        u64::MAX
    } else {
        now + timeout
    }
}

/// Nanoseconds from `now` until `deadline`, zero when the deadline has
/// passed: the bound on each command-channel wait while a packet's emission
/// is pending.
pub fn remaining_until(deadline: u64, now: u64) -> (r: u64)
    ensures
        r == if deadline > now {
            deadline - now
        } else {
            0
        },
{
    if deadline > now {
        deadline - now
    } else {
        0
    }
}

} // verus!
