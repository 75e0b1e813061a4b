use ccsds_router::header::decode_header;
use ccsds_router::parser::Packet;
use ccsds_router::timing::{
    deadline_after, decode_timestamp, determine_timeout, remaining_until, TimeSize, TimeState,
    TimestampDef, TimestampSetting, NANOS_PER_SEC,
};

fn packet_with_timestamp(secs_be: [u8; 2], subs_be: [u8; 2]) -> Packet {
    // Header (apid 1, one data byte claimed) followed by the timestamp.
    let mut bytes = vec![0x18, 0x01, 0xC0, 0x00, 0x00, 0x00];
    bytes.extend_from_slice(&secs_be);
    bytes.extend_from_slice(&subs_be);
    let header = decode_header(&bytes, 0, false);
    Packet { header, bytes }
}

fn two_by_two_def(little_endian: bool, resolution_ns: u64) -> TimestampDef {
    TimestampDef {
        offset: 0,
        num_bytes_seconds: TimeSize::TwoBytes,
        num_bytes_subseconds: TimeSize::TwoBytes,
        subsecond_resolution_ns: resolution_ns,
        is_little_endian: little_endian,
    }
}

#[test]
fn time_size_round_trip() {
    for (n, size) in [
        (0usize, TimeSize::ZeroBytes),
        (1, TimeSize::OneByte),
        (2, TimeSize::TwoBytes),
        (4, TimeSize::FourBytes),
    ] {
        assert_eq!(size.to_num_bytes(), n);
        assert_eq!(TimeSize::from_num_bytes(n), size);
    }
    // Widths no field can have fall back to an absent field.
    assert_eq!(TimeSize::from_num_bytes(3), TimeSize::ZeroBytes);
    assert_eq!(TimeSize::from_num_bytes(8), TimeSize::ZeroBytes);
}

#[test]
fn decode_timestamp_big_endian() {
    let packet = packet_with_timestamp([0x00, 0x02], [0x00, 0x64]);
    // 2 seconds + 100 * 1 ms.
    let def = two_by_two_def(false, 1_000_000);
    assert_eq!(decode_timestamp(&packet.bytes, &def), 2 * NANOS_PER_SEC + 100_000_000);
}

#[test]
fn decode_timestamp_little_endian() {
    let packet = packet_with_timestamp([0x02, 0x00], [0x64, 0x00]);
    let def = two_by_two_def(true, 1_000_000);
    assert_eq!(decode_timestamp(&packet.bytes, &def), 2 * NANOS_PER_SEC + 100_000_000);
}

#[test]
fn decode_timestamp_short_packet_is_zero() {
    let bytes = vec![0x18, 0x01, 0xC0, 0x00, 0x00, 0x00, 0x07];
    let def = two_by_two_def(false, 1_000_000);
    assert_eq!(decode_timestamp(&bytes, &def), 0);
}

#[test]
fn decode_timestamp_offset_and_four_bytes() {
    let mut bytes = vec![0x18, 0x01, 0xC0, 0x00, 0x00, 0x01];
    bytes.extend_from_slice(&[0xEE, 0xEE]); // two skipped bytes
    bytes.extend_from_slice(&[0x00, 0x00, 0x00, 0x05]); // 5 seconds
    let def = TimestampDef {
        offset: 2,
        num_bytes_seconds: TimeSize::FourBytes,
        num_bytes_subseconds: TimeSize::ZeroBytes,
        subsecond_resolution_ns: 0,
        is_little_endian: false,
    };
    assert_eq!(decode_timestamp(&bytes, &def), 5 * NANOS_PER_SEC);
}

fn state_with(setting: TimestampSetting, last_send_time: u64) -> TimeState {
    TimeState {
        timestamp_setting: setting,
        timestamp_def: two_by_two_def(false, 1_000_000),
        system_to_packet_time: None,
        last_send_time,
    }
}

#[test]
fn asap_timeout_is_zero() {
    let packet = packet_with_timestamp([0, 9], [0, 0]);
    let mut state = state_with(TimestampSetting::Asap, 0);
    assert_eq!(determine_timeout(&mut state, &packet, 12345), 0);
}

#[test]
fn delay_timeout_is_the_fixed_pause() {
    let packet = packet_with_timestamp([0, 9], [0, 0]);
    let mut state = state_with(TimestampSetting::Delay(250_000_000), 0);
    assert_eq!(determine_timeout(&mut state, &packet, 12345), 250_000_000);
    // Per packet, not relative to the previous emission.
    state.last_send_time = 12000;
    assert_eq!(determine_timeout(&mut state, &packet, 12345), 250_000_000);
}

#[test]
fn s4_throttle_spaces_packets() {
    // Throttle(100 ms), five packets all available at once: each emission
    // waits out the full period, so consecutive emissions are 100 ms apart
    // and the last is at least 400 ms after the first.
    let d: u64 = 100_000_000;
    let packet = packet_with_timestamp([0, 0], [0, 0]);
    let mut state = state_with(TimestampSetting::Throttle(d), 0);

    let start: u64 = 1_000_000;
    let mut now = start;
    state.last_send_time = now;
    let mut emit_times = vec![now]; // the first packet goes out immediately
    for _ in 0..4 {
        let timeout = determine_timeout(&mut state, &packet, now);
        now += timeout; // the processor waits out the timeout, then emits
        emit_times.push(now);
        state.last_send_time = now;
    }
    for pair in emit_times.windows(2) {
        assert!(pair[1] - pair[0] >= d);
    }
    assert!(emit_times[4] - emit_times[0] >= 4 * d);
}

#[test]
fn throttle_only_delays_when_needed() {
    let d: u64 = 100_000_000;
    let packet = packet_with_timestamp([0, 0], [0, 0]);
    let mut state = state_with(TimestampSetting::Throttle(d), 1_000);
    // More than the period has already passed: no wait.
    assert_eq!(determine_timeout(&mut state, &packet, 1_000 + d + 5), 0);
    // Part of the period has passed: wait the remainder.
    assert_eq!(determine_timeout(&mut state, &packet, 1_000 + d / 4), d - d / 4);
    // A clock that went backwards counts as zero elapsed.
    assert_eq!(determine_timeout(&mut state, &packet, 500), d);
}

#[test]
fn replay_reproduces_timestamp_spacing() {
    // First packet at 5 s, second at 7 s, third at 7.5 s.
    let def = two_by_two_def(false, 1_000_000);
    let p1 = packet_with_timestamp([0, 5], [0, 0]);
    let p2 = packet_with_timestamp([0, 7], [0, 0]);
    let p3 = packet_with_timestamp([0, 7], [0x01, 0xF4]); // +500 * 1 ms
    let t1 = decode_timestamp(&p1.bytes, &def);
    let t2 = decode_timestamp(&p2.bytes, &def);
    let t3 = decode_timestamp(&p3.bytes, &def);

    let mut state = TimeState {
        timestamp_setting: TimestampSetting::Replay,
        timestamp_def: def,
        system_to_packet_time: None,
        last_send_time: 0,
    };
    let now1: u64 = 50 * NANOS_PER_SEC;
    // The first replayed packet anchors the stream and goes out at once.
    assert_eq!(determine_timeout(&mut state, &p1, now1), 0);
    let emit1 = now1;

    // Polled 1 s later; target is now1 + (t2 - t1).
    let now2 = now1 + NANOS_PER_SEC;
    let timeout2 = determine_timeout(&mut state, &p2, now2);
    let emit2 = now2 + timeout2;
    assert_eq!(emit2 - emit1, t2 - t1);

    let now3 = emit2;
    let timeout3 = determine_timeout(&mut state, &p3, now3);
    let emit3 = now3 + timeout3;
    assert_eq!(emit3 - emit1, t3 - t1);

    // A packet polled after its target instant goes out immediately.
    let late = now1 + 100 * NANOS_PER_SEC;
    assert_eq!(determine_timeout(&mut state, &p2, late), 0);
}

#[test]
fn replay_anchor_cleared_state_reanchors() {
    let def = two_by_two_def(false, 0);
    let p = packet_with_timestamp([0, 9], [0, 0]);
    let mut state = TimeState {
        timestamp_setting: TimestampSetting::Replay,
        timestamp_def: def,
        system_to_packet_time: None,
        last_send_time: 0,
    };
    assert_eq!(determine_timeout(&mut state, &p, 1_000), 0);
    assert!(state.system_to_packet_time.is_some());
    // A new processing session clears the anchor; the next packet anchors anew.
    state.system_to_packet_time = None;
    assert_eq!(determine_timeout(&mut state, &p, 2_000), 0);
}

#[test]
fn decode_timestamp_saturates() {
    let packet = packet_with_timestamp([0x00, 0x00], [0x00, 0x02]);
    let def = two_by_two_def(false, u64::MAX);
    assert_eq!(decode_timestamp(&packet.bytes, &def), u64::MAX);
}

#[test]
fn deadline_and_remaining_arithmetic() {
    assert_eq!(deadline_after(100, 50), 150);
    assert_eq!(deadline_after(u64::MAX - 10, 50), u64::MAX);
    assert_eq!(remaining_until(150, 100), 50);
    assert_eq!(remaining_until(150, 150), 0);
    assert_eq!(remaining_until(100, 150), 0);
}
