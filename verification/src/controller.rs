//! Pipeline control plane.
//!
//! The processor is a state machine over {Idle, Processing, Paused,
//! Terminating}, driven by commands from the user interface and by messages
//! from the input task. The decisions — which command moves which state
//! where, whether a packet passes the length guard, and which outputs
//! receive it — are pure functions here with exact contracts; the loop that
//! blocks on channels, opens endpoints and performs writes runs outside the
//! crate and follows these decisions.

use vstd::prelude::*;

use crate::config::AppConfig;
use crate::header::PrimaryHeader;
use crate::parser::Packet;
use crate::stats::PacketUpdate;

verus! {

/// The processor's state.
#[derive(Clone, Copy, Debug, PartialEq, Eq, Structural)]
pub enum ProcessingState {
    /// Processing is suspended; waiting for a command.
    Paused,
    /// Packets are being pulled, timed and written out.
    Processing,
    /// Waiting for a command to start or to shut down.
    Idle,
    /// Shutting down.
    Terminating,
}

/// A command from the user interface to the processor.
#[derive(Debug, PartialEq)]
pub enum ProcessingMsg {
    /// Start processing under this configuration.
    Start(AppConfig),
    /// Suspend after the packet in flight.
    Pause,
    /// Resume from a pause.
    Continue,
    /// Abandon the session and return to idle.
    Cancel,
    /// Shut the processor down.
    Terminate,
}

impl ProcessingMsg {
    /// The command's name, for reports about commands that arrive in a state
    /// that does not expect them.
    pub fn name(&self) -> (r: &'static str)
        ensures
            self is Start ==> r@ == "Start"@,
            self is Pause ==> r@ == "Pause"@,
            self is Continue ==> r@ == "Continue"@,
            self is Cancel ==> r@ == "Cancel"@,
            self is Terminate ==> r@ == "Terminate"@,
    {
        match self {
            ProcessingMsg::Start(_) => "Start",
            ProcessingMsg::Pause => "Pause",
            ProcessingMsg::Continue => "Continue",
            ProcessingMsg::Cancel => "Cancel",
            ProcessingMsg::Terminate => "Terminate",
        }
    }
}

/// A report from the processor to the user interface.
#[derive(Debug, PartialEq)]
pub enum GuiMessage {
    /// A packet was emitted.
    PacketUpdate(PacketUpdate),
    /// A packet was dropped by the APID filter.
    PacketDropped(PrimaryHeader),
    /// A processing session ended.
    Finished,
    /// The processor shut down.
    Terminate,
    /// Something went wrong; the text says what.
    Error(String),
}

/// A message from the input task to the processor.
#[derive(Debug)]
pub enum PacketMsg {
    /// The input endpoint could not be opened.
    StreamOpenError,
    /// A read failed mid-stream; the text says why.
    ReadError(String),
    /// A packet, with the monotonic nanosecond instant it was received.
    Packet(Packet, u64),
    /// The parser dropped a packet by APID; its header.
    PacketDropped(PrimaryHeader),
    /// The parser could not make progress on the stream.
    StreamParseError,
    /// The input ended normally.
    StreamEnd,
}

/// What the processor does with a command received while idle.
pub enum IdleStep {
    /// Open the outputs and start processing under this configuration.
    StartRequested(AppConfig),
    /// Shut down.
    Shutdown,
    /// The command does not apply while idle: report it, stay idle.
    Unexpected,
    /// The command channel is gone: report it, shut down.
    ChannelClosed,
}

/// What the processor does with a command received while paused.
pub enum PausedStep {
    /// Resume processing.
    Resume,
    /// Abandon the session: back to idle.
    CancelToIdle,
    /// Shut down.
    Shutdown,
    /// The command does not apply while paused: report it, stay paused.
    Unexpected,
    /// The command channel is gone: report it, shut down.
    ChannelClosed,
}

/// What ends one bounded wait on the command channel while a packet's
/// emission is pending.
pub enum CommandEvent {
    /// A command arrived.
    Received(ProcessingMsg),
    /// The emission deadline passed.
    TimedOut,
    /// The command channel is gone.
    Disconnected,
}

/// What the processor does with one [`CommandEvent`] during the per-packet
/// wait.
#[derive(Debug, PartialEq, Eq, Structural)]
pub enum WaitStep {
    /// The deadline passed: emit the packet now.
    EmitNow,
    /// Pause after the packet in flight is emitted.
    PauseAfterEmit,
    /// Abandon the packet and the session: back to idle.
    CancelToIdle,
    /// Abandon the packet: shut down.
    Shutdown,
    /// The command does not apply while processing: report it, keep waiting.
    Unexpected,
    /// The command channel is gone: report it, shut down.
    ChannelClosed,
}

/// What the processor does with one message from the input task.
pub enum PacketStep {
    /// Time and emit this packet, received at this instant.
    Process(Packet, u64),
    /// Report the dropped packet's header; keep processing.
    ReportDropped(PrimaryHeader),
    /// Report the read failure; the session is over, back to idle.
    ReadFailed(String),
    /// Report the parse failure; the session is over, back to idle.
    ParseFailed,
    /// Report that the input could not be opened; back to idle.
    OpenFailed,
    /// The input ended normally: report finished, back to idle.
    EndOfStream,
    /// The packet channel is gone: report it, shut down.
    ChannelClosed,
}

/// The decision for a command received while idle.
pub open spec fn spec_idle_step(msg: Option<ProcessingMsg>) -> IdleStep {
    match msg {
        Option::Some(ProcessingMsg::Start(config)) => IdleStep::StartRequested(config),
        Option::Some(ProcessingMsg::Terminate) => IdleStep::Shutdown,
        Option::Some(_) => IdleStep::Unexpected,
        Option::None => IdleStep::ChannelClosed,
    }
}

/// Decide what a command received while idle leads to. `None` stands for a
/// closed command channel.
pub fn idle_step(msg: Option<ProcessingMsg>) -> (r: IdleStep)
    ensures
        r == spec_idle_step(msg),
{
    match msg {
        Option::Some(ProcessingMsg::Start(config)) => IdleStep::StartRequested(config),
        Option::Some(ProcessingMsg::Terminate) => IdleStep::Shutdown,
        Option::Some(_) => IdleStep::Unexpected,
        Option::None => IdleStep::ChannelClosed,
    }
}

/// The decision for a command received while paused.
pub open spec fn spec_paused_step(msg: Option<ProcessingMsg>) -> PausedStep {
    match msg {
        Option::Some(ProcessingMsg::Continue) => PausedStep::Resume,
        Option::Some(ProcessingMsg::Cancel) => PausedStep::CancelToIdle,
        Option::Some(ProcessingMsg::Terminate) => PausedStep::Shutdown,
        Option::Some(_) => PausedStep::Unexpected,
        Option::None => PausedStep::ChannelClosed,
    }
}

/// Decide what a command received while paused leads to. `None` stands for
/// a closed command channel.
pub fn paused_step(msg: Option<ProcessingMsg>) -> (r: PausedStep)
    ensures
        r == spec_paused_step(msg),
{
    match msg {
        Option::Some(ProcessingMsg::Continue) => PausedStep::Resume,
        Option::Some(ProcessingMsg::Cancel) => PausedStep::CancelToIdle,
        Option::Some(ProcessingMsg::Terminate) => PausedStep::Shutdown,
        Option::Some(_) => PausedStep::Unexpected,
        Option::None => PausedStep::ChannelClosed,
    }
}

/// The decision for one event of the per-packet bounded wait.
pub open spec fn spec_processing_wait_step(event: CommandEvent) -> WaitStep {
    match event {
        CommandEvent::TimedOut => WaitStep::EmitNow,
        CommandEvent::Received(ProcessingMsg::Pause) => WaitStep::PauseAfterEmit,
        CommandEvent::Received(ProcessingMsg::Cancel) => WaitStep::CancelToIdle,
        CommandEvent::Received(ProcessingMsg::Terminate) => WaitStep::Shutdown,
        CommandEvent::Received(_) => WaitStep::Unexpected,
        CommandEvent::Disconnected => WaitStep::ChannelClosed,
    }
}

/// Decide what one event of the per-packet bounded wait leads to. The wait
/// polls the command channel with a timeout bounded by the packet's
/// emission deadline and handles at least one event per packet, so every
/// pending command is decided no later than one deadline after it is sent.
pub fn processing_wait_step(event: CommandEvent) -> (r: WaitStep)
    ensures
        r == spec_processing_wait_step(event),
{
    match event {
        CommandEvent::TimedOut => WaitStep::EmitNow,
        CommandEvent::Received(ProcessingMsg::Pause) => WaitStep::PauseAfterEmit,
        CommandEvent::Received(ProcessingMsg::Cancel) => WaitStep::CancelToIdle,
        CommandEvent::Received(ProcessingMsg::Terminate) => WaitStep::Shutdown,
        CommandEvent::Received(_) => WaitStep::Unexpected,
        CommandEvent::Disconnected => WaitStep::ChannelClosed,
    }
}

/// Decide what one message from the input task leads to. `None` stands for
/// a closed packet channel.
pub fn packet_step(msg: Option<PacketMsg>) -> (r: PacketStep)
    ensures
        msg matches Option::Some(PacketMsg::Packet(p, t)) ==> (r matches PacketStep::Process(
            p2,
            t2,
        ) && p2 == p && t2 == t),
        msg matches Option::Some(PacketMsg::PacketDropped(h)) ==> (
        r matches PacketStep::ReportDropped(h2) && h2 == h),
        msg matches Option::Some(PacketMsg::ReadError(e)) ==> (r matches PacketStep::ReadFailed(e2)
            && e2 == e),
        msg matches Option::Some(PacketMsg::StreamParseError) ==> r is ParseFailed,
        msg matches Option::Some(PacketMsg::StreamOpenError) ==> r is OpenFailed,
        msg matches Option::Some(PacketMsg::StreamEnd) ==> r is EndOfStream,
        msg is None ==> r is ChannelClosed,
{
    match msg {
        Option::Some(PacketMsg::Packet(p, t)) => PacketStep::Process(p, t),
        Option::Some(PacketMsg::PacketDropped(h)) => PacketStep::ReportDropped(h),
        Option::Some(PacketMsg::ReadError(e)) => PacketStep::ReadFailed(e),
        Option::Some(PacketMsg::StreamParseError) => PacketStep::ParseFailed,
        Option::Some(PacketMsg::StreamOpenError) => PacketStep::OpenFailed,
        Option::Some(PacketMsg::StreamEnd) => PacketStep::EndOfStream,
        Option::None => PacketStep::ChannelClosed,
    }
}

/// Cancel responsiveness: in every state that can receive commands, a
/// cancel command is acted on at the very next poll — while paused it moves
/// the processor to idle, and during a packet wait (whose polls are bounded
/// by the packet's emission deadline and happen at least once per packet)
/// it abandons the packet and moves to idle. While idle a cancel changes
/// nothing, as there is no session to abandon.
pub proof fn lemma_cancel_responsive()
    ensures
        spec_paused_step(Option::Some(ProcessingMsg::Cancel)) is CancelToIdle,
        spec_processing_wait_step(CommandEvent::Received(ProcessingMsg::Cancel)) is CancelToIdle,
        spec_idle_step(Option::Some(ProcessingMsg::Cancel)) is Unexpected,
{
}

/// Whether an allow-list admits `apid`; no list admits every APID.
pub open spec fn spec_allowed(list: Option<Vec<u16>>, apid: u16) -> bool {
    match list {
        Option::None => true,
        Option::Some(v) => v@.contains(apid),
    }
}

/// Whether a packet with header `header` violates the length guard: its
/// CCSDS length — the 6 header bytes plus `length_field + 1` data bytes,
/// wrapper ignored — exceeds `max_length_bytes`.
pub open spec fn spec_oversize(header: PrimaryHeader, max_length_bytes: i32) -> bool {
    header.length_field + 7 > max_length_bytes
}

/// How one packet is fanned out: dropped by the length guard, or written to
/// the outputs whose allow-list admits its APID.
pub struct EmitPlan {
    /// The packet violates the length guard: write nothing, report an
    /// error.
    pub oversize: bool,
    /// For each output in order, whether the packet is written to it
    /// (empty when `oversize`).
    pub sends: Vec<bool>,
}

/// Plan the fan-out of a packet with header `header`: an oversize packet is
/// dropped entirely; otherwise output `i` receives it iff output `i`'s
/// allow-list is absent or holds the packet's APID. A write failure on one
/// output must not keep the packet from the others.
pub fn plan_packet_emission(config: &AppConfig, header: &PrimaryHeader) -> (r: EmitPlan)
    ensures
        r.oversize == spec_oversize(*header, config.max_length_bytes),
        r.oversize ==> r.sends@.len() == 0,
        !r.oversize ==> r.sends@.len() == config.allowed_output_apids@.len(),
        !r.oversize ==> forall|i: int|
            0 <= i < r.sends@.len() ==> r.sends@[i] == spec_allowed(
                #[trigger] config.allowed_output_apids@[i],
                header.apid,
            ),
{
    let oversize = if config.max_length_bytes < 0 {
        true
    } else {
        header.length_field as u32 + 7 > config.max_length_bytes as u32
    };
    if oversize {
        return EmitPlan { oversize: true, sends: Vec::new() };
    }
    let mut sends: Vec<bool> = Vec::new();
    let mut i: usize = 0;
    while i < config.allowed_output_apids.len()
        invariant
            i <= config.allowed_output_apids@.len(),
            sends@.len() == i,
            forall|j: int|
                0 <= j < i ==> sends@[j] == spec_allowed(
                    #[trigger] config.allowed_output_apids@[j],
                    header.apid,
                ),
        decreases config.allowed_output_apids@.len() - i,
    {
        let allowed = match &config.allowed_output_apids[i] {
            Option::None => true,
            Option::Some(v) => crate::parser::contains_apid(v, header.apid),
        };
        sends.push(allowed);
        i += 1;
    }
    EmitPlan { oversize: false, sends }
}

} // verus!
