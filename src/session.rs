use vstd::prelude::*;

verus! {

/// Size of the RAM region handed to the guest as region 0: 256 KiB.
pub const OS_REGION_LEN: usize = 262144;

/// The length of memory region `region`: only region 0 exists.
pub fn memory_region_len(region: u8) -> (r: Option<usize>)
    ensures
        region == 0 ==> r == Some(OS_REGION_LEN),
        region != 0 ==> r is None,
{
    if region == 0 {
        Some(OS_REGION_LEN)
    } else {
        None
    }
}

/// Where the emulator is in its life.
#[derive(Clone, Copy, Debug, PartialEq, Eq, Structural)]
pub enum Phase {
    /// The presentation thread builds the glyph cache; no guest code runs.
    Initializing,
    /// The start signal was sent; the guest thread has not entered the guest.
    AwaitingGuestStart,
    /// The guest runs, and the presentation loop draws frames.
    Running,
    /// The process is going down.
    Terminating,
}

/// What happened, as the two threads see it.
#[derive(Clone, Copy, Debug, PartialEq, Eq, Structural)]
pub enum SessionEvent {
    GlyphCacheBuilt,
    StartSignalReceived,
    PowerControl,
    WindowClosed,
}

/// What the thread that saw the event does next.
#[derive(Clone, Copy, Debug, PartialEq, Eq, Structural)]
pub enum SessionAction {
    Nothing,
    SignalGuestStart,
    EnterGuest,
    ExitProcess,
}

/// The start-up sequence: the cache is built before the start signal, the
/// guest is entered only once the signal arrived, and a power request or a
/// window close ends the process from any phase.
pub open spec fn step_spec(phase: Phase, event: SessionEvent) -> (Phase, SessionAction) {
    match (phase, event) {
        (Phase::Terminating, _) => (Phase::Terminating, SessionAction::Nothing),
        (_, SessionEvent::PowerControl) => (Phase::Terminating, SessionAction::ExitProcess),
        (_, SessionEvent::WindowClosed) => (Phase::Terminating, SessionAction::ExitProcess),
        (Phase::Initializing, SessionEvent::GlyphCacheBuilt) => (
            Phase::AwaitingGuestStart,
            SessionAction::SignalGuestStart,
        ),
        (Phase::AwaitingGuestStart, SessionEvent::StartSignalReceived) => (
            Phase::Running,
            SessionAction::EnterGuest,
        ),
        _ => (phase, SessionAction::Nothing),
    }
}

/// The next phase and the action for `event` in `phase`.
pub fn step(phase: Phase, event: SessionEvent) -> (r: (Phase, SessionAction))
    ensures
        r == step_spec(phase, event),
{
    match (phase, event) {
        (Phase::Terminating, _) => (Phase::Terminating, SessionAction::Nothing),
        (_, SessionEvent::PowerControl) => (Phase::Terminating, SessionAction::ExitProcess),
        (_, SessionEvent::WindowClosed) => (Phase::Terminating, SessionAction::ExitProcess),
        (Phase::Initializing, SessionEvent::GlyphCacheBuilt) => (
            Phase::AwaitingGuestStart,
            SessionAction::SignalGuestStart,
        ),
        (Phase::AwaitingGuestStart, SessionEvent::StartSignalReceived) => (
            Phase::Running,
            SessionAction::EnterGuest,
        ),
        _ => (phase, SessionAction::Nothing),
    }
}

/// How many times `action` comes out of the events `events`, from `phase`.
pub open spec fn count_action(phase: Phase, events: Seq<SessionEvent>, action: SessionAction) -> nat
    decreases events.len(),
{
    if events.len() == 0 {
        0
    } else {
        let (next, a) = step_spec(phase, events[0]);
        (if a == action {
            1nat
        } else {
            0nat
        }) + count_action(next, events.drop_first(), action)
    }
}

/// The start-up handshake fires at most once, whatever events come, and the
/// guest is entered at most once; from a phase past start-up neither happens
/// again.
pub proof fn lemma_handshake_once(phase: Phase, events: Seq<SessionEvent>)
    ensures
        count_action(phase, events, SessionAction::SignalGuestStart) <= 1,
        count_action(phase, events, SessionAction::EnterGuest) <= 1,
        phase != Phase::Initializing ==> count_action(
            phase,
            events,
            SessionAction::SignalGuestStart,
        ) == 0,
        phase == Phase::Running || phase == Phase::Terminating ==> count_action(
            phase,
            events,
            SessionAction::EnterGuest,
        ) == 0,
    decreases events.len(),
{
    if events.len() > 0 {
        let (next, a) = step_spec(phase, events[0]);
        lemma_handshake_once(next, events.drop_first());
    }
}

} // verus!
