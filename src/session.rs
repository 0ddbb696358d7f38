use vstd::prelude::*;

verus! {

/// What one step of the audio server's event loop reported.
#[derive(Debug, Clone, Copy, PartialEq, Eq, Structural)]
pub enum LoopOutcome {
    Success,
    Quit,
    Failed,
}

/// The state of the connection to the audio server.
#[derive(Debug, Clone, Copy, PartialEq, Eq, Structural)]
pub enum ConnectionState {
    Unconnected,
    Connecting,
    Authorizing,
    SettingName,
    Ready,
    Failed,
    Terminated,
}

/// The state of one audio stream (capture or playback).
#[derive(Debug, Clone, Copy, PartialEq, Eq, Structural)]
pub enum StreamState {
    Unconnected,
    Creating,
    Ready,
    Failed,
    Terminated,
}

/// Whether something that is being set up can be used yet.
#[derive(Debug, Clone, Copy, PartialEq, Eq, Structural)]
pub enum Readiness {
    /// Not yet: poll the event loop again.
    Pending,
    Ready,
    /// It failed or was terminated: the session ends.
    Aborted,
}

/// Where the session stands.
#[derive(Debug, Clone, Copy, PartialEq, Eq, Structural)]
pub enum Phase {
    /// Waiting for the server connection to become ready.
    Connecting,
    /// The streams were requested; waiting for both to become ready.
    StartingStreams,
    /// Steady state: audio is pumped from capture to playback.
    Pumping,
    /// A fatal condition was seen; nothing more is done.
    Stopped,
}

/// What the capture stream offers when peeked.
#[derive(Debug, Clone, Copy, PartialEq, Eq, Structural)]
pub enum Peek {
    /// No data available yet.
    Empty,
    /// A gap in the captured audio.
    Hole,
    /// A buffer of captured bytes.
    Data,
}

/// What one pump iteration does with what was peeked.
#[derive(Debug, Clone, Copy, PartialEq, Eq, Structural)]
pub enum PumpAction {
    /// Nothing: loop again.
    Idle,
    /// Drop the peeked unit without writing anything.
    Discard,
    /// Process the data, write it to playback, then drop it from capture.
    ProcessAndWrite,
}

pub open spec fn stream_failed(s: StreamState) -> bool {
    s == StreamState::Failed || s == StreamState::Terminated
}

pub open spec fn connection_failed(s: ConnectionState) -> bool {
    s == ConnectionState::Failed || s == ConnectionState::Terminated
}

pub open spec fn streams_readiness_spec(states: Seq<StreamState>) -> Readiness {
    if exists|i: int| 0 <= i < states.len() && stream_failed(#[trigger] states[i]) {
        Readiness::Aborted
    } else if forall|i: int| 0 <= i < states.len() ==> #[trigger] states[i] == StreamState::Ready {
        Readiness::Ready
    } else {
        Readiness::Pending
    }
}

/// Readiness of the server connection.
pub fn connection_readiness(s: ConnectionState) -> (r: Readiness)
    ensures
        r == Readiness::Ready <==> s == ConnectionState::Ready,
        r == Readiness::Aborted <==> (s == ConnectionState::Failed || s
            == ConnectionState::Terminated),
{
    match s {
        ConnectionState::Ready => Readiness::Ready,
        ConnectionState::Failed | ConnectionState::Terminated => Readiness::Aborted,
        _ => Readiness::Pending,
    }
}

/// Joint readiness of a set of streams observed in one polling pass: ready
/// only when every stream is ready, aborted as soon as any one has failed or
/// been terminated, and pending otherwise.
pub fn streams_readiness(states: &[StreamState]) -> (r: Readiness)
    ensures
        r == streams_readiness_spec(states@),
        r == Readiness::Ready ==> forall|i: int|
            0 <= i < states@.len() ==> #[trigger] states@[i] == StreamState::Ready,
{
    let mut all_ready = true;
    let mut i: usize = 0;
    while i < states.len()
        invariant
            i <= states@.len(),
            forall|k: int| 0 <= k < i ==> !stream_failed(#[trigger] states@[k]),
            all_ready <==> forall|k: int| 0 <= k < i ==> #[trigger] states@[k]
                == StreamState::Ready,
        decreases states@.len() - i,
    {
        match states[i] {
            StreamState::Failed | StreamState::Terminated => {
                return Readiness::Aborted;
            },
            StreamState::Ready => {},
            _ => {
                all_ready = false;
            },
        }
        i = i + 1;
    }
    if all_ready {
        Readiness::Ready
    } else {
        Readiness::Pending
    }
}

pub open spec fn next_phase_spec(
    phase: Phase,
    outcome: LoopOutcome,
    connection: ConnectionState,
    playback: StreamState,
    capture: StreamState,
) -> Phase {
    if phase == Phase::Stopped || outcome != LoopOutcome::Success || connection_failed(
        connection,
    ) {
        Phase::Stopped
    } else {
        match phase {
            Phase::Connecting => if connection == ConnectionState::Ready {
                Phase::StartingStreams
            } else if connection == ConnectionState::Failed || connection
                == ConnectionState::Terminated {
                Phase::Stopped
            } else {
                Phase::Connecting
            },
            Phase::StartingStreams => match streams_readiness_spec(seq![playback, capture]) {
                Readiness::Ready => Phase::Pumping,
                Readiness::Aborted => Phase::Stopped,
                Readiness::Pending => Phase::StartingStreams,
            },
            _ => if stream_failed(playback) || stream_failed(capture) {
                Phase::Stopped
            } else {
                Phase::Pumping
            },
        }
    }
}

/// The session's phase after one step of the event loop, given what that
/// step reported and the states then observed. A loop that quits or fails
/// stops the session, as does a failed or terminated connection in any phase,
/// or a failed stream; the pump starts
/// only once both streams are ready in the same pass.
pub fn next_phase(
    phase: Phase,
    outcome: LoopOutcome,
    connection: ConnectionState,
    playback: StreamState,
    capture: StreamState,
) -> (r: Phase)
    ensures
        r == next_phase_spec(phase, outcome, connection, playback, capture),
        connection == ConnectionState::Failed || connection == ConnectionState::Terminated ==> r
            == Phase::Stopped,
        r == Phase::Pumping && phase != Phase::Pumping ==> playback == StreamState::Ready
            && capture == StreamState::Ready,
{
    if phase == Phase::Stopped || outcome != LoopOutcome::Success {
        return Phase::Stopped;
    }
    if connection_readiness(connection) == Readiness::Aborted {
        return Phase::Stopped;
    }
    match phase {
        Phase::Connecting => match connection_readiness(connection) {
            Readiness::Ready => Phase::StartingStreams,
            Readiness::Aborted => Phase::Stopped,
            Readiness::Pending => Phase::Connecting,
        },
        Phase::StartingStreams => {
            let states = [playback, capture];
            assert(states@ =~= seq![playback, capture]);
            let r = streams_readiness(&states);
            if r == Readiness::Ready {
                assert(states@[0] == StreamState::Ready && states@[1] == StreamState::Ready);
            }
            match r {
                Readiness::Ready => Phase::Pumping,
                Readiness::Aborted => Phase::Stopped,
                Readiness::Pending => Phase::StartingStreams,
            }
        },
        _ => {
            let failed = match playback {
                StreamState::Failed | StreamState::Terminated => true,
                _ => match capture {
                    StreamState::Failed | StreamState::Terminated => true,
                    _ => false,
                },
            };
            if failed {
                Phase::Stopped
            } else {
                Phase::Pumping
            }
        },
    }
}

pub open spec fn pump_action_spec(peek: Peek) -> PumpAction {
    match peek {
        Peek::Empty => PumpAction::Idle,
        Peek::Hole => PumpAction::Discard,
        Peek::Data => PumpAction::ProcessAndWrite,
    }
}

pub open spec fn after_transfer_spec(phase: Phase, succeeded: bool) -> Phase {
    if succeeded {
        phase
    } else {
        Phase::Stopped
    }
}

/// What to do with what the capture stream offered.
pub fn pump_action(peek: Peek) -> (r: PumpAction)
    ensures
        r == pump_action_spec(peek),
        peek == Peek::Empty ==> r == PumpAction::Idle,
        peek == Peek::Hole ==> r == PumpAction::Discard,
        peek == Peek::Data ==> r == PumpAction::ProcessAndWrite,
{
    match peek {
        Peek::Empty => PumpAction::Idle,
        Peek::Hole => PumpAction::Discard,
        Peek::Data => PumpAction::ProcessAndWrite,
    }
}

/// The phase after the pump's writes and discards: any failure of them ends
/// the session; otherwise the phase is unchanged.
pub fn after_transfer(phase: Phase, succeeded: bool) -> (r: Phase)
    ensures
        r == after_transfer_spec(phase, succeeded),
        succeeded ==> r == phase,
        !succeeded ==> r == Phase::Stopped,
{
    if succeeded {
        phase
    } else {
        Phase::Stopped
    }
}

/// The session never starts pumping while either stream is not ready, even
/// when the other one is.
pub proof fn lemma_joint_readiness(
    outcome: LoopOutcome,
    connection: ConnectionState,
    playback: StreamState,
    capture: StreamState,
)
    requires
        playback != StreamState::Ready || capture != StreamState::Ready,
    ensures
        next_phase_spec(Phase::StartingStreams, outcome, connection, playback, capture)
            != Phase::Pumping,
{
    if outcome == LoopOutcome::Success {
        let s = seq![playback, capture];
        if playback != StreamState::Ready {
            assert(s[0] != StreamState::Ready);
        } else {
            assert(s[1] != StreamState::Ready);
        }
    }
}

/// A hole is discarded and nothing is written. Once that discard succeeded
/// the session is still pumping, exactly as after an iteration that found no
/// data, and the next step carries on pumping unless that step itself
/// reports a fatal condition (the loop quits or fails, the connection or a
/// stream has failed or been terminated).
pub proof fn lemma_hole_handling(
    outcome: LoopOutcome,
    connection: ConnectionState,
    playback: StreamState,
    capture: StreamState,
)
    ensures
        pump_action_spec(Peek::Hole) == PumpAction::Discard,
        after_transfer_spec(Phase::Pumping, true) == Phase::Pumping,
        outcome == LoopOutcome::Success && !connection_failed(connection) && !stream_failed(
            playback,
        ) && !stream_failed(capture) ==> next_phase_spec(
            after_transfer_spec(Phase::Pumping, true),
            outcome,
            connection,
            playback,
            capture,
        ) == Phase::Pumping,
{
}

} // verus!
