use shoosh::session::{
    after_transfer, connection_readiness, next_phase, pump_action, streams_readiness,
    ConnectionState, LoopOutcome, Peek, Phase, PumpAction, Readiness, StreamState,
};

#[test]
fn connection_readiness_by_state() {
    assert_eq!(connection_readiness(ConnectionState::Ready), Readiness::Ready);
    assert_eq!(connection_readiness(ConnectionState::Failed), Readiness::Aborted);
    assert_eq!(connection_readiness(ConnectionState::Terminated), Readiness::Aborted);
    assert_eq!(connection_readiness(ConnectionState::Authorizing), Readiness::Pending);
}

#[test]
fn streams_ready_only_together() {
    assert_eq!(streams_readiness(&[StreamState::Ready, StreamState::Creating]), Readiness::Pending);
    assert_eq!(streams_readiness(&[StreamState::Creating, StreamState::Ready]), Readiness::Pending);
    assert_eq!(streams_readiness(&[StreamState::Ready, StreamState::Ready]), Readiness::Ready);
    assert_eq!(streams_readiness(&[StreamState::Creating, StreamState::Failed]), Readiness::Aborted);
    assert_eq!(streams_readiness(&[StreamState::Terminated, StreamState::Ready]), Readiness::Aborted);
}

#[test]
fn pump_waits_for_both_streams() {
    let c = ConnectionState::Ready;
    let ok = LoopOutcome::Success;
    // stream A becomes ready first, stream B later
    let mut phase = Phase::StartingStreams;
    phase = next_phase(phase, ok, c, StreamState::Creating, StreamState::Creating);
    assert_eq!(phase, Phase::StartingStreams);
    phase = next_phase(phase, ok, c, StreamState::Ready, StreamState::Creating);
    assert_eq!(phase, Phase::StartingStreams);
    phase = next_phase(phase, ok, c, StreamState::Ready, StreamState::Ready);
    assert_eq!(phase, Phase::Pumping);
}

#[test]
fn handshake_runs_through_phases() {
    let ok = LoopOutcome::Success;
    let mut phase = Phase::Connecting;
    phase = next_phase(phase, ok, ConnectionState::Connecting, StreamState::Unconnected, StreamState::Unconnected);
    assert_eq!(phase, Phase::Connecting);
    phase = next_phase(phase, ok, ConnectionState::Ready, StreamState::Unconnected, StreamState::Unconnected);
    assert_eq!(phase, Phase::StartingStreams);
    assert_eq!(
        next_phase(Phase::Connecting, ok, ConnectionState::Failed, StreamState::Unconnected, StreamState::Unconnected),
        Phase::Stopped
    );
}

#[test]
fn loop_quit_or_error_stops() {
    let c = ConnectionState::Ready;
    assert_eq!(next_phase(Phase::Pumping, LoopOutcome::Quit, c, StreamState::Ready, StreamState::Ready), Phase::Stopped);
    assert_eq!(next_phase(Phase::Connecting, LoopOutcome::Failed, c, StreamState::Ready, StreamState::Ready), Phase::Stopped);
    assert_eq!(next_phase(Phase::Stopped, LoopOutcome::Success, c, StreamState::Ready, StreamState::Ready), Phase::Stopped);
}

#[test]
fn stream_failure_while_pumping_stops() {
    let c = ConnectionState::Ready;
    let ok = LoopOutcome::Success;
    assert_eq!(next_phase(Phase::Pumping, ok, c, StreamState::Ready, StreamState::Ready), Phase::Pumping);
    assert_eq!(next_phase(Phase::Pumping, ok, c, StreamState::Failed, StreamState::Ready), Phase::Stopped);
    assert_eq!(next_phase(Phase::Pumping, ok, c, StreamState::Ready, StreamState::Terminated), Phase::Stopped);
}

#[test]
fn hole_is_discarded_and_pumping_continues() {
    assert_eq!(pump_action(Peek::Hole), PumpAction::Discard);
    let phase = after_transfer(Phase::Pumping, true);
    assert_eq!(phase, Phase::Pumping);
    let next = next_phase(
        phase,
        LoopOutcome::Success,
        ConnectionState::Ready,
        StreamState::Ready,
        StreamState::Ready,
    );
    assert_eq!(next, Phase::Pumping);
}

#[test]
fn pump_actions() {
    assert_eq!(pump_action(Peek::Empty), PumpAction::Idle);
    assert_eq!(pump_action(Peek::Data), PumpAction::ProcessAndWrite);
}

#[test]
fn transfer_failure_stops() {
    assert_eq!(after_transfer(Phase::Pumping, false), Phase::Stopped);
}

#[test]
fn connection_failure_stops_in_every_phase() {
    let ok = LoopOutcome::Success;
    for phase in [Phase::Connecting, Phase::StartingStreams, Phase::Pumping] {
        for conn in [ConnectionState::Failed, ConnectionState::Terminated] {
            assert_eq!(
                next_phase(phase, ok, conn, StreamState::Ready, StreamState::Ready),
                Phase::Stopped
            );
            assert_eq!(
                next_phase(phase, ok, conn, StreamState::Creating, StreamState::Creating),
                Phase::Stopped
            );
        }
    }
}
