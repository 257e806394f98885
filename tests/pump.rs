use redistal::error::TunnelError;
use redistal::pump::{read_would_block, Pump, PumpAction, PumpEnd, PumpEvent};
use redistal::tunnel::{AcceptAction, AcceptEvent, AcceptLoop, AcceptPhase};

fn chunks(data: &[u8], size: usize) -> Vec<PumpEvent> {
    data.chunks(size).map(|c| PumpEvent::Data(c.to_vec())).collect()
}

struct Run {
    to_channel: Vec<u8>,
    to_local: Vec<u8>,
    eof_sent: bool,
    local_shut: bool,
    pump: Pump,
}

/// Drives a pump over scripted reads. Once a script is used up, its side
/// reports nothing to read, or end-of-data when it `closes`.
fn drive(local: Vec<PumpEvent>, local_closes: bool, channel: Vec<PumpEvent>, remote_closes: bool) -> Run {
    let (mut pump, mut action) = Pump::new();
    let mut local = local.into_iter();
    let mut channel = channel.into_iter().peekable();
    let mut run = Run { to_channel: Vec::new(), to_local: Vec::new(), eof_sent: false, local_shut: false, pump: Pump::new().0 };
    for _ in 0..100000 {
        let event = match action {
            PumpAction::ReadLocal => local.next().unwrap_or(if local_closes { PumpEvent::Closed } else { PumpEvent::WouldBlock }),
            PumpAction::ReadChannel => channel.next().unwrap_or(if remote_closes { PumpEvent::Closed } else { PumpEvent::WouldBlock }),
            PumpAction::WriteChannel(bytes) => {
                assert!(!run.eof_sent);
                run.to_channel.extend_from_slice(&bytes);
                PumpEvent::Done
            }
            PumpAction::WriteLocal(bytes) => {
                assert!(!run.local_shut);
                run.to_local.extend_from_slice(&bytes);
                PumpEvent::Done
            }
            PumpAction::SendEof => {
                run.eof_sent = true;
                PumpEvent::Done
            }
            PumpAction::ShutdownLocal => {
                run.local_shut = true;
                PumpEvent::Done
            }
            PumpAction::CheckEof => PumpEvent::EndOfData(remote_closes && channel.peek().is_none()),
            PumpAction::Sleep { .. } => PumpEvent::Done,
            PumpAction::Finish { .. } => break,
        };
        action = pump.step(event);
    }
    run.pump = pump;
    run
}

#[test]
fn bytes_larger_than_buffer_arrive_in_order() {
    let data: Vec<u8> = (0..100000u32).map(|i| (i * 7 % 251) as u8).collect();
    let run = drive(chunks(&data, 32768), true, vec![], true);
    assert_eq!(run.to_channel, data);
    assert!(run.to_local.is_empty());
    assert!(run.eof_sent && run.local_shut);
    assert_eq!(run.pump.result(), Some(Ok(())));
}

#[test]
fn target_bytes_reach_local_side_in_order() {
    let data: Vec<u8> = (0..70000u32).map(|i| (i % 256) as u8).collect();
    let run = drive(vec![], true, chunks(&data, 4096), true);
    assert!(run.to_channel.is_empty());
    assert_eq!(run.to_local, data);
    assert_eq!(run.pump.result(), Some(Ok(())));
}

#[test]
fn local_close_first_drains_the_target() {
    let data: Vec<u8> = (0..50000u32).map(|i| (i % 97) as u8).collect();
    let mut channel = vec![PumpEvent::WouldBlock, PumpEvent::WouldBlock];
    channel.extend(chunks(&data, 1000));
    let run = drive(vec![PumpEvent::Closed], true, channel, true);
    assert!(run.eof_sent);
    assert_eq!(run.to_local, data);
    assert_eq!(run.pump.result(), Some(Ok(())));
}

#[test]
fn target_close_first_drains_the_local_side() {
    let data: Vec<u8> = (0..40000u32).map(|i| (i % 13) as u8).collect();
    let mut local = vec![PumpEvent::WouldBlock, PumpEvent::WouldBlock];
    local.extend(chunks(&data, 3000));
    let run = drive(local, true, vec![PumpEvent::Data(b"bye".to_vec())], true);
    assert!(run.local_shut);
    assert_eq!(run.to_local, b"bye".to_vec());
    assert_eq!(run.to_channel, data);
    assert_eq!(run.pump.result(), Some(Ok(())));
}

#[test]
fn one_side_closed_alone_keeps_pump_running() {
    let run = drive(vec![], true, vec![], false);
    assert!(run.eof_sent);
    assert_eq!(run.pump.result(), None);
    let run = drive(vec![], false, vec![], true);
    assert!(run.local_shut);
    assert_eq!(run.pump.result(), None);
}

#[test]
fn local_close_sends_end_of_data() {
    let (mut pump, _) = Pump::new();
    assert!(matches!(pump.step(PumpEvent::Closed), PumpAction::SendEof));
    assert!(matches!(pump.step(PumpEvent::Done), PumpAction::ReadChannel));
    assert_eq!(pump.result(), None);
}

#[test]
fn target_sends_then_closes_and_everything_is_delivered() {
    let (mut pump, _) = Pump::new();
    assert!(matches!(pump.step(PumpEvent::WouldBlock), PumpAction::ReadChannel));
    match pump.step(PumpEvent::Data(b"tail".to_vec())) {
        PumpAction::WriteLocal(bytes) => assert_eq!(bytes, b"tail".to_vec()),
        other => panic!("unexpected {:?}", other),
    }
    assert!(matches!(pump.step(PumpEvent::Done), PumpAction::CheckEof));
    assert!(matches!(pump.step(PumpEvent::EndOfData(true)), PumpAction::ShutdownLocal));
    assert!(matches!(pump.step(PumpEvent::Done), PumpAction::ReadLocal));
    assert!(matches!(pump.step(PumpEvent::Closed), PumpAction::SendEof));
    assert!(matches!(pump.step(PumpEvent::Done), PumpAction::Finish { end: PumpEnd::Closed }));
    assert_eq!(pump.result(), Some(Ok(())));
}

#[test]
fn failed_write_ends_with_io_error() {
    let (mut pump, _) = Pump::new();
    assert!(matches!(pump.step(PumpEvent::Data(vec![1, 2, 3])), PumpAction::WriteChannel(_)));
    let action = pump.step(PumpEvent::Failed);
    assert!(matches!(action, PumpAction::Finish { end: PumpEnd::Failed }));
    assert_eq!(pump.result(), Some(Err(TunnelError::IoError)));
}

#[test]
fn failed_read_ends_with_io_error() {
    let (mut pump, _) = Pump::new();
    pump.step(PumpEvent::WouldBlock);
    pump.step(PumpEvent::Failed);
    assert_eq!(pump.result(), Some(Err(TunnelError::IoError)));
}

#[test]
fn running_pump_has_no_result() {
    let (pump, action) = Pump::new();
    assert!(matches!(action, PumpAction::ReadLocal));
    assert_eq!(pump.result(), None);
}

#[test]
fn idle_pump_backs_off() {
    let (mut pump, _) = Pump::new();
    let mut sleeps = Vec::new();
    for _ in 0..150 {
        pump.step(PumpEvent::WouldBlock);
        pump.step(PumpEvent::WouldBlock);
        match pump.step(PumpEvent::EndOfData(false)) {
            PumpAction::Sleep { ms } => sleeps.push(ms),
            other => panic!("unexpected {:?}", other),
        }
        assert!(matches!(pump.step(PumpEvent::Done), PumpAction::ReadLocal));
    }
    assert!(sleeps[..100].iter().all(|ms| *ms == 1));
    assert!(sleeps[100..].iter().all(|ms| *ms == 10));
    let total: u64 = sleeps.iter().sum();
    assert_eq!(total, 100 + 10 * 50);
}

#[test]
fn progress_resets_idle_count() {
    let (mut pump, _) = Pump::new();
    for _ in 0..120 {
        pump.step(PumpEvent::WouldBlock);
        pump.step(PumpEvent::WouldBlock);
        pump.step(PumpEvent::EndOfData(false));
        pump.step(PumpEvent::Done);
    }
    pump.step(PumpEvent::Data(vec![9]));
    pump.step(PumpEvent::Done);
    pump.step(PumpEvent::WouldBlock);
    assert!(matches!(pump.step(PumpEvent::EndOfData(false)), PumpAction::ReadLocal));
    pump.step(PumpEvent::WouldBlock);
    pump.step(PumpEvent::WouldBlock);
    assert!(matches!(pump.step(PumpEvent::EndOfData(false)), PumpAction::Sleep { ms: 1 }));
}

#[test]
fn error_on_one_connection_leaves_another_running() {
    let (mut a, _) = Pump::new();
    let (mut b, _) = Pump::new();
    assert!(matches!(b.step(PumpEvent::Data(b"abc".to_vec())), PumpAction::WriteChannel(_)));
    a.step(PumpEvent::Failed);
    assert_eq!(a.result(), Some(Err(TunnelError::IoError)));
    assert_eq!(b.result(), None);
    assert!(matches!(b.step(PumpEvent::Done), PumpAction::ReadChannel));
}

#[test]
fn would_block_messages() {
    assert!(read_would_block(true, "anything"));
    assert!(read_would_block(false, "[Session(-37)] EAGAIN: would block"));
    assert!(read_would_block(false, "operation would block"));
    assert!(!read_would_block(false, "connection reset by peer"));
    assert!(!read_would_block(false, ""));
}

#[test]
fn accept_loop_spawns_sleeps_and_stops() {
    let (mut lp, first) = AcceptLoop::new();
    assert_eq!(first, AcceptAction::ReadStopFlag);
    assert_eq!(lp.step(AcceptEvent::StopFlag(false)), AcceptAction::Accept);
    assert_eq!(lp.step(AcceptEvent::Accepted), AcceptAction::SpawnForwarder);
    assert_eq!(lp.step(AcceptEvent::Done), AcceptAction::ReadStopFlag);
    assert_eq!(lp.step(AcceptEvent::StopFlag(false)), AcceptAction::Accept);
    assert_eq!(lp.step(AcceptEvent::WouldBlock), AcceptAction::Sleep { ms: 50 });
    assert_eq!(lp.step(AcceptEvent::Done), AcceptAction::ReadStopFlag);
    assert_eq!(lp.step(AcceptEvent::StopFlag(true)), AcceptAction::Exit);
    assert_eq!(lp.phase, AcceptPhase::Stopped);
    assert_eq!(lp.step(AcceptEvent::StopFlag(false)), AcceptAction::Exit);
}

#[test]
fn accept_failure_ends_loop() {
    let (mut lp, _) = AcceptLoop::new();
    lp.step(AcceptEvent::StopFlag(false));
    assert_eq!(lp.step(AcceptEvent::Failed), AcceptAction::Exit);
}

#[test]
fn target_bytes_read_before_local_close_are_delivered() {
    let (mut pump, _) = Pump::new();
    pump.step(PumpEvent::WouldBlock);
    match pump.step(PumpEvent::Data(b"late reply".to_vec())) {
        PumpAction::WriteLocal(bytes) => assert_eq!(bytes, b"late reply".to_vec()),
        other => panic!("unexpected {:?}", other),
    }
    assert!(matches!(pump.step(PumpEvent::Done), PumpAction::CheckEof));
    assert!(matches!(pump.step(PumpEvent::EndOfData(false)), PumpAction::ReadLocal));
    assert!(matches!(pump.step(PumpEvent::Closed), PumpAction::SendEof));
    assert!(matches!(pump.step(PumpEvent::Done), PumpAction::ReadChannel));
    assert_eq!(pump.result(), None);
}

#[test]
fn write_of_read_bytes_fails_mid_way() {
    let run = drive(vec![PumpEvent::Data(vec![1]), PumpEvent::Failed], false, vec![], false);
    assert_eq!(run.to_channel, vec![1]);
    assert_eq!(run.pump.result(), Some(Err(TunnelError::IoError)));
}
