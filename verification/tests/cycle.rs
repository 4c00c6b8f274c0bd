use dht20::cycle::{
    begin_cycle, step, CycleAction, CycleEvent, CycleState, SENSOR_ADDRESS, SETTLE_MILLIS,
    TRIGGER_COMMAND,
};
use dht20::decoder::decode_outcome;
use dht20::error::ProtocolError;
use dht20::frame::{RawFrame, FRAME_LEN};
use dht20::measurement::Measurement;
use dht20::power::pow2;

/// A transport that answers from a script and keeps a record of what it was
/// asked to do.
struct StubBus {
    bind_ok: bool,
    write_ok: bool,
    reply: Option<Vec<u8>>,
    log: Vec<String>,
}

impl StubBus {
    fn new(bind_ok: bool, write_ok: bool, reply: Option<Vec<u8>>) -> StubBus {
        StubBus { bind_ok, write_ok, reply, log: Vec::new() }
    }

    fn perform(&mut self, action: CycleAction) -> CycleEvent {
        match action {
            CycleAction::Bind { address } => {
                self.log.push(format!("bind {:#04x}", address));
                if self.bind_ok {
                    CycleEvent::Completed
                } else {
                    CycleEvent::Failed
                }
            }
            CycleAction::Write { command } => {
                self.log.push(format!("write {:02x?}", command));
                if self.write_ok {
                    CycleEvent::Completed
                } else {
                    CycleEvent::Failed
                }
            }
            CycleAction::Wait { millis } => {
                self.log.push(format!("wait {}", millis));
                CycleEvent::Completed
            }
            CycleAction::Read { length } => {
                self.log.push(format!("read {}", length));
                match &self.reply {
                    None => CycleEvent::Failed,
                    Some(bytes) => {
                        let mut buffer = [0xffu8; 7];
                        let count = bytes.len().min(length).min(buffer.len());
                        buffer[..count].copy_from_slice(&bytes[..count]);
                        CycleEvent::Received { buffer, count }
                    }
                }
            }
            CycleAction::Finish { .. } => unreachable!(),
        }
    }
}

/// Runs one cycle against the stub.
fn perform_cycle(bus: &mut StubBus) -> Result<RawFrame, ProtocolError> {
    let (mut state, mut action) = begin_cycle();
    for _ in 0..16 {
        if let CycleAction::Finish { outcome } = action {
            assert_eq!(state, CycleState::Finished { outcome });
            return outcome;
        }
        let event = bus.perform(action);
        let next = step(state, event);
        state = next.0;
        action = next.1;
    }
    panic!("the cycle did not end");
}

fn bus_fault() -> (CycleState, CycleAction) {
    (
        CycleState::Finished { outcome: Err(ProtocolError::BusFault) },
        CycleAction::Finish { outcome: Err(ProtocolError::BusFault) },
    )
}

#[test]
fn protocol_constants() {
    assert_eq!(SENSOR_ADDRESS, 0x38);
    assert_eq!(TRIGGER_COMMAND, [0xAC, 0x33, 0x00]);
    assert_eq!(SETTLE_MILLIS, 80);
    assert_eq!(FRAME_LEN, 7);
}

#[test]
fn full_cycle_yields_the_measurement() {
    let mut bus = StubBus::new(true, true, Some(vec![0x08, 0x4D, 0x9A, 0xA6, 0xA7, 0xEF, 0x00]));
    let outcome = perform_cycle(&mut bus);
    assert_eq!(outcome, Ok(RawFrame { bytes: [0x08, 0x4D, 0x9A, 0xA6, 0xA7, 0xEF, 0x00] }));
    let m = decode_outcome(outcome).unwrap();
    assert_eq!(m, Measurement { raw_temperature: 436_207, raw_humidity: 317_866 });
    let humidity = (m.raw_humidity as f32) / (pow2(20) as f32) * 100.0;
    let temperature = (m.raw_temperature as f32) / (pow2(20) as f32) * 200.0 - 50.0;
    assert_eq!(humidity.to_bits(), 0x41f2_8334);
    assert_eq!(temperature.to_bits(), 0x4204_ccae);
    assert!((humidity - 30.314064).abs() < 1e-5);
    assert!((temperature - 33.199883).abs() < 1e-5);
}

#[test]
fn full_cycle_asks_for_bind_write_wait_read_in_that_order() {
    let mut bus = StubBus::new(true, true, Some(vec![0x00; 7]));
    assert!(perform_cycle(&mut bus).is_ok());
    assert_eq!(bus.log, vec!["bind 0x38", "write [ac, 33, 00]", "wait 80", "read 7"]);
}

#[test]
fn failed_write_is_a_bus_fault_and_nothing_is_read() {
    let mut bus = StubBus::new(true, false, Some(vec![0x00; 7]));
    assert_eq!(perform_cycle(&mut bus), Err(ProtocolError::BusFault));
    assert_eq!(bus.log, vec!["bind 0x38", "write [ac, 33, 00]"]);
    assert!(!bus.log.iter().any(|entry| entry.starts_with("read")));
}

#[test]
fn failed_bind_is_a_bus_fault_and_nothing_is_written() {
    let mut bus = StubBus::new(false, true, Some(vec![0x00; 7]));
    assert_eq!(perform_cycle(&mut bus), Err(ProtocolError::BusFault));
    assert_eq!(bus.log, vec!["bind 0x38"]);
}

#[test]
fn failed_read_is_a_bus_fault() {
    let mut bus = StubBus::new(true, true, None);
    assert_eq!(perform_cycle(&mut bus), Err(ProtocolError::BusFault));
    assert_eq!(bus.log.len(), 4);
}

#[test]
fn short_read_is_a_length_fault() {
    for len in 0usize..7 {
        let mut bus = StubBus::new(true, true, Some(vec![0x00; len]));
        let outcome = perform_cycle(&mut bus);
        assert_eq!(outcome, Err(ProtocolError::FrameLengthFault));
        assert_eq!(decode_outcome(outcome), Err(ProtocolError::FrameLengthFault));
    }
}

#[test]
fn busy_sensor_is_a_busy_fault() {
    let mut bus = StubBus::new(true, true, Some(vec![0x99, 0x4D, 0x9A, 0xA6, 0xA7, 0xEF, 0x00]));
    let outcome = perform_cycle(&mut bus);
    assert!(outcome.is_ok());
    assert_eq!(decode_outcome(outcome), Err(ProtocolError::BusyFault));
}

#[test]
fn cycle_begins_with_the_bind() {
    assert_eq!(
        begin_cycle(),
        (CycleState::Binding, CycleAction::Bind { address: 0x38 })
    );
}

#[test]
fn completed_events_move_one_action_on() {
    assert_eq!(
        step(CycleState::Binding, CycleEvent::Completed),
        (CycleState::Triggering, CycleAction::Write { command: [0xAC, 0x33, 0x00] })
    );
    assert_eq!(
        step(CycleState::Triggering, CycleEvent::Completed),
        (CycleState::Settling, CycleAction::Wait { millis: 80 })
    );
    assert_eq!(
        step(CycleState::Settling, CycleEvent::Completed),
        (CycleState::Reading, CycleAction::Read { length: 7 })
    );
}

#[test]
fn failed_event_ends_the_cycle_in_every_running_state() {
    for state in [
        CycleState::Binding,
        CycleState::Triggering,
        CycleState::Settling,
        CycleState::Reading,
    ] {
        assert_eq!(step(state, CycleEvent::Failed), bus_fault());
    }
}

#[test]
fn bytes_before_the_read_are_ignored() {
    let stray = CycleEvent::Received { buffer: [0x01; 7], count: 7 };
    assert_eq!(step(CycleState::Binding, stray), step(CycleState::Binding, CycleEvent::Completed));
    assert_eq!(
        step(CycleState::Triggering, stray),
        step(CycleState::Triggering, CycleEvent::Completed)
    );
    assert_eq!(
        step(CycleState::Settling, stray),
        step(CycleState::Settling, CycleEvent::Completed)
    );
}

#[test]
fn read_of_a_whole_frame_ends_the_cycle_with_it() {
    let buffer = [0x08, 0x4D, 0x9A, 0xA6, 0xA7, 0xEF, 0x00];
    let outcome = Ok(RawFrame { bytes: buffer });
    assert_eq!(
        step(CycleState::Reading, CycleEvent::Received { buffer, count: 7 }),
        (CycleState::Finished { outcome }, CycleAction::Finish { outcome })
    );
}

#[test]
fn read_of_any_other_count_is_a_length_fault() {
    let buffer = [0x08, 0x4D, 0x9A, 0xA6, 0xA7, 0xEF, 0x00];
    let outcome = Err(ProtocolError::FrameLengthFault);
    for count in [0usize, 1, 6, 8, 9, usize::MAX] {
        assert_eq!(
            step(CycleState::Reading, CycleEvent::Received { buffer, count }),
            (CycleState::Finished { outcome }, CycleAction::Finish { outcome })
        );
    }
    assert_eq!(
        step(CycleState::Reading, CycleEvent::Completed),
        (CycleState::Finished { outcome }, CycleAction::Finish { outcome })
    );
}

#[test]
fn finished_cycle_stays_as_it_is() {
    let outcomes = [
        Ok(RawFrame { bytes: [0x08, 0x4D, 0x9A, 0xA6, 0xA7, 0xEF, 0x00] }),
        Err(ProtocolError::BusFault),
        Err(ProtocolError::FrameLengthFault),
    ];
    let events = [
        CycleEvent::Completed,
        CycleEvent::Failed,
        CycleEvent::Received { buffer: [0x00; 7], count: 7 },
    ];
    for outcome in outcomes {
        for event in events {
            assert_eq!(
                step(CycleState::Finished { outcome }, event),
                (CycleState::Finished { outcome }, CycleAction::Finish { outcome })
            );
        }
    }
}

#[test]
fn every_cycle_ends_within_four_events() {
    let events = [
        CycleEvent::Completed,
        CycleEvent::Failed,
        CycleEvent::Received { buffer: [0x00; 7], count: 7 },
        CycleEvent::Received { buffer: [0x00; 7], count: 3 },
    ];
    for a in events {
        for b in events {
            for c in events {
                for d in events {
                    let mut reads = 0;
                    let mut writes = 0;
                    let (mut state, mut action) = begin_cycle();
                    for event in [a, b, c, d] {
                        match action {
                            CycleAction::Read { .. } => reads += 1,
                            CycleAction::Write { .. } => writes += 1,
                            _ => {}
                        }
                        let next = step(state, event);
                        state = next.0;
                        action = next.1;
                    }
                    assert!(matches!(state, CycleState::Finished { .. }));
                    assert!(matches!(action, CycleAction::Finish { .. }));
                    assert!(reads <= 1 && writes <= 1);
                    let any_failed = [a, b, c, d].contains(&CycleEvent::Failed);
                    if any_failed {
                        assert_eq!(action, CycleAction::Finish { outcome: Err(ProtocolError::BusFault) });
                    }
                }
            }
        }
    }
}
