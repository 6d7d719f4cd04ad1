use invelion::checksum::calculate_checksum;
use invelion::codes::MemoryBank;
use invelion::codes::ResponseCode;
use invelion::error::Error;
use invelion::error::ProgramError;
use invelion::frame::Response;
use invelion::inventory::InventoryItem;
use invelion::read::ReadResult;
use invelion::reply;
use invelion::request;
use invelion::session::Action;
use invelion::session::Event;
use invelion::session::Exchange;
use invelion::session::Outcome;
use invelion::session::Phase;
use invelion::session::Session;

fn framed(opcode: u8, rest: &[u8]) -> Vec<u8> {
    let mut frame = vec![0xA0, (rest.len() + 3) as u8, 0x01, opcode];
    frame.extend_from_slice(rest);
    let sum = calculate_checksum(&frame);
    frame.push(sum);
    frame
}

fn timed_out() -> std::io::Error {
    std::io::Error::new(std::io::ErrorKind::TimedOut, "timed out")
}

struct Run {
    session: Session,
    end: Action,
    written: Vec<Vec<u8>>,
    consumed: usize,
    dropped: Vec<Response>,
}

fn run(mut session: Session, mut action: Action, stream: &[u8]) -> Run {
    let mut written = Vec::new();
    let mut dropped = Vec::new();
    let mut consumed = 0;
    loop {
        let event = match action {
            Action::Write(bytes) => {
                written.push(bytes);
                Event::Written
            }
            Action::Read(count) => {
                if consumed + count > stream.len() {
                    Event::Failed(timed_out())
                } else {
                    let bytes = stream[consumed..consumed + count].to_vec();
                    consumed += count;
                    Event::Bytes(bytes)
                }
            }
            end => return Run { session, end, written, consumed, dropped },
        };
        let next = session.step(event);
        session = next.0;
        action = next.1;
        if let Some(response) = session.discarded() {
            dropped.push(response.clone());
        }
    }
}

fn awaiting_frame(exchange: Exchange) -> Session {
    let command = match exchange {
        Exchange::Single => request::get_version(1),
        Exchange::Inventory => request::real_time_inventory(1, 255),
        Exchange::Read => request::read(1, MemoryBank::TID, &[0, 0, 0, 0], 0, 4),
    };
    let (session, _) = Session::new().start(&command, exchange);
    let (session, action) = session.step(Event::Written);
    assert!(matches!(action, Action::Read(1)));
    session
}

fn tag_payload(first: u8, epc: &[u8], rssi: u8) -> Vec<u8> {
    let mut data = vec![first, 0x30, 0x00];
    data.extend_from_slice(epc);
    data.push(rssi);
    data
}

#[test]
fn new_session_is_idle() {
    let session = Session::new();
    assert_eq!(session.phase(), Phase::Idle);
    assert_eq!(*session.discarded(), None);
}

#[test]
fn start_hands_out_the_frame_of_the_command() {
    let (session, action) = Session::new().start(&request::get_version(1), Exchange::Single);
    assert_eq!(session.phase(), Phase::Sending);
    match action {
        Action::Write(bytes) => assert_eq!(bytes, vec![0xA0, 0x03, 0x01, 0x72, 0xEA]),
        other => panic!("{:?}", other),
    }
    let (session, action) = session.step(Event::Written);
    assert_eq!(session.phase(), Phase::AwaitingStart);
    assert!(matches!(action, Action::Read(1)));
}

#[test]
fn receiver_walks_through_a_frame() {
    let session = awaiting_frame(Exchange::Single);
    let (session, action) = session.step(Event::Bytes(vec![0xA0]));
    assert_eq!(session.phase(), Phase::AwaitingLength);
    assert!(matches!(action, Action::Read(1)));
    let (session, action) = session.step(Event::Bytes(vec![0x05]));
    assert_eq!(session.phase(), Phase::AwaitingBody { length: 5 });
    assert!(matches!(action, Action::Read(5)));
    let (session, action) = session.step(Event::Bytes(vec![0x01, 0x72, 0x01, 0x02, 0xE5]));
    assert_eq!(session.phase(), Phase::Idle);
    match action {
        Action::Finish(Outcome::Response(response)) => {
            assert_eq!(response.data, vec![1, 2]);
        }
        other => panic!("{:?}", other),
    }
}

#[test]
fn resynchronizes_after_garbage() {
    let frame = framed(0x72, &[0x01, 0x02]);
    for garbage_len in [0usize, 1, 2, 17, 300] {
        let mut stream: Vec<u8> = Vec::new();
        for i in 0..garbage_len {
            let byte = (i * 7) as u8;
            stream.push(if byte == 0xA0 { 0xA1 } else { byte });
        }
        stream.extend_from_slice(&frame);
        stream.extend_from_slice(&[0xA0, 0x55, 0x66]);
        let run = run(awaiting_frame(Exchange::Single), Action::Read(1), &stream);
        assert_eq!(run.consumed, garbage_len + frame.len());
        assert_eq!(run.session.phase(), Phase::Idle);
        match run.end {
            Action::Finish(Outcome::Response(response)) => {
                assert_eq!(
                    response,
                    Response { address: 1, command: 0x72, status: None, data: vec![1, 2] }
                );
            }
            other => panic!("{:?}", other),
        }
    }
}

#[test]
fn firmware_version_end_to_end() {
    let (session, action) = Session::new().start(&request::get_version(1), Exchange::Single);
    let mut stream = vec![0xA0, 0x05, 0x01, 0x72, 0x01, 0x02];
    let sum = calculate_checksum(&stream);
    stream.push(sum);
    let run = run(session, action, &stream);
    assert_eq!(run.written, vec![vec![0xA0, 0x03, 0x01, 0x72, 0xEA]]);
    assert_eq!(run.consumed, 7);
    match run.end {
        Action::Finish(Outcome::Response(response)) => {
            assert_eq!(response.status, None);
            assert_eq!(reply::version(&response.data).unwrap(), (1, 2));
        }
        other => panic!("{:?}", other),
    }
}

#[test]
fn inventory_end_to_end() {
    let first = tag_payload(0x15, &[0xE2, 0x00, 0x00, 0x01, 0x02, 0x03, 0x04, 0x05], 90);
    let second = tag_payload(0x1E, &[0xE2, 0x00, 0x00, 0x0A, 0x0B, 0x0C], 70);
    let mut stream = framed(0x89, &first);
    stream.extend_from_slice(&framed(0x89, &second));
    stream.extend_from_slice(&framed(0x89, &[0x01, 0x00, 0x64, 0x00, 0x00, 0x00, 0x02]));
    let (session, action) =
        Session::new().start(&request::real_time_inventory(1, 255), Exchange::Inventory);
    let run = run(session, action, &stream);
    assert_eq!(run.written, vec![vec![0xA0, 0x04, 0x01, 0x89, 0xFF, 0xD3]]);
    assert_eq!(run.consumed, stream.len());
    assert_eq!(run.session.phase(), Phase::Idle);
    match run.end {
        Action::Finish(Outcome::Inventory(result)) => {
            assert_eq!(
                result.items,
                vec![
                    InventoryItem {
                        frequency: 867_500_000,
                        antenna: 1,
                        pc: vec![0x30, 0x00],
                        epc: vec![0xE2, 0x00, 0x00, 0x01, 0x02, 0x03, 0x04, 0x05],
                        rssi: -39,
                    },
                    InventoryItem {
                        frequency: 902_000_000,
                        antenna: 2,
                        pc: vec![0x30, 0x00],
                        epc: vec![0xE2, 0x00, 0x00, 0x0A, 0x0B, 0x0C],
                        rssi: -60,
                    },
                ]
            );
            assert_eq!(result.antenna, 1);
            assert_eq!(result.read_rate, 100);
            assert_eq!(result.total_read, 2);
        }
        other => panic!("{:?}", other),
    }
}

#[test]
fn inventory_without_tags() {
    let stream = framed(0x89, &[0x00, 0x00, 0x00, 0x00, 0x00, 0x00, 0x00]);
    let run = run(awaiting_frame(Exchange::Inventory), Action::Read(1), &stream);
    match run.end {
        Action::Finish(Outcome::Inventory(result)) => {
            assert!(result.items.is_empty());
            assert_eq!(result.total_read, 0);
        }
        other => panic!("{:?}", other),
    }
}

#[test]
fn failed_inventory_is_a_protocol_error() {
    let stream = framed(0x89, &[0x22]);
    let run = run(awaiting_frame(Exchange::Inventory), Action::Read(1), &stream);
    assert_eq!(run.session.phase(), Phase::Idle);
    assert!(matches!(
        run.end,
        Action::Fail(Error::Protocol(ResponseCode::AntennaMissingError))
    ));
}

#[test]
fn truncated_summary_is_a_program_error() {
    let stream = framed(0x89, &[0x01, 0x00, 0x64]);
    let run = run(awaiting_frame(Exchange::Inventory), Action::Read(1), &stream);
    assert!(matches!(run.end, Action::Fail(Error::Program(ProgramError::Bitfield))));
}

#[test]
fn frames_of_other_commands_are_dropped() {
    let mut stream = framed(0x74, &[0x10]);
    stream.extend_from_slice(&framed(0x89, &[0x01, 0x02, 0x03, 0x04, 0x05, 0x06, 0x07, 0x08]));
    stream.extend_from_slice(&framed(0x72, &[0x03, 0x09]));
    let run = run(awaiting_frame(Exchange::Single), Action::Read(1), &stream);
    assert_eq!(run.consumed, stream.len());
    assert_eq!(run.dropped.len(), 2);
    assert_eq!(run.dropped[0].command, 0x74);
    assert_eq!(run.dropped[0].status, Some(ResponseCode::Success));
    assert_eq!(run.dropped[1].command, 0x89);
    match run.end {
        Action::Finish(Outcome::Response(response)) => assert_eq!(response.data, vec![3, 9]),
        other => panic!("{:?}", other),
    }
}

#[test]
fn failure_status_ends_a_plain_exchange() {
    let (session, action) =
        Session::new().start(&request::set_work_antenna(1, 9), Exchange::Single);
    let stream = framed(0x74, &[0x47]);
    let run = run(session, action, &stream);
    assert_eq!(run.session.phase(), Phase::Idle);
    assert!(matches!(
        run.end,
        Action::Fail(Error::Protocol(ResponseCode::InvalidAntennaIDError))
    ));
}

#[test]
fn corrupted_frame_ends_the_exchange() {
    let mut stream = framed(0x72, &[0x01, 0x02]);
    let last = stream.len() - 1;
    stream[last] ^= 0xFF;
    let run = run(awaiting_frame(Exchange::Single), Action::Read(1), &stream);
    assert_eq!(run.session.phase(), Phase::Idle);
    assert!(matches!(
        run.end,
        Action::Fail(Error::Program(ProgramError::BadChecksum { .. }))
    ));
}

#[test]
fn empty_frame_is_a_framing_error() {
    let run = run(awaiting_frame(Exchange::Single), Action::Read(1), &[0xA0, 0x00, 0x33]);
    assert_eq!(run.consumed, 2);
    assert!(matches!(run.end, Action::Fail(Error::Program(ProgramError::Framing))));
}

#[test]
fn short_read_of_the_body_is_a_framing_error() {
    let session = awaiting_frame(Exchange::Single);
    let (session, _) = session.step(Event::Bytes(vec![0xA0]));
    let (session, _) = session.step(Event::Bytes(vec![0x05]));
    let (session, action) = session.step(Event::Bytes(vec![0x01, 0x72, 0x01]));
    assert_eq!(session.phase(), Phase::Idle);
    assert!(matches!(action, Action::Fail(Error::Program(ProgramError::Framing))));
}

#[test]
fn transport_failure_ends_the_exchange() {
    let stream = [0x00, 0xA0, 0x05, 0x01];
    let run = run(awaiting_frame(Exchange::Inventory), Action::Read(1), &stream);
    assert_eq!(run.session.phase(), Phase::Idle);
    match run.end {
        Action::Fail(Error::Io(error)) => {
            assert_eq!(error.kind(), std::io::ErrorKind::TimedOut)
        }
        other => panic!("{:?}", other),
    }
    let (session, action) = run.session.start(&request::get_version(1), Exchange::Single);
    let next = framed(0x72, &[0x04, 0x05]);
    let mut stream = vec![0x72, 0x01, 0x02, 0x17];
    stream.extend_from_slice(&next);
    let run = self::run(session, action, &stream);
    assert_eq!(run.consumed, stream.len());
    match run.end {
        Action::Finish(Outcome::Response(response)) => assert_eq!(response.data, vec![4, 5]),
        other => panic!("{:?}", other),
    }
}

#[test]
fn failure_while_sending_ends_the_exchange() {
    let (session, _) = Session::new().start(&request::reset(1), Exchange::Single);
    let (session, action) = session.step(Event::Failed(timed_out()));
    assert_eq!(session.phase(), Phase::Idle);
    assert!(matches!(action, Action::Fail(Error::Io(_))));
}

#[test]
fn events_out_of_turn_are_refused() {
    let (session, action) = Session::new().step(Event::Written);
    assert_eq!(session.phase(), Phase::Idle);
    assert!(matches!(action, Action::Fail(Error::Program(ProgramError::UnexpectedEvent))));
    let (_, action) = Session::new().step(Event::Bytes(vec![0xA0]));
    assert!(matches!(action, Action::Fail(Error::Program(ProgramError::UnexpectedEvent))));
    let (session, _) = Session::new().start(&request::reset(1), Exchange::Single);
    let (_, action) = session.step(Event::Bytes(vec![0xA0]));
    assert!(matches!(action, Action::Fail(Error::Program(ProgramError::UnexpectedEvent))));
    let (_, action) = awaiting_frame(Exchange::Single).step(Event::Written);
    assert!(matches!(action, Action::Fail(Error::Program(ProgramError::UnexpectedEvent))));
    let (_, action) = awaiting_frame(Exchange::Single).step(Event::Bytes(vec![0xA0, 0x05]));
    assert!(matches!(action, Action::Fail(Error::Program(ProgramError::UnexpectedEvent))));
    let (_, action) = awaiting_frame(Exchange::Single).step(Event::Bytes(vec![]));
    assert!(matches!(action, Action::Fail(Error::Program(ProgramError::UnexpectedEvent))));
}

#[test]
fn read_ends_with_the_announced_number_of_replies() {
    let mut stream = framed(0x81, &[0x10, 0x02, 0xAA, 0xBB]);
    stream.extend_from_slice(&framed(0x81, &[0x10, 0x07, 0xCC]));
    stream.extend_from_slice(&framed(0x81, &[0x10, 0x02, 0xDD]));
    let (session, action) = Session::new()
        .start(&request::read(1, MemoryBank::TID, &[0, 0, 0, 0], 0, 4), Exchange::Read);
    let run = run(session, action, &stream);
    assert_eq!(run.written, vec![vec![0xA0, 0x0A, 0x01, 0x81, 0x02, 0x00, 0x04, 0, 0, 0, 0, 0xCE]]);
    assert_eq!(run.consumed, stream.len() - 8);
    match run.end {
        Action::Finish(Outcome::Read(results)) => {
            assert_eq!(
                results,
                vec![ReadResult { data: vec![0xAA, 0xBB] }, ReadResult { data: vec![0xCC] }]
            );
        }
        other => panic!("{:?}", other),
    }
}

#[test]
fn read_without_tags() {
    let stream = framed(0x81, &[0x36]);
    let run = run(awaiting_frame(Exchange::Read), Action::Read(1), &stream);
    assert_eq!(run.session.phase(), Phase::Idle);
    match run.end {
        Action::Finish(Outcome::Read(results)) => assert!(results.is_empty()),
        other => panic!("{:?}", other),
    }
}

#[test]
fn no_tag_status_ends_a_read_without_replies() {
    let mut stream = framed(0x81, &[0x10, 0x03, 0xAA]);
    stream.extend_from_slice(&framed(0x81, &[0x36]));
    stream.extend_from_slice(&framed(0x81, &[0x10, 0x03, 0xBB]));
    let run = run(awaiting_frame(Exchange::Read), Action::Read(1), &stream);
    assert_eq!(run.consumed, 14);
    assert_eq!(run.session.phase(), Phase::Idle);
    match run.end {
        Action::Finish(Outcome::Read(results)) => assert!(results.is_empty()),
        other => panic!("{:?}", other),
    }
}

#[test]
fn read_fails_on_another_failure_status() {
    let stream = framed(0x81, &[0x40]);
    let run = run(awaiting_frame(Exchange::Read), Action::Read(1), &stream);
    assert!(matches!(run.end, Action::Fail(Error::Protocol(ResponseCode::AccessFailError))));
    let stream = framed(0x81, &[0x10]);
    let run = self::run(awaiting_frame(Exchange::Read), Action::Read(1), &stream);
    assert!(matches!(run.end, Action::Fail(Error::Program(ProgramError::Bitfield))));
}

#[test]
fn no_tag_status_fails_a_plain_exchange() {
    let (session, action) =
        Session::new().start(&request::set_epc_match(1, &[]), Exchange::Single);
    let stream = framed(0x85, &[0x36]);
    let run = run(session, action, &stream);
    assert!(matches!(run.end, Action::Fail(Error::Protocol(ResponseCode::NoTagError))));
}

#[test]
fn deliver_takes_a_whole_frame() {
    let session = awaiting_frame(Exchange::Single);
    let (session, action) = session.deliver(framed(0x72, &[0x01, 0x02]));
    assert_eq!(session.phase(), Phase::Idle);
    assert!(matches!(action, Action::Finish(Outcome::Response(_))));
    let session = awaiting_frame(Exchange::Single);
    let (session, action) = session.deliver(framed(0x74, &[0x10]));
    assert_eq!(session.phase(), Phase::AwaitingStart);
    assert!(matches!(action, Action::Read(1)));
    assert_eq!(session.discarded().as_ref().unwrap().command, 0x74);
    let (session, _) = session.step(Event::Bytes(vec![0x00]));
    assert_eq!(*session.discarded(), None);
}

#[test]
fn replay_finds_the_frame_behind_garbage() {
    let frame = framed(0x72, &[0x01, 0x02]);
    let mut stream: Vec<u8> = vec![0x00, 0x72, 0x05, 0xFF, 0x0A];
    stream.extend_from_slice(&frame);
    stream.extend_from_slice(&[0xA0, 0x03]);
    let (session, action, taken) =
        awaiting_frame(Exchange::Single).replay(Action::Read(1), &stream);
    assert_eq!(taken, 5 + frame.len());
    assert_eq!(session.phase(), Phase::Idle);
    match action {
        Action::Finish(Outcome::Response(response)) => {
            assert_eq!(
                response,
                Response { address: 1, command: 0x72, status: None, data: vec![1, 2] }
            );
        }
        other => panic!("{:?}", other),
    }
}

#[test]
fn replay_stops_where_the_stream_runs_dry() {
    let stream = [0x11, 0xA0, 0x05, 0x01, 0x72];
    let (session, action, taken) =
        awaiting_frame(Exchange::Single).replay(Action::Read(1), &stream);
    assert_eq!(taken, 3);
    assert_eq!(session.phase(), Phase::AwaitingBody { length: 5 });
    assert!(matches!(action, Action::Read(5)));
    let (session, action, taken) = awaiting_frame(Exchange::Single).replay(Action::Read(1), &[]);
    assert_eq!(taken, 0);
    assert_eq!(session.phase(), Phase::AwaitingStart);
    assert!(matches!(action, Action::Read(1)));
}

#[test]
fn replay_leaves_other_actions_alone() {
    let (session, action) = Session::new().start(&request::reset(1), Exchange::Single);
    let (session, action, taken) = session.replay(action, &[0xA0, 0x04]);
    assert_eq!(taken, 0);
    assert_eq!(session.phase(), Phase::Sending);
    assert!(matches!(action, Action::Write(_)));
}

#[test]
fn replay_of_an_inventory() {
    let mut stream = framed(0x89, &tag_payload(0x15, &[1, 2, 3, 4, 5, 6, 7, 8], 90));
    stream.extend_from_slice(&framed(0x74, &[0x10]));
    stream.extend_from_slice(&framed(0x89, &tag_payload(0x04, &[9, 9, 9, 9], 100)));
    stream.extend_from_slice(&framed(0x89, &[0x03, 0x00, 0x02, 0x00, 0x01, 0x00, 0x00]));
    stream.push(0xA0);
    let (session, action, taken) =
        awaiting_frame(Exchange::Inventory).replay(Action::Read(1), &stream);
    assert_eq!(taken, stream.len() - 1);
    assert_eq!(session.phase(), Phase::Idle);
    match action {
        Action::Finish(Outcome::Inventory(result)) => {
            assert_eq!(result.items.len(), 2);
            assert_eq!(result.items[0].epc, vec![1, 2, 3, 4, 5, 6, 7, 8]);
            assert_eq!(result.items[0].frequency, 867_500_000);
            assert_eq!(result.items[1].epc, vec![9, 9, 9, 9]);
            assert_eq!(result.items[1].frequency, 865_500_000);
            assert_eq!(result.items[1].rssi, -29);
            assert_eq!(result.antenna, 3);
            assert_eq!(result.read_rate, 2);
            assert_eq!(result.total_read, 65536);
        }
        other => panic!("{:?}", other),
    }
}
