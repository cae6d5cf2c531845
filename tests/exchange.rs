use ledger_client::{
    decode_confirmation, decode_data, Action, Event, Exchange, Outcome, Phase, Reply,
};

fn run(await_data: bool, events: Vec<Event>) -> Vec<Action> {
    let mut ex = Exchange::new(await_data);
    events.iter().map(|e| ex.step(e)).collect()
}

#[test]
fn ok_with_data_gives_the_answer() {
    let acts = run(
        true,
        vec![
            Event::Connected,
            Event::Sent,
            Event::Received(b"OK ".to_vec()),
            Event::Received(vec![0, 0, 0, 0, 0, 0, 0x03, 0xE8]),
        ],
    );
    assert_eq!(
        acts,
        vec![Action::Write, Action::Read(3), Action::Read(8), Action::Finish(Outcome::Answer(1000))]
    );
}

#[test]
fn decode_answer_bytes() {
    assert_eq!(decode_data(&[0, 0, 0, 0, 0, 0, 0x03, 0xE8]), Outcome::Answer(1000));
    assert_eq!(decode_data(&[0xFF; 8]), Outcome::Answer(-1));
}

#[test]
fn ok_without_data_is_confirmed() {
    assert_eq!(decode_confirmation(b"OK ", false), Reply::Final(Outcome::Confirmed));
    assert_eq!(decode_confirmation(b"OK ", true), Reply::NeedData);
    let acts = run(false, vec![Event::Connected, Event::Sent, Event::Received(b"OK ".to_vec())]);
    assert_eq!(acts, vec![Action::Write, Action::Read(3), Action::Finish(Outcome::Confirmed)]);
}

#[test]
fn unregistered_user_regardless_of_flag() {
    assert_eq!(decode_confirmation(b"E02", true), Reply::Final(Outcome::UnregisteredUser));
    assert_eq!(decode_confirmation(b"E02", false), Reply::Final(Outcome::UnregisteredUser));
}

#[test]
fn named_error_codes() {
    assert_eq!(decode_confirmation(b"E00", false), Reply::Final(Outcome::BadSend));
    assert_eq!(decode_confirmation(b"E01", true), Reply::Final(Outcome::BadTimestamp));
    assert_eq!(decode_confirmation(b"E03", false), Reply::Final(Outcome::BadSignature));
    assert_eq!(decode_confirmation(b"E05", true), Reply::Final(Outcome::UnknownRecipient));
}

#[test]
fn unrecognized_code_passes_through() {
    assert_eq!(
        decode_confirmation(b"XYZ", true),
        Reply::Final(Outcome::Unexpected(b'X', b'Y', b'Z'))
    );
    assert_eq!(
        decode_confirmation(b"E04", false),
        Reply::Final(Outcome::Unexpected(b'E', b'0', b'4'))
    );
    assert_eq!(
        decode_confirmation(b"ok ", false),
        Reply::Final(Outcome::Unexpected(b'o', b'k', b' '))
    );
}

#[test]
fn connect_failure_never_writes() {
    let acts = run(
        true,
        vec![Event::ConnectFailed, Event::Connected, Event::Sent, Event::Received(b"OK ".to_vec())],
    );
    assert_eq!(acts[0], Action::Finish(Outcome::ConnectFailed));
    assert_ne!(acts[0], Action::Finish(Outcome::NoConfirmation));
    assert!(acts.iter().all(|a| *a != Action::Write));
}

#[test]
fn send_failure_expects_no_reply() {
    let mut ex = Exchange::new(false);
    assert_eq!(ex.step(&Event::Connected), Action::Write);
    assert_eq!(ex.step(&Event::SendFailed), Action::Finish(Outcome::SendFailed));
    assert_eq!(ex.phase(), Phase::Finished);
}

#[test]
fn short_confirmation_is_reported() {
    let acts = run(false, vec![Event::Connected, Event::Sent, Event::ReceiveFailed]);
    assert_eq!(acts[2], Action::Finish(Outcome::NoConfirmation));
    let acts = run(false, vec![Event::Connected, Event::Sent, Event::Received(b"OK".to_vec())]);
    assert_eq!(acts[2], Action::Finish(Outcome::NoConfirmation));
}

#[test]
fn missing_data_is_reported() {
    let acts = run(
        true,
        vec![Event::Connected, Event::Sent, Event::Received(b"OK ".to_vec()), Event::ReceiveFailed],
    );
    assert_eq!(acts[3], Action::Finish(Outcome::NoData));
    let acts = run(
        true,
        vec![Event::Connected, Event::Sent, Event::Received(b"OK ".to_vec()), Event::Received(vec![1, 2])],
    );
    assert_eq!(acts[3], Action::Finish(Outcome::NoData));
}

#[test]
fn events_out_of_order() {
    let mut ex = Exchange::new(false);
    assert_eq!(ex.phase(), Phase::Connecting);
    assert_eq!(ex.step(&Event::Sent), Action::Finish(Outcome::OutOfOrder));
    assert_eq!(ex.phase(), Phase::Finished);
}
