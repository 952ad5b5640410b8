use razer_poll::error::Error;
use razer_poll::exchange::{
    check_response, frame_report, receive_reply, reply_buffer, Action, Event, Failure, Phase,
    HIDAPI_REPORT_LEN,
};
use razer_poll::profile::device_profile;
use razer_poll::report::{build_get_dpi_report, REPORT_PAYLOAD_LEN};

type Report = [u8; REPORT_PAYLOAD_LEN];

fn request() -> Report {
    build_get_dpi_report(device_profile(0x0084).unwrap())
}

fn reply(status: u8) -> Report {
    let mut report = request();
    report[0] = status;
    report[9] = 0x06;
    report
}

fn with_id(report: &Report) -> [u8; HIDAPI_REPORT_LEN] {
    let mut buffer = [0u8; HIDAPI_REPORT_LEN];
    buffer[1..].copy_from_slice(report);
    buffer
}

fn without_id(report: &Report) -> [u8; HIDAPI_REPORT_LEN] {
    let mut buffer = [0u8; HIDAPI_REPORT_LEN];
    buffer[..REPORT_PAYLOAD_LEN].copy_from_slice(report);
    buffer
}

#[test]
fn report_id_stands_in_front() {
    let payload = request();
    let feature = frame_report(&payload);
    assert_eq!(feature[0], 0);
    assert_eq!(&feature[1..], &payload[..]);
}

#[test]
fn replies_are_read_into_zeros() {
    assert_eq!(reply_buffer(), [0u8; 91]);
}

#[test]
fn report_id_may_be_kept_or_left_out() {
    for status in [0x01, 0x02] {
        let report = reply(status);
        assert_eq!(
            check_response(&request(), &with_id(&report), 91),
            Ok(report)
        );
        assert_eq!(
            check_response(&request(), &without_id(&report), 90),
            Ok(report)
        );
        assert_eq!(
            check_response(&request(), &with_id(&report), usize::MAX),
            Ok(report)
        );
    }
}

#[test]
fn short_replies_are_refused() {
    let buffer = without_id(&reply(0x02));
    for read in 0..9 {
        assert_eq!(
            check_response(&request(), &buffer, read),
            Err(Error::ShortResponse { read })
        );
    }
}

#[test]
fn partial_replies_are_filled_with_zeros() {
    let buffer = without_id(&reply(0x02));
    let mut expected = reply(0x02);
    expected[9..].fill(0);
    assert_eq!(check_response(&request(), &buffer, 9), Ok(expected));
    expected[9] = 0x06;
    assert_eq!(check_response(&request(), &buffer, 10), Ok(expected));
}

#[test]
fn replies_to_other_commands_are_refused() {
    for at in [6, 7] {
        let mut report = reply(0x02);
        report[at] ^= 0x10;
        assert_eq!(
            check_response(&request(), &with_id(&report), 91),
            Err(Error::UnexpectedResponse {
                status: 0x02,
                class: report[6],
                command: report[7]
            })
        );
    }
}

#[test]
fn only_success_and_busy_count() {
    for status in 0..=u8::MAX {
        let report = reply(status);
        let expected = match status {
            0x01 | 0x02 => Ok(report),
            _ => Err(Error::CommandFailed { status }),
        };
        assert_eq!(check_response(&request(), &with_id(&report), 91), expected);
    }
}

#[test]
fn replies_and_errors_of_the_hid_layer() {
    let report = reply(0x02);
    assert_eq!(
        receive_reply::<u8>(&request(), &with_id(&report), Ok(91)),
        Ok(report)
    );
    assert_eq!(
        receive_reply::<u8>(&request(), &with_id(&report), Ok(3)),
        Err(Failure::Response(Error::ShortResponse { read: 3 }))
    );
    assert_eq!(
        receive_reply(&request(), &with_id(&report), Err(7u8)),
        Err(Failure::Receive(7u8))
    );
}

/// Runs an exchange whose attempts come out as given, and tells the result and
/// the actions taken.
fn run(
    mut attempts: Vec<Result<Result<u8, Failure<u8>>, u8>>,
) -> (Result<u8, Failure<u8>>, Vec<Action>) {
    attempts.reverse();
    let mut phase: Phase<u8, u8> = Phase::start();
    let mut actions = Vec::new();
    loop {
        let action = phase.action(&request());
        let event = match &action {
            Action::Send { .. } => match attempts.last() {
                Some(Err(error)) => {
                    let error = *error;
                    attempts.pop();
                    Event::Sent(Err(error))
                }
                Some(Ok(_)) => Event::Sent(Ok(())),
                None => panic!("too many attempts"),
            },
            Action::Pause { .. } => Event::Paused,
            Action::Receive { .. } => Event::Received(attempts.pop().unwrap().unwrap()),
            Action::Stop => {
                actions.push(action);
                break;
            }
        };
        actions.push(action);
        phase = phase.advance(event);
    }
    match phase {
        Phase::Finished(result) => (result, actions),
        other => panic!("stopped in {other:?}"),
    }
}

fn send() -> Action {
    Action::Send {
        feature: with_id(&request()),
    }
}

fn receive() -> Action {
    Action::Receive {
        buffer: [0u8; HIDAPI_REPORT_LEN],
    }
}

const REPLY_PAUSE: Action = Action::Pause { millis: 50 };
const RETRY_PAUSE: Action = Action::Pause { millis: 10 };

#[test]
fn first_reply_ends_the_exchange() {
    let (result, actions) = run(vec![Ok(Ok(42))]);
    assert_eq!(result, Ok(42));
    assert_eq!(
        actions,
        vec![send(), REPLY_PAUSE, receive(), Action::Stop]
    );
}

#[test]
fn failed_attempts_are_retried() {
    let (result, actions) = run(vec![
        Err(1),
        Ok(Err(Failure::Receive(2))),
        Ok(Err(Failure::Response(Error::CommandFailed { status: 3 }))),
        Err(4),
        Ok(Ok(5)),
    ]);
    assert_eq!(result, Ok(5));
    assert_eq!(
        actions,
        vec![
            send(),
            RETRY_PAUSE,
            send(),
            REPLY_PAUSE,
            receive(),
            RETRY_PAUSE,
            send(),
            REPLY_PAUSE,
            receive(),
            RETRY_PAUSE,
            send(),
            RETRY_PAUSE,
            send(),
            REPLY_PAUSE,
            receive(),
            Action::Stop,
        ]
    );
}

#[test]
fn fifth_failure_is_final() {
    let (result, actions) = run(vec![Err(1), Err(2), Err(3), Err(4), Err(5)]);
    assert_eq!(result, Err(Failure::Send(5)));
    assert_eq!(actions.len(), 11);
    assert_eq!(actions[9], RETRY_PAUSE);

    let (result, _) = run(vec![Err(1), Err(2), Err(3), Err(4), Ok(Err(Failure::Receive(9)))]);
    assert_eq!(result, Err(Failure::Receive(9)));
}

#[test]
fn exchange_ends_within_twenty_one_steps() {
    let failure = || Ok(Err(Failure::Receive(0)));
    let (_, actions) = run(vec![failure(), failure(), failure(), failure(), failure()]);
    assert_eq!(actions.len(), 21);
}

#[test]
fn unexpected_events_change_nothing() {
    let phase: Phase<u8, u8> = Phase::start();
    let phase = phase.advance(Event::Paused).advance(Event::Received(Ok(1)));
    assert_eq!(phase, Phase::Sending { failures: 0 });
    let phase = phase.advance(Event::Sent(Ok(()))).advance(Event::Sent(Err(2)));
    assert_eq!(phase, Phase::Waiting { failures: 0 });
    let phase = phase.advance(Event::Paused).advance(Event::Received(Ok(3)));
    assert_eq!(phase.advance(Event::Paused), Phase::Finished(Ok(3)));
}

#[test]
fn command_gets_its_own_reply() {
    let payload = request();
    let mut other = reply(0x02);
    other[7] ^= 0x80;
    let answers = [other, reply(0x03), reply(0x01)];
    let mut next = 0;
    let mut phase: Phase<Report, u8> = Phase::start();
    loop {
        let event = match phase.action(&payload) {
            Action::Send { .. } => Event::Sent(Ok(())),
            Action::Pause { .. } => Event::Paused,
            Action::Receive { mut buffer } => {
                buffer[1..].copy_from_slice(&answers[next]);
                next += 1;
                Event::Received(receive_reply(&payload, &buffer, Ok(buffer.len())))
            }
            Action::Stop => break,
        };
        phase = phase.advance(event);
    }
    assert_eq!(phase, Phase::Finished(Ok(reply(0x01))));
    assert_eq!(next, 3);
}
