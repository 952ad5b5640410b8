//! One command and its reply: how a report is framed for the HID layer, when a
//! reply counts, and when a command is tried again.
use crate::error::Error;
use crate::report::REPORT_PAYLOAD_LEN;
use vstd::prelude::*;

verus! {

/// The length of a feature report with the report ID in front of it.
pub const HIDAPI_REPORT_LEN: usize = REPORT_PAYLOAD_LEN + 1;

/// How often a command is sent before its last error is final.
pub const MAX_ATTEMPTS: u8 = 5;

/// The pause between a command and the reading of its reply.
pub const REPLY_PAUSE_MILLIS: u64 = 50;

/// The pause after an attempt that failed.
pub const RETRY_PAUSE_MILLIS: u64 = 10;

/// Puts the report ID, which is 0, in front of a report.
pub fn frame_report(payload: &[u8; REPORT_PAYLOAD_LEN]) -> (feature: [u8; HIDAPI_REPORT_LEN])
    ensures
        feature@ == seq![0u8] + payload@,
{
    let mut feature: [u8; HIDAPI_REPORT_LEN] = [0u8; HIDAPI_REPORT_LEN];
    let mut i: usize = 0;
    while i < REPORT_PAYLOAD_LEN
        invariant
            i <= 90,
            feature@.len() == 91,
            feature@[0] == 0,
            forall|j: int| 0 <= j < i ==> feature@[j + 1] == payload@[j],
        decreases 90 - i,
    {
        feature[i + 1] = payload[i];
        i = i + 1;
    }
    assert(feature@ =~= seq![0u8] + payload@);
    feature
}

/// The buffer that a reply is read into: all zeros, of which the first asks for
/// the report with the ID 0.
pub fn reply_buffer() -> (buffer: [u8; HIDAPI_REPORT_LEN])
    ensures
        buffer@ == Seq::new(91, |i: int| 0u8),
{
    let buffer: [u8; HIDAPI_REPORT_LEN] = [0u8; HIDAPI_REPORT_LEN];
    assert(buffer@ =~= Seq::new(91, |i: int| 0u8));
    buffer
}

/// Where the reply starts in the buffer. A full buffer starts with the report
/// ID; in a shorter reading the report ID is left out.
pub open spec fn reply_offset(read: usize) -> int {
    if read >= HIDAPI_REPORT_LEN {
        1
    } else {
        0
    }
}

/// How many bytes of the reply were read.
pub open spec fn reply_len(read: usize) -> int {
    read - reply_offset(read)
}

/// The reply as a report: the bytes that were read, then zeros.
pub open spec fn reply_report(buffer: Seq<u8>, read: usize) -> Seq<u8> {
    Seq::new(
        90,
        |i: int|
            if i < reply_len(read) {
                buffer[reply_offset(read) + i]
            } else {
                0
            },
    )
}

/// What a report says as the reply to a command: `None` where it reports
/// success. A busy mouse counts as one that has carried out the command.
pub open spec fn reply_error(payload: Seq<u8>, report: Seq<u8>) -> Option<Error> {
    if report[6] != payload[6] || report[7] != payload[7] {
        Some(
            Error::UnexpectedResponse { status: report[0], class: report[6], command: report[7] },
        )
    } else if report[0] != 0x02 && report[0] != 0x01 {
        Some(Error::CommandFailed { status: report[0] })
    } else {
        None
    }
}

/// The reply to a command, out of a buffer and the number of bytes that were
/// read into it.
pub open spec fn reply_to(payload: Seq<u8>, buffer: Seq<u8>, read: usize) -> Result<
    Seq<u8>,
    Error,
> {
    let report = reply_report(buffer, read);
    if reply_len(read) < 9 {
        Err(Error::ShortResponse { read })
    } else {
        match reply_error(payload, report) {
            Some(error) => Err(error),
            None => Ok(report),
        }
    }
}

/// Takes the reply to a command out of a buffer and the number of bytes that
/// were read into it.
pub fn check_response(
    payload: &[u8; REPORT_PAYLOAD_LEN],
    buffer: &[u8; HIDAPI_REPORT_LEN],
    read: usize,
) -> (reply: Result<[u8; REPORT_PAYLOAD_LEN], Error>)
    ensures
        match reply_to(payload@, buffer@, read) {
            Ok(bytes) => reply matches Ok(report) && report@ == bytes,
            Err(error) => reply matches Err(given) && given == error,
        },
{
    let offset: usize = if read >= HIDAPI_REPORT_LEN {
        1
    } else {
        0
    };
    let response_len: usize = read - offset;
    if response_len < 9 {
        return Err(Error::ShortResponse { read });
    }
    let copy_len: usize = if response_len < REPORT_PAYLOAD_LEN {
        response_len
    } else {
        REPORT_PAYLOAD_LEN
    };
    let mut report: [u8; REPORT_PAYLOAD_LEN] = [0u8; REPORT_PAYLOAD_LEN];
    let mut i: usize = 0;
    while i < copy_len
        invariant
            i <= copy_len <= 90,
            offset + copy_len <= 91,
            report@.len() == 90,
            forall|j: int| 0 <= j < i ==> report@[j] == buffer@[offset + j],
            forall|j: int| i <= j < 90 ==> report@[j] == 0,
        decreases copy_len - i,
    {
        report[i] = buffer[offset + i];
        i = i + 1;
    }
    assert(report@ =~= reply_report(buffer@, read));
    let status: u8 = report[0];
    let class: u8 = report[6];
    let command: u8 = report[7];
    if class != payload[6] || command != payload[7] {
        return Err(Error::UnexpectedResponse { status, class, command });
    }
    if status != 0x02 && status != 0x01 {
        return Err(Error::CommandFailed { status });
    }
    Ok(report)
}

/// Why an attempt at a command failed. `T` is the error of the HID layer.
#[derive(Debug, PartialEq, Eq)]
pub enum Failure<T> {
    /// The report could not be sent.
    Send(T),
    /// The reply could not be read.
    Receive(T),
    /// The reply was read and does not count.
    Response(Error),
}

impl<T> Failure<T> {
    /// The message for a person, without what the HID layer says.
    pub open spec fn text(self) -> Seq<char> {
        match self {
            Failure::Send(_) =>
                "SET_REPORT failed; check hidraw permissions and stop OpenRazer first"@,
            Failure::Receive(_) => "GET_REPORT failed"@,
            Failure::Response(error) => error.text(),
        }
    }

    /// The message for a person, without what the HID layer says.
    pub fn message(&self) -> (message: String)
        ensures
            message@ == self.text(),
    {
        match self {
            Failure::Send(_) => String::from_str(
                "SET_REPORT failed; check hidraw permissions and stop OpenRazer first",
            ),
            Failure::Receive(_) => String::from_str("GET_REPORT failed"),
            Failure::Response(error) => error.message(),
        }
    }
}

/// Whether that is what a reading comes to, as the reply to a command. The
/// reading gave a buffer and the number of bytes that were read into it, or an
/// error of the HID layer.
pub open spec fn is_received<T>(
    payload: Seq<u8>,
    buffer: Seq<u8>,
    read: Result<usize, T>,
    reply: Result<[u8; REPORT_PAYLOAD_LEN], Failure<T>>,
) -> bool {
    match read {
        Err(error) => reply == Err::<[u8; REPORT_PAYLOAD_LEN], Failure<T>>(Failure::Receive(error)),
        Ok(len) => match reply_to(payload, buffer, len) {
            Ok(bytes) => reply matches Ok(report) && report@ == bytes,
            Err(error) => reply == Err::<[u8; REPORT_PAYLOAD_LEN], Failure<T>>(
                Failure::Response(error),
            ),
        },
    }
}

/// Takes the reply to a command out of what the HID layer gave: a buffer and
/// the number of bytes that were read into it, or its error.
pub fn receive_reply<T>(
    payload: &[u8; REPORT_PAYLOAD_LEN],
    buffer: &[u8; HIDAPI_REPORT_LEN],
    read: Result<usize, T>,
) -> (reply: Result<[u8; REPORT_PAYLOAD_LEN], Failure<T>>)
    ensures
        is_received(payload@, buffer@, read, reply),
        match read {
            Err(error) => reply matches Err(Failure::Receive(given)) && given == error,
            Ok(len) => match reply_to(payload@, buffer@, len) {
                Ok(bytes) => reply matches Ok(report) && report@ == bytes,
                Err(error) => reply matches Err(Failure::Response(given)) && given == error,
            },
        },
{
    match read {
        Err(error) => Err(Failure::Receive(error)),
        Ok(len) => match check_response(payload, buffer, len) {
            Ok(report) => Ok(report),
            Err(error) => Err(Failure::Response(error)),
        },
    }
}

/// How far the exchange of a command and its reply has come. `R` is the reply
/// and `T` the error of the HID layer; `failures` counts the attempts that
/// failed.
#[derive(Debug, PartialEq, Eq)]
pub enum Phase<R, T> {
    /// The report is to be sent.
    Sending { failures: u8 },
    /// The report is sent, and the mouse gets time to answer.
    Waiting { failures: u8 },
    /// The reply is to be read.
    Receiving { failures: u8 },
    /// An attempt failed, and the mouse gets time to recover.
    Recovering { failures: u8, failure: Failure<T> },
    /// The exchange is over.
    Finished(Result<R, Failure<T>>),
}

/// What the exchange needs next.
#[derive(Debug, PartialEq, Eq)]
pub enum Action {
    /// Send these bytes once.
    Send { feature: [u8; HIDAPI_REPORT_LEN] },
    /// Let that time pass.
    Pause { millis: u64 },
    /// Read the reply once, into this buffer.
    Receive { buffer: [u8; HIDAPI_REPORT_LEN] },
    /// Nothing: the exchange is over.
    Stop,
}

/// An action by the bytes that it hands to the HID layer.
#[verifier::ext_equal]
pub enum ActionView {
    Send { feature: Seq<u8> },
    Pause { millis: u64 },
    Receive { buffer: Seq<u8> },
    Stop,
}

impl View for Action {
    type V = ActionView;

    open spec fn view(&self) -> ActionView {
        match *self {
            Action::Send { feature } => ActionView::Send { feature: feature@ },
            Action::Pause { millis } => ActionView::Pause { millis },
            Action::Receive { buffer } => ActionView::Receive { buffer: buffer@ },
            Action::Stop => ActionView::Stop,
        }
    }
}

/// What came of an action.
#[derive(Debug, PartialEq, Eq)]
pub enum Event<R, T> {
    /// The report was sent, or the HID layer refused it.
    Sent(Result<(), T>),
    /// The time has passed.
    Paused,
    /// A reply was received, or the attempt failed.
    Received(Result<R, Failure<T>>),
}

impl<R, T> Phase<R, T> {
    /// An attempt under way has fewer failures behind it than are allowed; a
    /// failed one is counted.
    pub open spec fn valid(self) -> bool {
        match self {
            Phase::Sending { failures } => failures < MAX_ATTEMPTS,
            Phase::Waiting { failures } => failures < MAX_ATTEMPTS,
            Phase::Receiving { failures } => failures < MAX_ATTEMPTS,
            Phase::Recovering { failures, .. } => 1 <= failures <= MAX_ATTEMPTS,
            Phase::Finished(_) => true,
        }
    }

    /// What the phase needs next, in the exchange of that report: a report is
    /// sent behind its ID, and a reply is read into zeros.
    pub open spec fn needs(self, payload: Seq<u8>) -> ActionView {
        match self {
            Phase::Sending { .. } => ActionView::Send { feature: seq![0u8] + payload },
            Phase::Waiting { .. } => ActionView::Pause { millis: REPLY_PAUSE_MILLIS },
            Phase::Receiving { .. } => ActionView::Receive { buffer: Seq::new(91, |i: int| 0u8) },
            Phase::Recovering { .. } => ActionView::Pause { millis: RETRY_PAUSE_MILLIS },
            Phase::Finished(_) => ActionView::Stop,
        }
    }

    /// Whether the event is one that can come of what the phase needs.
    pub open spec fn expects(self, event: Event<R, T>) -> bool {
        match self {
            Phase::Sending { .. } => event is Sent,
            Phase::Waiting { .. } => event is Paused,
            Phase::Receiving { .. } => event is Received,
            Phase::Recovering { .. } => event is Paused,
            Phase::Finished(_) => false,
        }
    }

    /// The phase after an event. One that the phase does not expect changes
    /// nothing.
    pub open spec fn after(self, event: Event<R, T>) -> Phase<R, T> {
        match (self, event) {
            (Phase::Sending { failures }, Event::Sent(Ok(_))) => Phase::Waiting { failures },
            (Phase::Sending { failures }, Event::Sent(Err(error))) => Phase::Recovering {
                failures: (failures + 1) as u8,
                failure: Failure::Send(error),
            },
            (Phase::Waiting { failures }, Event::Paused) => Phase::Receiving { failures },
            (Phase::Receiving { .. }, Event::Received(Ok(reply))) => Phase::Finished(Ok(reply)),
            (
                Phase::Receiving { failures },
                Event::Received(Err(failure)),
            ) => Phase::Recovering { failures: (failures + 1) as u8, failure },
            (
                Phase::Recovering { failures, failure },
                Event::Paused,
            ) => if failures == MAX_ATTEMPTS {
                Phase::Finished(Err(failure))
            } else {
                Phase::Sending { failures }
            },
            _ => self,
        }
    }

    /// The first phase of an exchange.
    pub fn start() -> (phase: Phase<R, T>)
        ensures
            phase == (Phase::<R, T>::Sending { failures: 0 }),
            phase.valid(),
    {
        Phase::Sending { failures: 0 }
    }

    /// What the phase needs next, in the exchange of that report.
    pub fn action(&self, payload: &[u8; REPORT_PAYLOAD_LEN]) -> (action: Action)
        ensures
            action@ == self.needs(payload@),
    {
        match self {
            Phase::Sending { .. } => Action::Send { feature: frame_report(payload) },
            Phase::Waiting { .. } => Action::Pause { millis: REPLY_PAUSE_MILLIS },
            Phase::Receiving { .. } => Action::Receive { buffer: reply_buffer() },
            Phase::Recovering { .. } => Action::Pause { millis: RETRY_PAUSE_MILLIS },
            Phase::Finished(_) => Action::Stop,
        }
    }

    /// Goes on to the next phase, given what came of the action that the phase
    /// needs. Any other event leaves the phase as it is.
    pub fn advance(self, event: Event<R, T>) -> (next: Phase<R, T>)
        requires
            self.valid(),
        ensures
            next == self.after(event),
            next.valid(),
            !self.expects(event) ==> next == self,
    {
        match (self, event) {
            (Phase::Sending { failures }, Event::Sent(Ok(_))) => Phase::Waiting { failures },
            (Phase::Sending { failures }, Event::Sent(Err(error))) => Phase::Recovering {
                failures: failures + 1,
                failure: Failure::Send(error),
            },
            (Phase::Waiting { failures }, Event::Paused) => Phase::Receiving { failures },
            (Phase::Receiving { .. }, Event::Received(Ok(reply))) => Phase::Finished(Ok(reply)),
            (
                Phase::Receiving { failures },
                Event::Received(Err(failure)),
            ) => Phase::Recovering { failures: failures + 1, failure },
            (
                Phase::Recovering { failures, failure },
                Event::Paused,
            ) => if failures == MAX_ATTEMPTS {
                Phase::Finished(Err(failure))
            } else {
                Phase::Sending { failures }
            },
            (phase, _) => phase,
        }
    }
}

/// Whether a report is one that counts as the reply to a command: it is for
/// that command, and its status is success or busy.
pub open spec fn is_accepted(payload: Seq<u8>, report: Seq<u8>) -> bool {
    &&& report.len() == 90
    &&& report[6] == payload[6]
    &&& report[7] == payload[7]
    &&& report[0] == 0x01 || report[0] == 0x02
}

/// A reply that counts is for the command that was sent, and its status is
/// success or busy.
pub proof fn accepted_replies_match(payload: Seq<u8>, buffer: Seq<u8>, read: usize)
    requires
        reply_to(payload, buffer, read) is Ok,
    ensures
        is_accepted(payload, reply_to(payload, buffer, read)->Ok_0),
{
}

/// It makes no difference whether the HID layer keeps the report ID in front of
/// a whole reply or leaves it out.
pub proof fn report_id_is_optional(payload: Seq<u8>, kept: Seq<u8>, left_out: Seq<u8>)
    requires
        kept.len() == 91,
        left_out.len() == 91,
        kept.subrange(1, 91) == left_out.subrange(0, 90),
    ensures
        reply_to(payload, kept, 91) == reply_to(payload, left_out, 90),
        reply_report(kept, 91) == kept.subrange(1, 91),
{
    assert(reply_report(kept, 91) =~= kept.subrange(1, 91));
    assert(reply_report(left_out, 90) =~= left_out.subrange(0, 90));
}

/// A mouse that sends the report back as it was framed, but for a status of
/// success or busy, has replied to it, and the reply is that report.
pub proof fn echoed_command_is_accepted(payload: Seq<u8>, status: u8)
    requires
        payload.len() == 90,
        status == 0x01 || status == 0x02,
    ensures
        reply_to(payload, seq![0u8] + payload.update(0, status), 91) == Ok::<Seq<u8>, Error>(
            payload.update(0, status),
        ),
{
    let buffer = seq![0u8] + payload.update(0, status);
    assert(reply_report(buffer, 91) =~= payload.update(0, status));
}

/// How far a phase is from the end of the exchange, at most.
pub open spec fn steps_left<R, T>(phase: Phase<R, T>) -> int {
    match phase {
        Phase::Sending { failures } => 4 * (MAX_ATTEMPTS - failures) + 1,
        Phase::Waiting { failures } => 4 * (MAX_ATTEMPTS - failures),
        Phase::Receiving { failures } => 4 * (MAX_ATTEMPTS - failures) - 1,
        Phase::Recovering { failures, .. } => 4 * (MAX_ATTEMPTS - failures) + 2,
        Phase::Finished(_) => 0,
    }
}

/// Every exchange comes to an end: each event that it expects brings it closer.
pub proof fn exchange_ends<R, T>(phase: Phase<R, T>, event: Event<R, T>)
    requires
        phase.valid(),
        phase.expects(event),
    ensures
        0 <= steps_left(phase.after(event)) < steps_left(phase),
        steps_left(phase) == 0 <==> phase is Finished,
{
}

/// What comes of one attempt at a command.
pub enum Attempt<R, T> {
    /// The HID layer refused the report.
    Unsent(T),
    /// The report was sent; a reply was received, or the attempt failed.
    Answered(Result<R, Failure<T>>),
}

impl<R, T> Attempt<R, T> {
    /// The reply of the attempt, or why it failed.
    pub open spec fn outcome(self) -> Result<R, Failure<T>> {
        match self {
            Attempt::Unsent(error) => Err(Failure::Send(error)),
            Attempt::Answered(reply) => reply,
        }
    }
}

/// The phase after one whole attempt, the pauses in it included.
pub open spec fn after_attempt<R, T>(phase: Phase<R, T>, attempt: Attempt<R, T>) -> Phase<R, T> {
    match attempt {
        Attempt::Unsent(error) => phase.after(Event::Sent(Err(error))).after(Event::Paused),
        Attempt::Answered(reply) => {
            let answered = phase.after(Event::Sent(Ok(()))).after(Event::Paused).after(
                Event::Received(reply),
            );
            if reply is Ok {
                answered
            } else {
                answered.after(Event::Paused)
            }
        },
    }
}

/// What one whole attempt needs, from a phase that sends, in this order.
pub open spec fn attempt_needs<R, T>(
    phase: Phase<R, T>,
    attempt: Attempt<R, T>,
    payload: Seq<u8>,
) -> Seq<ActionView> {
    match attempt {
        Attempt::Unsent(error) => seq![
            phase.needs(payload),
            phase.after(Event::Sent(Err(error))).needs(payload),
        ],
        Attempt::Answered(reply) => {
            let sent = phase.after(Event::Sent(Ok(())));
            let waited = sent.after(Event::Paused);
            let answered = waited.after(Event::Received(reply));
            let taken = seq![phase.needs(payload), sent.needs(payload), waited.needs(payload)];
            if reply is Ok {
                taken
            } else {
                taken.push(answered.needs(payload))
            }
        },
    }
}

/// In one attempt the report is sent exactly once, behind its ID. The reply is
/// read exactly once, into 91 zero bytes, where the sending succeeded, and not
/// at all where it failed. An attempt that failed ends in a pause.
pub proof fn one_sending_and_one_reading<R, T>(
    failures: u8,
    attempt: Attempt<R, T>,
    payload: Seq<u8>,
)
    requires
        failures < 5,
    ensures
        ({
            let needs = attempt_needs(Phase::<R, T>::Sending { failures }, attempt, payload);
            let send = ActionView::Send { feature: seq![0u8] + payload };
            let receive = ActionView::Receive { buffer: Seq::new(91, |i: int| 0u8) };
            let reply_pause = ActionView::Pause { millis: 50 };
            let retry_pause = ActionView::Pause { millis: 10 };
            match attempt {
                Attempt::Unsent(_) => needs == seq![send, retry_pause],
                Attempt::Answered(Ok(_)) => needs == seq![send, reply_pause, receive],
                Attempt::Answered(Err(_)) => needs == seq![
                    send,
                    reply_pause,
                    receive,
                    retry_pause,
                ],
            }
        }),
{
}

/// The phase after one attempt upon another.
pub open spec fn after_attempts<R, T>(
    phase: Phase<R, T>,
    attempts: Seq<Attempt<R, T>>,
) -> Phase<R, T>
    decreases attempts.len(),
{
    if attempts.len() == 0 {
        phase
    } else {
        after_attempt(after_attempts(phase, attempts.drop_last()), attempts.last())
    }
}

/// As long as fewer than five attempts were made and all failed, the report is
/// sent once more.
pub proof fn failed_command_is_retried<R, T>(attempts: Seq<Attempt<R, T>>)
    requires
        attempts.len() < 5,
        forall|i: int| 0 <= i < attempts.len() ==> (#[trigger] attempts[i]).outcome() is Err,
    ensures
        after_attempts(Phase::<R, T>::Sending { failures: 0 }, attempts) == (Phase::<
            R,
            T,
        >::Sending { failures: attempts.len() as u8 }),
    decreases attempts.len(),
{
    if attempts.len() > 0 {
        failed_command_is_retried(attempts.drop_last());
        assert(attempts.last().outcome() is Err);
    }
}

/// The first attempt that brings a reply, among the first five, ends the
/// exchange with that reply.
pub proof fn first_reply_is_final<R, T>(attempts: Seq<Attempt<R, T>>, reply: R)
    requires
        1 <= attempts.len() <= 5,
        forall|i: int|
            0 <= i < attempts.len() - 1 ==> (#[trigger] attempts[i]).outcome() is Err,
        attempts.last().outcome() == Ok::<R, Failure<T>>(reply),
    ensures
        after_attempts(Phase::<R, T>::Sending { failures: 0 }, attempts) == Phase::<
            R,
            T,
        >::Finished(Ok(reply)),
{
    failed_command_is_retried(attempts.drop_last());
}

/// When five attempts fail, the exchange ends with the failure of the fifth.
pub proof fn last_failure_is_final<R, T>(attempts: Seq<Attempt<R, T>>)
    requires
        attempts.len() == 5,
        forall|i: int| 0 <= i < 5 ==> (#[trigger] attempts[i]).outcome() is Err,
    ensures
        after_attempts(Phase::<R, T>::Sending { failures: 0 }, attempts) == Phase::<
            R,
            T,
        >::Finished(Err(attempts[4].outcome()->Err_0)),
{
    failed_command_is_retried(attempts.drop_last());
    assert(attempts[4].outcome() is Err);
}

/// Whether a reply, or its failure, is what some reading comes to as the reply
/// to that command.
pub open spec fn is_judged<T>(
    payload: Seq<u8>,
    reply: Result<[u8; REPORT_PAYLOAD_LEN], Failure<T>>,
) -> bool {
    exists|buffer: Seq<u8>, read: Result<usize, T>| is_received(payload, buffer, read, reply)
}

/// Whether an exchange that is over with a reply has one that counts as the
/// reply to that command.
pub open spec fn returns_only_replies_to<T>(
    payload: Seq<u8>,
    phase: Phase<[u8; REPORT_PAYLOAD_LEN], T>,
) -> bool {
    phase matches Phase::Finished(Ok(report)) ==> is_accepted(payload, report@)
}

/// Whatever happens in an exchange, it comes to no reply but one to its own
/// command: it starts so, and every event leaves it so, as long as the replies
/// are judged for that command.
pub proof fn only_replies_to_the_command<T>(
    payload: Seq<u8>,
    phase: Phase<[u8; REPORT_PAYLOAD_LEN], T>,
    event: Event<[u8; REPORT_PAYLOAD_LEN], T>,
)
    requires
        event matches Event::Received(reply) ==> is_judged(payload, reply),
    ensures
        returns_only_replies_to(
            payload,
            Phase::<[u8; REPORT_PAYLOAD_LEN], T>::Sending { failures: 0 },
        ),
        returns_only_replies_to(payload, phase) ==> returns_only_replies_to(
            payload,
            phase.after(event),
        ),
{
}

/// A command whose exchange is over with a report got the reply to that
/// command, with a status of success or busy, however many attempts it took.
pub proof fn command_gets_its_own_reply<T>(
    payload: Seq<u8>,
    attempts: Seq<Attempt<[u8; REPORT_PAYLOAD_LEN], T>>,
)
    requires
        forall|i: int|
            0 <= i < attempts.len() ==> ((#[trigger] attempts[i]) matches Attempt::Answered(reply)
                ==> is_judged(payload, reply)),
    ensures
        returns_only_replies_to(
            payload,
            after_attempts(
                Phase::<[u8; REPORT_PAYLOAD_LEN], T>::Sending { failures: 0 },
                attempts,
            ),
        ),
    decreases attempts.len(),
{
    if attempts.len() > 0 {
        let earlier = attempts.drop_last();
        assert forall|i: int| 0 <= i < earlier.len() implies ((
        #[trigger] earlier[i]) matches Attempt::Answered(reply) ==> is_judged(payload, reply)) by {
            assert(earlier[i] == attempts[i]);
        }
        command_gets_its_own_reply(payload, earlier);
        let last = attempts[attempts.len() - 1];
        assert(last matches Attempt::Answered(reply) ==> is_judged(payload, reply));
    }
}

/// Where a reply starts in a buffer of 91 bytes: behind the report ID where the
/// buffer was filled, and at its first byte otherwise.
pub open spec fn first_byte(read: usize) -> int {
    if read >= 91 {
        1
    } else {
        0
    }
}

/// A reply counts exactly where at least nine bytes of it were read, it is of
/// the class and the command that were sent, and its status is success or busy.
/// Nothing else in it decides. What counts is handed on byte for byte, with
/// zeros for what was not read.
pub proof fn matching_replies_count(payload: Seq<u8>, buffer: Seq<u8>, read: usize)
    requires
        payload.len() == 90,
        buffer.len() == 91,
    ensures
        reply_to(payload, buffer, read) is Ok <==> {
            &&& read >= 9
            &&& buffer[first_byte(read) + 6] == payload[6]
            &&& buffer[first_byte(read) + 7] == payload[7]
            &&& buffer[first_byte(read)] == 0x01 || buffer[first_byte(read)] == 0x02
        },
        reply_to(payload, buffer, read) matches Ok(report) ==> {
            &&& report.len() == 90
            &&& forall|i: int|
                0 <= i < 90 ==> #[trigger] report[i] == if first_byte(read) + i < read {
                    buffer[first_byte(read) + i]
                } else {
                    0
                }
        },
{
}

/// A reply that does not count is refused for the first of these that holds:
/// it is too short, it is for another command, its status is neither success
/// nor busy. The refusal names the bytes that decided.
pub proof fn other_replies_are_refused(payload: Seq<u8>, buffer: Seq<u8>, read: usize)
    requires
        payload.len() == 90,
        buffer.len() == 91,
    ensures
        ({
            let status = buffer[first_byte(read)];
            let class = buffer[first_byte(read) + 6];
            let command = buffer[first_byte(read) + 7];
            let reply = reply_to(payload, buffer, read);
            &&& read < 9 ==> reply == Err::<Seq<u8>, Error>(Error::ShortResponse { read })
            &&& read >= 9 && (class != payload[6] || command != payload[7]) ==> reply == Err::<
                Seq<u8>,
                Error,
            >(Error::UnexpectedResponse { status, class, command })
            &&& read >= 9 && class == payload[6] && command == payload[7] && status != 0x01
                && status != 0x02 ==> reply == Err::<Seq<u8>, Error>(
                Error::CommandFailed { status },
            )
        }),
{
}

/// A reading comes to exactly one thing: the reply that counts, the refusal of
/// one that does not, or the error of the HID layer.
pub proof fn readings_are_judged<T>(
    payload: Seq<u8>,
    buffer: Seq<u8>,
    len: usize,
    error: T,
    reply: Result<[u8; REPORT_PAYLOAD_LEN], Failure<T>>,
)
    ensures
        is_received(payload, buffer, Ok::<usize, T>(len), reply) <==> match reply {
            Ok(report) => reply_to(payload, buffer, len) == Ok::<Seq<u8>, Error>(report@),
            Err(Failure::Response(refusal)) => reply_to(payload, buffer, len) == Err::<
                Seq<u8>,
                Error,
            >(refusal),
            Err(_) => false,
        },
        is_received(payload, buffer, Err::<usize, T>(error), reply) <==> reply == Err::<
            [u8; REPORT_PAYLOAD_LEN],
            Failure<T>,
        >(Failure::Receive(error)),
{
}

/// An exchange is driven until it is over: it stops exactly then. Before that it
/// sends the report behind a zero, reads into 91 zeros, and waits 50 ms for the
/// mouse to answer or 10 ms for it to recover.
pub proof fn what_each_phase_needs<R, T>(phase: Phase<R, T>, payload: Seq<u8>)
    requires
        payload.len() == 90,
    ensures
        phase.needs(payload) is Stop <==> phase is Finished,
        phase.needs(payload) is Send <==> phase is Sending,
        phase.needs(payload) is Receive <==> phase is Receiving,
        phase is Waiting ==> phase.needs(payload) == (ActionView::Pause { millis: 50 }),
        phase is Recovering ==> phase.needs(payload) == (ActionView::Pause { millis: 10 }),
        phase.needs(payload) matches ActionView::Send { feature } ==> {
            &&& feature.len() == 91
            &&& feature[0] == 0
            &&& forall|i: int| 0 <= i < 90 ==> #[trigger] feature[i + 1] == payload[i]
        },
        phase.needs(payload) matches ActionView::Receive { buffer } ==> {
            &&& buffer.len() == 91
            &&& forall|i: int| 0 <= i < 91 ==> #[trigger] buffer[i] == 0
        },
{
}

/// Nothing moves an exchange but what comes of its next action: a sending where
/// it sends, a reading where it reads, time where it waits; and nothing moves
/// one that is over.
pub proof fn other_events_change_nothing<R, T>(phase: Phase<R, T>, event: Event<R, T>)
    ensures
        phase is Finished ==> phase.after(event) == phase,
        phase is Sending && !(event is Sent) ==> phase.after(event) == phase,
        phase is Receiving && !(event is Received) ==> phase.after(event) == phase,
        (phase is Waiting || phase is Recovering) && !(event is Paused) ==> phase.after(event)
            == phase,
{
}

/// A phase is valid exactly where fewer than five attempts failed before the one
/// under way, or from one to five with the one that just failed.
pub proof fn valid_phases<R, T>(failures: u8, failure: Failure<T>, outcome: Result<R, Failure<T>>)
    ensures
        (Phase::<R, T>::Sending { failures }).valid() <==> failures < 5,
        (Phase::<R, T>::Waiting { failures }).valid() <==> failures < 5,
        (Phase::<R, T>::Receiving { failures }).valid() <==> failures < 5,
        (Phase::<R, T>::Recovering { failures, failure }).valid() <==> 1 <= failures <= 5,
        Phase::<R, T>::Finished(outcome).valid(),
{
}

/// A failure tells which half of the exchange the HID layer refused, or what is
/// wrong with the reply.
pub proof fn failures_name_the_cause<T>(error: T, refusal: Error)
    ensures
        Failure::Send(error).text()
            == "SET_REPORT failed; check hidraw permissions and stop OpenRazer first"@,
        Failure::Receive(error).text() == "GET_REPORT failed"@,
        Failure::<T>::Response(refusal).text() == refusal.text(),
{
}

/// The view of an action holds the bytes that the action holds.
pub proof fn actions_are_viewed_whole(bytes: [u8; HIDAPI_REPORT_LEN], millis: u64)
    ensures
        (Action::Send { feature: bytes })@ == (ActionView::Send { feature: bytes@ }),
        (Action::Receive { buffer: bytes })@ == (ActionView::Receive { buffer: bytes@ }),
        (Action::Pause { millis })@ == (ActionView::Pause { millis }),
        Action::Stop@ == ActionView::Stop,
{
}

} // verus!
