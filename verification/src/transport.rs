//! The decisions of the serial link.
//!
//! The link is a state machine. Its caller owns the device: it performs the
//! action that a step asks for and hands the device's answer back as the
//! next event. The link rests in `Disconnected` or `Connected`; every
//! failure of the device leads back to `Disconnected`, from where the next
//! use opens the device again and announces the simulator before anything
//! else is written.

use vstd::prelude::*;
use crate::komsi::build_komsi_command_identity;
use crate::komsi::identity_frame;

verus! {

/// What an opening of the device is for.
#[derive(Clone, Copy, Debug, PartialEq, Eq, Structural)]
pub enum LinkPurpose {
    /// Bytes wait to be written.
    Deliver,
    /// The reader wants to drain the input.
    Drain,
}

/// The state of the link.
#[derive(Clone, Copy, Debug, PartialEq, Eq, Structural)]
pub enum LinkState {
    /// At rest, no open device.
    Disconnected,
    /// At rest, the device is open.
    Connected,
    /// The device is being opened.
    Opening(LinkPurpose),
    /// The identity frame is being written to the freshly opened device.
    Greeting(LinkPurpose),
    /// The caller's bytes are being written.
    Sending,
    /// The device is being asked, for the first time in this tick, how
    /// many bytes wait to be read.
    Polling,
    /// Bytes waited: the device is being asked whether more do.
    Draining,
    /// One byte is being read.
    Reading,
}

/// What happened: a request of the caller, or the device's answer to the
/// action of the step before.
#[derive(Clone, Copy, Debug, PartialEq, Eq, Structural)]
pub enum LinkEvent {
    /// The caller has bytes to deliver.
    Send,
    /// The reader's poll interval has passed.
    Tick,
    /// The device was opened.
    Opened,
    /// The device could not be opened.
    OpenFailed,
    /// The bytes were written.
    Written,
    /// Writing failed.
    WriteFailed,
    /// The device reports this many bytes waiting.
    Pending(u32),
    /// The device could not say how many bytes wait.
    PollFailed,
    /// One byte was read.
    Received(u8),
    /// The read returned without a byte.
    ReceivedNothing,
    /// The read timed out.
    ReadTimedOut,
    /// Reading failed.
    ReadFailed,
}

/// What the caller does next.
#[derive(Clone, Copy, Debug, PartialEq, Eq, Structural)]
pub enum LinkAction {
    /// Nothing: the link is at rest, or the event was not for it.
    Rest,
    /// Open the device.
    Open,
    /// Write the identity frame.
    WriteIdentity,
    /// Write the bytes that were to be delivered.
    WritePayload,
    /// Ask the device how many bytes wait to be read.
    Poll,
    /// Read one byte.
    Read,
}

/// What a step has to report.
#[derive(Clone, Copy, Debug, PartialEq, Eq, Structural)]
pub enum LinkNotice {
    Quiet,
    PortOpened,
    OpenFailed,
    WriteFailed,
    PollFailed,
    ReadFailed,
}

/// What a step adds to the echo of the device's input: a run of bytes is
/// shown on one line, after a prefix.
#[derive(Clone, Copy, Debug, PartialEq, Eq, Structural)]
pub enum EchoMark {
    /// Nothing.
    Silent,
    /// Bytes wait: a run begins.
    Begin,
    /// A byte came in.
    Byte(u8),
    /// The run is over.
    End,
}

/// The outcome of one step.
#[derive(Clone, Copy, Debug, PartialEq, Eq, Structural)]
pub struct LinkStep {
    pub state: LinkState,
    pub action: LinkAction,
    pub notice: LinkNotice,
    pub echo: EchoMark,
}

impl LinkState {
    /// Whether the link is at rest.
    pub open spec fn at_rest(self) -> bool {
        self == LinkState::Disconnected || self == LinkState::Connected
    }

    /// Whether the state waits for this event.
    pub open spec fn expects(self, event: LinkEvent) -> bool {
        match self {
            LinkState::Disconnected | LinkState::Connected => event == LinkEvent::Send || event
                == LinkEvent::Tick,
            LinkState::Opening(_) => event == LinkEvent::Opened || event == LinkEvent::OpenFailed,
            LinkState::Greeting(_) | LinkState::Sending => event == LinkEvent::Written || event
                == LinkEvent::WriteFailed,
            LinkState::Polling | LinkState::Draining => event is Pending || event
                == LinkEvent::PollFailed,
            LinkState::Reading => event is Received || event == LinkEvent::ReceivedNothing || event
                == LinkEvent::ReadTimedOut || event == LinkEvent::ReadFailed,
        }
    }

    /// How many answers of the device a delivery still waits for, at most.
    pub open spec fn answers_awaited(self) -> nat {
        match self {
            LinkState::Opening(LinkPurpose::Deliver) => 3,
            LinkState::Greeting(LinkPurpose::Deliver) => 2,
            LinkState::Sending => 1,
            _ => 0,
        }
    }

    /// The resting state that goes with the caller's device handle.
    pub fn from_handle(present: bool) -> (state: LinkState)
        ensures
            state == if present {
                LinkState::Connected
            } else {
                LinkState::Disconnected
            },
    {
        if present {
            LinkState::Connected
        } else {
            LinkState::Disconnected
        }
    }

    /// Whether the caller holds an open device in this state: in every
    /// state but `Disconnected` and `Opening`.
    pub fn holds_device(self) -> (held: bool)
        ensures
            held == !(self == LinkState::Disconnected || self is Opening),
    {
        match self {
            LinkState::Disconnected => false,
            LinkState::Opening(_) => false,
            _ => true,
        }
    }
}

impl LinkEvent {
    /// Whether the event is a failure of the device.
    pub open spec fn is_failure(self) -> bool {
        self == LinkEvent::OpenFailed || self == LinkEvent::WriteFailed || self
            == LinkEvent::PollFailed || self == LinkEvent::ReadFailed
    }

    /// The notice that reports a failure.
    pub open spec fn failure_notice(self) -> LinkNotice {
        match self {
            LinkEvent::OpenFailed => LinkNotice::OpenFailed,
            LinkEvent::WriteFailed => LinkNotice::WriteFailed,
            LinkEvent::PollFailed => LinkNotice::PollFailed,
            LinkEvent::ReadFailed => LinkNotice::ReadFailed,
            _ => LinkNotice::Quiet,
        }
    }
}

/// What the caller does when the link has come to a state.
pub open spec fn action_in(state: LinkState) -> LinkAction {
    match state {
        LinkState::Disconnected | LinkState::Connected => LinkAction::Rest,
        LinkState::Opening(_) => LinkAction::Open,
        LinkState::Greeting(_) => LinkAction::WriteIdentity,
        LinkState::Sending => LinkAction::WritePayload,
        LinkState::Polling | LinkState::Draining => LinkAction::Poll,
        LinkState::Reading => LinkAction::Read,
    }
}

/// Whether the event reports that bytes wait to be read.
pub open spec fn bytes_wait(event: LinkEvent) -> bool {
    event matches LinkEvent::Pending(waiting) && waiting > 0
}

/// The state that follows on an event.
///
/// A request at rest starts its work: from `Disconnected` by opening the
/// device, from `Connected` by writing or polling at once. A freshly
/// opened device is sent the identity frame first. A failure drops the
/// device. While bytes wait, the reader reads them one by one. An event
/// that the state does not wait for changes nothing.
pub open spec fn next_state(state: LinkState, event: LinkEvent) -> LinkState {
    if !state.expects(event) {
        state
    } else if event.is_failure() {
        LinkState::Disconnected
    } else {
        match state {
            LinkState::Disconnected => if event == LinkEvent::Send {
                LinkState::Opening(LinkPurpose::Deliver)
            } else {
                LinkState::Opening(LinkPurpose::Drain)
            },
            LinkState::Connected => if event == LinkEvent::Send {
                LinkState::Sending
            } else {
                LinkState::Polling
            },
            LinkState::Opening(purpose) => LinkState::Greeting(purpose),
            LinkState::Greeting(LinkPurpose::Deliver) => LinkState::Sending,
            LinkState::Greeting(LinkPurpose::Drain) => LinkState::Polling,
            LinkState::Sending => LinkState::Connected,
            LinkState::Polling => if bytes_wait(event) {
                LinkState::Draining
            } else {
                LinkState::Connected
            },
            LinkState::Draining => if bytes_wait(event) {
                LinkState::Reading
            } else {
                LinkState::Connected
            },
            LinkState::Reading => LinkState::Draining,
        }
    }
}

/// What a step reports: each failure, and each opening of the device.
pub open spec fn next_notice(state: LinkState, event: LinkEvent) -> LinkNotice {
    if !state.expects(event) {
        LinkNotice::Quiet
    } else if event.is_failure() {
        event.failure_notice()
    } else if state is Opening {
        LinkNotice::PortOpened
    } else {
        LinkNotice::Quiet
    }
}

/// What a step adds to the echo: a run begins when the first poll of a
/// tick finds bytes waiting, each byte read belongs to it, and it is over
/// when no more bytes wait or the device fails.
pub open spec fn next_echo(state: LinkState, event: LinkEvent) -> EchoMark {
    if !state.expects(event) {
        EchoMark::Silent
    } else {
        match state {
            LinkState::Polling => if bytes_wait(event) {
                EchoMark::Begin
            } else {
                EchoMark::Silent
            },
            LinkState::Draining => if bytes_wait(event) {
                EchoMark::Silent
            } else {
                EchoMark::End
            },
            LinkState::Reading => match event {
                LinkEvent::Received(byte) => EchoMark::Byte(byte),
                LinkEvent::ReadFailed => EchoMark::End,
                _ => EchoMark::Silent,
            },
            _ => EchoMark::Silent,
        }
    }
}

/// The step that the link takes on an event: the state that follows, the
/// action that this state asks for (none where the event was not awaited),
/// the notice and the echo.
pub open spec fn next_step(state: LinkState, event: LinkEvent) -> LinkStep {
    LinkStep {
        state: next_state(state, event),
        action: if state.expects(event) {
            action_in(next_state(state, event))
        } else {
            LinkAction::Rest
        },
        notice: next_notice(state, event),
        echo: next_echo(state, event),
    }
}

/// Takes one step of the link: the new state, what the caller does next,
/// what there is to report, and what to add to the echo.
pub fn link_step(state: LinkState, event: LinkEvent) -> (step: LinkStep)
    ensures
        step == next_step(state, event),
{
    let ignored = proceed(state, LinkAction::Rest);
    match state {
        LinkState::Disconnected => match event {
            LinkEvent::Send => proceed(LinkState::Opening(LinkPurpose::Deliver), LinkAction::Open),
            LinkEvent::Tick => proceed(LinkState::Opening(LinkPurpose::Drain), LinkAction::Open),
            _ => ignored,
        },
        LinkState::Connected => match event {
            LinkEvent::Send => proceed(LinkState::Sending, LinkAction::WritePayload),
            LinkEvent::Tick => proceed(LinkState::Polling, LinkAction::Poll),
            _ => ignored,
        },
        LinkState::Opening(purpose) => match event {
            LinkEvent::Opened => LinkStep {
                state: LinkState::Greeting(purpose),
                action: LinkAction::WriteIdentity,
                notice: LinkNotice::PortOpened,
                echo: EchoMark::Silent,
            },
            LinkEvent::OpenFailed => dropped(LinkNotice::OpenFailed, EchoMark::Silent),
            _ => ignored,
        },
        LinkState::Greeting(purpose) => match event {
            LinkEvent::Written => match purpose {
                LinkPurpose::Deliver => proceed(LinkState::Sending, LinkAction::WritePayload),
                LinkPurpose::Drain => proceed(LinkState::Polling, LinkAction::Poll),
            },
            LinkEvent::WriteFailed => dropped(LinkNotice::WriteFailed, EchoMark::Silent),
            _ => ignored,
        },
        LinkState::Sending => match event {
            LinkEvent::Written => proceed(LinkState::Connected, LinkAction::Rest),
            LinkEvent::WriteFailed => dropped(LinkNotice::WriteFailed, EchoMark::Silent),
            _ => ignored,
        },
        LinkState::Polling => match event {
            LinkEvent::Pending(waiting) => if waiting > 0 {
                echoing(LinkState::Draining, LinkAction::Poll, EchoMark::Begin)
            } else {
                proceed(LinkState::Connected, LinkAction::Rest)
            },
            LinkEvent::PollFailed => dropped(LinkNotice::PollFailed, EchoMark::Silent),
            _ => ignored,
        },
        LinkState::Draining => match event {
            LinkEvent::Pending(waiting) => if waiting > 0 {
                proceed(LinkState::Reading, LinkAction::Read)
            } else {
                echoing(LinkState::Connected, LinkAction::Rest, EchoMark::End)
            },
            LinkEvent::PollFailed => dropped(LinkNotice::PollFailed, EchoMark::End),
            _ => ignored,
        },
        LinkState::Reading => match event {
            LinkEvent::Received(byte) => echoing(
                LinkState::Draining,
                LinkAction::Poll,
                EchoMark::Byte(byte),
            ),
            LinkEvent::ReceivedNothing => proceed(LinkState::Draining, LinkAction::Poll),
            LinkEvent::ReadTimedOut => proceed(LinkState::Draining, LinkAction::Poll),
            LinkEvent::ReadFailed => dropped(LinkNotice::ReadFailed, EchoMark::End),
            _ => ignored,
        },
    }
}

/// A step that has nothing to report.
fn proceed(state: LinkState, action: LinkAction) -> (step: LinkStep)
    ensures
        step == (LinkStep { state, action, notice: LinkNotice::Quiet, echo: EchoMark::Silent }),
{
    LinkStep { state, action, notice: LinkNotice::Quiet, echo: EchoMark::Silent }
}

/// A step that adds to the echo.
fn echoing(state: LinkState, action: LinkAction, echo: EchoMark) -> (step: LinkStep)
    ensures
        step == (LinkStep { state, action, notice: LinkNotice::Quiet, echo }),
{
    LinkStep { state, action, notice: LinkNotice::Quiet, echo }
}

/// The step after a failure: the device is dropped and the failure
/// reported.
fn dropped(notice: LinkNotice, echo: EchoMark) -> (step: LinkStep)
    ensures
        step == (LinkStep {
            state: LinkState::Disconnected,
            action: LinkAction::Rest,
            notice,
            echo,
        }),
{
    LinkStep { state: LinkState::Disconnected, action: LinkAction::Rest, notice, echo }
}

/// What a caller asks of the link for the commands of a tick: to send
/// them, or nothing where there are none. An empty stream is not sent, so
/// a tick without a change writes nothing and opens nothing.
pub open spec fn request_for(commands: Seq<u8>) -> Option<LinkEvent> {
    if commands.len() > 0 {
        Some(LinkEvent::Send)
    } else {
        None
    }
}

/// The request to the link for the commands of a tick.
pub fn send_request(commands: &Vec<u8>) -> (request: Option<LinkEvent>)
    ensures
        request == request_for(commands@),
{
    if commands.len() > 0 {
        Some(LinkEvent::Send)
    } else {
        None
    }
}

/// The bytes that an action puts on the wire.
pub open spec fn wire_bytes(action: LinkAction, payload: Seq<u8>) -> Seq<u8> {
    match action {
        LinkAction::WriteIdentity => identity_frame(),
        LinkAction::WritePayload => payload,
        _ => Seq::empty(),
    }
}

/// The bytes that the caller writes for an action: the identity frame, the
/// payload, or nothing where the action is no write.
pub fn bytes_to_write(action: LinkAction, payload: &Vec<u8>) -> (bytes: Vec<u8>)
    ensures
        bytes@ == wire_bytes(action, payload@),
{
    match action {
        LinkAction::WriteIdentity => build_komsi_command_identity(),
        LinkAction::WritePayload => {
            let mut bytes: Vec<u8> = Vec::new();
            let mut i: usize = 0;
            while i < payload.len()
                invariant
                    i <= payload.len(),
                    bytes@ == payload@.take(i as int),
                decreases payload.len() - i,
            {
                bytes.push(payload[i]);
                assert(bytes@ =~= payload@.take(i + 1));
                i += 1;
            }
            assert(bytes@ =~= payload@);
            bytes
        },
        _ => Vec::new(),
    }
}

/// The link after a run of events, from a given state.
pub open spec fn state_after(state: LinkState, events: Seq<LinkEvent>) -> LinkState
    decreases events.len(),
{
    if events.len() == 0 {
        state
    } else {
        next_step(state_after(state, events.drop_last()), events.last()).state
    }
}

/// What a run of events puts on the wire, from a given state.
pub open spec fn wire_after(state: LinkState, events: Seq<LinkEvent>, payload: Seq<u8>) -> Seq<u8>
    decreases events.len(),
{
    if events.len() == 0 {
        Seq::empty()
    } else {
        wire_after(state, events.drop_last(), payload) + wire_bytes(
            next_step(state_after(state, events.drop_last()), events.last()).action,
            payload,
        )
    }
}

/// Every failure that the link waits for drops the device: the link rests
/// in `Disconnected`, nothing more is written, and the failure is
/// reported.
pub proof fn failure_disconnects(state: LinkState, event: LinkEvent)
    requires
        state.expects(event),
        event.is_failure(),
    ensures
        next_step(state, event).state == LinkState::Disconnected,
        next_step(state, event).action == LinkAction::Rest,
        next_step(state, event).notice == event.failure_notice(),
        next_step(state, event).notice != LinkNotice::Quiet,
{
}

/// The caller's bytes are written only to a device that is known to have
/// seen the identity frame: at a send on a connected link, or right after
/// the identity frame was written for a delivery. The identity frame is
/// written exactly after the device was opened.
pub proof fn identity_precedes_payload(state: LinkState, event: LinkEvent)
    ensures
        next_step(state, event).action == LinkAction::WritePayload <==> (state
            == LinkState::Connected && event == LinkEvent::Send) || (state == LinkState::Greeting(
            LinkPurpose::Deliver,
        ) && event == LinkEvent::Written),
        next_step(state, event).action == LinkAction::WriteIdentity <==> state is Opening && event
            == LinkEvent::Opened,
{
}

/// A step asks for nothing exactly when it ends at rest or the event was
/// not awaited, and a link at rest was never left without an action.
pub proof fn rest_means_at_rest(state: LinkState, event: LinkEvent)
    requires
        state.expects(event),
    ensures
        next_step(state, event).action == LinkAction::Rest <==> next_step(state, event).state.at_rest(),
        state.at_rest() ==> !next_step(state, event).state.at_rest(),
{
}

/// A run of the echo is opened and closed once: it begins exactly when the
/// link starts to drain, and it ends exactly when the link leaves the
/// draining for rest, through the last poll or through a failure.
pub proof fn echo_run_is_closed(state: LinkState, event: LinkEvent)
    requires
        state.expects(event),
    ensures
        next_step(state, event).echo == EchoMark::Begin <==> state == LinkState::Polling
            && next_step(state, event).state == LinkState::Draining,
        next_step(state, event).echo == EchoMark::End <==> (state == LinkState::Draining || state
            == LinkState::Reading) && next_step(state, event).state.at_rest(),
        next_step(state, event).echo is Byte ==> state == LinkState::Reading && event
            == LinkEvent::Received(next_step(state, event).echo->Byte_0),
{
}

/// A delivery never waits for long: each answer of the device brings it
/// nearer to rest, and after at most three answers it is there.
pub proof fn delivery_settles(state: LinkState, event: LinkEvent)
    requires
        state.answers_awaited() > 0,
        state.expects(event),
    ensures
        next_step(state, event).state.answers_awaited() < state.answers_awaited(),
        next_step(state, event).state.answers_awaited() == 0 ==> next_step(state, event).state.at_rest(),
{
}

/// A send on a disconnected link whose device cannot be opened writes
/// nothing and leaves the link disconnected, whatever the bytes.
pub proof fn send_without_device_drops(payload: Seq<u8>)
    ensures
        state_after(LinkState::Disconnected, seq![LinkEvent::Send, LinkEvent::OpenFailed])
            == LinkState::Disconnected,
        wire_after(LinkState::Disconnected, seq![LinkEvent::Send, LinkEvent::OpenFailed], payload)
            == Seq::<u8>::empty(),
{
    let events = seq![LinkEvent::Send, LinkEvent::OpenFailed];
    let first = seq![LinkEvent::Send];
    assert(events.drop_last() =~= first);
    assert(first.drop_last() =~= Seq::<LinkEvent>::empty());
    assert(state_after(LinkState::Disconnected, first.drop_last()) == LinkState::Disconnected);
    assert(state_after(LinkState::Disconnected, first) == LinkState::Opening(LinkPurpose::Deliver));
    assert(wire_after(LinkState::Disconnected, first.drop_last(), payload) =~= Seq::<u8>::empty());
    assert(wire_after(LinkState::Disconnected, first, payload) =~= Seq::<u8>::empty());
    assert(wire_after(LinkState::Disconnected, events, payload) =~= Seq::<u8>::empty());
}

/// A send on a disconnected link whose device opens and takes both writes
/// puts the identity frame and then the caller's bytes on the wire, and
/// leaves the link connected.
pub proof fn send_after_reconnect_greets_first(payload: Seq<u8>)
    ensures
        state_after(
            LinkState::Disconnected,
            seq![LinkEvent::Send, LinkEvent::Opened, LinkEvent::Written, LinkEvent::Written],
        ) == LinkState::Connected,
        wire_after(
            LinkState::Disconnected,
            seq![LinkEvent::Send, LinkEvent::Opened, LinkEvent::Written, LinkEvent::Written],
            payload,
        ) == identity_frame() + payload,
{
    let e4 = seq![LinkEvent::Send, LinkEvent::Opened, LinkEvent::Written, LinkEvent::Written];
    let e3 = seq![LinkEvent::Send, LinkEvent::Opened, LinkEvent::Written];
    let e2 = seq![LinkEvent::Send, LinkEvent::Opened];
    let e1 = seq![LinkEvent::Send];
    let start = LinkState::Disconnected;
    assert(e4.drop_last() =~= e3);
    assert(e3.drop_last() =~= e2);
    assert(e2.drop_last() =~= e1);
    assert(e1.drop_last() =~= Seq::<LinkEvent>::empty());
    assert(state_after(start, e1.drop_last()) == start);
    assert(state_after(start, e1) == LinkState::Opening(LinkPurpose::Deliver));
    assert(state_after(start, e2) == LinkState::Greeting(LinkPurpose::Deliver));
    assert(state_after(start, e3) == LinkState::Sending);
    assert(state_after(start, e4) == LinkState::Connected);
    assert(wire_after(start, e1.drop_last(), payload) =~= Seq::<u8>::empty());
    assert(wire_after(start, e1, payload) =~= Seq::<u8>::empty());
    assert(wire_after(start, e2, payload) =~= identity_frame());
    assert(wire_after(start, e3, payload) =~= identity_frame() + payload);
    assert(wire_after(start, e4, payload) =~= identity_frame() + payload);
}

/// Whether the device that is open after a run of events, from a
/// disconnected link, has taken the identity frame: it has once the frame
/// was written after the opening, and until the device is dropped.
pub open spec fn greeted_after(events: Seq<LinkEvent>) -> bool
    decreases events.len(),
{
    if events.len() == 0 {
        false
    } else {
        let before = state_after(LinkState::Disconnected, events.drop_last());
        let after = next_step(before, events.last()).state;
        if after == LinkState::Disconnected || after is Opening {
            false
        } else if before is Greeting && events.last() == LinkEvent::Written {
            true
        } else {
            greeted_after(events.drop_last())
        }
    }
}

/// Whatever happens to a link that starts disconnected, the caller's bytes
/// go only to a device that has taken the identity frame since it was
/// opened: in every state from which they can be written the device is
/// greeted, and a step asks to write them only then.
pub proof fn payload_goes_to_greeted_device(events: Seq<LinkEvent>, event: LinkEvent)
    ensures
        greeted_after(events) <==> {
            let state = state_after(LinkState::Disconnected, events);
            state == LinkState::Connected || state == LinkState::Sending || state
                == LinkState::Polling || state == LinkState::Draining || state
                == LinkState::Reading
        },
        next_step(state_after(LinkState::Disconnected, events), event).action
            == LinkAction::WritePayload ==> greeted_after(events.push(event)),
    decreases events.len(),
{
    if events.len() > 0 {
        payload_goes_to_greeted_device(events.drop_last(), events.last());
    }
    assert(events.push(event).drop_last() =~= events);
}

} // verus!
