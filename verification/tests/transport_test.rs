use the_bus_2_komsi::opts::Opts;
use the_bus_2_komsi::transport::bytes_to_write;
use the_bus_2_komsi::report::echo_piece;
use the_bus_2_komsi::report::notice_line;
use the_bus_2_komsi::transport::link_step;
use the_bus_2_komsi::transport::EchoMark;
use the_bus_2_komsi::transport::LinkAction;
use the_bus_2_komsi::transport::LinkEvent;
use the_bus_2_komsi::transport::LinkNotice;
use the_bus_2_komsi::transport::LinkPurpose;
use the_bus_2_komsi::transport::LinkState;
use the_bus_2_komsi::transport::LinkStep;

fn all_states() -> Vec<LinkState> {
    vec![
        LinkState::Disconnected,
        LinkState::Connected,
        LinkState::Opening(LinkPurpose::Deliver),
        LinkState::Opening(LinkPurpose::Drain),
        LinkState::Greeting(LinkPurpose::Deliver),
        LinkState::Greeting(LinkPurpose::Drain),
        LinkState::Sending,
        LinkState::Polling,
        LinkState::Draining,
        LinkState::Reading,
    ]
}

fn all_events() -> Vec<LinkEvent> {
    vec![
        LinkEvent::Send,
        LinkEvent::Tick,
        LinkEvent::Opened,
        LinkEvent::OpenFailed,
        LinkEvent::Written,
        LinkEvent::WriteFailed,
        LinkEvent::Pending(0),
        LinkEvent::Pending(5),
        LinkEvent::PollFailed,
        LinkEvent::Received(65),
        LinkEvent::ReceivedNothing,
        LinkEvent::ReadTimedOut,
        LinkEvent::ReadFailed,
    ]
}

/// Runs the link against a device that answers as scripted; returns the
/// final state, what went over the wire and the notices that were not quiet.
fn run(
    start: LinkState,
    request: LinkEvent,
    answers: &[LinkEvent],
    payload: &Vec<u8>,
) -> (LinkState, Vec<u8>, Vec<LinkNotice>) {
    let (state, wire, notices, _) = run_with_echo(start, request, answers, payload);
    (state, wire, notices)
}

/// As `run`, and with the echo that the steps add up to.
fn run_with_echo(
    start: LinkState,
    request: LinkEvent,
    answers: &[LinkEvent],
    payload: &Vec<u8>,
) -> (LinkState, Vec<u8>, Vec<LinkNotice>, String) {
    let mut wire: Vec<u8> = Vec::new();
    let mut notices: Vec<LinkNotice> = Vec::new();
    let mut echo = String::new();
    let mut step = link_step(start, request);
    let mut next = 0;
    loop {
        if step.notice != LinkNotice::Quiet {
            notices.push(step.notice);
        }
        echo.push_str(&echo_piece(step.echo));
        wire.extend_from_slice(&bytes_to_write(step.action, payload));
        if step.action == LinkAction::Rest {
            break;
        }
        assert!(next < answers.len(), "the link asks for more than the script holds");
        step = link_step(step.state, answers[next]);
        next += 1;
    }
    assert_eq!(next, answers.len());
    (step.state, wire, notices, echo)
}

#[test]
fn test_send_while_device_unavailable_drops_bytes() {
    let payload = b"A1\n".to_vec();
    let (state, wire, notices) =
        run(LinkState::Disconnected, LinkEvent::Send, &[LinkEvent::OpenFailed], &payload);
    assert_eq!(state, LinkState::Disconnected);
    assert!(wire.is_empty());
    assert_eq!(notices, vec![LinkNotice::OpenFailed]);
}

#[test]
fn test_send_after_device_returns_greets_then_sends() {
    let payload = b"A1y50\n".to_vec();
    let (state, wire, notices) =
        run(LinkState::Disconnected, LinkEvent::Send, &[LinkEvent::OpenFailed], &payload);
    assert_eq!(state, LinkState::Disconnected);
    assert!(wire.is_empty());
    assert_eq!(notices.len(), 1);

    let (state, wire, notices) = run(
        state,
        LinkEvent::Send,
        &[LinkEvent::Opened, LinkEvent::Written, LinkEvent::Written],
        &payload,
    );
    assert_eq!(state, LinkState::Connected);
    assert_eq!(wire, b"O1\nA1y50\n".to_vec());
    assert_eq!(notices, vec![LinkNotice::PortOpened]);
}

#[test]
fn test_send_on_connected_link_writes_payload_only() {
    let payload = b"B1\n".to_vec();
    let (state, wire, notices) =
        run(LinkState::Connected, LinkEvent::Send, &[LinkEvent::Written], &payload);
    assert_eq!(state, LinkState::Connected);
    assert_eq!(wire, payload);
    assert!(notices.is_empty());
}

#[test]
fn test_write_failure_disconnects() {
    let payload = b"B1\n".to_vec();
    let (state, _, notices) =
        run(LinkState::Connected, LinkEvent::Send, &[LinkEvent::WriteFailed], &payload);
    assert_eq!(state, LinkState::Disconnected);
    assert_eq!(notices, vec![LinkNotice::WriteFailed]);
}

#[test]
fn test_failed_greeting_keeps_payload_back() {
    let payload = b"B1\n".to_vec();
    let (state, wire, notices) = run(
        LinkState::Disconnected,
        LinkEvent::Send,
        &[LinkEvent::Opened, LinkEvent::WriteFailed],
        &payload,
    );
    assert_eq!(state, LinkState::Disconnected);
    assert_eq!(wire, b"O1\n".to_vec());
    assert_eq!(notices, vec![LinkNotice::PortOpened, LinkNotice::WriteFailed]);
}

#[test]
fn test_link_steps_of_a_send() {
    let step = link_step(LinkState::Disconnected, LinkEvent::Send);
    assert_eq!(
        step,
        LinkStep {
            state: LinkState::Opening(LinkPurpose::Deliver),
            action: LinkAction::Open,
            notice: LinkNotice::Quiet,
            echo: EchoMark::Silent
        }
    );
    let step = link_step(step.state, LinkEvent::Opened);
    assert_eq!(
        step,
        LinkStep {
            state: LinkState::Greeting(LinkPurpose::Deliver),
            action: LinkAction::WriteIdentity,
            notice: LinkNotice::PortOpened,
            echo: EchoMark::Silent
        }
    );
    let step = link_step(step.state, LinkEvent::Written);
    assert_eq!(
        step,
        LinkStep {
            state: LinkState::Sending,
            action: LinkAction::WritePayload,
            notice: LinkNotice::Quiet,
            echo: EchoMark::Silent
        }
    );
    let step = link_step(step.state, LinkEvent::Written);
    assert_eq!(
        step,
        LinkStep {
            state: LinkState::Connected,
            action: LinkAction::Rest,
            notice: LinkNotice::Quiet,
            echo: EchoMark::Silent
        }
    );
}

#[test]
fn test_reader_tick_with_nothing_pending() {
    let (state, wire, notices) =
        run(LinkState::Connected, LinkEvent::Tick, &[LinkEvent::Pending(0)], &Vec::new());
    assert_eq!(state, LinkState::Connected);
    assert!(wire.is_empty());
    assert!(notices.is_empty());
}

#[test]
fn test_reader_drains_pending_bytes() {
    let (state, wire, notices, echo) = run_with_echo(
        LinkState::Connected,
        LinkEvent::Tick,
        &[
            LinkEvent::Pending(2),
            LinkEvent::Pending(2),
            LinkEvent::Received(b'o'),
            LinkEvent::Pending(1),
            LinkEvent::Received(b'k'),
            LinkEvent::Pending(0),
        ],
        &Vec::new(),
    );
    assert_eq!(state, LinkState::Connected);
    assert!(wire.is_empty());
    assert!(notices.is_empty());
    assert_eq!(echo, "REC: ok\n");
}

#[test]
fn test_reader_goes_on_after_timeout() {
    let (state, _, notices, echo) = run_with_echo(
        LinkState::Connected,
        LinkEvent::Tick,
        &[
            LinkEvent::Pending(1),
            LinkEvent::Pending(1),
            LinkEvent::ReadTimedOut,
            LinkEvent::Pending(1),
            LinkEvent::ReceivedNothing,
            LinkEvent::Pending(0),
        ],
        &Vec::new(),
    );
    assert_eq!(state, LinkState::Connected);
    assert!(notices.is_empty());
    assert_eq!(echo, "REC: \n");
}

#[test]
fn test_reader_echo_of_a_high_byte() {
    let (_, _, _, echo) = run_with_echo(
        LinkState::Connected,
        LinkEvent::Tick,
        &[
            LinkEvent::Pending(1),
            LinkEvent::Pending(1),
            LinkEvent::Received(0xe9),
            LinkEvent::Pending(0),
        ],
        &Vec::new(),
    );
    assert_eq!(echo, format!("REC: {}\n", 0xe9u8 as char));
}

#[test]
fn test_reader_echo_is_closed_after_failure() {
    let (state, _, notices, echo) = run_with_echo(
        LinkState::Connected,
        LinkEvent::Tick,
        &[
            LinkEvent::Pending(2),
            LinkEvent::Pending(2),
            LinkEvent::Received(b'x'),
            LinkEvent::PollFailed,
        ],
        &Vec::new(),
    );
    assert_eq!(state, LinkState::Disconnected);
    assert_eq!(notices, vec![LinkNotice::PollFailed]);
    assert_eq!(echo, "REC: x\n");
}

#[test]
fn test_reader_without_input_echoes_nothing() {
    let (_, _, _, echo) = run_with_echo(
        LinkState::Connected,
        LinkEvent::Tick,
        &[LinkEvent::Pending(0)],
        &Vec::new(),
    );
    assert_eq!(echo, "");
    let (_, _, notices, echo) = run_with_echo(
        LinkState::Connected,
        LinkEvent::Tick,
        &[LinkEvent::PollFailed],
        &Vec::new(),
    );
    assert_eq!(echo, "");
    assert_eq!(notices, vec![LinkNotice::PollFailed]);
}

#[test]
fn test_reader_failures_disconnect() {
    let (state, _, notices) =
        run(LinkState::Connected, LinkEvent::Tick, &[LinkEvent::PollFailed], &Vec::new());
    assert_eq!(state, LinkState::Disconnected);
    assert_eq!(notices, vec![LinkNotice::PollFailed]);

    let (state, _, notices) = run(
        LinkState::Connected,
        LinkEvent::Tick,
        &[LinkEvent::Pending(3), LinkEvent::Pending(3), LinkEvent::ReadFailed],
        &Vec::new(),
    );
    assert_eq!(state, LinkState::Disconnected);
    assert_eq!(notices, vec![LinkNotice::ReadFailed]);
}

#[test]
fn test_reader_reconnects_and_greets() {
    let payload = b"never sent".to_vec();
    let (state, wire, notices) = run(
        LinkState::Disconnected,
        LinkEvent::Tick,
        &[LinkEvent::Opened, LinkEvent::Written, LinkEvent::Pending(0)],
        &payload,
    );
    assert_eq!(state, LinkState::Connected);
    assert_eq!(wire, b"O1\n".to_vec());
    assert_eq!(notices, vec![LinkNotice::PortOpened]);

    let (state, wire, notices) =
        run(LinkState::Disconnected, LinkEvent::Tick, &[LinkEvent::OpenFailed], &payload);
    assert_eq!(state, LinkState::Disconnected);
    assert!(wire.is_empty());
    assert_eq!(notices, vec![LinkNotice::OpenFailed]);
}

#[test]
fn test_unexpected_events_change_nothing() {
    let cases = vec![
        (LinkState::Disconnected, LinkEvent::Written),
        (LinkState::Connected, LinkEvent::OpenFailed),
        (LinkState::Opening(LinkPurpose::Deliver), LinkEvent::Send),
        (LinkState::Greeting(LinkPurpose::Drain), LinkEvent::Pending(4)),
        (LinkState::Sending, LinkEvent::Tick),
        (LinkState::Polling, LinkEvent::Received(1)),
        (LinkState::Draining, LinkEvent::ReadTimedOut),
        (LinkState::Reading, LinkEvent::Written),
    ];
    for (state, event) in cases {
        assert_eq!(
            link_step(state, event),
            LinkStep {
                state,
                action: LinkAction::Rest,
                notice: LinkNotice::Quiet,
                echo: EchoMark::Silent
            }
        );
    }
}

#[test]
fn test_every_failure_leads_to_disconnected() {
    let failures = vec![
        LinkEvent::OpenFailed,
        LinkEvent::WriteFailed,
        LinkEvent::PollFailed,
        LinkEvent::ReadFailed,
    ];
    for state in all_states() {
        for event in failures.iter() {
            let step = link_step(state, *event);
            if step.notice != LinkNotice::Quiet {
                assert_eq!(step.state, LinkState::Disconnected);
                assert_eq!(step.action, LinkAction::Rest);
            } else {
                assert_eq!(step.state, state);
            }
        }
    }
}

#[test]
fn test_payload_is_written_only_after_identity() {
    for state in all_states() {
        for event in all_events() {
            let step = link_step(state, event);
            if step.action == LinkAction::WritePayload {
                let on_connected = state == LinkState::Connected && event == LinkEvent::Send;
                let after_greeting = state == LinkState::Greeting(LinkPurpose::Deliver)
                    && event == LinkEvent::Written;
                assert!(on_connected || after_greeting);
            }
            if step.action == LinkAction::WriteIdentity {
                assert!(matches!(state, LinkState::Opening(_)));
                assert_eq!(event, LinkEvent::Opened);
            }
        }
    }
}

#[test]
fn test_bytes_to_write() {
    let payload = b"C1\n".to_vec();
    assert_eq!(bytes_to_write(LinkAction::WriteIdentity, &payload), b"O1\n".to_vec());
    assert_eq!(bytes_to_write(LinkAction::WritePayload, &payload), payload);
    assert!(bytes_to_write(LinkAction::Rest, &payload).is_empty());
    assert!(bytes_to_write(LinkAction::Open, &payload).is_empty());
    assert!(bytes_to_write(LinkAction::Poll, &payload).is_empty());
    assert!(bytes_to_write(LinkAction::Read, &payload).is_empty());
}

#[test]
fn test_from_handle_and_holds_device() {
    assert_eq!(LinkState::from_handle(true), LinkState::Connected);
    assert_eq!(LinkState::from_handle(false), LinkState::Disconnected);
    assert!(!LinkState::Disconnected.holds_device());
    assert!(!LinkState::Opening(LinkPurpose::Drain).holds_device());
    assert!(LinkState::Connected.holds_device());
    assert!(LinkState::Greeting(LinkPurpose::Deliver).holds_device());
    assert!(LinkState::Sending.holds_device());
    assert!(LinkState::Polling.holds_device());
    assert!(LinkState::Draining.holds_device());
    assert!(LinkState::Reading.holds_device());
}

#[test]
fn test_which_notices_are_shown() {
    let quiet = Opts { debug: false, debug_serial: false, debug_command: false, list: false, verbose: false };
    let verbose = Opts { verbose: true, ..quiet };
    let serial = Opts { debug_serial: true, ..quiet };
    let others = Opts { debug: true, debug_command: true, list: true, ..quiet };
    let failures = vec![
        LinkNotice::OpenFailed,
        LinkNotice::WriteFailed,
        LinkNotice::PollFailed,
        LinkNotice::ReadFailed,
    ];
    for switches in vec![quiet, verbose, serial, others] {
        assert!(!switches.reports(LinkNotice::Quiet));
        for failure in failures.iter() {
            assert!(switches.reports(*failure));
        }
    }
    assert!(!quiet.reports(LinkNotice::PortOpened));
    assert!(verbose.reports(LinkNotice::PortOpened));
    assert!(!serial.reports(LinkNotice::PortOpened));
    assert!(!others.reports(LinkNotice::PortOpened));
    for mark in vec![EchoMark::Begin, EchoMark::Byte(65), EchoMark::End] {
        assert!(!quiet.echoes(mark));
        assert!(!verbose.echoes(mark));
        assert!(serial.echoes(mark));
        assert!(!others.echoes(mark));
    }
    assert!(!serial.echoes(EchoMark::Silent));
    assert!(!quiet.echoes(EchoMark::Silent));
}

fn check_runs(state: LinkState, greeted: bool, depth: usize) {
    if depth == 0 {
        return;
    }
    for event in all_events() {
        let step = link_step(state, event);
        let greeted_now = if step.state == LinkState::Disconnected
            || matches!(step.state, LinkState::Opening(_))
        {
            false
        } else if matches!(state, LinkState::Greeting(_)) && event == LinkEvent::Written {
            true
        } else {
            greeted
        };
        if step.action == LinkAction::WritePayload {
            assert!(greeted_now, "payload for a device that was not greeted");
        }
        let serves = step.state == LinkState::Connected
            || step.state == LinkState::Sending
            || step.state == LinkState::Polling
            || step.state == LinkState::Draining
            || step.state == LinkState::Reading;
        assert_eq!(greeted_now, serves);
        check_runs(step.state, greeted_now, depth - 1);
    }
}

#[test]
fn test_every_short_run_greets_before_payload() {
    check_runs(LinkState::Disconnected, false, 5);
}

#[test]
fn test_delivery_settles_within_three_answers() {
    let answers = vec![
        LinkEvent::Opened,
        LinkEvent::OpenFailed,
        LinkEvent::Written,
        LinkEvent::WriteFailed,
    ];
    for start in vec![LinkState::Disconnected, LinkState::Connected] {
        let first = link_step(start, LinkEvent::Send);
        for a in answers.iter() {
            for b in answers.iter() {
                for c in answers.iter() {
                    let mut step = first;
                    let mut taken = 0;
                    for answer in vec![*a, *b, *c] {
                        if step.action == LinkAction::Rest {
                            break;
                        }
                        let next = link_step(step.state, answer);
                        if next.state == step.state && next.action == LinkAction::Rest {
                            // not the answer that the link waits for
                            taken = 4;
                            break;
                        }
                        step = next;
                        taken += 1;
                    }
                    if taken <= 3 {
                        assert_eq!(step.action, LinkAction::Rest);
                        assert!(
                            step.state == LinkState::Connected
                                || step.state == LinkState::Disconnected
                        );
                    }
                }
            }
        }
    }
}

#[test]
fn test_notice_lines() {
    assert_eq!(notice_line(LinkNotice::Quiet, "COM1", 115200, "why"), None);
    assert_eq!(
        notice_line(LinkNotice::PortOpened, "COM1", 115200, ""),
        Some("Port \"COM1\" geöffnet mit 115200 baud.".to_string())
    );
    assert_eq!(
        notice_line(LinkNotice::OpenFailed, "/dev/ttyUSB0", 9600, "No such file or directory"),
        Some("Failed to open serial port /dev/ttyUSB0: No such file or directory".to_string())
    );
    assert_eq!(
        notice_line(LinkNotice::WriteFailed, "COM1", 9600, "broken pipe"),
        Some("Error writing to port: broken pipe".to_string())
    );
    assert_eq!(
        notice_line(LinkNotice::PollFailed, "COM1", 9600, "gone"),
        Some("Error checking bytes to read: gone".to_string())
    );
    assert_eq!(
        notice_line(LinkNotice::ReadFailed, "COM1", 9600, "gone"),
        Some("Error reading from port: gone".to_string())
    );
}

#[test]
fn test_echo_pieces() {
    assert_eq!(echo_piece(EchoMark::Silent), "");
    assert_eq!(echo_piece(EchoMark::Begin), "REC: ");
    assert_eq!(echo_piece(EchoMark::Byte(b'A')), "A");
    assert_eq!(echo_piece(EchoMark::Byte(0)), "\0");
    assert_eq!(echo_piece(EchoMark::Byte(255)), "\u{ff}");
    assert_eq!(echo_piece(EchoMark::End), "\n");
}

#[test]
fn test_echo_marks_of_steps() {
    let step = link_step(LinkState::Polling, LinkEvent::Pending(4));
    assert_eq!(step.state, LinkState::Draining);
    assert_eq!(step.action, LinkAction::Poll);
    assert_eq!(step.echo, EchoMark::Begin);
    let step = link_step(LinkState::Draining, LinkEvent::Pending(4));
    assert_eq!(step.state, LinkState::Reading);
    assert_eq!(step.echo, EchoMark::Silent);
    let step = link_step(LinkState::Reading, LinkEvent::Received(7));
    assert_eq!(step.state, LinkState::Draining);
    assert_eq!(step.echo, EchoMark::Byte(7));
    let step = link_step(LinkState::Reading, LinkEvent::ReadFailed);
    assert_eq!(step.state, LinkState::Disconnected);
    assert_eq!(step.notice, LinkNotice::ReadFailed);
    assert_eq!(step.echo, EchoMark::End);
    let step = link_step(LinkState::Draining, LinkEvent::Pending(0));
    assert_eq!(step.state, LinkState::Connected);
    assert_eq!(step.echo, EchoMark::End);
}
