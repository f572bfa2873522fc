//! The text that the bridge offers for diagnostics: a snapshot on one line,
//! one line for each signal that is sent, one for each notice of the link,
//! and the echo of what the device sends.

use vstd::prelude::*;
use crate::komsi::decimal_digits;
use crate::komsi::KomsiCommandKind;
use crate::settings::text_of;
use crate::transport::EchoMark;
use crate::transport::LinkNotice;
use crate::vehicle::VehicleState;
use crate::vehiclediff::SignalChange;

verus! {

/// The character of a decimal digit.
pub open spec fn digit_char(digit: nat) -> char {
    (48 + digit) as char
}

/// The decimal text of a number: most significant digit first, no leading
/// zero, `"0"` for zero.
pub open spec fn decimal_text(n: nat) -> Seq<char>
    decreases n,
{
    if n < 10 {
        seq![digit_char(n)]
    } else {
        decimal_text(n / 10).push(digit_char(n % 10))
    }
}

/// One entry of the snapshot line: the label, the value, a space.
pub open spec fn labelled(label: Seq<char>, value: nat) -> Seq<char> {
    label + decimal_text(value) + seq![' ']
}

/// The snapshot on one line: every signal with its label and value, each
/// followed by a space, and one more space at the end.
pub open spec fn vehicle_state_text(v: VehicleState) -> Seq<char> {
    labelled("ignition:"@, v.ignition as nat) + labelled("engine:"@, v.engine as nat) + labelled(
        "indicator:"@,
        v.indicator as nat,
    ) + labelled("fuel:"@, v.fuel as nat) + labelled("warn:"@, v.lights_warning as nat) + labelled(
        "lights:"@,
        v.lights_main as nat,
    ) + labelled("lights-highbeam:"@, v.lights_high_beam as nat) + labelled(
        "stop:"@,
        v.lights_stop_request as nat,
    ) + labelled("fixingbrake:"@, v.fixing_brake as nat) + labelled(
        "stopbrake:"@,
        v.lights_stop_brake as nat,
    ) + labelled("doors:"@, v.doors as nat) + labelled("door1:"@, v.lights_front_door as nat)
        + labelled("door2:"@, v.lights_second_door as nat) + labelled("speed:"@, v.speed as nat)
        + labelled("maxspeed:"@, v.maxspeed as nat) + labelled(
        "batterylight:"@,
        v.battery_light as nat,
    ) + seq![' ']
}

/// The name under which a signal is reported.
pub open spec fn signal_name(kind: KomsiCommandKind) -> Seq<char> {
    match kind {
        KomsiCommandKind::Ignition => "ignition"@,
        KomsiCommandKind::Engine => "engine"@,
        KomsiCommandKind::PassengerDoorsOpen => "doors"@,
        KomsiCommandKind::Indicator => "indicator"@,
        KomsiCommandKind::FixingBrake => "fixing_brake"@,
        KomsiCommandKind::LightsWarning => "lights_warning"@,
        KomsiCommandKind::LightsMain => "lights_main"@,
        KomsiCommandKind::LightsFrontDoor => "lights_front_door"@,
        KomsiCommandKind::LightsSecondDoor => "lights_second_door"@,
        KomsiCommandKind::LightsStopRequest => "lights_stop_request"@,
        KomsiCommandKind::LightsStopBrake => "lights_stop_brake"@,
        KomsiCommandKind::LightsHighBeam => "lights_high_beam"@,
        KomsiCommandKind::BatteryLight => "batterylight"@,
        KomsiCommandKind::MaxSpeed => "maxspeed"@,
        KomsiCommandKind::Fuel => "fuel"@,
        KomsiCommandKind::Speed => "speed"@,
    }
}

/// What stands between the name and the old value: a colon and one space
/// for a category, a colon and two spaces for a magnitude.
pub open spec fn name_separator(kind: KomsiCommandKind) -> Seq<char> {
    if kind.spec_is_magnitude() {
        ":  "@
    } else {
        ": "@
    }
}

/// The line that reports one change: the name, the old value, an arrow,
/// the new value, a space.
pub open spec fn change_text(change: SignalChange) -> Seq<char> {
    signal_name(change.kind) + name_separator(change.kind) + decimal_text(change.old_value as nat)
        + " -> "@ + decimal_text(change.new_value as nat) + seq![' ']
}

/// A number reads in a line as it does on the wire: digit for digit, the
/// characters of its text are the bytes of its command frame.
pub proof fn decimal_text_matches_wire(n: nat)
    ensures
        decimal_text(n).len() == decimal_digits(n).len(),
        forall|i: int|
            0 <= i < decimal_text(n).len() ==> #[trigger] decimal_text(n)[i] as int
                == decimal_digits(n)[i] as int,
    decreases n,
{
    if n >= 10 {
        decimal_text_matches_wire(n / 10);
    }
}

/// The text of one decimal digit.
fn digit_text(digit: u64) -> (text: &'static str)
    requires
        digit < 10,
    ensures
        text@ == seq![digit_char(digit as nat)],
{
    proof {
        reveal_strlit("0");
        reveal_strlit("1");
        reveal_strlit("2");
        reveal_strlit("3");
        reveal_strlit("4");
        reveal_strlit("5");
        reveal_strlit("6");
        reveal_strlit("7");
        reveal_strlit("8");
        reveal_strlit("9");
    }
    let text = match digit {
        0 => "0",
        1 => "1",
        2 => "2",
        3 => "3",
        4 => "4",
        5 => "5",
        6 => "6",
        7 => "7",
        8 => "8",
        _ => "9",
    };
    assert(text@ =~= seq![digit_char(digit as nat)]);
    text
}

/// Appends the decimal text of `value` to `line`.
pub(crate) fn append_decimal(line: &mut String, value: u64)
    ensures
        final(line)@ == old(line)@ + decimal_text(value as nat),
    decreases value,
{
    if value >= 10 {
        append_decimal(line, value / 10);
    }
    line.append(digit_text(value % 10));
    assert(final(line)@ =~= old(line)@ + decimal_text(value as nat));
}

/// Appends a space to `line`.
fn append_space(line: &mut String)
    ensures
        final(line)@ == old(line)@ + seq![' '],
{
    proof {
        reveal_strlit(" ");
    }
    line.append(" ");
    assert(final(line)@ =~= old(line)@ + seq![' ']);
}

/// Appends one entry of the snapshot line.
fn append_labelled(line: &mut String, label: &str, value: u32)
    ensures
        final(line)@ == old(line)@ + labelled(label@, value as nat),
{
    line.append(label);
    append_decimal(line, value as u64);
    append_space(line);
    assert(final(line)@ =~= old(line)@ + labelled(label@, value as nat));
}

/// Writes a snapshot on one line, for a caller that shows it.
pub fn vehicle_state_line(v: &VehicleState) -> (line: String)
    ensures
        line@ == vehicle_state_text(*v),
{
    let mut line = String::new();
    append_labelled(&mut line, "ignition:", v.ignition as u32);
    assert(line@ =~= labelled("ignition:"@, v.ignition as nat));
    append_labelled(&mut line, "engine:", v.engine as u32);
    append_labelled(&mut line, "indicator:", v.indicator as u32);
    append_labelled(&mut line, "fuel:", v.fuel);
    append_labelled(&mut line, "warn:", v.lights_warning as u32);
    append_labelled(&mut line, "lights:", v.lights_main as u32);
    append_labelled(&mut line, "lights-highbeam:", v.lights_high_beam as u32);
    append_labelled(&mut line, "stop:", v.lights_stop_request as u32);
    append_labelled(&mut line, "fixingbrake:", v.fixing_brake as u32);
    append_labelled(&mut line, "stopbrake:", v.lights_stop_brake as u32);
    append_labelled(&mut line, "doors:", v.doors as u32);
    append_labelled(&mut line, "door1:", v.lights_front_door as u32);
    append_labelled(&mut line, "door2:", v.lights_second_door as u32);
    append_labelled(&mut line, "speed:", v.speed);
    append_labelled(&mut line, "maxspeed:", v.maxspeed);
    append_labelled(&mut line, "batterylight:", v.battery_light as u32);
    append_space(&mut line);
    line
}

/// The name under which a signal is reported.
pub fn name_of(kind: KomsiCommandKind) -> (name: &'static str)
    ensures
        name@ == signal_name(kind),
{
    match kind {
        KomsiCommandKind::Ignition => "ignition",
        KomsiCommandKind::Engine => "engine",
        KomsiCommandKind::PassengerDoorsOpen => "doors",
        KomsiCommandKind::Indicator => "indicator",
        KomsiCommandKind::FixingBrake => "fixing_brake",
        KomsiCommandKind::LightsWarning => "lights_warning",
        KomsiCommandKind::LightsMain => "lights_main",
        KomsiCommandKind::LightsFrontDoor => "lights_front_door",
        KomsiCommandKind::LightsSecondDoor => "lights_second_door",
        KomsiCommandKind::LightsStopRequest => "lights_stop_request",
        KomsiCommandKind::LightsStopBrake => "lights_stop_brake",
        KomsiCommandKind::LightsHighBeam => "lights_high_beam",
        KomsiCommandKind::BatteryLight => "batterylight",
        KomsiCommandKind::MaxSpeed => "maxspeed",
        KomsiCommandKind::Fuel => "fuel",
        KomsiCommandKind::Speed => "speed",
    }
}

/// Writes the line that reports one change, for a caller that is asked to
/// be verbose.
pub fn change_line(change: &SignalChange) -> (line: String)
    ensures
        line@ == change_text(*change),
{
    let mut line = String::new();
    line.append(name_of(change.kind));
    if change.kind.is_magnitude() {
        line.append(":  ");
    } else {
        line.append(": ");
    }
    assert(line@ =~= signal_name(change.kind) + name_separator(change.kind));
    append_decimal(&mut line, change.old_value as u64);
    line.append(" -> ");
    append_decimal(&mut line, change.new_value as u64);
    append_space(&mut line);
    line
}

/// The line that reports the opening of the device: the name of the port
/// between quotes, as it is, and the baud rate.
pub open spec fn port_opened_text(portname: Seq<char>, baudrate: nat) -> Seq<char> {
    "Port \""@ + portname + "\" geöffnet mit "@ + decimal_text(baudrate) + " baud."@
}

/// The line that reports a failed opening of the device.
pub open spec fn open_failed_text(portname: Seq<char>, reason: Seq<char>) -> Seq<char> {
    "Failed to open serial port "@ + portname + ": "@ + reason
}

/// The line of a notice of the link; `Quiet` has none.
pub open spec fn notice_text(
    notice: LinkNotice,
    portname: Seq<char>,
    baudrate: nat,
    reason: Seq<char>,
) -> Option<Seq<char>> {
    match notice {
        LinkNotice::Quiet => None,
        LinkNotice::PortOpened => Some(port_opened_text(portname, baudrate)),
        LinkNotice::OpenFailed => Some(open_failed_text(portname, reason)),
        LinkNotice::WriteFailed => Some("Error writing to port: "@ + reason),
        LinkNotice::PollFailed => Some("Error checking bytes to read: "@ + reason),
        LinkNotice::ReadFailed => Some("Error reading from port: "@ + reason),
    }
}

/// What a mark adds to the echo: the prefix of a run, a byte as the
/// character of its number, the end of the line.
pub open spec fn echo_text(mark: EchoMark) -> Seq<char> {
    match mark {
        EchoMark::Silent => Seq::empty(),
        EchoMark::Begin => "REC: "@,
        EchoMark::Byte(byte) => seq![byte as char],
        EchoMark::End => "\n"@,
    }
}

/// `String::push` of std appends one character to the end of a string.
pub assume_specification[ String::push ](text: &mut String, ch: char)
    ensures
        final(text)@ == old(text)@.push(ch),
;

/// Writes the line that reports the opening of the device.
pub fn port_opened_line(portname: &str, baudrate: u32) -> (line: String)
    ensures
        line@ == port_opened_text(portname@, baudrate as nat),
{
    let mut line = String::new();
    line.append("Port \"");
    line.append(portname);
    line.append("\" geöffnet mit ");
    assert(line@ =~= "Port \""@ + portname@ + "\" geöffnet mit "@);
    append_decimal(&mut line, baudrate as u64);
    line.append(" baud.");
    line
}

/// Writes the line that reports a failed opening of the device.
pub fn open_failed_line(portname: &str, reason: &str) -> (line: String)
    ensures
        line@ == open_failed_text(portname@, reason@),
{
    let mut line = String::new();
    line.append("Failed to open serial port ");
    line.append(portname);
    assert(line@ =~= "Failed to open serial port "@ + portname@);
    line.append(": ");
    line.append(reason);
    line
}

/// Writes a line that ends in the reason of a failure.
fn reasoned_line(head: &str, reason: &str) -> (line: String)
    ensures
        line@ == head@ + reason@,
{
    let mut line = String::new();
    line.append(head);
    line.append(reason);
    assert(line@ =~= head@ + reason@);
    line
}

/// Writes the line of a notice of the link, for a caller that shows it.
/// `reason` is what the device gave as the reason of a failure.
pub fn notice_line(notice: LinkNotice, portname: &str, baudrate: u32, reason: &str) -> (line: Option<String>)
    ensures
        text_of(line) == notice_text(notice, portname@, baudrate as nat, reason@),
{
    match notice {
        LinkNotice::Quiet => None,
        LinkNotice::PortOpened => Some(port_opened_line(portname, baudrate)),
        LinkNotice::OpenFailed => Some(open_failed_line(portname, reason)),
        LinkNotice::WriteFailed => Some(reasoned_line("Error writing to port: ", reason)),
        LinkNotice::PollFailed => Some(reasoned_line("Error checking bytes to read: ", reason)),
        LinkNotice::ReadFailed => Some(reasoned_line("Error reading from port: ", reason)),
    }
}

/// Writes what a mark adds to the echo.
pub fn echo_piece(mark: EchoMark) -> (piece: String)
    ensures
        piece@ == echo_text(mark),
{
    let mut piece = String::new();
    match mark {
        EchoMark::Silent => {},
        EchoMark::Begin => {
            piece.append("REC: ");
        },
        EchoMark::Byte(byte) => {
            piece.push(byte as char);
        },
        EchoMark::End => {
            piece.append("\n");
        },
    }
    assert(piece@ =~= echo_text(mark));
    piece
}

} // verus!
