//! The KOMSI command codec.
//!
//! A command frame is one command code (an ASCII letter) followed by the
//! value in decimal text. A line feed ends a transmission and tells the
//! receiver to apply everything it has buffered.

use vstd::prelude::*;

verus! {

/// The byte that ends a transmission (ASCII line feed).
pub const KOMSI_EOL: u8 = 10;

/// The command code that announces the simulator (ASCII `O`).
pub const KOMSI_SIMULATOR_TYPE: u8 = 79;

/// The simulator number announced to the device.
pub const KOMSI_SIMULATOR_THE_BUS: u8 = 1;

/// The signals that can be sent to the instrument cluster, one per field of
/// the vehicle state.
#[derive(Clone, Copy, Debug, PartialEq, Eq, Structural)]
pub enum KomsiCommandKind {
    Ignition,
    Engine,
    PassengerDoorsOpen,
    Indicator,
    FixingBrake,
    LightsWarning,
    LightsMain,
    LightsFrontDoor,
    LightsSecondDoor,
    LightsStopRequest,
    LightsStopBrake,
    LightsHighBeam,
    BatteryLight,
    MaxSpeed,
    Fuel,
    Speed,
}

impl KomsiCommandKind {
    /// The command code of a signal on the wire.
    pub open spec fn spec_code(self) -> u8 {
        match self {
            KomsiCommandKind::Ignition => 65,
            KomsiCommandKind::Engine => 66,
            KomsiCommandKind::PassengerDoorsOpen => 67,
            KomsiCommandKind::Indicator => 68,
            KomsiCommandKind::FixingBrake => 69,
            KomsiCommandKind::LightsWarning => 70,
            KomsiCommandKind::LightsMain => 71,
            KomsiCommandKind::LightsFrontDoor => 72,
            KomsiCommandKind::LightsSecondDoor => 73,
            KomsiCommandKind::LightsStopRequest => 75,
            KomsiCommandKind::LightsStopBrake => 76,
            KomsiCommandKind::LightsHighBeam => 77,
            KomsiCommandKind::BatteryLight => 78,
            KomsiCommandKind::MaxSpeed => 115,
            KomsiCommandKind::Fuel => 120,
            KomsiCommandKind::Speed => 121,
        }
    }

    /// Whether the signal is a magnitude (speed, allowed speed, fuel) and
    /// not a category.
    pub open spec fn spec_is_magnitude(self) -> bool {
        self == KomsiCommandKind::MaxSpeed || self == KomsiCommandKind::Fuel || self
            == KomsiCommandKind::Speed
    }

    /// Whether the signal is a magnitude (speed, allowed speed, fuel) and
    /// not a category.
    #[verifier::when_used_as_spec(spec_is_magnitude)]
    pub fn is_magnitude(self) -> (wide: bool)
        ensures
            wide == self.spec_is_magnitude(),
    {
        match self {
            KomsiCommandKind::MaxSpeed => true,
            KomsiCommandKind::Fuel => true,
            KomsiCommandKind::Speed => true,
            _ => false,
        }
    }

    /// The command code of a signal on the wire.
    #[verifier::when_used_as_spec(spec_code)]
    pub fn code(self) -> (c: u8)
        ensures
            c == self.spec_code(),
    {
        match self {
            KomsiCommandKind::Ignition => 65,
            KomsiCommandKind::Engine => 66,
            KomsiCommandKind::PassengerDoorsOpen => 67,
            KomsiCommandKind::Indicator => 68,
            KomsiCommandKind::FixingBrake => 69,
            KomsiCommandKind::LightsWarning => 70,
            KomsiCommandKind::LightsMain => 71,
            KomsiCommandKind::LightsFrontDoor => 72,
            KomsiCommandKind::LightsSecondDoor => 73,
            KomsiCommandKind::LightsStopRequest => 75,
            KomsiCommandKind::LightsStopBrake => 76,
            KomsiCommandKind::LightsHighBeam => 77,
            KomsiCommandKind::BatteryLight => 78,
            KomsiCommandKind::MaxSpeed => 115,
            KomsiCommandKind::Fuel => 120,
            KomsiCommandKind::Speed => 121,
        }
    }
}

/// Whether a byte is an ASCII decimal digit.
pub open spec fn is_digit(b: u8) -> bool {
    48 <= b <= 57
}

/// Whether a byte is an ASCII letter. Every command code is one; no digit
/// and no end-of-transmission marker is.
pub open spec fn is_command_code(b: u8) -> bool {
    65 <= b <= 90 || 97 <= b <= 122
}

/// The decimal text of a number: most significant digit first, no leading
/// zero, `"0"` for zero.
pub open spec fn decimal_digits(n: nat) -> Seq<u8>
    decreases n,
{
    if n < 10 {
        seq![(48 + n) as u8]
    } else {
        decimal_digits(n / 10).push((48 + n % 10) as u8)
    }
}

/// The number that a decimal text stands for.
pub open spec fn decimal_value(digits: Seq<u8>) -> nat
    decreases digits.len(),
{
    if digits.len() == 0 {
        0
    } else {
        (10 * decimal_value(digits.drop_last()) + (digits.last() - 48)) as nat
    }
}

/// The frame of one command: its code, then the value in decimal text.
pub open spec fn command_frame(kind: KomsiCommandKind, value: nat) -> Seq<u8> {
    seq![kind.spec_code()] + decimal_digits(value)
}

/// The frame that announces the simulator to the device, transmission end
/// included.
pub open spec fn identity_frame() -> Seq<u8> {
    (seq![KOMSI_SIMULATOR_TYPE] + decimal_digits(KOMSI_SIMULATOR_THE_BUS as nat)).push(KOMSI_EOL)
}

/// Decimal text is never empty and holds digits only.
pub proof fn decimal_digits_are_digits(n: nat)
    ensures
        decimal_digits(n).len() >= 1,
        forall|i: int| 0 <= i < decimal_digits(n).len() ==> is_digit(#[trigger] decimal_digits(n)[i]),
    decreases n,
{
    if n >= 10 {
        decimal_digits_are_digits(n / 10);
    }
}

/// Decimal text is unambiguous: reading it back gives the number that was
/// written.
pub proof fn decimal_digits_round_trip(n: nat)
    ensures
        decimal_value(decimal_digits(n)) == n,
    decreases n,
{
    if n < 10 {
        let d = decimal_digits(n);
        assert(d.drop_last().len() == 0);
        assert(decimal_value(d.drop_last()) == 0);
    } else {
        decimal_digits_round_trip(n / 10);
        let d = decimal_digits(n);
        assert(d.drop_last() =~= decimal_digits(n / 10));
    }
}

/// Every command code is a letter, so a frame starts with the only byte in
/// it that is neither a digit nor the end-of-transmission marker.
pub proof fn command_codes_are_letters(kind: KomsiCommandKind)
    ensures
        is_command_code(kind.spec_code()),
        !is_digit(kind.spec_code()),
        kind.spec_code() != KOMSI_EOL,
{
}

/// Two signals with the same command code are the same signal.
pub proof fn command_codes_are_distinct(a: KomsiCommandKind, b: KomsiCommandKind)
    ensures
        a.spec_code() == b.spec_code() <==> a == b,
{
}

/// Appends the decimal text of `value` to `buffer`.
fn push_decimal(buffer: &mut Vec<u8>, value: u32)
    ensures
        final(buffer)@ == old(buffer)@ + decimal_digits(value as nat),
    decreases value,
{
    if value >= 10 {
        push_decimal(buffer, value / 10);
    }
    let digit: u8 = (value % 10) as u8;
    buffer.push(48 + digit);
    assert(final(buffer)@ =~= old(buffer)@ + decimal_digits(value as nat));
}

/// Encodes a magnitude signal as one command frame.
pub fn build_komsi_command(cmd: KomsiCommandKind, wert: u32) -> (frame: Vec<u8>)
    ensures
        frame@ == command_frame(cmd, wert as nat),
{
    let mut buffer: Vec<u8> = Vec::new();
    buffer.push(cmd.code());
    push_decimal(&mut buffer, wert);
    assert(buffer@ =~= command_frame(cmd, wert as nat));
    buffer
}

/// Encodes a category signal as one command frame.
pub fn build_komsi_command_u8(cmd: KomsiCommandKind, wert: u8) -> (frame: Vec<u8>)
    ensures
        frame@ == command_frame(cmd, wert as nat),
{
    let wide: u32 = wert as u32;
    build_komsi_command(cmd, wide)
}

/// The end-of-transmission marker.
pub fn build_komsi_command_eol() -> (marker: Vec<u8>)
    ensures
        marker@ == seq![KOMSI_EOL],
{
    let mut buffer: Vec<u8> = Vec::new();
    buffer.push(KOMSI_EOL);
    assert(buffer@ =~= seq![KOMSI_EOL]);
    buffer
}

/// The frame that announces the simulator: sent once after every opening of
/// the device, before any state command.
pub fn build_komsi_command_identity() -> (frame: Vec<u8>)
    ensures
        frame@ == identity_frame(),
        frame@ == seq![79u8, 49u8, 10u8],
{
    let mut buffer: Vec<u8> = Vec::new();
    buffer.push(KOMSI_SIMULATOR_TYPE);
    push_decimal(&mut buffer, KOMSI_SIMULATOR_THE_BUS as u32);
    buffer.push(KOMSI_EOL);
    assert(buffer@ =~= identity_frame());
    assert(identity_frame() =~= seq![79u8, 49u8, 10u8]);
    buffer
}

} // verus!
