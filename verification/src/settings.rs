//! The settings of the bridge, their defaults, and how they are taken from
//! a parsed configuration.

use vstd::prelude::*;
use configparser::ini::Ini;

verus! {

/// The baud rate used where none is configured.
pub const DEFAULT_BAUDRATE: u32 = 115200;

/// The time between two samples, in milliseconds, where none is configured.
pub const DEFAULT_SLEEPTIME: u64 = 200;

/// The time to wait after a sample that found no vehicle, in milliseconds.
pub const ERROR_SLEEPTIME: u64 = 1000;

/// The time between two polls of the reader, in milliseconds.
pub const READER_SLEEPTIME: u64 = 100;

/// What the bridge needs to know to run.
#[derive(Clone, Debug)]
pub struct Settings {
    pub baudrate: u32,
    pub sleeptime: u64,
    pub portname: String,
    pub clientip: String,
}

/// `configparser::ini::Ini`: a parsed configuration. Nothing of its inside
/// is known here; it is read through `Ini::get`, `Ini::getint` and
/// `Ini::defaults` only.
#[verifier::external_type_specification]
#[verifier::external_body]
pub struct ExIni(configparser::ini::Ini);

/// What `Ini::get` returns for a section and a key of a configuration:
/// the text stored there, if any.
pub uninterp spec fn ini_text(ini: Ini, section: Seq<char>, key: Seq<char>) -> Option<Seq<char>>;

/// What `Ini::getint` returns for a section and a key of a configuration:
/// the number that the stored text stands for, nothing where no text is
/// stored, or the reason why the text is no number.
pub uninterp spec fn ini_number(ini: Ini, section: Seq<char>, key: Seq<char>) -> Result<
    Option<i64>,
    Seq<char>,
>;

/// Whether a configuration cascades its defaults: the `cascade_defaults`
/// of what `Ini::defaults` returns for it.
pub uninterp spec fn ini_cascades(ini: Ini) -> bool;

/// `Ini::defaults` copies the options of a configuration; the switch
/// `cascade_defaults` of the copy is the one that the configuration was
/// given. It depends on the configuration alone, so it has a name; no more
/// is claimed of it.
#[verifier::external_body]
fn cascades(ini: &Ini) -> (on: bool)
    ensures
        on == ini_cascades(*ini),
{
    ini.defaults().cascade_defaults
}

/// `Ini::get` looks a key up in a section and returns a copy of the text
/// stored there. The lookup reads the configuration and its two arguments
/// and nothing else, so its result has a name; no more is claimed of it.
pub assume_specification[ Ini::get ](ini: &Ini, section: &str, key: &str) -> (value: Option<String>)
    ensures
        text_of(value) == ini_text(*ini, section@, key@),
;

/// `Ini::getint` looks a key up and parses the text stored there as an
/// `i64`; it returns the parser's message where that fails. The result
/// depends on the configuration and the two arguments alone, so it has a
/// name; no more is claimed of it. A configuration that cascades its
/// defaults is left out: for a key that is missing the function then calls
/// itself on the default section, and need not come back.
pub assume_specification[ Ini::getint ](ini: &Ini, section: &str, key: &str) -> (value: Result<Option<i64>, String>)
    requires
        !ini_cascades(*ini),
    ensures
        number_found(value) == ini_number(*ini, section@, key@),
;

/// The result of a lookup of a number, its message taken as plain text.
pub open spec fn number_found(value: Result<Option<i64>, String>) -> Result<Option<i64>, Seq<char>> {
    match value {
        Ok(number) => Ok(number),
        Err(why) => Err(why@),
    }
}

/// The text of a configured value, if there is one.
pub open spec fn text_of(value: Option<String>) -> Option<Seq<char>> {
    match value {
        Some(text) => Some(text@),
        None => None,
    }
}

/// The number that counts as configured: one that is missing or does not
/// parse counts as not configured.
pub open spec fn configured_number(found: Result<Option<i64>, Seq<char>>) -> Option<i64> {
    match found {
        Ok(number) => number,
        Err(_) => None,
    }
}

/// The number that a configuration gives for a key of its section
/// `default`. A configuration that cascades its defaults is not asked for
/// numbers: it counts as giving none.
pub open spec fn looked_up_number(ini: Ini, key: Seq<char>) -> Option<i64> {
    if ini_cascades(ini) {
        None
    } else {
        configured_number(ini_number(ini, "default"@, key))
    }
}

/// The settings for the values that a configuration holds: each value
/// that is there is taken, a number cut to the width of its setting; for
/// each that is missing the default stands: 115200 baud, 200 ms, port
/// `COM1`, host `127.0.0.1`.
pub open spec fn settings_of(
    baudrate: Option<i64>,
    sleeptime: Option<i64>,
    portname: Option<Seq<char>>,
    clientip: Option<Seq<char>>,
    settings: Settings,
) -> bool {
    &&& settings.baudrate == match baudrate {
        Some(value) => value as u32,
        None => DEFAULT_BAUDRATE,
    }
    &&& settings.sleeptime == match sleeptime {
        Some(value) => value as u64,
        None => DEFAULT_SLEEPTIME,
    }
    &&& settings.portname@ == match portname {
        Some(value) => value,
        None => "COM1"@,
    }
    &&& settings.clientip@ == match clientip {
        Some(value) => value,
        None => "127.0.0.1"@,
    }
}

/// Builds the settings from the values that a configuration holds.
pub fn resolve_settings(
    baudrate: Option<i64>,
    sleeptime: Option<i64>,
    portname: Option<String>,
    clientip: Option<String>,
) -> (settings: Settings)
    ensures
        settings_of(baudrate, sleeptime, text_of(portname), text_of(clientip), settings),
{
    let baud: u32 = match baudrate {
        Some(value) => #[verifier::truncate] (value as u32),
        None => DEFAULT_BAUDRATE,
    };
    let sleep: u64 = match sleeptime {
        Some(value) => #[verifier::truncate] (value as u64),
        None => DEFAULT_SLEEPTIME,
    };
    let port = match portname {
        Some(value) => value,
        None => String::from_str("COM1"),
    };
    let host = match clientip {
        Some(value) => value,
        None => String::from_str("127.0.0.1"),
    };
    Settings { baudrate: baud, sleeptime: sleep, portname: port, clientip: host }
}

/// The number found for a key, or nothing where it is missing or does not
/// parse.
pub fn number_or_default(found: Result<Option<i64>, String>) -> (number: Option<i64>)
    ensures
        number == configured_number(number_found(found)),
{
    match found {
        Ok(value) => value,
        Err(_) => None,
    }
}

/// Looks a number up in the section `default`, where the configuration can
/// be asked for one.
fn lookup_number(ini: &Ini, key: &str) -> (number: Option<i64>)
    ensures
        number == looked_up_number(*ini, key@),
{
    if cascades(ini) {
        None
    } else {
        number_or_default(ini.getint("default", key))
    }
}

/// Takes the settings from a parsed configuration: `baudrate`,
/// `sleeptime`, `portname` and `ip` of the section `default`, each with its
/// default where the configuration does not give it. The two numbers of a
/// configuration that cascades its defaults are not looked up: they take
/// their defaults.
pub fn settings_from_ini(ini: &Ini) -> (settings: Settings)
    ensures
        settings_of(
            looked_up_number(*ini, "baudrate"@),
            looked_up_number(*ini, "sleeptime"@),
            ini_text(*ini, "default"@, "portname"@),
            ini_text(*ini, "default"@, "ip"@),
            settings,
        ),
{
    let baudrate = lookup_number(ini, "baudrate");
    let sleeptime = lookup_number(ini, "sleeptime");
    let portname = ini.get("default", "portname");
    let clientip = ini.get("default", "ip");
    resolve_settings(baudrate, sleeptime, portname, clientip)
}

} // verus!
