//! The switches that the bridge is started with, and what they let through
//! of the link's notices and of the echo.

use vstd::prelude::*;
use crate::transport::EchoMark;
use crate::transport::LinkNotice;

verus! {

/// The switches of the command line.
#[derive(Clone, Copy, Debug, PartialEq, Eq, Structural)]
pub struct Opts {
    /// Show what was sampled.
    pub debug: bool,
    /// Show the traffic on the serial link.
    pub debug_serial: bool,
    /// Show the commands.
    pub debug_command: bool,
    /// List the serial ports and stop.
    pub list: bool,
    /// Show what changed and what the link did.
    pub verbose: bool,
}

impl Opts {
    /// Whether a notice of the link is shown: a failure always, the
    /// opening of the device under `verbose`, and `Quiet` never.
    pub open spec fn shows(self, notice: LinkNotice) -> bool {
        match notice {
            LinkNotice::Quiet => false,
            LinkNotice::PortOpened => self.verbose,
            _ => true,
        }
    }

    /// Whether a notice of the link is to be shown.
    pub fn reports(&self, notice: LinkNotice) -> (shown: bool)
        ensures
            shown == self.shows(notice),
    {
        match notice {
            LinkNotice::Quiet => false,
            LinkNotice::PortOpened => self.verbose,
            LinkNotice::OpenFailed => true,
            LinkNotice::WriteFailed => true,
            LinkNotice::PollFailed => true,
            LinkNotice::ReadFailed => true,
        }
    }

    /// Whether a mark of the echo is shown: under `debug_serial`, unless it
    /// is `Silent`.
    pub open spec fn shows_echo(self, mark: EchoMark) -> bool {
        self.debug_serial && mark != EchoMark::Silent
    }

    /// Whether a mark of the echo is to be shown.
    pub fn echoes(&self, mark: EchoMark) -> (shown: bool)
        ensures
            shown == self.shows_echo(mark),
    {
        match mark {
            EchoMark::Silent => false,
            _ => self.debug_serial,
        }
    }
}

} // verus!
