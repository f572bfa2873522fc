//! The listing of the serial ports of the machine, as text.

use vstd::prelude::*;
use crate::report::append_decimal;
use crate::report::decimal_text;

verus! {

/// How a serial port is attached.
#[derive(Clone, Debug, PartialEq, Eq)]
pub enum PortKind {
    Usb { manufacturer: Option<String>, product: Option<String> },
    Bluetooth,
    Pci,
    Unknown,
}

/// One serial port of the machine.
#[derive(Clone, Debug, PartialEq, Eq)]
pub struct PortEntry {
    pub name: String,
    pub kind: PortKind,
}

/// The text of a detail that may be missing: empty where it is.
pub open spec fn detail_text(detail: Option<String>) -> Seq<char> {
    match detail {
        Some(text) => text@,
        None => Seq::empty(),
    }
}

/// The first line of the listing: how many ports were found.
pub open spec fn headline_text(count: nat) -> Seq<char> {
    if count == 0 {
        "Kein port gefunden."@
    } else if count == 1 {
        "1 port gefunden:"@
    } else {
        decimal_text(count) + " ports gefunden:"@
    }
}

/// What the listing says of how a port is attached.
pub open spec fn kind_text(kind: PortKind) -> Seq<char> {
    match kind {
        PortKind::Usb { manufacturer, product } => " Typ: USB"@ + "   Hersteller: "@ + detail_text(
            manufacturer,
        ) + "   Produkt: "@ + detail_text(product),
        PortKind::Bluetooth => "    Typ: Bluetooth"@,
        PortKind::Pci => "    Typ: PCI"@,
        PortKind::Unknown => "    Typ: Unknown"@,
    }
}

/// The line of one port: two spaces, its name, how it is attached.
pub open spec fn port_text(entry: PortEntry) -> Seq<char> {
    "  "@ + entry.name@ + kind_text(entry.kind)
}

/// Writes the first line of the listing for the number of ports found.
pub fn ports_headline(count: usize) -> (line: String)
    ensures
        line@ == headline_text(count as nat),
{
    let mut line = String::new();
    if count == 0 {
        line.append("Kein port gefunden.");
    } else if count == 1 {
        line.append("1 port gefunden:");
    } else {
        append_decimal(&mut line, count as u64);
        line.append(" ports gefunden:");
    }
    assert(line@ =~= headline_text(count as nat));
    line
}

/// Appends a detail that may be missing.
fn append_detail(line: &mut String, detail: &Option<String>)
    ensures
        final(line)@ == old(line)@ + detail_text(*detail),
{
    match detail {
        Some(text) => {
            line.append(text.as_str());
        },
        None => {
            assert(line@ =~= old(line)@ + Seq::<char>::empty());
        },
    }
}

/// Writes the line of one port.
pub fn port_line(entry: &PortEntry) -> (line: String)
    ensures
        line@ == port_text(*entry),
{
    let mut line = String::new();
    line.append("  ");
    line.append(entry.name.as_str());
    match &entry.kind {
        PortKind::Usb { manufacturer, product } => {
            line.append(" Typ: USB");
            line.append("   Hersteller: ");
            append_detail(&mut line, manufacturer);
            line.append("   Produkt: ");
            append_detail(&mut line, product);
        },
        PortKind::Bluetooth => {
            line.append("    Typ: Bluetooth");
        },
        PortKind::Pci => {
            line.append("    Typ: PCI");
        },
        PortKind::Unknown => {
            line.append("    Typ: Unknown");
        },
    }
    assert(line@ =~= port_text(*entry));
    line
}

} // verus!
