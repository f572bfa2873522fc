use the_bus_2_komsi::serial::port_line;
use the_bus_2_komsi::serial::ports_headline;
use the_bus_2_komsi::serial::PortEntry;
use the_bus_2_komsi::serial::PortKind;

#[test]
fn test_headline_without_ports() {
    assert_eq!(ports_headline(0), "Kein port gefunden.");
}

#[test]
fn test_headline_with_one_port() {
    assert_eq!(ports_headline(1), "1 port gefunden:");
}

#[test]
fn test_headline_with_several_ports() {
    assert_eq!(ports_headline(2), "2 ports gefunden:");
    assert_eq!(ports_headline(10), "10 ports gefunden:");
    assert_eq!(ports_headline(305), "305 ports gefunden:");
    assert_eq!(ports_headline(usize::MAX), format!("{} ports gefunden:", usize::MAX));
}

#[test]
fn test_line_of_usb_port() {
    let entry = PortEntry {
        name: "/dev/ttyUSB0".to_string(),
        kind: PortKind::Usb {
            manufacturer: Some("FTDI".to_string()),
            product: Some("FT232R".to_string()),
        },
    };
    assert_eq!(
        port_line(&entry),
        "  /dev/ttyUSB0 Typ: USB   Hersteller: FTDI   Produkt: FT232R"
    );
}

#[test]
fn test_line_of_usb_port_without_details() {
    let entry = PortEntry {
        name: "COM4".to_string(),
        kind: PortKind::Usb { manufacturer: None, product: Some("Nano".to_string()) },
    };
    assert_eq!(port_line(&entry), "  COM4 Typ: USB   Hersteller:    Produkt: Nano");
    let entry = PortEntry {
        name: "COM4".to_string(),
        kind: PortKind::Usb { manufacturer: None, product: None },
    };
    assert_eq!(port_line(&entry), "  COM4 Typ: USB   Hersteller:    Produkt: ");
}

#[test]
fn test_line_of_other_ports() {
    let entry = PortEntry { name: "COM1".to_string(), kind: PortKind::Pci };
    assert_eq!(port_line(&entry), "  COM1    Typ: PCI");
    let entry = PortEntry { name: "rfcomm0".to_string(), kind: PortKind::Bluetooth };
    assert_eq!(port_line(&entry), "  rfcomm0    Typ: Bluetooth");
    let entry = PortEntry { name: "ttyS0".to_string(), kind: PortKind::Unknown };
    assert_eq!(port_line(&entry), "  ttyS0    Typ: Unknown");
}
