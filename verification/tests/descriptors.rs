use picoboot_rs::cmd::{PicobootError, TargetID};
use picoboot_rs::descriptor::{
    bind_endpoints, find_bulk_endpoints, get_endpoint, open_device, ConfigDescriptor, DeviceId,
    Direction, EndpointBinding, EndpointDescriptor, Interface, InterfaceDescriptor, TransferType,
};
use picoboot_rs::PicobootConnection;

fn dev(vendor_id: u16, product_id: u16) -> Option<DeviceId> {
    Some(DeviceId { vendor_id, product_id })
}

fn ep(address: u8, direction: Direction, transfer_type: TransferType) -> EndpointDescriptor {
    EndpointDescriptor { address, direction, transfer_type }
}

fn alt(
    interface_number: u8,
    setting_number: u8,
    class: (u8, u8, u8),
    endpoints: Vec<EndpointDescriptor>,
) -> InterfaceDescriptor {
    InterfaceDescriptor {
        interface_number,
        setting_number,
        class_code: class.0,
        sub_class_code: class.1,
        protocol_code: class.2,
        endpoints,
    }
}

/// A device as a Pico shows itself: mass storage on interface 0, PICOBOOT
/// on interface 1.
fn pico() -> Vec<ConfigDescriptor> {
    vec![ConfigDescriptor {
        number: 1,
        interfaces: vec![
            Interface {
                descriptors: vec![alt(
                    0,
                    0,
                    (0x08, 0x06, 0x50),
                    vec![
                        ep(0x81, Direction::In, TransferType::Bulk),
                        ep(0x02, Direction::Out, TransferType::Bulk),
                    ],
                )],
            },
            Interface {
                descriptors: vec![alt(
                    1,
                    0,
                    (0xFF, 0, 0),
                    vec![
                        ep(0x03, Direction::Out, TransferType::Bulk),
                        ep(0x84, Direction::In, TransferType::Bulk),
                    ],
                )],
            },
        ],
    }]
}

#[test]
fn open_device_takes_the_first_match() {
    let devices = vec![dev(1, 2), None, dev(0x2E8A, 0x000F), dev(0x2E8A, 0x0003), dev(0x2E8A, 0x000F)];
    assert_eq!(open_device(&devices, 0x2E8A, 0x000F), Some(2));
    assert_eq!(open_device(&devices, 0x2E8A, 0x0003), Some(3));
    assert_eq!(open_device(&devices, 1, 2), Some(0));
    assert_eq!(open_device(&devices, 2, 1), None);
    assert_eq!(open_device(&Vec::new(), 1, 2), None);
    assert_eq!(open_device(&vec![None, None], 0, 0), None);
}

#[test]
fn explicit_ids_decide_the_target() {
    let devices = vec![dev(0x2E8A, 0x000F), dev(0x2E8A, 0x0003), dev(0x1234, 0x5678)];
    assert!(matches!(
        PicobootConnection::select_device(&devices, Some((0x2E8A, 0x0003))),
        Ok((1, TargetID::Rp2040))
    ));
    assert!(matches!(
        PicobootConnection::select_device(&devices, Some((0x2E8A, 0x000F))),
        Ok((0, TargetID::Rp2350))
    ));
    assert!(matches!(
        PicobootConnection::select_device(&devices, Some((0x1234, 0x5678))),
        Ok((2, TargetID::Rp2350))
    ));
    assert!(matches!(
        PicobootConnection::select_device(&devices, Some((0x1234, 0x0003))),
        Err(PicobootError::UsbDeviceNotFound)
    ));
}

#[test]
fn auto_detect_tries_the_rp2040_first() {
    let both = vec![dev(0x2E8A, 0x000F), dev(0x2E8A, 0x0003)];
    assert!(matches!(
        PicobootConnection::select_device(&both, None),
        Ok((1, TargetID::Rp2040))
    ));
    let only_2350 = vec![dev(0x2E8A, 0x0004), dev(0x2E8A, 0x000F)];
    assert!(matches!(
        PicobootConnection::select_device(&only_2350, None),
        Ok((1, TargetID::Rp2350))
    ));
    let neither = vec![dev(0x2E8A, 0x0004), None];
    assert!(matches!(
        PicobootConnection::select_device(&neither, None),
        Err(PicobootError::UsbDeviceNotFound)
    ));
}

#[test]
fn endpoints_of_a_pico() {
    let configs = pico();
    assert_eq!(
        get_endpoint(&configs, 0xFF, 0, 0, Direction::In, TransferType::Bulk),
        Some((1, 1, 0, 0x84))
    );
    assert_eq!(
        get_endpoint(&configs, 0xFF, 0, 0, Direction::Out, TransferType::Bulk),
        Some((1, 1, 0, 0x03))
    );
    assert_eq!(
        get_endpoint(&configs, 0x08, 0x06, 0x50, Direction::In, TransferType::Bulk),
        Some((1, 0, 0, 0x81))
    );
    assert_eq!(get_endpoint(&configs, 0xFF, 0, 0, Direction::In, TransferType::Interrupt), None);
    assert_eq!(get_endpoint(&configs, 0xFF, 0, 1, Direction::In, TransferType::Bulk), None);
    assert_eq!(get_endpoint(&configs, 0xFF, 1, 0, Direction::In, TransferType::Bulk), None);
    assert_eq!(get_endpoint(&Vec::new(), 0xFF, 0, 0, Direction::In, TransferType::Bulk), None);
    assert_eq!(
        find_bulk_endpoints(&configs, 0xFF, 0, 0).unwrap(),
        EndpointBinding { cfg: 1, iface: 1, setting: 0, in_addr: 0x84, out_addr: 0x03 }
    );
}

#[test]
fn the_walk_goes_by_configuration_then_interface_then_setting_then_endpoint() {
    let configs = vec![
        ConfigDescriptor { number: 5, interfaces: vec![] },
        ConfigDescriptor {
            number: 7,
            interfaces: vec![
                Interface { descriptors: vec![] },
                Interface {
                    descriptors: vec![
                        alt(2, 0, (0xFF, 0, 0), vec![]),
                        alt(2, 1, (0xFF, 0, 1), vec![ep(0x85, Direction::In, TransferType::Bulk)]),
                        alt(
                            2,
                            2,
                            (0xFF, 0, 0),
                            vec![
                                ep(0x86, Direction::In, TransferType::Interrupt),
                                ep(0x87, Direction::In, TransferType::Bulk),
                                ep(0x88, Direction::In, TransferType::Bulk),
                            ],
                        ),
                    ],
                },
                Interface {
                    descriptors: vec![alt(
                        3,
                        0,
                        (0xFF, 0, 0),
                        vec![ep(0x01, Direction::Out, TransferType::Bulk)],
                    )],
                },
            ],
        },
        ConfigDescriptor {
            number: 9,
            interfaces: vec![Interface {
                descriptors: vec![alt(
                    0,
                    0,
                    (0xFF, 0, 0),
                    vec![ep(0x89, Direction::In, TransferType::Bulk)],
                )],
            }],
        },
    ];
    assert_eq!(
        get_endpoint(&configs, 0xFF, 0, 0, Direction::In, TransferType::Bulk),
        Some((7, 2, 2, 0x87))
    );
    assert_eq!(
        get_endpoint(&configs, 0xFF, 0, 0, Direction::Out, TransferType::Bulk),
        Some((7, 3, 0, 0x01))
    );
    assert_eq!(
        get_endpoint(&configs, 0xFF, 0, 0, Direction::In, TransferType::Interrupt),
        Some((7, 2, 2, 0x86))
    );
    assert!(matches!(
        find_bulk_endpoints(&configs, 0xFF, 0, 0),
        Err(PicobootError::UsbEndpointsUnexpected)
    ));
}

#[test]
fn a_missing_direction_is_reported() {
    let only_in = vec![ConfigDescriptor {
        number: 1,
        interfaces: vec![Interface {
            descriptors: vec![alt(
                0,
                0,
                (0xFF, 0, 0),
                vec![ep(0x81, Direction::In, TransferType::Bulk)],
            )],
        }],
    }];
    assert!(matches!(
        find_bulk_endpoints(&only_in, 0xFF, 0, 0),
        Err(PicobootError::UsbEndpointsNotFound)
    ));
    assert!(matches!(
        find_bulk_endpoints(&Vec::new(), 0xFF, 0, 0),
        Err(PicobootError::UsbEndpointsNotFound)
    ));
    assert!(matches!(
        PicobootConnection::new(TargetID::Rp2040, &only_in),
        Err(PicobootError::UsbEndpointsNotFound)
    ));
}

#[test]
fn binding_needs_one_interface_setting() {
    assert!(matches!(bind_endpoints(None, None), Err(PicobootError::UsbEndpointsNotFound)));
    assert!(matches!(
        bind_endpoints(Some((1, 1, 0, 0x81)), None),
        Err(PicobootError::UsbEndpointsNotFound)
    ));
    assert!(matches!(
        bind_endpoints(None, Some((1, 1, 0, 0x01))),
        Err(PicobootError::UsbEndpointsNotFound)
    ));
    for other in [(2, 1, 0, 0x01), (1, 2, 0, 0x01), (1, 1, 1, 0x01)] {
        assert!(matches!(
            bind_endpoints(Some((1, 1, 0, 0x81)), Some(other)),
            Err(PicobootError::UsbEndpointsUnexpected)
        ));
    }
    assert_eq!(
        bind_endpoints(Some((1, 2, 3, 0x81)), Some((1, 2, 3, 0x01))).unwrap(),
        EndpointBinding { cfg: 1, iface: 2, setting: 3, in_addr: 0x81, out_addr: 0x01 }
    );
}
