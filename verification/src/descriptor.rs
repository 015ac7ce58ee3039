//! Choice of the device and of its bulk endpoints from what enumeration and
//! the descriptors say.
use vstd::prelude::*;

use crate::cmd::PicobootError;

verus! {

/// Vendor and product id of an enumerated device.
#[derive(Debug, Clone, Copy, PartialEq, Eq, Structural)]
pub struct DeviceId {
    pub vendor_id: u16,
    pub product_id: u16,
}

/// Direction of an endpoint, seen from the host.
#[derive(Debug, Clone, Copy, PartialEq, Eq, Structural)]
pub enum Direction {
    In,
    Out,
}

/// Transfer type of an endpoint.
#[derive(Debug, Clone, Copy, PartialEq, Eq, Structural)]
pub enum TransferType {
    Control,
    Isochronous,
    Bulk,
    Interrupt,
}

/// One endpoint of an interface setting.
#[derive(Debug, Clone, Copy, PartialEq, Eq, Structural)]
pub struct EndpointDescriptor {
    pub address: u8,
    pub direction: Direction,
    pub transfer_type: TransferType,
}

/// One alternate setting of an interface.
#[derive(Debug, Clone)]
pub struct InterfaceDescriptor {
    pub interface_number: u8,
    pub setting_number: u8,
    pub class_code: u8,
    pub sub_class_code: u8,
    pub protocol_code: u8,
    pub endpoints: Vec<EndpointDescriptor>,
}

/// An interface: its alternate settings, in descriptor order.
#[derive(Debug, Clone)]
pub struct Interface {
    pub descriptors: Vec<InterfaceDescriptor>,
}

/// A configuration of the device.
#[derive(Debug, Clone)]
pub struct ConfigDescriptor {
    pub number: u8,
    pub interfaces: Vec<Interface>,
}

/// What is asked of an endpoint and of the interface setting that holds it.
pub struct EndpointFilter {
    pub class: u8,
    pub subclass: u8,
    pub protocol: u8,
    pub direction: Direction,
    pub transfer_type: TransferType,
}

/// Where the bulk endpoints of the PICOBOOT interface are.
#[derive(Debug, Clone, Copy, PartialEq, Eq, Structural)]
pub struct EndpointBinding {
    pub cfg: u8,
    pub iface: u8,
    pub setting: u8,
    pub in_addr: u8,
    pub out_addr: u8,
}

/// Whether `k` is the first device with the id `want`. A device whose
/// descriptor could not be read stands as `None` and is never one.
pub open spec fn is_first_device(devices: Seq<Option<DeviceId>>, want: DeviceId, k: int) -> bool {
    &&& 0 <= k < devices.len()
    &&& devices[k] == Some(want)
    &&& forall|j: int| 0 <= j < k ==> devices[j] != Some(want)
}

/// Index of the first device with the id `want`, if there is one.
pub open spec fn first_device(devices: Seq<Option<DeviceId>>, want: DeviceId) -> Option<int> {
    if exists|k: int| is_first_device(devices, want, k) {
        Some(choose|k: int| is_first_device(devices, want, k))
    } else {
        None
    }
}

/// There is at most one first device.
pub proof fn lemma_first_device_unique(devices: Seq<Option<DeviceId>>, want: DeviceId, k: int)
    requires
        is_first_device(devices, want, k),
    ensures
        first_device(devices, want) == Some(k),
{
    let c = choose|c: int| is_first_device(devices, want, c);
    assert(is_first_device(devices, want, c));
    assert(c == k) by {
        if c < k {
            assert(devices[c] != Some(want));
        }
        if k < c {
            assert(devices[k] != Some(want));
        }
    }
}

/// Whether the four indices name an endpoint of `configs`.
pub open spec fn in_bounds(configs: Seq<ConfigDescriptor>, c: int, i: int, s: int, e: int) -> bool {
    &&& 0 <= c < configs.len()
    &&& 0 <= i < configs[c].interfaces@.len()
    &&& 0 <= s < configs[c].interfaces@[i].descriptors@.len()
    &&& 0 <= e < configs[c].interfaces@[i].descriptors@[s].endpoints@.len()
}

/// Whether the interface setting has the class, subclass and protocol that
/// the filter asks for.
pub open spec fn setting_matches(alt: InterfaceDescriptor, f: EndpointFilter) -> bool {
    alt.class_code == f.class && alt.sub_class_code == f.subclass && alt.protocol_code
        == f.protocol
}

/// Whether the endpoint has the direction and transfer type that the filter
/// asks for.
pub open spec fn endpoint_matches(ep: EndpointDescriptor, f: EndpointFilter) -> bool {
    ep.direction == f.direction && ep.transfer_type == f.transfer_type
}

/// Whether the four indices name an endpoint that the filter accepts.
pub open spec fn hit(
    configs: Seq<ConfigDescriptor>,
    f: EndpointFilter,
    c: int,
    i: int,
    s: int,
    e: int,
) -> bool {
    &&& in_bounds(configs, c, i, s, e)
    &&& setting_matches(configs[c].interfaces@[i].descriptors@[s], f)
    &&& endpoint_matches(configs[c].interfaces@[i].descriptors@[s].endpoints@[e], f)
}

/// Order of the walk: configurations, then interfaces, then settings, then
/// endpoints.
pub open spec fn precedes(c1: int, i1: int, s1: int, e1: int, c2: int, i2: int, s2: int, e2: int)
    -> bool {
    c1 < c2 || (c1 == c2 && (i1 < i2 || (i1 == i2 && (s1 < s2 || (s1 == s2 && e1 < e2)))))
}

/// Whether nothing before the given place in the walk is accepted.
pub open spec fn none_before(
    configs: Seq<ConfigDescriptor>,
    f: EndpointFilter,
    c: int,
    i: int,
    s: int,
    e: int,
) -> bool {
    forall|c2: int, i2: int, s2: int, e2: int|
        precedes(c2, i2, s2, e2, c, i, s, e) ==> !#[trigger] hit(configs, f, c2, i2, s2, e2)
}

/// Whether the four indices name the first endpoint that the filter accepts.
pub open spec fn is_first_hit(
    configs: Seq<ConfigDescriptor>,
    f: EndpointFilter,
    c: int,
    i: int,
    s: int,
    e: int,
) -> bool {
    hit(configs, f, c, i, s, e) && none_before(configs, f, c, i, s, e)
}

/// What is reported of the endpoint at the four indices: the numbers of its
/// configuration, interface and setting, and its address.
pub open spec fn located(configs: Seq<ConfigDescriptor>, c: int, i: int, s: int, e: int) -> (
    u8,
    u8,
    u8,
    u8,
) {
    let alt = configs[c].interfaces@[i].descriptors@[s];
    (configs[c].number, alt.interface_number, alt.setting_number, alt.endpoints@[e].address)
}

/// The first endpoint in the walk that the filter accepts, if there is one.
pub open spec fn first_endpoint(configs: Seq<ConfigDescriptor>, f: EndpointFilter) -> Option<
    (u8, u8, u8, u8),
> {
    if exists|c: int, i: int, s: int, e: int| is_first_hit(configs, f, c, i, s, e) {
        let (c, i, s, e) = choose|c: int, i: int, s: int, e: int|
            is_first_hit(configs, f, c, i, s, e);
        Some(located(configs, c, i, s, e))
    } else {
        None
    }
}

/// There is at most one first accepted endpoint.
pub proof fn lemma_first_hit_unique(
    configs: Seq<ConfigDescriptor>,
    f: EndpointFilter,
    c: int,
    i: int,
    s: int,
    e: int,
)
    requires
        is_first_hit(configs, f, c, i, s, e),
    ensures
        first_endpoint(configs, f) == Some(located(configs, c, i, s, e)),
{
    let (c2, i2, s2, e2) = choose|c2: int, i2: int, s2: int, e2: int|
        is_first_hit(configs, f, c2, i2, s2, e2);
    assert(is_first_hit(configs, f, c2, i2, s2, e2));
    assert(hit(configs, f, c2, i2, s2, e2));
    assert(hit(configs, f, c, i, s, e));
    assert(!precedes(c2, i2, s2, e2, c, i, s, e));
    assert(!precedes(c, i, s, e, c2, i2, s2, e2));
    assert(c2 == c && i2 == i && s2 == s && e2 == e);
}

/// Where nothing in the whole walk is accepted, there is no first endpoint.
pub proof fn lemma_no_hit(configs: Seq<ConfigDescriptor>, f: EndpointFilter)
    requires
        none_before(configs, f, configs.len() as int, 0, 0, 0),
    ensures
        first_endpoint(configs, f) is None,
{
    assert forall|c: int, i: int, s: int, e: int| !is_first_hit(configs, f, c, i, s, e) by {
        if hit(configs, f, c, i, s, e) {
            assert(precedes(c, i, s, e, configs.len() as int, 0, 0, 0));
        }
    }
}

/// Finds the first device with the given vendor and product id.
///
/// `devices` holds the enumerated devices in order, `None` standing for one
/// whose descriptor could not be read.
pub fn open_device(devices: &Vec<Option<DeviceId>>, vid: u16, pid: u16) -> (r: Option<usize>)
    ensures
        r == match first_device(devices@, DeviceId { vendor_id: vid, product_id: pid }) {
            Some(k) => Some(k as usize),
            None => None,
        },
        r matches Some(k) ==> is_first_device(
            devices@,
            DeviceId { vendor_id: vid, product_id: pid },
            k as int,
        ),
        r is None ==> forall|j: int|
            0 <= j < devices@.len() ==> devices@[j] != Some(
                DeviceId { vendor_id: vid, product_id: pid },
            ),
{
    let ghost want = DeviceId { vendor_id: vid, product_id: pid };
    let mut k: usize = 0;
    while k < devices.len()
        invariant
            k <= devices@.len(),
            want == (DeviceId { vendor_id: vid, product_id: pid }),
            forall|j: int| 0 <= j < k ==> devices@[j] != Some(want),
        decreases devices@.len() - k,
    {
        match &devices[k] {
            Some(d) => {
                if d.vendor_id == vid && d.product_id == pid {
                    proof {
                        lemma_first_device_unique(devices@, want, k as int);
                    }
                    return Some(k);
                }
            },
            None => {},
        }
        k += 1;
    }
    assert(first_device(devices@, want) is None);
    None
}

/// Finds the first endpoint with the given direction and transfer type in
/// an interface setting of the given class, subclass and protocol.
///
/// Walks every configuration, every interface and every alternate setting
/// in order, and returns the numbers of the configuration, the interface
/// and the setting, and the endpoint's address.
pub fn get_endpoint(
    configs: &Vec<ConfigDescriptor>,
    class: u8,
    subclass: u8,
    protocol: u8,
    direction: Direction,
    transfer_type: TransferType,
) -> (r: Option<(u8, u8, u8, u8)>)
    ensures
        r == first_endpoint(
            configs@,
            EndpointFilter { class, subclass, protocol, direction, transfer_type },
        ),
        r matches Some(found) ==> exists|c: int, i: int, s: int, e: int|
            #[trigger] is_first_hit(
                configs@,
                EndpointFilter { class, subclass, protocol, direction, transfer_type },
                c,
                i,
                s,
                e,
            ) && found == located(configs@, c, i, s, e),
        r is None ==> forall|c: int, i: int, s: int, e: int|
            !#[trigger] hit(
                configs@,
                EndpointFilter { class, subclass, protocol, direction, transfer_type },
                c,
                i,
                s,
                e,
            ),
{
    let ghost f = EndpointFilter { class, subclass, protocol, direction, transfer_type };
    let mut c: usize = 0;
    while c < configs.len()
        invariant
            c <= configs@.len(),
            f == (EndpointFilter { class, subclass, protocol, direction, transfer_type }),
            none_before(configs@, f, c as int, 0, 0, 0),
        decreases configs@.len() - c,
    {
        let config = &configs[c];
        let mut i: usize = 0;
        while i < config.interfaces.len()
            invariant
                c < configs@.len(),
                *config == configs@[c as int],
                i <= config.interfaces@.len(),
                f == (EndpointFilter { class, subclass, protocol, direction, transfer_type }),
                none_before(configs@, f, c as int, i as int, 0, 0),
            decreases config.interfaces@.len() - i,
        {
            let iface = &config.interfaces[i];
            let mut s: usize = 0;
            while s < iface.descriptors.len()
                invariant
                    c < configs@.len(),
                    *config == configs@[c as int],
                    i < config.interfaces@.len(),
                    *iface == config.interfaces@[i as int],
                    s <= iface.descriptors@.len(),
                    f == (EndpointFilter { class, subclass, protocol, direction, transfer_type }),
                    none_before(configs@, f, c as int, i as int, s as int, 0),
                decreases iface.descriptors@.len() - s,
            {
                let alt = &iface.descriptors[s];
                if alt.class_code == class && alt.sub_class_code == subclass && alt.protocol_code
                    == protocol {
                    let mut e: usize = 0;
                    while e < alt.endpoints.len()
                        invariant
                            c < configs@.len(),
                            *config == configs@[c as int],
                            i < config.interfaces@.len(),
                            *iface == config.interfaces@[i as int],
                            s < iface.descriptors@.len(),
                            *alt == iface.descriptors@[s as int],
                            setting_matches(*alt, f),
                            e <= alt.endpoints@.len(),
                            f == (EndpointFilter {
                                class,
                                subclass,
                                protocol,
                                direction,
                                transfer_type,
                            }),
                            none_before(configs@, f, c as int, i as int, s as int, e as int),
                        decreases alt.endpoints@.len() - e,
                    {
                        let ep = &alt.endpoints[e];
                        if ep.direction == direction && ep.transfer_type == transfer_type {
                            proof {
                                assert(is_first_hit(
                                    configs@,
                                    f,
                                    c as int,
                                    i as int,
                                    s as int,
                                    e as int,
                                ));
                                lemma_first_hit_unique(
                                    configs@,
                                    f,
                                    c as int,
                                    i as int,
                                    s as int,
                                    e as int,
                                );
                            }
                            return Some(
                                (
                                    config.number,
                                    alt.interface_number,
                                    alt.setting_number,
                                    ep.address,
                                ),
                            );
                        }
                        e += 1;
                    }
                }
                s += 1;
            }
            i += 1;
        }
        c += 1;
    }
    proof {
        lemma_no_hit(configs@, f);
        assert forall|c2: int, i2: int, s2: int, e2: int| !#[trigger] hit(
            configs@,
            f,
            c2,
            i2,
            s2,
            e2,
        ) by {
            if hit(configs@, f, c2, i2, s2, e2) {
                assert(precedes(c2, i2, s2, e2, configs@.len() as int, 0, 0, 0));
            }
        }
    }
    None
}

/// How the two walks combine: both endpoints must be found, and in the same
/// configuration, interface and setting.
pub open spec fn spec_bind(
    ep_in: Option<(u8, u8, u8, u8)>,
    ep_out: Option<(u8, u8, u8, u8)>,
) -> Result<EndpointBinding, PicobootError> {
    match (ep_in, ep_out) {
        (Some((c1, i1, s1, in_addr)), Some((c2, i2, s2, out_addr))) => {
            if c1 == c2 && i1 == i2 && s1 == s2 {
                Ok(EndpointBinding { cfg: c2, iface: i2, setting: s2, in_addr, out_addr })
            } else {
                Err(PicobootError::UsbEndpointsUnexpected)
            }
        },
        _ => Err(PicobootError::UsbEndpointsNotFound),
    }
}

/// The bulk endpoints that `find_bulk_endpoints` reports.
pub open spec fn spec_find_bulk_endpoints(
    configs: Seq<ConfigDescriptor>,
    class: u8,
    subclass: u8,
    protocol: u8,
) -> Result<EndpointBinding, PicobootError> {
    spec_bind(
        first_endpoint(
            configs,
            EndpointFilter {
                class,
                subclass,
                protocol,
                direction: Direction::In,
                transfer_type: TransferType::Bulk,
            },
        ),
        first_endpoint(
            configs,
            EndpointFilter {
                class,
                subclass,
                protocol,
                direction: Direction::Out,
                transfer_type: TransferType::Bulk,
            },
        ),
    )
}

/// Combines the results of the walk for the bulk IN and for the bulk OUT
/// endpoint.
pub fn bind_endpoints(ep_in: Option<(u8, u8, u8, u8)>, ep_out: Option<(u8, u8, u8, u8)>) -> (r:
    Result<EndpointBinding, PicobootError>)
    ensures
        r == spec_bind(ep_in, ep_out),
        (ep_in is None || ep_out is None) <==> r == Err::<EndpointBinding, PicobootError>(
            PicobootError::UsbEndpointsNotFound,
        ),
{
    match (ep_in, ep_out) {
        (Some((c1, i1, s1, in_addr)), Some((c2, i2, s2, out_addr))) => {
            if c1 == c2 && i1 == i2 && s1 == s2 {
                Ok(EndpointBinding { cfg: c2, iface: i2, setting: s2, in_addr, out_addr })
            } else {
                Err(PicobootError::UsbEndpointsUnexpected)
            }
        },
        _ => Err(PicobootError::UsbEndpointsNotFound),
    }
}

/// Locates the bulk IN and bulk OUT endpoints of the interface with the
/// given class, subclass and protocol.
pub fn find_bulk_endpoints(configs: &Vec<ConfigDescriptor>, class: u8, subclass: u8, protocol: u8)
    -> (r: Result<EndpointBinding, PicobootError>)
    ensures
        r == spec_find_bulk_endpoints(configs@, class, subclass, protocol),
{
    let e1 = get_endpoint(configs, class, subclass, protocol, Direction::In, TransferType::Bulk);
    let e2 = get_endpoint(configs, class, subclass, protocol, Direction::Out, TransferType::Bulk);
    bind_endpoints(e1, e2)
}

} // verus!
