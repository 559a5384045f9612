//! The Bluetooth feed: the adapter's power and the devices connected to it.
//!
//! The connected devices count as a set: the order in which the adapter
//! lists them is of no account.

use vstd::prelude::*;
use crate::socket::{Retry, RetryView};
use crate::text::same_bytes;

verus! {

/// Milliseconds between two samples.
pub const POLLING_INTERVAL: u64 = 500;

/// Milliseconds between two attempts to open the session.
pub const REBOOT_DELAY: u64 = 2500;

/// Attempts to open the session before the producer stops.
pub const MAX_ATTEMPT_RETRY: u32 = 10;

/// A connected device as a mathematical value.
pub struct DeviceView {
    pub name: Seq<char>,
    pub address: Seq<u8>,
}

#[derive(Debug)]
pub struct BluetoothDeviceInfo {
    pub name: String,
    /// The six bytes of the device's address.
    pub address: [u8; 6],
}

impl View for BluetoothDeviceInfo {
    type V = DeviceView;

    open spec fn view(&self) -> DeviceView {
        DeviceView { name: self.name@, address: self.address@ }
    }
}

impl Clone for BluetoothDeviceInfo {
    fn clone(&self) -> (copy: BluetoothDeviceInfo)
        ensures
            copy@ == self@,
    {
        BluetoothDeviceInfo { name: self.name.clone(), address: self.address }
    }
}

impl PartialEq for BluetoothDeviceInfo {
    fn eq(&self, other: &BluetoothDeviceInfo) -> (same: bool) {
        self.name == other.name && same_bytes(self.address.as_slice(), other.address.as_slice())
    }
}

impl vstd::std_specs::cmp::PartialEqSpecImpl for BluetoothDeviceInfo {
    open spec fn obeys_eq_spec() -> bool {
        true
    }

    open spec fn eq_spec(&self, other: &BluetoothDeviceInfo) -> bool {
        self.name@ == other.name@ && self.address@ == other.address@
    }
}

impl Eq for BluetoothDeviceInfo {

}

/// The devices of a list as mathematical values, in the list's order.
pub open spec fn spec_devices(list: Seq<BluetoothDeviceInfo>) -> Seq<DeviceView> {
    Seq::new(list.len(), |i: int| list[i]@)
}

/// A Bluetooth snapshot as a mathematical value.
pub struct BluetoothView {
    pub powered: bool,
    pub connected_devices: Set<DeviceView>,
}

#[derive(Debug)]
pub struct BluetoothInfo {
    pub powered: bool,
    pub connected_devices: Vec<BluetoothDeviceInfo>,
}

impl View for BluetoothInfo {
    type V = BluetoothView;

    open spec fn view(&self) -> BluetoothView {
        BluetoothView {
            powered: self.powered,
            connected_devices: spec_devices(self.connected_devices@).to_set(),
        }
    }
}

/// The name shown for a device that tells none.
pub open spec fn spec_device_name(name: Option<Seq<char>>) -> Seq<char> {
    match name {
        Some(name) => name,
        None => "Unknown device"@,
    }
}

/// Builds the entry of a connected device.
pub fn device_entry(name: Option<String>, address: [u8; 6]) -> (device: BluetoothDeviceInfo)
    ensures
        device@.name == spec_device_name(
            match name {
                Some(name) => Some(name@),
                None => None,
            },
        ),
        device@.address == address@,
{
    let name = match name {
        Some(name) => name,
        None => "Unknown device".to_owned(),
    };
    BluetoothDeviceInfo { name, address }
}

/// Copies a list of devices.
pub fn clone_devices(list: &Vec<BluetoothDeviceInfo>) -> (copy: Vec<BluetoothDeviceInfo>)
    ensures
        spec_devices(copy@) == spec_devices(list@),
{
    let mut copy: Vec<BluetoothDeviceInfo> = Vec::new();
    let mut index: usize = 0;
    while index < list.len()
        invariant
            index <= list@.len(),
            copy@.len() == index,
            forall|i: int| 0 <= i < index ==> copy@[i]@ == list@[i]@,
        decreases list.len() - index,
    {
        copy.push(list[index].clone());
        index += 1;
    }
    assert(spec_devices(copy@) =~= spec_devices(list@));
    copy
}

/// Whether `device` is in `list`.
pub fn contains_device(list: &Vec<BluetoothDeviceInfo>, device: &BluetoothDeviceInfo) -> (found:
    bool)
    ensures
        found == spec_devices(list@).contains(device@),
{
    let mut index: usize = 0;
    while index < list.len()
        invariant
            index <= list@.len(),
            forall|i: int| 0 <= i < index ==> spec_devices(list@)[i] != device@,
        decreases list.len() - index,
    {
        if list[index] == *device {
            assert(spec_devices(list@)[index as int] == device@);
            return true;
        }
        index += 1;
    }
    false
}

/// Whether every device of `part` is in `list`.
pub fn covers(list: &Vec<BluetoothDeviceInfo>, part: &Vec<BluetoothDeviceInfo>) -> (covered: bool)
    ensures
        covered == spec_devices(part@).to_set().subset_of(spec_devices(list@).to_set()),
{
    let mut index: usize = 0;
    while index < part.len()
        invariant
            index <= part@.len(),
            forall|i: int|
                0 <= i < index ==> spec_devices(list@).contains(#[trigger] spec_devices(part@)[i]),
        decreases part.len() - index,
    {
        if !contains_device(list, &part[index]) {
            assert(spec_devices(part@).to_set().contains(spec_devices(part@)[index as int]));
            return false;
        }
        index += 1;
    }
    true
}

/// Whether two lists hold the same devices, in whatever order.
pub fn same_devices(first: &Vec<BluetoothDeviceInfo>, second: &Vec<BluetoothDeviceInfo>) -> (same:
    bool)
    ensures
        same == (spec_devices(first@).to_set() == spec_devices(second@).to_set()),
{
    let same = covers(second, first) && covers(first, second);
    proof {
        if same {
            assert(spec_devices(first@).to_set() =~= spec_devices(second@).to_set());
        }
    }
    same
}

impl Default for BluetoothInfo {
    fn default() -> (info: BluetoothInfo)
        ensures
            info@ == (BluetoothView { powered: false, connected_devices: Set::empty() }),
    {
        let info = BluetoothInfo { powered: false, connected_devices: Vec::new() };
        assert(info@.connected_devices =~= Set::<DeviceView>::empty());
        info
    }
}

impl Clone for BluetoothInfo {
    fn clone(&self) -> (copy: BluetoothInfo)
        ensures
            copy@ == self@,
    {
        BluetoothInfo {
            powered: self.powered,
            connected_devices: clone_devices(&self.connected_devices),
        }
    }
}

impl PartialEq for BluetoothInfo {
    fn eq(&self, other: &BluetoothInfo) -> (same: bool) {
        self.powered == other.powered && same_devices(
            &self.connected_devices,
            &other.connected_devices,
        )
    }
}

impl vstd::std_specs::cmp::PartialEqSpecImpl for BluetoothInfo {
    open spec fn obeys_eq_spec() -> bool {
        true
    }

    open spec fn eq_spec(&self, other: &BluetoothInfo) -> bool {
        self.powered == other.powered && spec_devices(self.connected_devices@).to_set()
            == spec_devices(other.connected_devices@).to_set()
    }
}

impl Eq for BluetoothInfo {

}

/// What the producer does after it has read the adapter's power.
#[derive(Clone, Copy, Debug, PartialEq, Eq, Structural)]
pub struct PowerStep {
    /// Send the snapshot of an adapter without power to the subscribers.
    pub publish_default: bool,
    /// Go on and look up the connected devices.
    pub poll_devices: bool,
}

/// What the producer knows of the adapter, as a mathematical value.
pub struct ListenerView {
    pub powered: bool,
    pub devices: Set<DeviceView>,
}

/// The power and the devices that were seen last.
#[derive(Debug)]
pub struct BluetoothListener {
    pub powered: bool,
    pub devices: Vec<BluetoothDeviceInfo>,
}

impl View for BluetoothListener {
    type V = ListenerView;

    open spec fn view(&self) -> ListenerView {
        ListenerView { powered: self.powered, devices: spec_devices(self.devices@).to_set() }
    }
}

impl BluetoothListener {
    /// The state before the adapter was looked at: no power, no device.
    pub fn new() -> (listener: BluetoothListener)
        ensures
            listener@ == (ListenerView { powered: false, devices: Set::empty() }),
    {
        let listener = BluetoothListener { powered: false, devices: Vec::new() };
        assert(listener@.devices =~= Set::<DeviceView>::empty());
        listener
    }

    /// The schedule of the attempts to open the session.
    pub fn reconnect_schedule() -> (retry: Retry)
        ensures
            retry@ == (RetryView {
                max_attempt: MAX_ATTEMPT_RETRY,
                delay: Some(REBOOT_DELAY),
                made: 0,
                waited: 0,
            }),
    {
        Retry::new(MAX_ATTEMPT_RETRY, Some(REBOOT_DELAY))
    }

    /// The snapshot for a new subscriber: the devices seen last while the
    /// adapter has power, and the snapshot of an adapter without power else.
    pub fn snapshot(&self) -> (info: BluetoothInfo)
        ensures
            info@ == if self@.powered {
                BluetoothView { powered: true, connected_devices: self@.devices }
            } else {
                BluetoothView { powered: false, connected_devices: Set::empty() }
            },
    {
        if self.powered {
            BluetoothInfo { powered: true, connected_devices: clone_devices(&self.devices) }
        } else {
            BluetoothInfo::default()
        }
    }

    /// Takes note of the adapter's power. The snapshot of an adapter without
    /// power is published when the power has just gone, and the devices are
    /// looked up only while there is power.
    pub fn handle_power_state(&mut self, powered: bool) -> (step: PowerStep)
        ensures
            step.publish_default == (old(self)@.powered && !powered),
            step.poll_devices == powered,
            final(self)@.powered == powered,
            final(self)@.devices == old(self)@.devices,
    {
        let publish_default = self.powered && !powered;
        self.powered = powered;
        PowerStep { publish_default, poll_devices: powered }
    }

    /// Takes note of the devices that are connected now. They are published
    /// when they are other devices than those seen last.
    pub fn handle_connected_devices(&mut self, devices: Vec<BluetoothDeviceInfo>) -> (publish:
        bool)
        ensures
            publish == (old(self)@.devices != spec_devices(devices@).to_set()),
            final(self)@.devices == spec_devices(devices@).to_set(),
            final(self)@.powered == old(self)@.powered,
    {
        if same_devices(&self.devices, &devices) {
            return false;
        }
        self.devices = devices;
        true
    }
}

} // verus!
