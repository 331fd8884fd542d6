//! Device selection: resolve the managed Wi-Fi interface the portal and
//! every scan will run on.  The choice is made once at startup over a
//! snapshot of the network service's device list.

use vstd::prelude::*;

use crate::errors::ErrorKind;
use crate::text::str_eq;

verus! {

/// What the core reads of one network device: its interface name, whether
/// it is a Wi-Fi device, and whether the network service manages it.
#[derive(Clone, Debug)]
pub struct DeviceInfo {
    pub interface: String,
    pub is_wifi: bool,
    pub managed: bool,
}

/// Ghost mirror of [`DeviceInfo`].
#[verifier::ext_equal]
pub struct DeviceInfoView {
    pub interface: Seq<char>,
    pub is_wifi: bool,
    pub managed: bool,
}

impl View for DeviceInfo {
    type V = DeviceInfoView;

    open spec fn view(&self) -> DeviceInfoView {
        DeviceInfoView {
            interface: self.interface@,
            is_wifi: self.is_wifi,
            managed: self.managed,
        }
    }
}

impl DeepView for DeviceInfo {
    type V = DeviceInfoView;

    open spec fn deep_view(&self) -> DeviceInfoView {
        self.view()
    }
}

/// A device the locator accepts when no interface was requested.
pub open spec fn wifi_managed(d: DeviceInfoView) -> bool {
    d.is_wifi && d.managed
}

/// First managed Wi-Fi device of the list, if any.
#[verifier::loop_isolation(false)]
pub fn find_wifi_managed_device(devices: &Vec<DeviceInfo>) -> (r: Option<usize>)
    ensures
        match r {
            Some(i) => {
                &&& i < devices.deep_view().len()
                &&& wifi_managed(devices.deep_view()[i as int])
                &&& forall|j: int| 0 <= j < i ==> !wifi_managed(#[trigger] devices.deep_view()[j])
            },
            None => forall|j: int|
                0 <= j < devices.deep_view().len() ==> !wifi_managed(
                    #[trigger] devices.deep_view()[j],
                ),
        },
{
    let n = devices.len();
    let mut i: usize = 0;
    while i < n
        invariant
            n == devices.deep_view().len(),
            i <= n,
            forall|j: int| 0 <= j < i ==> !wifi_managed(#[trigger] devices.deep_view()[j]),
        decreases n - i,
    {
        if devices[i].is_wifi && devices[i].managed {
            assert(wifi_managed(devices.deep_view()[i as int]));
            return Some(i);
        }
        assert(!wifi_managed(devices.deep_view()[i as int]));
        i += 1;
    }
    None
}

/// Resolve the device to provision on.
///
/// With a requested interface name, the device carrying exactly that name
/// is chosen; it is an error when no device carries it, when it is not a
/// Wi-Fi device, or when the service does not manage it.  Without a
/// requested name, the first managed Wi-Fi device is chosen; it is an
/// error when none exists.
#[verifier::loop_isolation(false)]
pub fn find_device(devices: &Vec<DeviceInfo>, interface: &Option<String>) -> (r: Result<
    usize,
    ErrorKind,
>)
    ensures
        match interface {
            Some(name) => match r {
                Ok(i) => {
                    &&& i < devices.deep_view().len()
                    &&& devices.deep_view()[i as int].interface == name@
                    &&& forall|j: int|
                        0 <= j < i ==> #[trigger] devices.deep_view()[j].interface != name@
                    &&& devices.deep_view()[i as int].is_wifi
                    &&& devices.deep_view()[i as int].managed
                },
                Err(ErrorKind::DeviceByInterface) => forall|j: int|
                    0 <= j < devices.deep_view().len()
                        ==> #[trigger] devices.deep_view()[j].interface != name@,
                Err(ErrorKind::NotAWiFiDevice) => exists|i: int|
                    {
                        &&& 0 <= i < devices.deep_view().len()
                        &&& #[trigger] devices.deep_view()[i].interface == name@
                        &&& !devices.deep_view()[i].is_wifi
                        &&& forall|j: int|
                            0 <= j < i ==> #[trigger] devices.deep_view()[j].interface != name@
                    },
                Err(ErrorKind::UnmanagedDevice) => exists|i: int|
                    {
                        &&& 0 <= i < devices.deep_view().len()
                        &&& #[trigger] devices.deep_view()[i].interface == name@
                        &&& devices.deep_view()[i].is_wifi
                        &&& !devices.deep_view()[i].managed
                        &&& forall|j: int|
                            0 <= j < i ==> #[trigger] devices.deep_view()[j].interface != name@
                    },
                _ => false,
            },
            None => match r {
                Ok(i) => {
                    &&& i < devices.deep_view().len()
                    &&& wifi_managed(devices.deep_view()[i as int])
                    &&& forall|j: int| 0 <= j < i ==> !wifi_managed(#[trigger] devices.deep_view()[j])
                },
                Err(ErrorKind::NoWiFiDevice) => forall|j: int|
                    0 <= j < devices.deep_view().len() ==> !wifi_managed(
                        #[trigger] devices.deep_view()[j],
                    ),
                _ => false,
            },
        },
{
    match interface {
        Some(name) => {
            let n = devices.len();
            let mut i: usize = 0;
            while i < n
                invariant
                    n == devices.deep_view().len(),
                    i <= n,
                    forall|j: int|
                        0 <= j < i ==> #[trigger] devices.deep_view()[j].interface != name@,
                decreases n - i,
            {
                if str_eq(devices[i].interface.as_str(), name.as_str()) {
                    assert(devices.deep_view()[i as int].interface == name@);
                    if !devices[i].is_wifi {
                        assert(!devices.deep_view()[i as int].is_wifi);
                        return Err(ErrorKind::NotAWiFiDevice);
                    }
                    if !devices[i].managed {
                        assert(!devices.deep_view()[i as int].managed);
                        return Err(ErrorKind::UnmanagedDevice);
                    }
                    return Ok(i);
                }
                assert(devices.deep_view()[i as int].interface != name@);
                i += 1;
            }
            Err(ErrorKind::DeviceByInterface)
        },
        None => match find_wifi_managed_device(devices) {
            Some(i) => Ok(i),
            None => Err(ErrorKind::NoWiFiDevice),
        },
    }
}

} // verus!
