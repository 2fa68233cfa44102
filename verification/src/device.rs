use vstd::prelude::*;
use crate::errors::ErrorKind;

verus! {

/// The kind of a network device.
#[derive(Clone, Copy, Debug, PartialEq, Eq, Structural)]
pub enum DeviceType {
    WiFi,
    Ethernet,
    Other,
}

/// The state in which the backend holds a device.
#[derive(Clone, Copy, Debug, PartialEq, Eq, Structural)]
pub enum DeviceState {
    Unmanaged,
    Unavailable,
    Disconnected,
    Activated,
    Other,
}

/// A network device as the backend reports it. `state` is nothing where the
/// backend could not tell the device's state.
#[derive(Clone, Debug, PartialEq, Eq)]
pub struct Device {
    pub interface: String,
    pub device_type: DeviceType,
    pub state: Option<DeviceState>,
}

/// A device, as mathematical values.
pub struct DeviceView {
    pub interface: Seq<char>,
    pub device_type: DeviceType,
    pub state: Option<DeviceState>,
}

impl View for Device {
    type V = DeviceView;

    open spec fn view(&self) -> DeviceView {
        DeviceView { interface: self.interface@, device_type: self.device_type, state: self.state }
    }
}

impl DeepView for Device {
    type V = DeviceView;

    open spec fn deep_view(&self) -> DeviceView {
        self@
    }
}

/// A device that can carry the portal: wireless, and managed by the backend.
pub open spec fn is_usable(d: DeviceView) -> bool {
    d.device_type == DeviceType::WiFi && d.state is Some && d.state != Some(DeviceState::Unmanaged)
}

/// A wireless device whose state the backend could not tell.
pub open spec fn is_unreadable(d: DeviceView) -> bool {
    d.device_type == DeviceType::WiFi && d.state is None
}

/// The verdict on the device that the configuration names.
pub open spec fn named_device_verdict(d: DeviceView) -> Result<(), ErrorKind> {
    if d.device_type != DeviceType::WiFi {
        Err(ErrorKind::NotAWiFiDevice)
    } else {
        match d.state {
            None => Err(ErrorKind::NetworkManager),
            Some(DeviceState::Unmanaged) => Err(ErrorKind::UnmanagedDevice),
            Some(_) => Ok(()),
        }
    }
}

/// Validates the device that the configuration names: it must be a wireless
/// device, and the backend must manage it.
pub fn check_named_device(device: &Device) -> (verdict: Result<(), ErrorKind>)
    ensures
        verdict == named_device_verdict(device@),
        verdict is Ok <==> is_usable(device@),
{
    match device.device_type {
        DeviceType::WiFi => match device.state {
            None => Err(ErrorKind::NetworkManager),
            Some(DeviceState::Unmanaged) => Err(ErrorKind::UnmanagedDevice),
            Some(_) => Ok(()),
        },
        _ => Err(ErrorKind::NotAWiFiDevice),
    }
}

/// The first of `devices`, in the order of enumeration, that is wireless and
/// managed. The search fails where it comes upon a wireless device whose state
/// cannot be told before it has found one.
pub open spec fn first_usable(devices: Seq<DeviceView>) -> Result<Option<int>, ErrorKind>
    decreases devices.len(),
{
    if devices.len() == 0 {
        Ok(None)
    } else if is_unreadable(devices[0]) {
        Err(ErrorKind::NetworkManager)
    } else if is_usable(devices[0]) {
        Ok(Some(0))
    } else {
        match first_usable(devices.drop_first()) {
            Ok(Some(i)) => Ok(Some(i + 1)),
            Ok(None) => Ok(None),
            Err(e) => Err(e),
        }
    }
}

/// What `first_usable` finds: the device at the place it gives is usable and
/// none before it is wireless with a state other than unmanaged; it gives no
/// place where no device is usable; it fails where the first wireless device
/// that is not known to be unmanaged has a state that cannot be told.
pub proof fn lemma_first_usable(devices: Seq<DeviceView>)
    ensures
        match first_usable(devices) {
            Ok(Some(i)) => {
                &&& 0 <= i < devices.len()
                &&& is_usable(devices[i])
                &&& forall|j: int|
                    0 <= j < i ==> !is_usable(#[trigger] devices[j]) && !is_unreadable(devices[j])
            },
            Ok(None) => forall|j: int|
                0 <= j < devices.len() ==> !is_usable(#[trigger] devices[j]) && !is_unreadable(
                    devices[j],
                ),
            Err(e) => e == ErrorKind::NetworkManager && exists|i: int|
                0 <= i < devices.len() && is_unreadable(#[trigger] devices[i]) && forall|j: int|
                    0 <= j < i ==> !is_usable(#[trigger] devices[j]) && !is_unreadable(devices[j]),
        },
    decreases devices.len(),
{
    if devices.len() > 0 {
        if is_unreadable(devices[0]) {
            assert(is_unreadable(devices[0]));
        } else if !is_usable(devices[0]) {
            let rest = devices.drop_first();
            lemma_first_usable(rest);
            match first_usable(rest) {
                Ok(Some(i)) => {
                    assert(rest[i] == devices[i + 1]);
                    assert forall|j: int| 0 <= j < i + 1 implies !is_usable(#[trigger] devices[j])
                        && !is_unreadable(devices[j]) by {
                        if j > 0 {
                            assert(rest[j - 1] == devices[j]);
                        }
                    }
                },
                Ok(None) => {
                    assert forall|j: int| 0 <= j < devices.len() implies !is_usable(
                        #[trigger] devices[j],
                    ) && !is_unreadable(devices[j]) by {
                        if j > 0 {
                            assert(rest[j - 1] == devices[j]);
                        }
                    }
                },
                Err(e) => {
                    let i = choose|i: int|
                        0 <= i < rest.len() && is_unreadable(#[trigger] rest[i]) && forall|j: int|
                            0 <= j < i ==> !is_usable(#[trigger] rest[j]) && !is_unreadable(
                                rest[j],
                            );
                    assert(rest[i] == devices[i + 1]);
                    assert(is_unreadable(devices[i + 1]));
                    assert forall|j: int| 0 <= j < i + 1 implies !is_usable(#[trigger] devices[j])
                        && !is_unreadable(devices[j]) by {
                        if j > 0 {
                            assert(rest[j - 1] == devices[j]);
                        }
                    }
                },
            }
        }
    }
}

/// Picks the device for the portal among those that the backend enumerates:
/// the first that is wireless and managed.
pub fn find_wifi_managed_device(devices: &Vec<Device>) -> (found: Result<Option<usize>, ErrorKind>)
    ensures
        match found {
            Ok(Some(i)) => first_usable(devices.deep_view()) == Ok::<Option<int>, ErrorKind>(
                Some(i as int),
            ) && i < devices.len(),
            Ok(None) => first_usable(devices.deep_view()) == Ok::<Option<int>, ErrorKind>(None),
            Err(e) => first_usable(devices.deep_view()) == Err::<Option<int>, ErrorKind>(e),
        },
{
    let mut i: usize = 0;
    proof {
        lemma_first_usable(devices.deep_view());
    }
    while i < devices.len()
        invariant
            i <= devices.len(),
            forall|j: int|
                0 <= j < i ==> !is_usable(#[trigger] devices.deep_view()[j]) && !is_unreadable(
                    devices.deep_view()[j],
                ),
        decreases devices.len() - i,
    {
        let device = &devices[i];
        assert(devices.deep_view()[i as int] == device@);
        proof {
            lemma_first_usable(devices.deep_view());
        }
        match device.device_type {
            DeviceType::WiFi => match device.state {
                None => {
                    proof {
                        lemma_first_usable_is_determined(devices.deep_view(), i as int);
                    }
                    return Err(ErrorKind::NetworkManager);
                },
                Some(DeviceState::Unmanaged) => {},
                Some(_) => {
                    proof {
                        lemma_first_usable_is_determined(devices.deep_view(), i as int);
                    }
                    return Ok(Some(i));
                },
            },
            _ => {},
        }
        i += 1;
    }
    proof {
        lemma_first_usable(devices.deep_view());
        let ds = devices.deep_view();
        match first_usable(ds) {
            Ok(Some(k)) => {
                assert(is_usable(ds[k]));
            },
            Ok(None) => {},
            Err(e) => {
                let k = choose|k: int|
                    0 <= k < ds.len() && is_unreadable(#[trigger] ds[k]) && forall|j: int|
                        0 <= j < k ==> !is_usable(#[trigger] ds[j]) && !is_unreadable(ds[j]);
                assert(is_unreadable(ds[k]));
            },
        }
    }
    Ok(None)
}

/// The search is decided at the first device that is usable or unreadable.
proof fn lemma_first_usable_is_determined(devices: Seq<DeviceView>, i: int)
    requires
        0 <= i < devices.len(),
        is_usable(devices[i]) || is_unreadable(devices[i]),
        forall|j: int|
            0 <= j < i ==> !is_usable(#[trigger] devices[j]) && !is_unreadable(devices[j]),
    ensures
        is_usable(devices[i]) ==> first_usable(devices) == Ok::<Option<int>, ErrorKind>(Some(i)),
        is_unreadable(devices[i]) ==> first_usable(devices) == Err::<Option<int>, ErrorKind>(
            ErrorKind::NetworkManager,
        ),
    decreases i,
{
    if i > 0 {
        let rest = devices.drop_first();
        assert(rest[i - 1] == devices[i]);
        assert forall|j: int| 0 <= j < i - 1 implies !is_usable(#[trigger] rest[j])
            && !is_unreadable(rest[j]) by {
            assert(rest[j] == devices[j + 1]);
        }
        lemma_first_usable_is_determined(rest, i - 1);
        assert(!is_usable(devices[0]) && !is_unreadable(devices[0]));
    }
}

} // verus!
