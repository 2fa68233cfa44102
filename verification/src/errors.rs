use vstd::prelude::*;

verus! {

/// Why an operation of the provisioning daemon failed.
#[derive(Clone, Copy, Debug, PartialEq, Eq, Structural)]
pub enum ErrorKind {
    /// The command queue was disconnected.
    RecvNetworkCommand,
    /// The network list could not be handed to the configuration page.
    SendAccessPointSSIDs,
    /// The interface named in the configuration is not known to the backend.
    DeviceByInterface,
    /// The interface named in the configuration is not a wireless one.
    NotAWiFiDevice,
    /// The interface named in the configuration is not managed by the backend.
    UnmanagedDevice,
    /// No managed wireless device was found.
    NoWiFiDevice,
    /// A scan for access points failed.
    NoAccessPoints,
    /// The hotspot could not be created.
    CreateCaptivePortal,
    /// The hotspot could not be deactivated or deleted.
    StopAccessPoint,
    /// A hotspot profile left over from an earlier run could not be deleted.
    DeleteAccessPoint,
    /// The backend service could not be started.
    StartNetworkManager,
    /// The backend service was started but did not become active.
    StartActiveNetworkManager,
    /// The chosen network could not be joined.
    WiFiConnectionFailed,
    /// The DHCP/DNS helper process could not be started or stopped.
    Dnsmasq,
    /// Another request to the backend failed.
    NetworkManager,
}

} // verus!
