use vstd::prelude::*;

verus! {

/// The settings of the daemon that its decisions depend on.
#[derive(Clone, Debug, PartialEq, Eq)]
pub struct Config {
    /// The interface to use; where none is named the first managed wireless
    /// device is taken.
    pub interface: Option<String>,
    /// The SSID of the portal's hotspot.
    pub ssid: String,
    /// The seconds after which an unused portal gives up; 0 for never.
    pub activity_timeout: u64,
}

/// The interface that a configuration names, as text.
pub open spec fn interface_text(interface: Option<String>) -> Option<Seq<char>> {
    match interface {
        Some(name) => Some(name@),
        None => None,
    }
}

} // verus!
