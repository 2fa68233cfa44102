use vstd::prelude::*;
use crate::text::{decode, same_text, spells, text_of};

verus! {

/// The settings of a connection profile that the backend knows, as far as the
/// daemon reads them.
#[derive(Clone, Debug, PartialEq, Eq)]
pub struct ConnectionSettings {
    /// The kind of connection, in the backend's words.
    pub kind: String,
    /// The profile's SSID, as bytes; empty where it has none.
    pub ssid: Vec<u8>,
    /// The wireless mode, in the backend's words.
    pub mode: String,
}

/// The settings of a profile, as mathematical values.
pub struct ConnectionSettingsView {
    pub kind: Seq<char>,
    pub ssid: Seq<u8>,
    pub mode: Seq<char>,
}

impl View for ConnectionSettings {
    type V = ConnectionSettingsView;

    open spec fn view(&self) -> ConnectionSettingsView {
        ConnectionSettingsView { kind: self.kind@, ssid: self.ssid@, mode: self.mode@ }
    }
}

impl DeepView for ConnectionSettings {
    type V = ConnectionSettingsView;

    open spec fn deep_view(&self) -> ConnectionSettingsView {
        self@
    }
}

/// Which profiles a sweep removes.
#[derive(Clone, Copy, Debug, PartialEq, Eq, Structural)]
pub enum Sweep {
    /// Hotspot profiles: those in access-point mode.
    AccessPointProfiles,
    /// Any wireless profile.
    WiFiProfiles,
}

/// A wireless profile.
pub open spec fn is_wifi(c: ConnectionSettingsView) -> bool {
    c.kind == "802-11-wireless"@
}

/// A wireless profile in access-point mode: a hotspot.
pub open spec fn is_access_point(c: ConnectionSettingsView) -> bool {
    is_wifi(c) && c.mode == "ap"@
}

/// The profile's SSID is text, and reads `ssid`.
pub open spec fn has_ssid(c: ConnectionSettingsView, ssid: Seq<char>) -> bool {
    text_of(c.ssid) == Some(ssid)
}

/// Whether a sweep of this kind for `ssid` removes the profile.
pub open spec fn is_swept(c: ConnectionSettingsView, sweep: Sweep, ssid: Seq<char>) -> bool {
    has_ssid(c, ssid) && match sweep {
        Sweep::AccessPointProfiles => is_access_point(c),
        Sweep::WiFiProfiles => is_wifi(c),
    }
}

/// The first place at or after `from` whose profile the sweep removes.
pub open spec fn next_swept(
    connections: Seq<ConnectionSettingsView>,
    from: int,
    sweep: Sweep,
    ssid: Seq<char>,
) -> Option<int>
    decreases connections.len() - from,
{
    if from < 0 || from >= connections.len() {
        None
    } else if is_swept(connections[from], sweep, ssid) {
        Some(from)
    } else {
        next_swept(connections, from + 1, sweep, ssid)
    }
}

/// `next_swept` gives the first profile to remove from `from` on, and nothing
/// where none is left.
pub proof fn lemma_next_swept(
    connections: Seq<ConnectionSettingsView>,
    from: int,
    sweep: Sweep,
    ssid: Seq<char>,
)
    requires
        0 <= from,
    ensures
        match next_swept(connections, from, sweep, ssid) {
            Some(i) => {
                &&& from <= i < connections.len()
                &&& is_swept(connections[i], sweep, ssid)
                &&& forall|j: int| from <= j < i ==> !is_swept(#[trigger] connections[j], sweep, ssid)
            },
            None => forall|j: int|
                from <= j < connections.len() ==> !is_swept(#[trigger] connections[j], sweep, ssid),
        },
    decreases connections.len() - from,
{
    if from < connections.len() && !is_swept(connections[from], sweep, ssid) {
        lemma_next_swept(connections, from + 1, sweep, ssid);
    }
}

/// Whether the profile is a wireless one.
pub fn is_wifi_connection(connection: &ConnectionSettings) -> (yes: bool)
    ensures
        yes == is_wifi(connection@),
{
    same_text(connection.kind.as_str(), "802-11-wireless")
}

/// Whether the profile is a hotspot: wireless, and in access-point mode.
pub fn is_access_point_connection(connection: &ConnectionSettings) -> (yes: bool)
    ensures
        yes == is_access_point(connection@),
{
    is_wifi_connection(connection) && same_text(connection.mode.as_str(), "ap")
}

/// The profile's SSID as text; nothing where its bytes are not text.
pub fn connection_ssid_as_str(connection: &ConnectionSettings) -> (name: Option<String>)
    ensures
        match name {
            Some(s) => text_of(connection.ssid@) == Some(s@),
            None => text_of(connection.ssid@) is None,
        },
{
    decode(connection.ssid.as_slice())
}

/// Whether the profile's SSID, read as text, is exactly `ssid`.
pub fn is_same_ssid(connection: &ConnectionSettings, ssid: &str) -> (yes: bool)
    ensures
        yes == has_ssid(connection@, ssid@),
{
    spells(connection.ssid.as_slice(), ssid)
}

/// The place of the first profile, from `from` on, that a sweep for `ssid`
/// removes.
pub fn find_swept(
    connections: &Vec<ConnectionSettings>,
    from: usize,
    sweep: Sweep,
    ssid: &str,
) -> (found: Option<usize>)
    ensures
        match found {
            Some(i) => next_swept(connections.deep_view(), from as int, sweep, ssid@) == Some(
                i as int,
            ) && from <= i < connections.len(),
            None => next_swept(connections.deep_view(), from as int, sweep, ssid@) is None,
        },
{
    let mut i: usize = from;
    while i < connections.len()
        invariant
            from <= i,
            next_swept(connections.deep_view(), from as int, sweep, ssid@) == next_swept(
                connections.deep_view(),
                i as int,
                sweep,
                ssid@,
            ),
        decreases connections.len() - i,
    {
        let connection = &connections[i];
        assert(connections.deep_view()[i as int] == connection@);
        let kind_fits = match sweep {
            Sweep::AccessPointProfiles => is_access_point_connection(connection),
            Sweep::WiFiProfiles => is_wifi_connection(connection),
        };
        if kind_fits && is_same_ssid(connection, ssid) {
            return Some(i);
        }
        i += 1;
    }
    None
}

} // verus!
