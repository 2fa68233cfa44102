use vstd::prelude::*;
use vstd::utf8::*;
use crate::text::decode;

verus! {

/// No security capability.
pub const SECURITY_NONE: u32 = 0b0000;

/// WEP is supported.
pub const SECURITY_WEP: u32 = 0b0001;

/// WPA is supported.
pub const SECURITY_WPA: u32 = 0b0010;

/// WPA2 is supported.
pub const SECURITY_WPA2: u32 = 0b0100;

/// Enterprise (802.1X) authentication is supported.
pub const SECURITY_ENTERPRISE: u32 = 0b1000;

/// The security capability set of an access point: one bit per capability.
/// The flags are not mutually exclusive.
#[derive(Clone, Copy, Debug, PartialEq, Eq, Structural)]
pub struct Security {
    pub bits: u32,
}

impl Security {
    /// Whether every bit of `flag` is set.
    pub open spec fn has(self, flag: u32) -> bool {
        self.bits & flag == flag
    }

    /// The capability set with exactly these bits.
    pub fn from_bits(bits: u32) -> (security: Security)
        ensures
            security.bits == bits,
    {
        Security { bits }
    }

    /// Whether every bit of `flag` is set.
    pub fn contains(&self, flag: u32) -> (held: bool)
        ensures
            held == self.has(flag),
    {
        self.bits & flag == flag
    }
}

/// What kind of credentials an access point asks for. Where several
/// capabilities are advertised the strongest decides: enterprise before
/// WPA/WPA2, WPA/WPA2 before WEP, WEP before none.
#[derive(Clone, Copy, Debug, PartialEq, Eq, Structural)]
pub enum SecurityKind {
    Enterprise,
    Wpa,
    Wep,
    Open,
}

/// The kind of security that decides for a capability set.
pub open spec fn security_kind(security: Security) -> SecurityKind {
    if security.has(SECURITY_ENTERPRISE) {
        SecurityKind::Enterprise
    } else if security.has(SECURITY_WPA2) || security.has(SECURITY_WPA) {
        SecurityKind::Wpa
    } else if security.has(SECURITY_WEP) {
        SecurityKind::Wep
    } else {
        SecurityKind::Open
    }
}

/// A wireless network as a scan reports it. The SSID is kept as the bytes
/// that were broadcast: they need not be text.
#[derive(Clone, Debug, PartialEq, Eq)]
pub struct AccessPoint {
    pub path: String,
    pub ssid: Vec<u8>,
    pub strength: u32,
    pub security: Security,
}

/// An access point, as mathematical values.
pub struct AccessPointView {
    pub path: Seq<char>,
    pub ssid: Seq<u8>,
    pub strength: u32,
    pub security: Security,
}

impl View for AccessPoint {
    type V = AccessPointView;

    open spec fn view(&self) -> AccessPointView {
        AccessPointView {
            path: self.path@,
            ssid: self.ssid@,
            strength: self.strength,
            security: self.security,
        }
    }
}

impl DeepView for AccessPoint {
    type V = AccessPointView;

    open spec fn deep_view(&self) -> AccessPointView {
        self@
    }
}

impl AccessPoint {
    /// The access point with these properties.
    pub fn new(path: String, ssid: Vec<u8>, strength: u32, security: Security) -> (ap: AccessPoint)
        ensures
            ap@ == (AccessPointView { path: path@, ssid: ssid@, strength, security }),
    {
        AccessPoint { path, ssid, strength, security }
    }

    /// A copy with the same contents.
    pub fn duplicate(&self) -> (copy: AccessPoint)
        ensures
            copy@ == self@,
    {
        let ssid = self.ssid.clone();
        assert(ssid@ =~= self.ssid@);
        AccessPoint {
            path: self.path.clone(),
            ssid,
            strength: self.strength,
            security: self.security,
        }
    }

    /// The SSID as text. Asks for an SSID that is text, as every access point
    /// of a discovered list has.
    pub fn ssid_string(&self) -> (name: String)
        requires
            valid_utf8(self.ssid@),
        ensures
            name@ == decode_utf8(self.ssid@),
    {
        match decode(self.ssid.as_slice()) {
            Some(name) => name,
            None => String::new(),
        }
    }
}

/// The credentials handed to the backend when joining a network.
#[derive(Clone, Debug, PartialEq, Eq)]
pub enum AccessPointCredentials {
    Open,
    Wep { passphrase: String },
    Wpa { passphrase: String },
    Enterprise { identity: String, passphrase: String },
}

/// Credentials, as mathematical values.
pub enum CredentialsView {
    Open,
    Wep { passphrase: Seq<char> },
    Wpa { passphrase: Seq<char> },
    Enterprise { identity: Seq<char>, passphrase: Seq<char> },
}

impl View for AccessPointCredentials {
    type V = CredentialsView;

    open spec fn view(&self) -> CredentialsView {
        match self {
            AccessPointCredentials::Open => CredentialsView::Open,
            AccessPointCredentials::Wep { passphrase } => CredentialsView::Wep {
                passphrase: passphrase@,
            },
            AccessPointCredentials::Wpa { passphrase } => CredentialsView::Wpa {
                passphrase: passphrase@,
            },
            AccessPointCredentials::Enterprise { identity, passphrase } => {
                CredentialsView::Enterprise { identity: identity@, passphrase: passphrase@ }
            },
        }
    }
}

/// The credentials that fit a capability set: of the identity and the
/// passphrase that the user gave, those that its kind of security takes.
pub open spec fn credentials_for(
    security: Security,
    identity: Seq<char>,
    passphrase: Seq<char>,
) -> CredentialsView {
    match security_kind(security) {
        SecurityKind::Enterprise => CredentialsView::Enterprise { identity, passphrase },
        SecurityKind::Wpa => CredentialsView::Wpa { passphrase },
        SecurityKind::Wep => CredentialsView::Wep { passphrase },
        SecurityKind::Open => CredentialsView::Open,
    }
}

/// The kind of security that decides for a capability set.
pub fn classify(security: Security) -> (kind: SecurityKind)
    ensures
        kind == security_kind(security),
        security.has(SECURITY_ENTERPRISE) ==> kind == SecurityKind::Enterprise,
{
    if security.contains(SECURITY_ENTERPRISE) {
        SecurityKind::Enterprise
    } else if security.contains(SECURITY_WPA2) || security.contains(SECURITY_WPA) {
        SecurityKind::Wpa
    } else if security.contains(SECURITY_WEP) {
        SecurityKind::Wep
    } else {
        SecurityKind::Open
    }
}

/// Builds the credentials for joining `access_point`.
pub fn init_access_point_credentials(
    access_point: &AccessPoint,
    identity: &str,
    passphrase: &str,
) -> (credentials: AccessPointCredentials)
    ensures
        credentials@ == credentials_for(access_point.security, identity@, passphrase@),
        access_point.security.has(SECURITY_ENTERPRISE) ==> credentials@
            == (CredentialsView::Enterprise { identity: identity@, passphrase: passphrase@ }),
{
    match classify(access_point.security) {
        SecurityKind::Enterprise => AccessPointCredentials::Enterprise {
            identity: identity.to_owned(),
            passphrase: passphrase.to_owned(),
        },
        SecurityKind::Wpa => AccessPointCredentials::Wpa { passphrase: passphrase.to_owned() },
        SecurityKind::Wep => AccessPointCredentials::Wep { passphrase: passphrase.to_owned() },
        SecurityKind::Open => AccessPointCredentials::Open,
    }
}

/// The word by which the configuration page names a kind of security.
pub open spec fn security_label(kind: SecurityKind) -> Seq<char> {
    match kind {
        SecurityKind::Enterprise => "enterprise"@,
        SecurityKind::Wpa => "wpa"@,
        SecurityKind::Wep => "wep"@,
        SecurityKind::Open => "none"@,
    }
}

/// The word for the security of an access point.
pub fn get_network_security(access_point: &AccessPoint) -> (label: &'static str)
    ensures
        label@ == security_label(security_kind(access_point.security)),
{
    match classify(access_point.security) {
        SecurityKind::Enterprise => "enterprise",
        SecurityKind::Wpa => "wpa",
        SecurityKind::Wep => "wep",
        SecurityKind::Open => "none",
    }
}

/// A network as the configuration page lists it.
#[derive(Clone, Debug, PartialEq, Eq)]
pub struct Network {
    pub ssid: String,
    pub security: String,
}

/// A listed network, as mathematical values.
pub struct NetworkView {
    pub ssid: Seq<char>,
    pub security: Seq<char>,
}

impl View for Network {
    type V = NetworkView;

    open spec fn view(&self) -> NetworkView {
        NetworkView { ssid: self.ssid@, security: self.security@ }
    }
}

impl DeepView for Network {
    type V = NetworkView;

    open spec fn deep_view(&self) -> NetworkView {
        self@
    }
}

/// The listing of one access point: its SSID as text and the word for its
/// security.
pub open spec fn network_of(ap: AccessPointView) -> NetworkView {
    NetworkView {
        ssid: decode_utf8(ap.ssid),
        security: security_label(security_kind(ap.security)),
    }
}

/// The listing of an access point whose SSID is text.
pub fn get_network_info(access_point: &AccessPoint) -> (network: Network)
    requires
        valid_utf8(access_point.ssid@),
    ensures
        network@ == network_of(access_point@),
{
    Network {
        ssid: access_point.ssid_string(),
        security: get_network_security(access_point).to_owned(),
    }
}

} // verus!
