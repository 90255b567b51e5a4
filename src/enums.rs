use vstd::prelude::*;

verus! {

/// Value of an asterisk boolean column.
#[derive(Debug, Clone, Copy, PartialEq, Eq, Structural)]
pub enum TurnOnOff {
    Zero,
    One,
    Off,
    On,
    False,
    True,
    No,
    Yes,
}

impl TurnOnOff {
    /// The text under which the value is stored.
    pub open spec fn text(self) -> Seq<char> {
        match self {
            TurnOnOff::Zero => "0"@,
            TurnOnOff::One => "1"@,
            TurnOnOff::Off => "off"@,
            TurnOnOff::On => "on"@,
            TurnOnOff::False => "false"@,
            TurnOnOff::True => "true"@,
            TurnOnOff::No => "no"@,
            TurnOnOff::Yes => "yes"@,
        }
    }

    pub fn as_str(&self) -> (r: &'static str)
        ensures
            r@ == self.text(),
    {
        match self {
            TurnOnOff::Zero => "0",
            TurnOnOff::One => "1",
            TurnOnOff::Off => "off",
            TurnOnOff::On => "on",
            TurnOnOff::False => "false",
            TurnOnOff::True => "true",
            TurnOnOff::No => "no",
            TurnOnOff::Yes => "yes",
        }
    }
}

/// How a credential authenticates.
#[derive(Debug, Clone, Copy, PartialEq, Eq, Structural)]
pub enum AuthType {
    Userpass,
    Md5,
    GoogleOauth,
}

impl AuthType {
    /// The text under which the value is stored.
    pub open spec fn text(self) -> Seq<char> {
        match self {
            AuthType::Userpass => "userpass"@,
            AuthType::Md5 => "md5"@,
            AuthType::GoogleOauth => "google_oauth"@,
        }
    }

    pub fn as_str(&self) -> (r: &'static str)
        ensures
            r@ == self.text(),
    {
        match self {
            AuthType::Userpass => "userpass",
            AuthType::Md5 => "md5",
            AuthType::GoogleOauth => "google_oauth",
        }
    }
}

/// DTMF signalling mode of an endpoint.
#[derive(Debug, Clone, Copy, PartialEq, Eq, Structural)]
pub enum DtmfMode {
    Rfc4733,
    Inband,
    Info,
    Auto,
    Autoinfo,
}

impl DtmfMode {
    /// The text under which the value is stored.
    pub open spec fn text(self) -> Seq<char> {
        match self {
            DtmfMode::Rfc4733 => "rfc4733"@,
            DtmfMode::Inband => "inband"@,
            DtmfMode::Info => "info"@,
            DtmfMode::Auto => "auto"@,
            DtmfMode::Autoinfo => "auto_info"@,
        }
    }

    pub fn as_str(&self) -> (r: &'static str)
        ensures
            r@ == self.text(),
    {
        match self {
            DtmfMode::Rfc4733 => "rfc4733",
            DtmfMode::Inband => "inband",
            DtmfMode::Info => "info",
            DtmfMode::Auto => "auto",
            DtmfMode::Autoinfo => "auto_info",
        }
    }
}

/// Media encryption mode of an endpoint.
#[derive(Debug, Clone, Copy, PartialEq, Eq, Structural)]
pub enum MediaEncryption {
    No,
    Sdes,
    Dtls,
}

impl MediaEncryption {
    /// The text under which the value is stored.
    pub open spec fn text(self) -> Seq<char> {
        match self {
            MediaEncryption::No => "no"@,
            MediaEncryption::Sdes => "sdes"@,
            MediaEncryption::Dtls => "dtls"@,
        }
    }

    pub fn as_str(&self) -> (r: &'static str)
        ensures
            r@ == self.text(),
    {
        match self {
            MediaEncryption::No => "no",
            MediaEncryption::Sdes => "sdes",
            MediaEncryption::Dtls => "dtls",
        }
    }
}

/// The signalling transport of an account.
#[derive(Debug, Clone, Copy, PartialEq, Eq, Structural)]
pub enum TransportType {
    Udp,
    Tcp,
    Tls,
    Ws,
    Wss,
}

/// Transport reported for a stored value that names none.
pub const FALLBACK_TRANSPORT: TransportType = TransportType::Udp;

impl TransportType {
    /// Browser transports: websocket and secure websocket.
    pub open spec fn is_websocket(self) -> bool {
        self is Ws || self is Wss
    }

    /// Canonical name, as requests carry it and the account table stores it.
    pub open spec fn text(self) -> Seq<char> {
        match self {
            TransportType::Udp => "udp"@,
            TransportType::Tcp => "tcp"@,
            TransportType::Tls => "tls"@,
            TransportType::Ws => "ws"@,
            TransportType::Wss => "wss"@,
        }
    }

    /// Name of the SIP stack's transport object that an endpoint refers to.
    pub open spec fn endpoint_text(self) -> Seq<char> {
        match self {
            TransportType::Udp => "transport-udp"@,
            TransportType::Tcp => "transport-tcp"@,
            TransportType::Tls => "transport-tls"@,
            TransportType::Ws => "transport-ws"@,
            TransportType::Wss => "transport-wss"@,
        }
    }

    /// The transport that a stored text stands for; unknown text falls back.
    pub open spec fn from_text(s: Seq<char>) -> TransportType {
        if s == "udp"@ {
            TransportType::Udp
        } else if s == "tcp"@ {
            TransportType::Tcp
        } else if s == "tls"@ {
            TransportType::Tls
        } else if s == "ws"@ {
            TransportType::Ws
        } else if s == "wss"@ {
            TransportType::Wss
        } else {
            FALLBACK_TRANSPORT
        }
    }

    pub fn is_ws(&self) -> (r: bool)
        ensures
            r == self.is_websocket(),
    {
        match self {
            TransportType::Ws | TransportType::Wss => true,
            _ => false,
        }
    }

    pub fn as_str(&self) -> (r: &'static str)
        ensures
            r@ == self.text(),
    {
        match self {
            TransportType::Udp => "udp",
            TransportType::Tcp => "tcp",
            TransportType::Tls => "tls",
            TransportType::Ws => "ws",
            TransportType::Wss => "wss",
        }
    }

    pub fn endpoint_name(&self) -> (r: &'static str)
        ensures
            r@ == self.endpoint_text(),
    {
        match self {
            TransportType::Udp => "transport-udp",
            TransportType::Tcp => "transport-tcp",
            TransportType::Tls => "transport-tls",
            TransportType::Ws => "transport-ws",
            TransportType::Wss => "transport-wss",
        }
    }

    /// Decodes a stored transport text. A text that names no transport does
    /// not fail the read: it is reported as the fallback transport.
    pub fn decode(s: &str) -> (r: TransportType)
        ensures
            r == TransportType::from_text(s@),
    {
        let owned = String::from_str(s);
        if owned == String::from_str("udp") {
            TransportType::Udp
        } else if owned == String::from_str("tcp") {
            TransportType::Tcp
        } else if owned == String::from_str("tls") {
            TransportType::Tls
        } else if owned == String::from_str("ws") {
            TransportType::Ws
        } else if owned == String::from_str("wss") {
            TransportType::Wss
        } else {
            FALLBACK_TRANSPORT
        }
    }
}

/// Decoding the stored text of a transport gives that transport back.
pub proof fn lemma_transport_text_round_trip(t: TransportType)
    ensures
        TransportType::from_text(t.text()) == t,
{
    reveal_strlit("udp");
    reveal_strlit("tcp");
    reveal_strlit("tls");
    reveal_strlit("ws");
    reveal_strlit("wss");
    assert("tcp"@[0] != "udp"@[0]);
    assert("tls"@[1] != "tcp"@[1] && "tls"@[0] != "udp"@[0]);
    assert("ws"@.len() != "udp"@.len() && "ws"@.len() != "tcp"@.len() && "ws"@.len() != "tls"@.len());
    assert("wss"@[0] != "udp"@[0] && "wss"@[0] != "tcp"@[0] && "wss"@[0] != "tls"@[0]);
    assert("wss"@.len() != "ws"@.len());
}

/// RTP inactivity timeout, in seconds, among the values a request may name.
#[derive(Debug, Clone, Copy, PartialEq, Eq, Structural)]
pub enum RtpTimeout {
    Zero,
    Fifteen,
    Thirty,
    Sixty,
    Ninety,
    OneHundredTwenty,
    OneHundredEighty,
    ThreeHundred,
    SixHundred,
}

impl RtpTimeout {
    pub open spec fn spec_seconds(self) -> u32 {
        match self {
            RtpTimeout::Zero => 0,
            RtpTimeout::Fifteen => 15,
            RtpTimeout::Thirty => 30,
            RtpTimeout::Sixty => 60,
            RtpTimeout::Ninety => 90,
            RtpTimeout::OneHundredTwenty => 120,
            RtpTimeout::OneHundredEighty => 180,
            RtpTimeout::ThreeHundred => 300,
            RtpTimeout::SixHundred => 600,
        }
    }

    pub fn seconds(&self) -> (r: u32)
        ensures
            r == self.spec_seconds(),
    {
        match self {
            RtpTimeout::Zero => 0,
            RtpTimeout::Fifteen => 15,
            RtpTimeout::Thirty => 30,
            RtpTimeout::Sixty => 60,
            RtpTimeout::Ninety => 90,
            RtpTimeout::OneHundredTwenty => 120,
            RtpTimeout::OneHundredEighty => 180,
            RtpTimeout::ThreeHundred => 300,
            RtpTimeout::SixHundred => 600,
        }
    }

    /// The timeout of the given number of seconds, if it is one of the allowed values.
    pub fn from_seconds(n: u32) -> (r: Option<RtpTimeout>)
        ensures
            r matches Some(t) ==> t.spec_seconds() == n,
            r is None ==> (forall|t: RtpTimeout| t.spec_seconds() != n),
    {
        match n {
            0 => Some(RtpTimeout::Zero),
            15 => Some(RtpTimeout::Fifteen),
            30 => Some(RtpTimeout::Thirty),
            60 => Some(RtpTimeout::Sixty),
            90 => Some(RtpTimeout::Ninety),
            120 => Some(RtpTimeout::OneHundredTwenty),
            180 => Some(RtpTimeout::OneHundredEighty),
            300 => Some(RtpTimeout::ThreeHundred),
            600 => Some(RtpTimeout::SixHundred),
            _ => {
                assert forall|t: RtpTimeout| t.spec_seconds() != n by {
                    match t {
                        RtpTimeout::Zero => {},
                        RtpTimeout::Fifteen => {},
                        RtpTimeout::Thirty => {},
                        RtpTimeout::Sixty => {},
                        RtpTimeout::Ninety => {},
                        RtpTimeout::OneHundredTwenty => {},
                        RtpTimeout::OneHundredEighty => {},
                        RtpTimeout::ThreeHundred => {},
                        RtpTimeout::SixHundred => {},
                    }
                }
                None
            },
        }
    }
}

#[derive(Debug, Clone, Copy, PartialEq, Eq, Structural)]
pub enum ConnectMethod {
    Invite,
    Reinvite,
    Update,
}

#[derive(Debug, Clone, Copy, PartialEq, Eq, Structural)]
pub enum DirectMediaGlareMitigation {
    NoMitigation,
    Outgoing,
    Incoming,
}

#[derive(Debug, Clone, Copy, PartialEq, Eq, Structural)]
pub enum Timers {
    Forced,
    No,
    Required,
    Yes,
}

#[derive(Debug, Clone, Copy, PartialEq, Eq, Structural)]
pub enum CallerIDPrivacy {
    AllowedNotScreened,
    AllowedPassedScreened,
    AllowedFailedScreened,
    Allowed,
    ProhibNotScreened,
    ProhibPassedScreened,
    ProhibFailedScreened,
    Prohib,
    Unavailable,
}

#[derive(Debug, Clone, Copy, PartialEq, Eq, Structural)]
pub enum HundredRel {
    No,
    Required,
    PeerSupported,
    Yes,
}

#[derive(Debug, Clone, Copy, PartialEq, Eq, Structural)]
pub enum T38UdptlEc {
    NoCorrection,
    Fec,
    Redundancy,
}

#[derive(Debug, Clone, Copy, PartialEq, Eq, Structural)]
pub enum DtlsSetup {
    Active,
    Passive,
    Actpass,
}

#[derive(Debug, Clone, Copy, PartialEq, Eq, Structural)]
pub enum DtlsFingerprint {
    Sha1,
    Sha256,
}

#[derive(Debug, Clone, Copy, PartialEq, Eq, Structural)]
pub enum RedirectMethod {
    User,
    UriCore,
    UriPjsip,
}

#[derive(Debug, Clone, Copy, PartialEq, Eq, Structural)]
pub enum IncomingCallOfferPref {
    Local,
    LocalFirst,
    Remote,
    RemoteFirst,
}

#[derive(Debug, Clone, Copy, PartialEq, Eq, Structural)]
pub enum OutgoingCallOfferPref {
    Local,
    LocalMerge,
    LocalFirst,
    Remote,
    RemoteMerge,
    RemoteFirst,
}

#[derive(Debug, Clone, Copy, PartialEq, Eq, Structural)]
pub enum SecurityNegotiation {
    No,
    Mediasec,
}

} // verus!
