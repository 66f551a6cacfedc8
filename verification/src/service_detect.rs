//! The mDNS service types that the scanner browses for, and their names.
use vstd::prelude::*;

use crate::text::str_eq;

verus! {

/// How many service types the scanner knows.
pub const SERVICE_KINDS: usize = 15;

/// A DNS-SD service type (`_<name>._tcp`) that the scanner browses for.
#[derive(Debug, PartialEq, Eq, Structural, PartialOrd, Clone, Copy)]
pub enum ServiceDetect {
    Http,
    Scanner,
    AndroidTvRemote2,
    Uscans,
    PdlDataStream,
    Printer,
    NvShieldRemote,
    HttpAlt,
    SftpSsh,
    Ssh,
    GoogleZone,
    GoogleCast,
    CompanionLink,
    SpotifyConnect,
    AirPlay,
}

/// Every service type, in declaration order.
pub open spec fn all_services() -> Seq<ServiceDetect> {
    seq![
        ServiceDetect::Http,
        ServiceDetect::Scanner,
        ServiceDetect::AndroidTvRemote2,
        ServiceDetect::Uscans,
        ServiceDetect::PdlDataStream,
        ServiceDetect::Printer,
        ServiceDetect::NvShieldRemote,
        ServiceDetect::HttpAlt,
        ServiceDetect::SftpSsh,
        ServiceDetect::Ssh,
        ServiceDetect::GoogleZone,
        ServiceDetect::GoogleCast,
        ServiceDetect::CompanionLink,
        ServiceDetect::SpotifyConnect,
        ServiceDetect::AirPlay,
    ]
}

/// The position of a service type in declaration order.
pub open spec fn service_index(s: ServiceDetect) -> int {
    match s {
        ServiceDetect::Http => 0,
        ServiceDetect::Scanner => 1,
        ServiceDetect::AndroidTvRemote2 => 2,
        ServiceDetect::Uscans => 3,
        ServiceDetect::PdlDataStream => 4,
        ServiceDetect::Printer => 5,
        ServiceDetect::NvShieldRemote => 6,
        ServiceDetect::HttpAlt => 7,
        ServiceDetect::SftpSsh => 8,
        ServiceDetect::Ssh => 9,
        ServiceDetect::GoogleZone => 10,
        ServiceDetect::GoogleCast => 11,
        ServiceDetect::CompanionLink => 12,
        ServiceDetect::SpotifyConnect => 13,
        ServiceDetect::AirPlay => 14,
    }
}

/// The DNS-SD name of a service type (the part between `_` and `._tcp`).
pub open spec fn service_name(s: ServiceDetect) -> Seq<char> {
    match s {
        ServiceDetect::Http => "http"@,
        ServiceDetect::Scanner => "scanner"@,
        ServiceDetect::AndroidTvRemote2 => "androidtvremote2"@,
        ServiceDetect::Uscans => "uscans"@,
        ServiceDetect::PdlDataStream => "pdldatastream"@,
        ServiceDetect::Printer => "printer"@,
        ServiceDetect::NvShieldRemote => "nvshieldremote"@,
        ServiceDetect::HttpAlt => "http-alt"@,
        ServiceDetect::SftpSsh => "sftp-ssh"@,
        ServiceDetect::Ssh => "ssh"@,
        ServiceDetect::GoogleZone => "googlezone"@,
        ServiceDetect::GoogleCast => "googlecast"@,
        ServiceDetect::CompanionLink => "companionlink"@,
        ServiceDetect::SpotifyConnect => "spotifyconnect"@,
        ServiceDetect::AirPlay => "airplay"@,
    }
}

/// The service type whose name is `s`, if any.
pub open spec fn parse_service(s: Seq<char>) -> Option<ServiceDetect> {
    if s == "http"@ {
        Some(ServiceDetect::Http)
    } else if s == "scanner"@ {
        Some(ServiceDetect::Scanner)
    } else if s == "androidtvremote2"@ {
        Some(ServiceDetect::AndroidTvRemote2)
    } else if s == "uscans"@ {
        Some(ServiceDetect::Uscans)
    } else if s == "pdldatastream"@ {
        Some(ServiceDetect::PdlDataStream)
    } else if s == "printer"@ {
        Some(ServiceDetect::Printer)
    } else if s == "nvshieldremote"@ {
        Some(ServiceDetect::NvShieldRemote)
    } else if s == "http-alt"@ {
        Some(ServiceDetect::HttpAlt)
    } else if s == "sftp-ssh"@ {
        Some(ServiceDetect::SftpSsh)
    } else if s == "ssh"@ {
        Some(ServiceDetect::Ssh)
    } else if s == "googlezone"@ {
        Some(ServiceDetect::GoogleZone)
    } else if s == "googlecast"@ {
        Some(ServiceDetect::GoogleCast)
    } else if s == "companionlink"@ {
        Some(ServiceDetect::CompanionLink)
    } else if s == "spotifyconnect"@ {
        Some(ServiceDetect::SpotifyConnect)
    } else if s == "airplay"@ {
        Some(ServiceDetect::AirPlay)
    } else {
        None
    }
}

impl ServiceDetect {
    /// The number of service types.
    pub fn length() -> (n: usize)
        ensures
            n == all_services().len(),
            n == SERVICE_KINDS,
    {
        let all = Self::to_iter();
        all.len()
    }

    /// Every service type, in declaration order.
    pub fn to_iter() -> (all: [ServiceDetect; SERVICE_KINDS])
        ensures
            all@ == all_services(),
    {
        let all = [
            ServiceDetect::Http,
            ServiceDetect::Scanner,
            ServiceDetect::AndroidTvRemote2,
            ServiceDetect::Uscans,
            ServiceDetect::PdlDataStream,
            ServiceDetect::Printer,
            ServiceDetect::NvShieldRemote,
            ServiceDetect::HttpAlt,
            ServiceDetect::SftpSsh,
            ServiceDetect::Ssh,
            ServiceDetect::GoogleZone,
            ServiceDetect::GoogleCast,
            ServiceDetect::CompanionLink,
            ServiceDetect::SpotifyConnect,
            ServiceDetect::AirPlay,
        ];
        assert(all@ =~= all_services());
        all
    }

    /// The service type's name, as a static string.
    pub fn name(&self) -> (s: &'static str)
        ensures
            s@ == service_name(*self),
    {
        <&'static str as From<ServiceDetect>>::from(*self)
    }

    /// The service type's name as an owned string (what `Display` writes).
    pub fn to_string(&self) -> (s: String)
        ensures
            s@ == service_name(*self),
    {
        String::from_str(self.name())
    }

    /// The service type called `val`, or `None` when no service type has that name.
    pub fn from_name(val: &str) -> (r: Option<ServiceDetect>)
        ensures
            r == parse_service(val@),
    {
        if str_eq(val, "http") {
            Some(ServiceDetect::Http)
        } else if str_eq(val, "scanner") {
            Some(ServiceDetect::Scanner)
        } else if str_eq(val, "androidtvremote2") {
            Some(ServiceDetect::AndroidTvRemote2)
        } else if str_eq(val, "uscans") {
            Some(ServiceDetect::Uscans)
        } else if str_eq(val, "pdldatastream") {
            Some(ServiceDetect::PdlDataStream)
        } else if str_eq(val, "printer") {
            Some(ServiceDetect::Printer)
        } else if str_eq(val, "nvshieldremote") {
            Some(ServiceDetect::NvShieldRemote)
        } else if str_eq(val, "http-alt") {
            Some(ServiceDetect::HttpAlt)
        } else if str_eq(val, "sftp-ssh") {
            Some(ServiceDetect::SftpSsh)
        } else if str_eq(val, "ssh") {
            Some(ServiceDetect::Ssh)
        } else if str_eq(val, "googlezone") {
            Some(ServiceDetect::GoogleZone)
        } else if str_eq(val, "googlecast") {
            Some(ServiceDetect::GoogleCast)
        } else if str_eq(val, "companionlink") {
            Some(ServiceDetect::CompanionLink)
        } else if str_eq(val, "spotifyconnect") {
            Some(ServiceDetect::SpotifyConnect)
        } else if str_eq(val, "airplay") {
            Some(ServiceDetect::AirPlay)
        } else {
            None
        }
    }

    /// The service type named by `val`. A name that no service type has is
    /// outside this function's domain (the conversion panics on it).
    pub fn try_from(val: String) -> (r: Result<ServiceDetect, ()>)
        requires
            parse_service(val@) is Some,
        ensures
            r == Ok::<ServiceDetect, ()>(parse_service(val@).unwrap()),
    {
        match Self::from_name(val.as_str()) {
            Some(s) => Ok(s),
            None => Err(()),
        }
    }
}

impl From<ServiceDetect> for &'static str {
    fn from(val: ServiceDetect) -> (s: &'static str) {
        match val {
            ServiceDetect::Http => "http",
            ServiceDetect::Scanner => "scanner",
            ServiceDetect::AndroidTvRemote2 => "androidtvremote2",
            ServiceDetect::Uscans => "uscans",
            ServiceDetect::PdlDataStream => "pdldatastream",
            ServiceDetect::Printer => "printer",
            ServiceDetect::NvShieldRemote => "nvshieldremote",
            ServiceDetect::HttpAlt => "http-alt",
            ServiceDetect::SftpSsh => "sftp-ssh",
            ServiceDetect::Ssh => "ssh",
            ServiceDetect::GoogleZone => "googlezone",
            ServiceDetect::GoogleCast => "googlecast",
            ServiceDetect::CompanionLink => "companionlink",
            ServiceDetect::SpotifyConnect => "spotifyconnect",
            ServiceDetect::AirPlay => "airplay",
        }
    }
}

impl vstd::std_specs::convert::FromSpecImpl<ServiceDetect> for &'static str {
    open spec fn obeys_from_spec() -> bool {
        true
    }

    open spec fn from_spec(v: ServiceDetect) -> &'static str {
        match v {
            ServiceDetect::Http => "http",
            ServiceDetect::Scanner => "scanner",
            ServiceDetect::AndroidTvRemote2 => "androidtvremote2",
            ServiceDetect::Uscans => "uscans",
            ServiceDetect::PdlDataStream => "pdldatastream",
            ServiceDetect::Printer => "printer",
            ServiceDetect::NvShieldRemote => "nvshieldremote",
            ServiceDetect::HttpAlt => "http-alt",
            ServiceDetect::SftpSsh => "sftp-ssh",
            ServiceDetect::Ssh => "ssh",
            ServiceDetect::GoogleZone => "googlezone",
            ServiceDetect::GoogleCast => "googlecast",
            ServiceDetect::CompanionLink => "companionlink",
            ServiceDetect::SpotifyConnect => "spotifyconnect",
            ServiceDetect::AirPlay => "airplay",
        }
    }
}

/// Every service type appears in `to_iter`'s list exactly once, at its
/// declaration index.
pub proof fn lemma_every_service_listed_once(s: ServiceDetect)
    ensures
        0 <= service_index(s) < all_services().len(),
        all_services()[service_index(s)] == s,
        forall|i: int| 0 <= i < all_services().len() && all_services()[i] == s ==> i == service_index(s),
{
}

/// A few characters of a name, enough to tell the service names apart.
spec fn name_key(q: Seq<char>) -> (nat, char, char) {
    (q.len(), q[0], if q.len() > 6 { q[6] } else { ' ' })
}

proof fn lemma_name_keys()
    ensures
        name_key("http"@) == (4nat, 'h', ' '),
        name_key("scanner"@) == (7nat, 's', 'r'),
        name_key("androidtvremote2"@) == (16nat, 'a', 'd'),
        name_key("uscans"@) == (6nat, 'u', ' '),
        name_key("pdldatastream"@) == (13nat, 'p', 'a'),
        name_key("printer"@) == (7nat, 'p', 'r'),
        name_key("nvshieldremote"@) == (14nat, 'n', 'l'),
        name_key("http-alt"@) == (8nat, 'h', 'l'),
        name_key("sftp-ssh"@) == (8nat, 's', 's'),
        name_key("ssh"@) == (3nat, 's', ' '),
        name_key("googlezone"@) == (10nat, 'g', 'z'),
        name_key("googlecast"@) == (10nat, 'g', 'c'),
        name_key("companionlink"@) == (13nat, 'c', 'i'),
        name_key("spotifyconnect"@) == (14nat, 's', 'y'),
        name_key("airplay"@) == (7nat, 'a', 'y'),
{
    reveal_strlit("http");
    reveal_strlit("scanner");
    reveal_strlit("androidtvremote2");
    reveal_strlit("uscans");
    reveal_strlit("pdldatastream");
    reveal_strlit("printer");
    reveal_strlit("nvshieldremote");
    reveal_strlit("http-alt");
    reveal_strlit("sftp-ssh");
    reveal_strlit("ssh");
    reveal_strlit("googlezone");
    reveal_strlit("googlecast");
    reveal_strlit("companionlink");
    reveal_strlit("spotifyconnect");
    reveal_strlit("airplay");
}

/// The text `From` gives for a service type is its name, the text that
/// `to_string` (its `Display` text) gives.
pub proof fn lemma_from_text_is_name(s: ServiceDetect)
    ensures
        <&'static str as vstd::std_specs::convert::FromSpec<ServiceDetect>>::from_spec(s)@
            == service_name(s),
{
}

/// Distinct service types have distinct names.
pub proof fn lemma_names_distinct(a: ServiceDetect, b: ServiceDetect)
    ensures
        service_name(a) == service_name(b) ==> a == b,
{
    lemma_name_keys();
    if service_name(a) == service_name(b) {
        assert(name_key(service_name(a)) == name_key(service_name(b)));
    }
}

/// Parsing a service type's name gives back that service type; and a name
/// that parses to a service type is that service type's name.
pub proof fn lemma_name_round_trip(s: ServiceDetect, t: Seq<char>)
    ensures
        parse_service(service_name(s)) == Some(s),
        parse_service(t) == Some(s) ==> t == service_name(s),
{
    lemma_name_keys();
}

} // verus!
