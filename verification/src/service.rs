//! The record kept of a discovered service.
use vstd::prelude::*;

use crate::clock::LocalClock;
use crate::text::{all_digits, decimal, digits_value, lemma_decimal_round_trip, push_decimal};

verus! {

/// What the scanner learns of a service when it is discovered: its instance
/// name, IP address, port and host name.
pub struct Discovery {
    pub name: String,
    pub address: String,
    pub port: u16,
    pub host_name: String,
}

/// A discovered service: when it was found (time of day and date), its name,
/// IP address, port and host name.
#[derive(Debug)]
pub struct Service {
    time: String,
    date: String,
    name: String,
    address: String,
    port: u16,
    hostname: String,
}

/// The contents of a [`Service`].
pub struct ServiceView {
    pub time: Seq<char>,
    pub date: Seq<char>,
    pub name: Seq<char>,
    pub address: Seq<char>,
    pub port: u16,
    pub hostname: Seq<char>,
}

impl View for Service {
    type V = ServiceView;

    closed spec fn view(&self) -> ServiceView {
        ServiceView {
            time: self.time@,
            date: self.date@,
            name: self.name@,
            address: self.address@,
            port: self.port,
            hostname: self.hostname@,
        }
    }
}

/// The one-line description of a service: its name, address, port (in
/// decimal) and host name.
pub open spec fn service_text(v: ServiceView) -> Seq<char> {
    "Name: "@ + v.name + ", Address: "@ + v.address + ", Port: "@ + decimal(v.port as nat)
        + ", Protocol: "@ + v.hostname
}

/// The columns stored for a service: time, date, name, address, port (in
/// decimal) and host name.
pub open spec fn row_text(v: ServiceView) -> Seq<Seq<char>> {
    seq![v.time, v.date, v.name, v.address, decimal(v.port as nat), v.hostname]
}

/// The record of a discovery that carries no time stamp.
pub open spec fn discovery_view(d: Discovery) -> ServiceView {
    ServiceView {
        time: Seq::empty(),
        date: Seq::empty(),
        name: d.name@,
        address: d.address@,
        port: d.port,
        hostname: d.host_name@,
    }
}

impl Default for Service {
    fn default() -> (s: Service)
        ensures
            s@ == (ServiceView {
                time: Seq::empty(),
                date: Seq::empty(),
                name: Seq::empty(),
                address: Seq::empty(),
                port: 0,
                hostname: Seq::empty(),
            }),
    {
        Service {
            time: String::new(),
            date: String::new(),
            name: String::new(),
            address: String::new(),
            port: 0,
            hostname: String::new(),
        }
    }
}

impl Service {
    /// A record with the given fields.
    pub fn new(
        time: String,
        date: String,
        name: String,
        address: String,
        port: u16,
        hostname: String,
    ) -> (s: Service)
        ensures
            s@ == (ServiceView {
                time: time@,
                date: date@,
                name: name@,
                address: address@,
                port,
                hostname: hostname@,
            }),
    {
        Service { time, date, name, address, port, hostname }
    }

    /// The record of a discovery, with no time stamp. Never fails.
    pub fn try_from(val: Discovery) -> (r: Result<Service, ()>)
        ensures
            r matches Ok(s) && s@ == discovery_view(val),
    {
        Ok(Service {
            time: String::new(),
            date: String::new(),
            name: val.name,
            address: val.address,
            port: val.port,
            hostname: val.host_name,
        })
    }

    /// The record of a discovery made at the clock reading `clock`; `None`
    /// when the reading is not a real time of day and date.
    pub fn discovered(val: Discovery, clock: &LocalClock) -> (r: Option<Service>)
        ensures
            r is Some <==> clock.is_valid(),
            r matches Some(s) ==> s@ == (ServiceView {
                time: clock.time_text(),
                date: clock.day_text(),
                ..discovery_view(val)
            }),
    {
        match clock.stamp() {
            Some((time, date)) => Some(
                Service {
                    time,
                    date,
                    name: val.name,
                    address: val.address,
                    port: val.port,
                    hostname: val.host_name,
                },
            ),
            None => None,
        }
    }

    /// `Name: <name>, Address: <address>, Port: <port>, Protocol: <hostname>`.
    pub fn as_string(&self) -> (s: String)
        ensures
            s@ == service_text(self@),
    {
        let mut s = String::from_str("Name: ");
        s.append(self.name.as_str());
        s.append(", Address: ");
        s.append(self.address.as_str());
        s.append(", Port: ");
        push_decimal(&mut s, self.port as u64);
        s.append(", Protocol: ");
        s.append(self.hostname.as_str());
        s
    }

    /// The columns stored for this service, in table order.
    pub fn db_row(&self) -> (row: Vec<String>)
        ensures
            row@.len() == 6,
            forall|i: int| 0 <= i < 6 ==> #[trigger] row@[i]@ == row_text(self@)[i],
    {
        let mut port = String::new();
        push_decimal(&mut port, self.port as u64);
        let mut row: Vec<String> = Vec::new();
        row.push(self.time.clone());
        row.push(self.date.clone());
        row.push(self.name.clone());
        row.push(self.address.clone());
        row.push(port);
        row.push(self.hostname.clone());
        row
    }

    /// The time of day the service was discovered.
    pub fn time(&self) -> (s: String)
        ensures
            s@ == self@.time,
    {
        self.time.clone()
    }

    /// The date the service was discovered.
    pub fn date(&self) -> (s: String)
        ensures
            s@ == self@.date,
    {
        self.date.clone()
    }

    /// The name of the service.
    pub fn name(&self) -> (s: String)
        ensures
            s@ == self@.name,
    {
        self.name.clone()
    }

    /// The IP address of the service.
    pub fn address(&self) -> (s: String)
        ensures
            s@ == self@.address,
    {
        self.address.clone()
    }

    /// The port of the service.
    pub fn port(&self) -> (p: u16)
        ensures
            p == self@.port,
    {
        self.port
    }

    /// The host name of the service.
    pub fn hostname(&self) -> (s: String)
        ensures
            s@ == self@.hostname,
    {
        self.hostname.clone()
    }

    /// The record that stands for a failure: every field empty or zero but the
    /// name, which is the text `{err:#?}` (the error itself is not written).
    pub fn error<E>(err: E) -> (s: Service)
        ensures
            s@ == (ServiceView {
                time: Seq::empty(),
                date: Seq::empty(),
                name: "{err:#?}"@,
                address: Seq::empty(),
                port: 0,
                hostname: Seq::empty(),
            }),
    {
        Service {
            time: String::new(),
            date: String::new(),
            name: String::from_str("{err:#?}"),
            address: String::new(),
            port: 0,
            hostname: String::new(),
        }
    }
}

/// The record of a discovery keeps the discovery's name, address, port and
/// host name unchanged, and has no time stamp.
pub proof fn law_discovery_fields_kept(d: Discovery)
    ensures
        discovery_view(d).name == d.name@,
        discovery_view(d).address == d.address@,
        discovery_view(d).port == d.port,
        discovery_view(d).hostname == d.host_name@,
        discovery_view(d).time.len() == 0,
        discovery_view(d).date.len() == 0,
{
}

/// A stored row has six columns: the time, date, name and address as they
/// are, then the port written in decimal digits that denote the port, then
/// the host name.
pub proof fn law_row_columns(v: ServiceView)
    ensures
        row_text(v).len() == 6,
        row_text(v)[0] == v.time,
        row_text(v)[1] == v.date,
        row_text(v)[2] == v.name,
        row_text(v)[3] == v.address,
        all_digits(row_text(v)[4]),
        row_text(v)[4].len() >= 1,
        row_text(v)[4][0] == '0' ==> v.port == 0,
        digits_value(row_text(v)[4]) == v.port,
        row_text(v)[5] == v.hostname,
{
    lemma_decimal_round_trip(v.port as nat);
}

/// The description is `Name: ` followed by the whole name, `, Address: ` and
/// the whole address, `, Port: ` and decimal digits that denote the port,
/// `, Protocol: ` and the whole host name.
pub proof fn law_service_text_parts(v: ServiceView)
    ensures
        exists|p: Seq<char>|
            #![trigger all_digits(p)]
            all_digits(p) && p.len() >= 1 && digits_value(p) == v.port && service_text(v) == "Name: "@
                + v.name + ", Address: "@ + v.address + ", Port: "@ + p + ", Protocol: "@
                + v.hostname,
        service_text(v).subrange(0, 6) == "Name: "@,
        service_text(v).subrange(6, 6 + v.name.len() as int) == v.name,
        service_text(v).subrange(
            service_text(v).len() - v.hostname.len(),
            service_text(v).len() as int,
        ) == v.hostname,
{
    reveal_strlit("Name: ");
    lemma_decimal_round_trip(v.port as nat);
    let p = decimal(v.port as nat);
    assert(all_digits(p));
    let t = service_text(v);
    let rest = ", Address: "@ + v.address + ", Port: "@ + p + ", Protocol: "@;
    assert(t =~= "Name: "@ + v.name + rest + v.hostname);
    assert(t.subrange(0, 6) =~= "Name: "@);
    assert(t.subrange(6, 6 + v.name.len() as int) =~= v.name);
    assert(t.subrange(t.len() - v.hostname.len(), t.len() as int) =~= v.hostname);
}

} // verus!
