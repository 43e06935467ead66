use crate::errors::app_error::AppError;
use crate::repositories::repository_base::Entity;
use crate::text::{is_blank, is_blank_spec};
use crate::time::{minutes_between, nanos_between, trunc_div, whole_minutes_between, Timestamp};
use vstd::prelude::*;
use vstd::string::*;

verus! {

/// A monitored server.
#[derive(Debug, Clone, PartialEq, Eq)]
pub struct Server {
    pub id: Option<String>,
    pub name: String,
    pub hostname: String,
    pub ip_address: String,
    pub is_active: bool,
    pub created_at: Timestamp,
    pub last_seen: Option<Timestamp>,
}

/// The validation error that `Server::new` reports for these fields, if any:
/// the first blank one among name, hostname and IP address.
pub open spec fn server_new_error(name: Seq<char>, hostname: Seq<char>, ip_address: Seq<char>) -> Option<
    Seq<char>,
> {
    if is_blank_spec(name) {
        Some("Server name cannot be empty"@)
    } else if is_blank_spec(hostname) {
        Some("Hostname cannot be empty"@)
    } else if is_blank_spec(ip_address) {
        Some("IP address cannot be empty"@)
    } else {
        None
    }
}

/// A server was last seen less than five whole minutes before `now`.
pub open spec fn server_online_at(s: Server, now: Timestamp) -> bool {
    match s.last_seen {
        Some(seen) => whole_minutes_between(now, seen) < 5,
        None => false,
    }
}

/// `opt` holds the text `id`.
pub open spec fn id_is(opt: Option<String>, id: Seq<char>) -> bool {
    opt matches Some(s) && s@ == id
}

pub fn clone_opt_string(o: &Option<String>) -> (r: Option<String>)
    ensures
        r == *o,
{
    match o {
        Some(s) => Some(s.clone()),
        None => None,
    }
}

impl Entity for Server {
    fn duplicate(&self) -> (r: Self)
        ensures
            r == *self,
    {
        Server {
            id: clone_opt_string(&self.id),
            name: self.name.clone(),
            hostname: self.hostname.clone(),
            ip_address: self.ip_address.clone(),
            is_active: self.is_active,
            created_at: self.created_at,
            last_seen: self.last_seen,
        }
    }
}

impl Server {
    /// Validates the fields and builds an active server, created now, never seen.
    pub fn new(name: &str, hostname: &str, ip_address: &str) -> (r: Result<Server, AppError>)
        ensures
            match server_new_error(name@, hostname@, ip_address@) {
                Some(msg) => r matches Err(AppError::Validation(m)) && m@ == msg,
                None => r matches Ok(s) && s.id is None && s.name@ == name@ && s.hostname@
                    == hostname@ && s.ip_address@ == ip_address@ && s.is_active
                    && s.created_at.nanos < 1_000_000_000
                    && s.last_seen is None,
            },
    {
        let now = Timestamp::now();
        Server::new_at(name, hostname, ip_address, now)
    }

    /// `Server::new` with the creation instant given.
    pub fn new_at(name: &str, hostname: &str, ip_address: &str, now: Timestamp) -> (r: Result<
        Server,
        AppError,
    >)
        ensures
            match server_new_error(name@, hostname@, ip_address@) {
                Some(msg) => r matches Err(AppError::Validation(m)) && m@ == msg,
                None => r matches Ok(s) && s.id is None && s.name@ == name@ && s.hostname@
                    == hostname@ && s.ip_address@ == ip_address@ && s.is_active && s.created_at
                    == now && s.last_seen is None,
            },
    {
        if is_blank(name) {
            return Err(AppError::Validation(String::from_str("Server name cannot be empty")));
        }
        if is_blank(hostname) {
            return Err(AppError::Validation(String::from_str("Hostname cannot be empty")));
        }
        if is_blank(ip_address) {
            return Err(AppError::Validation(String::from_str("IP address cannot be empty")));
        }
        Ok(
            Server {
                id: None,
                name: String::from_str(name),
                hostname: String::from_str(hostname),
                ip_address: String::from_str(ip_address),
                is_active: true,
                created_at: now,
                last_seen: None,
            },
        )
    }

    /// The same server with its id set.
    pub fn with_id(self, id: &str) -> (r: Server)
        ensures
            r == (Server { id: r.id, ..self }),
            id_is(r.id, id@),
    {
        Server { id: Some(String::from_str(id)), ..self }
    }

    /// Marks the server active and seen now.
    pub fn activate(&mut self)
        ensures
            *final(self) == (Server { is_active: true, last_seen: final(self).last_seen, ..*old(self) }),
            final(self).last_seen matches Some(t) && t.nanos < 1_000_000_000,
    {
        let now = Timestamp::now();
        self.activate_at(now);
    }

    /// Marks the server active and seen at `now`.
    pub fn activate_at(&mut self, now: Timestamp)
        ensures
            *final(self) == (Server { is_active: true, last_seen: Some(now), ..*old(self) }),
    {
        self.is_active = true;
        self.last_seen = Some(now);
    }

    /// Marks the server inactive.
    pub fn deactivate(&mut self)
        ensures
            *final(self) == (Server { is_active: false, ..*old(self) }),
    {
        self.is_active = false;
    }

    /// Records that the server was seen now.
    pub fn update_last_seen(&mut self)
        ensures
            *final(self) == (Server { last_seen: final(self).last_seen, ..*old(self) }),
            final(self).last_seen matches Some(t) && t.nanos < 1_000_000_000,
    {
        let now = Timestamp::now();
        self.update_last_seen_at(now);
    }

    /// Records that the server was seen at `now`.
    pub fn update_last_seen_at(&mut self, now: Timestamp)
        ensures
            *final(self) == (Server { last_seen: Some(now), ..*old(self) }),
    {
        self.last_seen = Some(now);
    }

    /// Whether the server was seen less than five minutes ago (by the clock now):
    /// the answer `is_online_at` gives for an instant read from the clock.
    pub fn is_online(&self) -> (r: bool)
        ensures
            exists|now: Timestamp|
                now.nanos < 1_000_000_000 && r == #[trigger] server_online_at(
                    *self,
                    now,
                ),
    {
        let now = Timestamp::now();
        let r = self.is_online_at(now);
        assert(server_online_at(*self, now) == r);
        r
    }

    /// Whether the server was seen less than five whole minutes before `now`.
    pub fn is_online_at(&self, now: Timestamp) -> (r: bool)
        ensures
            r == server_online_at(*self, now),
    {
        match self.last_seen {
            Some(seen) => minutes_between(now, seen) < 5,
            None => false,
        }
    }
}

/// A server is online at the instant it is activated or seen; a server never
/// seen is never online.
pub proof fn law_online_when_just_seen(s: Server, now: Timestamp)
    ensures
        server_online_at(Server { is_active: true, last_seen: Some(now), ..s }, now),
        server_online_at(Server { last_seen: Some(now), ..s }, now),
        s.last_seen is None ==> !server_online_at(s, now),
{
    assert(whole_minutes_between(now, now) == 0);
}

/// `Server::new` accepts exactly the servers whose name, hostname and IP address
/// are all not blank.
pub proof fn law_server_accepted_exactly(name: Seq<char>, hostname: Seq<char>, ip_address: Seq<char>)
    ensures
        server_new_error(name, hostname, ip_address) is None <==> (!is_blank_spec(name)
            && !is_blank_spec(hostname) && !is_blank_spec(ip_address)),
{
}

/// A server is online at `now` exactly when it was seen and less than five
/// minutes (300 seconds, counted in nanoseconds) lie between that sighting and
/// `now`; a sighting after `now` also counts as online. Five minutes or more
/// after the last sighting it is offline.
pub proof fn law_online_within_five_minutes(s: Server, now: Timestamp)
    ensures
        server_online_at(s, now) <==> (s.last_seen matches Some(seen) && nanos_between(now, seen)
            < 300_000_000_000),
{
    match s.last_seen {
        Some(seen) => {
            let n = nanos_between(now, seen);
            let a = trunc_div(n, 1_000_000_000);
            if n >= 0 {
                assert(a == n / 1_000_000_000);
                assert(a >= 0) by (nonlinear_arith)
                    requires
                        a == n / 1_000_000_000,
                        n >= 0,
                ;
                assert(trunc_div(a, 60) == a / 60);
                assert((a / 60 < 5) <==> (a < 300)) by (nonlinear_arith)
                    requires
                        a >= 0,
                ;
                assert((a < 300) <==> (n < 300_000_000_000)) by (nonlinear_arith)
                    requires
                        a == n / 1_000_000_000,
                        n >= 0,
                ;
            } else {
                assert((-n) / 1_000_000_000 >= 0) by (nonlinear_arith)
                    requires
                        n < 0,
                ;
                assert(a <= 0);
                if a < 0 {
                    assert((-a) / 60 >= 0) by (nonlinear_arith)
                        requires
                            a < 0,
                    ;
                }
                assert(trunc_div(a, 60) <= 0);
            }
        },
        None => {},
    }
}

} // verus!
