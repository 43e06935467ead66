use crate::errors::app_error::AppError;
use crate::models::server::{id_is, server_online_at, Server};
use crate::repositories::repository_base::{
    first_match, has_id, new_entity_id, store_values, stored_under_random_id, Entries,
    RepositoryBase, Selector,
};
use crate::text::str_eq;
use crate::time::Timestamp;
use crate::traits::repository::Repository;
use vstd::prelude::*;

verus! {

/// Active servers.
pub open spec fn server_active() -> spec_fn(Server) -> bool {
    |s: Server| s.is_active
}

/// Servers seen less than five minutes before `now`.
pub open spec fn server_online(now: Timestamp) -> spec_fn(Server) -> bool {
    |s: Server| server_online_at(s, now)
}

/// Servers with this hostname.
pub open spec fn server_with_hostname(hostname: Seq<char>) -> spec_fn(Server) -> bool {
    |s: Server| s.hostname@ == hostname
}

/// Servers with this IP address.
pub open spec fn server_with_ip(ip_address: Seq<char>) -> spec_fn(Server) -> bool {
    |s: Server| s.ip_address@ == ip_address
}

/// `s` is `given` with its id set to `id`.
pub open spec fn server_with_id(s: Server, given: Server, id: Seq<char>) -> bool {
    s == (Server { id: s.id, ..given }) && id_is(s.id, id)
}

struct Active;

impl Selector<Server> for Active {
    closed spec fn pred(&self) -> spec_fn(Server) -> bool {
        server_active()
    }

    fn matches(&self, t: &Server) -> (r: bool) {
        t.is_active
    }
}

struct Online {
    now: Timestamp,
}

impl Selector<Server> for Online {
    closed spec fn pred(&self) -> spec_fn(Server) -> bool {
        server_online(self.now)
    }

    fn matches(&self, t: &Server) -> (r: bool) {
        t.is_online_at(self.now)
    }
}

struct WithHostname<'a> {
    hostname: &'a str,
}

impl<'a> Selector<Server> for WithHostname<'a> {
    closed spec fn pred(&self) -> spec_fn(Server) -> bool {
        server_with_hostname(self.hostname@)
    }

    fn matches(&self, t: &Server) -> (r: bool) {
        str_eq(t.hostname.as_str(), self.hostname)
    }
}

struct WithIp<'a> {
    ip_address: &'a str,
}

impl<'a> Selector<Server> for WithIp<'a> {
    closed spec fn pred(&self) -> spec_fn(Server) -> bool {
        server_with_ip(self.ip_address@)
    }

    fn matches(&self, t: &Server) -> (r: bool) {
        str_eq(t.ip_address.as_str(), self.ip_address)
    }
}

/// The repository of servers.
pub struct ServersRepository {
    base: RepositoryBase<Server>,
}

impl ServersRepository {
    /// The stored servers under their ids.
    pub closed spec fn entries(&self) -> Entries<Server> {
        self.base.entries()
    }

    /// An empty repository.
    pub fn new() -> (r: ServersRepository)
        ensures
            r.entries() == Seq::<(Seq<char>, Server)>::empty(),
    {
        ServersRepository { base: RepositoryBase::new() }
    }

    /// The active servers in storage order.
    pub fn find_active_servers(&self) -> (r: Result<Vec<Server>, AppError>)
        ensures
            r matches Ok(v) && v@ == store_values(self.entries()).filter(server_active()),
    {
        let sel = Active;
        Ok(self.base.find_matching(&sel, None))
    }

    /// The servers seen less than five minutes ago, by one reading of the clock.
    pub fn find_online_servers(&self) -> (r: Result<Vec<Server>, AppError>)
        ensures
            r matches Ok(v) && exists|now: Timestamp|
                now.nanos < 1_000_000_000 && v@ == store_values(
                    self.entries(),
                ).filter(#[trigger] server_online(now)),
    {
        let now = Timestamp::now();
        self.find_online_servers_at(now)
    }

    /// The servers seen less than five minutes before `now`, in storage order.
    pub fn find_online_servers_at(&self, now: Timestamp) -> (r: Result<Vec<Server>, AppError>)
        ensures
            r matches Ok(v) && v@ == store_values(self.entries()).filter(server_online(now)),
    {
        let sel = Online { now };
        Ok(self.base.find_matching(&sel, None))
    }

    /// The first server, in storage order, with this hostname.
    pub fn find_by_hostname(&self, hostname: &str) -> (r: Result<Option<Server>, AppError>)
        ensures
            r == Ok::<Option<Server>, AppError>(
                first_match(store_values(self.entries()), server_with_hostname(hostname@)),
            ),
    {
        let sel = WithHostname { hostname };
        Ok(self.base.find_first(&sel))
    }

    /// The first server, in storage order, with this IP address.
    pub fn find_by_ip(&self, ip_address: &str) -> (r: Result<Option<Server>, AppError>)
        ensures
            r == Ok::<Option<Server>, AppError>(
                first_match(store_values(self.entries()), server_with_ip(ip_address@)),
            ),
    {
        let sel = WithIp { ip_address };
        Ok(self.base.find_first(&sel))
    }
}

impl Repository<Server> for ServersRepository {
    open spec fn stored(&self) -> Entries<Server> {
        self.entries()
    }

    /// A value is stored with its id set to the id it is stored under.
    open spec fn stores_as(given: Server, id: Seq<char>, stored: Server) -> bool {
        server_with_id(stored, given, id)
    }

    /// Gives the server a random id and stores it under that id.
    fn create(&mut self, entity: Server) -> (r: Result<Server, AppError>)
    {
        let id = new_entity_id();
        let server = entity.with_id(id.as_str());
        let ghost key = id@;
        let ghost stored_server = server;
        let ghost before = self.stored();
        let r = self.base.create_with_id(id, server);
        assert(stored_under_random_id(before, self.stored(), key, stored_server) && server_with_id(
            stored_server,
            entity,
            key,
        ));
        r
    }

    fn find_by_id(&self, id: &String) -> (r: Result<Server, AppError>) {
        self.base.find_by_id(id)
    }

    fn find_all(&self, limit: Option<usize>) -> (r: Result<Vec<Server>, AppError>) {
        self.base.find_all(limit)
    }

    /// Stores the server, with its id set to `id`, in place of the one stored
    /// under `id`.
    fn update(&mut self, id: &String, entity: Server) -> (r: Result<Server, AppError>)
    {
        let server = entity.with_id(id.as_str());
        self.base.update(id, server)
    }

    fn delete(&mut self, id: &String) -> (r: Result<Server, AppError>) {
        self.base.delete(id)
    }

    fn count(&self) -> (r: Result<usize, AppError>) {
        self.base.count()
    }
}

} // verus!
