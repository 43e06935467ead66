use crate::errors::app_error::AppError;
use crate::models::alert::Alert;
use crate::models::server::id_is;
use crate::repositories::repository_base::{
    has_id, new_entity_id, store_values, stored_under_random_id, take_limit, Entries,
    RepositoryBase, Selector,
};
use crate::text::str_eq;
use crate::traits::repository::Repository;
use vstd::prelude::*;

verus! {

/// Alerts on the server with this id.
pub open spec fn alert_on_server(server_id: Seq<char>) -> spec_fn(Alert) -> bool {
    |a: Alert| a.server_id@ == server_id
}

/// Active alerts.
pub open spec fn alert_active() -> spec_fn(Alert) -> bool {
    |a: Alert| a.is_active
}

/// Alerts on the metric type with this name.
pub open spec fn alert_on_metric(metric_type: Seq<char>) -> spec_fn(Alert) -> bool {
    |a: Alert| a.metric_type@ == metric_type
}

/// `a` is `given` with its id set to `id`.
pub open spec fn alert_with_id(a: Alert, given: Alert, id: Seq<char>) -> bool {
    a == (Alert { id: a.id, ..given }) && id_is(a.id, id)
}

struct OnServer<'a> {
    server_id: &'a str,
}

impl<'a> Selector<Alert> for OnServer<'a> {
    closed spec fn pred(&self) -> spec_fn(Alert) -> bool {
        alert_on_server(self.server_id@)
    }

    fn matches(&self, t: &Alert) -> (r: bool) {
        str_eq(t.server_id.as_str(), self.server_id)
    }
}

struct Active;

impl Selector<Alert> for Active {
    closed spec fn pred(&self) -> spec_fn(Alert) -> bool {
        alert_active()
    }

    fn matches(&self, t: &Alert) -> (r: bool) {
        t.is_active
    }
}

struct OnMetric<'a> {
    metric_type: &'a str,
}

impl<'a> Selector<Alert> for OnMetric<'a> {
    closed spec fn pred(&self) -> spec_fn(Alert) -> bool {
        alert_on_metric(self.metric_type@)
    }

    fn matches(&self, t: &Alert) -> (r: bool) {
        str_eq(t.metric_type.as_str(), self.metric_type)
    }
}

/// The repository of alerts.
pub struct AlertsRepository {
    base: RepositoryBase<Alert>,
}

impl AlertsRepository {
    /// The stored alerts under their ids.
    pub closed spec fn entries(&self) -> Entries<Alert> {
        self.base.entries()
    }

    /// An empty repository.
    pub fn new() -> (r: AlertsRepository)
        ensures
            r.entries() == Seq::<(Seq<char>, Alert)>::empty(),
    {
        AlertsRepository { base: RepositoryBase::new() }
    }

    /// The alerts of one server in storage order, at most `limit` of them.
    pub fn find_by_server_id(&self, server_id: &str, limit: Option<usize>) -> (r: Result<
        Vec<Alert>,
        AppError,
    >)
        ensures
            r matches Ok(v) && v@ == take_limit(
                store_values(self.entries()).filter(alert_on_server(server_id@)),
                limit,
            ),
    {
        let sel = OnServer { server_id };
        Ok(self.base.find_matching(&sel, limit))
    }

    /// The active alerts in storage order.
    pub fn find_active_alerts(&self) -> (r: Result<Vec<Alert>, AppError>)
        ensures
            r matches Ok(v) && v@ == store_values(self.entries()).filter(alert_active()),
    {
        let sel = Active;
        Ok(self.base.find_matching(&sel, None))
    }

    /// The alerts on one metric type in storage order.
    pub fn find_by_metric_type(&self, metric_type: &str) -> (r: Result<Vec<Alert>, AppError>)
        ensures
            r matches Ok(v) && v@ == store_values(self.entries()).filter(
                alert_on_metric(metric_type@),
            ),
    {
        let sel = OnMetric { metric_type };
        Ok(self.base.find_matching(&sel, None))
    }
}

impl Repository<Alert> for AlertsRepository {
    open spec fn stored(&self) -> Entries<Alert> {
        self.entries()
    }

    /// A value is stored with its id set to the id it is stored under.
    open spec fn stores_as(given: Alert, id: Seq<char>, stored: Alert) -> bool {
        alert_with_id(stored, given, id)
    }

    /// Gives the alert a random id and stores it under that id.
    fn create(&mut self, entity: Alert) -> (r: Result<Alert, AppError>)
    {
        let id = new_entity_id();
        let alert = entity.with_id(id.as_str());
        let ghost key = id@;
        let ghost stored_alert = alert;
        let ghost before = self.stored();
        let r = self.base.create_with_id(id, alert);
        assert(stored_under_random_id(before, self.stored(), key, stored_alert) && alert_with_id(
            stored_alert,
            entity,
            key,
        ));
        r
    }

    fn find_by_id(&self, id: &String) -> (r: Result<Alert, AppError>) {
        self.base.find_by_id(id)
    }

    fn find_all(&self, limit: Option<usize>) -> (r: Result<Vec<Alert>, AppError>) {
        self.base.find_all(limit)
    }

    /// Stores the alert, with its id set to `id`, in place of the one stored
    /// under `id`.
    fn update(&mut self, id: &String, entity: Alert) -> (r: Result<Alert, AppError>)
    {
        let alert = entity.with_id(id.as_str());
        self.base.update(id, alert)
    }

    fn delete(&mut self, id: &String) -> (r: Result<Alert, AppError>) {
        self.base.delete(id)
    }

    fn count(&self) -> (r: Result<usize, AppError>) {
        self.base.count()
    }
}

} // verus!
