use crate::errors::app_error::AppError;
use crate::models::metrics::{metric_is_critical, same_category_kind, Metric, MetricCategory};
use crate::models::server::id_is;
use crate::repositories::repository_base::{
    has_id, ids_distinct, new_entity_id, store_put, store_values, stored_under_random_id,
    take_limit, Entity, Entries, RepositoryBase, Selector,
};
use crate::text::str_eq;
use crate::traits::repository::Repository;
use vstd::prelude::*;

verus! {

/// Metrics that belong to the server with this id.
pub open spec fn metric_on_server(server_id: Seq<char>) -> spec_fn(Metric) -> bool {
    |m: Metric| m.server_id@ == server_id
}

/// Metrics past their critical level.
pub open spec fn metric_critical() -> spec_fn(Metric) -> bool {
    |m: Metric| metric_is_critical(m)
}

/// Metrics whose category is of the same kind as `category`.
pub open spec fn metric_of_kind(category: MetricCategory) -> spec_fn(Metric) -> bool {
    |m: Metric| same_category_kind(m.category, category)
}

/// `m` is `given` with its id set to `id`.
pub open spec fn metric_with_id(m: Metric, given: Metric, id: Seq<char>) -> bool {
    m == (Metric { id: m.id, ..given }) && id_is(m.id, id)
}

struct OnServer<'a> {
    server_id: &'a str,
}

impl<'a> Selector<Metric> for OnServer<'a> {
    closed spec fn pred(&self) -> spec_fn(Metric) -> bool {
        metric_on_server(self.server_id@)
    }

    fn matches(&self, t: &Metric) -> (r: bool) {
        str_eq(t.server_id.as_str(), self.server_id)
    }
}

struct Critical;

impl Selector<Metric> for Critical {
    closed spec fn pred(&self) -> spec_fn(Metric) -> bool {
        metric_critical()
    }

    fn matches(&self, t: &Metric) -> (r: bool) {
        t.is_critical()
    }
}

struct OfKind<'a> {
    category: &'a MetricCategory,
}

impl<'a> Selector<Metric> for OfKind<'a> {
    closed spec fn pred(&self) -> spec_fn(Metric) -> bool {
        metric_of_kind(*self.category)
    }

    fn matches(&self, t: &Metric) -> (r: bool) {
        t.category.same_kind(self.category)
    }
}

/// The repository of metrics.
pub struct MetricsRepository {
    base: RepositoryBase<Metric>,
}

impl MetricsRepository {
    /// The stored metrics under their ids.
    pub closed spec fn entries(&self) -> Entries<Metric> {
        self.base.entries()
    }

    /// An empty repository.
    pub fn new() -> (r: MetricsRepository)
        ensures
            r.entries() == Seq::<(Seq<char>, Metric)>::empty(),
    {
        MetricsRepository { base: RepositoryBase::new() }
    }

    /// The metrics of one server in storage order, at most `limit` of them.
    pub fn find_by_server_id(&self, server_id: &str, limit: Option<usize>) -> (r: Result<
        Vec<Metric>,
        AppError,
    >)
        ensures
            r matches Ok(v) && v@ == take_limit(
                store_values(self.entries()).filter(metric_on_server(server_id@)),
                limit,
            ),
    {
        let sel = OnServer { server_id };
        Ok(self.base.find_matching(&sel, limit))
    }

    /// The critical metrics in storage order.
    pub fn find_critical_metrics(&self) -> (r: Result<Vec<Metric>, AppError>)
        ensures
            r matches Ok(v) && v@ == store_values(self.entries()).filter(metric_critical()),
    {
        let sel = Critical;
        Ok(self.base.find_matching(&sel, None))
    }

    /// The metrics whose category is of the same kind as `category`.
    pub fn find_by_category(&self, category: &MetricCategory) -> (r: Result<Vec<Metric>, AppError>)
        ensures
            r matches Ok(v) && v@ == store_values(self.entries()).filter(metric_of_kind(*category)),
    {
        let sel = OfKind { category };
        Ok(self.base.find_matching(&sel, None))
    }

    /// Removes every metric.
    pub fn clear_all(&mut self)
        ensures
            final(self).entries() == Seq::<(Seq<char>, Metric)>::empty(),
    {
        self.base.clear();
    }
}

impl Repository<Metric> for MetricsRepository {
    open spec fn stored(&self) -> Entries<Metric> {
        self.entries()
    }

    /// A value is stored with its id set to the id it is stored under.
    open spec fn stores_as(given: Metric, id: Seq<char>, stored: Metric) -> bool {
        metric_with_id(stored, given, id)
    }

    /// Gives the metric a random id and stores it under that id.
    fn create(&mut self, entity: Metric) -> (r: Result<Metric, AppError>)
    {
        let id = new_entity_id();
        let metric = entity.with_id(id.as_str());
        let ghost key = id@;
        let ghost stored_metric = metric;
        let ghost before = self.stored();
        let r = self.base.create_with_id(id, metric);
        assert(stored_under_random_id(before, self.stored(), key, stored_metric) && metric_with_id(
            stored_metric,
            entity,
            key,
        ));
        r
    }

    fn find_by_id(&self, id: &String) -> (r: Result<Metric, AppError>) {
        self.base.find_by_id(id)
    }

    fn find_all(&self, limit: Option<usize>) -> (r: Result<Vec<Metric>, AppError>) {
        self.base.find_all(limit)
    }

    /// Stores the metric, with its id set to `id`, in place of the one stored
    /// under `id`.
    fn update(&mut self, id: &String, entity: Metric) -> (r: Result<Metric, AppError>)
    {
        let metric = entity.with_id(id.as_str());
        self.base.update(id, metric)
    }

    fn delete(&mut self, id: &String) -> (r: Result<Metric, AppError>) {
        self.base.delete(id)
    }

    fn count(&self) -> (r: Result<usize, AppError>) {
        self.base.count()
    }
}

/// A search by category picks a metric exactly when its category is the same
/// variant as the one asked for (any custom category for a custom one).
pub proof fn law_category_search_picks_same_variant(category: MetricCategory, m: Metric)
    ensures
        metric_of_kind(category)(m) <==> ((m.category is CPU) == (category is CPU) && (
        m.category is Memory) == (category is Memory) && (m.category is Disk) == (category is Disk)
            && (m.category is Network) == (category is Network) && (m.category is Custom) == (
        category is Custom)),
{
}

} // verus!
