use crate::errors::app_error::AppError;
use crate::repositories::repository_base::{
    has_id, ids_distinct, is_not_found, lookup, store_put, store_remove,
    store_values, stored_under_random_id, take_limit, Entries,
};
use vstd::prelude::*;

verus! {

/// Storage of values under text ids: what every repository offers.
pub trait Repository<T> {
    /// The stored entries, in storage order.
    spec fn stored(&self) -> Entries<T>;

    /// What this repository stores for `given` under `id`.
    spec fn stores_as(given: T, id: Seq<char>, stored: T) -> bool;

    /// Stores what the repository makes of the value under a random id, and
    /// hands back what was stored.
    fn create(&mut self, entity: T) -> (r: Result<T, AppError>)
        ensures
            r matches Ok(e) && exists|id: Seq<char>| #[trigger] stored_under_random_id(
                old(self).stored(),
                final(self).stored(),
                id,
                e,
            ) && Self::stores_as(entity, id, e),
            ids_distinct(final(self).stored()),
    ;

    /// The value stored under `id`, or `NotFound`.
    fn find_by_id(&self, id: &String) -> (r: Result<T, AppError>)
        ensures
            match lookup(self.stored(), id@) {
                Some(e) => r == Ok::<T, AppError>(e),
                None => is_not_found(r, id@),
            },
    ;

    /// The stored values in storage order, at most `limit` of them.
    fn find_all(&self, limit: Option<usize>) -> (r: Result<Vec<T>, AppError>)
        ensures
            r matches Ok(v) && v@ == take_limit(store_values(self.stored()), limit),
    ;

    /// Stores what the repository makes of the value in place of the one stored
    /// under `id`; `NotFound`, and nothing changed,
    /// when nothing is stored there.
    fn update(&mut self, id: &String, entity: T) -> (r: Result<T, AppError>)
        ensures
            if has_id(old(self).stored(), id@) {
                r matches Ok(e) && Self::stores_as(entity, id@, e) && final(self).stored()
                    == store_put(old(self).stored(), id@, e)
            } else {
                is_not_found(r, id@) && final(self).stored() == old(self).stored()
            },
            ids_distinct(final(self).stored()),
    ;

    /// Removes and returns the value stored under `id`, or `NotFound`.
    fn delete(&mut self, id: &String) -> (r: Result<T, AppError>)
        ensures
            match lookup(old(self).stored(), id@) {
                Some(e) => r == Ok::<T, AppError>(e),
                None => is_not_found(r, id@),
            },
            final(self).stored() == store_remove(old(self).stored(), id@),
            ids_distinct(final(self).stored()),
    ;

    /// The number of stored values.
    fn count(&self) -> (r: Result<usize, AppError>)
        ensures
            r == Ok::<usize, AppError>(self.stored().len() as usize),
    ;
}

} // verus!
