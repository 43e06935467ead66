use crate::errors::app_error::AppError;
use crate::traits::repository::Repository;
use vstd::prelude::*;
use vstd::string::*;

verus! {

/// A value that a repository can store and hand out copies of.
pub trait Entity: Sized {
    /// An exact copy of the value.
    fn duplicate(&self) -> (r: Self)
        ensures
            r == *self,
    ;
}

/// A lowercase hexadecimal digit.
pub open spec fn is_lower_hex(c: char) -> bool {
    ('0' <= c && c <= '9') || ('a' <= c && c <= 'f')
}

/// The hyphenated lowercase text of a version-4 (random) UUID: 36 characters,
/// hyphens at positions 8, 13, 18 and 23, hex digits elsewhere, version digit `4`
/// at position 14 and a variant digit among `8`, `9`, `a`, `b` at position 19.
pub open spec fn is_uuid_v4_text(s: Seq<char>) -> bool {
    &&& s.len() == 36
    &&& forall|i: int|
        0 <= i < 36 ==> if i == 8 || i == 13 || i == 18 || i == 23 {
            #[trigger] s[i] == '-'
        } else {
            is_lower_hex(s[i])
        }
    &&& s[14] == '4'
    &&& (s[19] == '8' || s[19] == '9' || s[19] == 'a' || s[19] == 'b')
}

/// A random id: `uuid::Uuid::new_v4().to_string()`. The bits are random; uuid
/// fixes the version nibble to 4 and the variant bits to `10`, and `Display`
/// writes the hyphenated lowercase form. Nothing is stated of which id comes
/// back, nor that it differs from earlier ones.
#[verifier::external_body]
pub fn new_entity_id() -> (r: String)
    ensures
        is_uuid_v4_text(r@),
{
    uuid::Uuid::new_v4().to_string()
}

/// `after` is `before` with `e` stored under `id`, the text of a random
/// version-4 UUID. Nothing here says that `id` was unused before: if it was in
/// use, `e` replaced what was stored under it.
pub open spec fn stored_under_random_id<T>(before: Entries<T>, after: Entries<T>, id: Seq<char>, e: T) -> bool {
    is_uuid_v4_text(id) && after == store_put(before, id, e)
}

/// A test on stored values, in executable and in mathematical form.
pub trait Selector<T> {
    /// The values this selector picks.
    spec fn pred(&self) -> spec_fn(T) -> bool;

    /// Whether this selector picks `t`.
    fn matches(&self, t: &T) -> (r: bool)
        ensures
            r == (self.pred())(*t),
    ;
}

/// The first item of `v` that `pred` picks, if any.
pub open spec fn first_match<A>(v: Seq<A>, pred: spec_fn(A) -> bool) -> Option<A>
    decreases v.len(),
{
    if v.len() == 0 {
        None
    } else if pred(v[0]) {
        Some(v[0])
    } else {
        first_match(v.drop_first(), pred)
    }
}

/// Keeping the first `i + 1` items and filtering adds item `i` when it is picked.
pub proof fn lemma_filter_take_step<A>(s: Seq<A>, i: int, pred: spec_fn(A) -> bool)
    requires
        0 <= i < s.len(),
    ensures
        s.take(i + 1).filter(pred) == if pred(s[i]) {
            s.take(i).filter(pred).push(s[i])
        } else {
            s.take(i).filter(pred)
        },
{
    reveal(Seq::filter);
    assert(s.take(i + 1).drop_last() =~= s.take(i));
}

/// The stored entries of a repository, in storage order: each an id and a value.
pub type Entries<T> = Seq<(Seq<char>, T)>;

/// Some entry has this id.
pub open spec fn has_id<T>(s: Entries<T>, id: Seq<char>) -> bool {
    exists|i: int| 0 <= i < s.len() && (#[trigger] s[i]).0 == id
}

/// The position of the entry with this id (meaningful when there is one).
pub open spec fn index_of<T>(s: Entries<T>, id: Seq<char>) -> int {
    choose|i: int| 0 <= i < s.len() && (#[trigger] s[i]).0 == id
}

/// No id is stored twice.
pub open spec fn ids_distinct<T>(s: Entries<T>) -> bool {
    forall|i: int, j: int|
        0 <= i < s.len() && 0 <= j < s.len() && i != j ==> (#[trigger] s[i]).0 != (#[trigger] s[j]).0
}

/// The value stored under `id`, if any.
pub open spec fn lookup<T>(s: Entries<T>, id: Seq<char>) -> Option<T> {
    if has_id(s, id) {
        Some(s[index_of(s, id)].1)
    } else {
        None
    }
}

/// The entries after storing `e` under `id`: an existing entry with that id gets
/// the new value in place, otherwise the entry is added at the end.
pub open spec fn store_put<T>(s: Entries<T>, id: Seq<char>, e: T) -> Entries<T> {
    if has_id(s, id) {
        s.update(index_of(s, id), (id, e))
    } else {
        s.push((id, e))
    }
}

/// The entries after removing the one with this id (unchanged if there is none).
pub open spec fn store_remove<T>(s: Entries<T>, id: Seq<char>) -> Entries<T> {
    if has_id(s, id) {
        s.remove(index_of(s, id))
    } else {
        s
    }
}

/// The stored values, in storage order.
pub open spec fn store_values<T>(s: Entries<T>) -> Seq<T> {
    s.map_values(|p: (Seq<char>, T)| p.1)
}

/// A sequence cut to at most `limit` items (`Vec::truncate`); no limit keeps all.
pub open spec fn take_limit<T>(v: Seq<T>, limit: Option<usize>) -> Seq<T> {
    match limit {
        Some(n) => if n < v.len() {
            v.take(n as int)
        } else {
            v
        },
        None => v,
    }
}

/// The message of the error reported for an unknown id.
pub open spec fn not_found_message(id: Seq<char>) -> Seq<char> {
    "Entity with id "@ + id + " not found"@
}

/// The error reported for an unknown id.
pub open spec fn is_not_found<A>(r: Result<A, AppError>, id: Seq<char>) -> bool {
    r matches Err(AppError::NotFound(m)) && m@ == not_found_message(id)
}

/// With distinct ids, an entry that has the id is the one `index_of` picks.
pub proof fn lemma_index_unique<T>(s: Entries<T>, id: Seq<char>, i: int)
    requires
        ids_distinct(s),
        0 <= i < s.len(),
        s[i].0 == id,
    ensures
        has_id(s, id),
        index_of(s, id) == i,
{
    assert(has_id(s, id));
    let j = index_of(s, id);
    assert(0 <= j < s.len() && s[j].0 == id);
}

/// Storing under an id: the store keeps distinct ids, the id now gives the new
/// value, every other id gives what it gave before, and the count grows by one
/// exactly when the id was new.
pub proof fn lemma_store_put<T>(s: Entries<T>, id: Seq<char>, e: T)
    requires
        ids_distinct(s),
    ensures
        ids_distinct(store_put(s, id, e)),
        lookup(store_put(s, id, e), id) == Some(e),
        forall|other: Seq<char>| other != id ==> lookup(store_put(s, id, e), other) == lookup(s, other),
        store_put(s, id, e).len() == if has_id(s, id) {
            s.len()
        } else {
            s.len() + 1
        },
{
    let t = store_put(s, id, e);
    if has_id(s, id) {
        let k = index_of(s, id);
        assert forall|i: int, j: int|
            0 <= i < t.len() && 0 <= j < t.len() && i != j implies (#[trigger] t[i]).0 != (
            #[trigger] t[j]).0 by {
            if i == k {
                assert(s[j].0 != s[k].0);
            } else if j == k {
                assert(s[i].0 != s[k].0);
            } else {
                assert(s[i].0 != s[j].0);
            }
        }
        lemma_index_unique(t, id, k);
        assert forall|other: Seq<char>| other != id implies lookup(t, other) == lookup(s, other) by {
            if has_id(s, other) {
                let m = index_of(s, other);
                assert(m != k);
                lemma_index_unique(t, other, m);
            } else {
                if has_id(t, other) {
                    let m = index_of(t, other);
                    assert(s[m].0 == other);
                }
            }
        }
    } else {
        let k = s.len() as int;
        assert forall|i: int, j: int|
            0 <= i < t.len() && 0 <= j < t.len() && i != j implies (#[trigger] t[i]).0 != (
            #[trigger] t[j]).0 by {
            if i == k {
                assert(s[j].0 != id);
            } else if j == k {
                assert(s[i].0 != id);
            } else {
                assert(s[i].0 != s[j].0);
            }
        }
        lemma_index_unique(t, id, k);
        assert forall|other: Seq<char>| other != id implies lookup(t, other) == lookup(s, other) by {
            if has_id(s, other) {
                let m = index_of(s, other);
                lemma_index_unique(t, other, m);
            } else {
                if has_id(t, other) {
                    let m = index_of(t, other);
                    assert(m != k);
                    assert(s[m].0 == other);
                }
            }
        }
    }
}

/// Removing an id: the store keeps distinct ids, the id gives nothing any more,
/// every other id gives what it gave before, and the count drops by one exactly
/// when the id was stored.
pub proof fn lemma_store_remove<T>(s: Entries<T>, id: Seq<char>)
    requires
        ids_distinct(s),
    ensures
        ids_distinct(store_remove(s, id)),
        lookup(store_remove(s, id), id) is None,
        forall|other: Seq<char>| other != id ==> lookup(store_remove(s, id), other) == lookup(s, other),
        store_remove(s, id).len() == if has_id(s, id) {
            s.len() - 1
        } else {
            s.len() as int
        },
{
    let t = store_remove(s, id);
    if has_id(s, id) {
        let k = index_of(s, id);
        // t[i] is s[i] below k and s[i + 1] from k on.
        assert forall|i: int| 0 <= i < t.len() implies #[trigger] t[i] == (if i < k {
            s[i]
        } else {
            s[i + 1]
        }) by {}
        assert forall|i: int, j: int|
            0 <= i < t.len() && 0 <= j < t.len() && i != j implies (#[trigger] t[i]).0 != (
            #[trigger] t[j]).0 by {
            let a = if i < k {
                i
            } else {
                i + 1
            };
            let b = if j < k {
                j
            } else {
                j + 1
            };
            assert(s[a].0 != s[b].0);
        }
        if has_id(t, id) {
            let m = index_of(t, id);
            let a = if m < k {
                m
            } else {
                m + 1
            };
            assert(s[a].0 == id);
            assert(s[k].0 == id);
        }
        assert forall|other: Seq<char>| other != id implies lookup(t, other) == lookup(s, other) by {
            if has_id(s, other) {
                let m = index_of(s, other);
                assert(m != k);
                let n = if m < k {
                    m
                } else {
                    m - 1
                };
                assert(t[n] == s[m]);
                lemma_index_unique(t, other, n);
            } else {
                if has_id(t, other) {
                    let m = index_of(t, other);
                    let a = if m < k {
                        m
                    } else {
                        m + 1
                    };
                    assert(s[a].0 == other);
                }
            }
        }
    }
}

/// What was just created is found again: the new value answers under its
/// random id, every other id answers as before, and the count grows by one unless
/// the id was already in use.
pub proof fn law_find_after_create<T>(before: Entries<T>, after: Entries<T>, id: Seq<char>, e: T)
    requires
        ids_distinct(before),
        stored_under_random_id(before, after, id, e),
    ensures
        lookup(after, id) == Some(e),
        forall|other: Seq<char>| other != id ==> lookup(after, other) == lookup(before, other),
        after.len() == if has_id(before, id) {
            before.len()
        } else {
            before.len() + 1
        },
{
    lemma_store_put(before, id, e);
}

/// What an update wrote is read back: after storing `e` under an id already in
/// use, that id answers `e`, every other id answers as before, and the count is
/// unchanged.
pub proof fn law_find_after_update<T>(before: Entries<T>, id: Seq<char>, e: T)
    requires
        ids_distinct(before),
        has_id(before, id),
    ensures
        lookup(store_put(before, id, e), id) == Some(e),
        forall|other: Seq<char>|
            other != id ==> lookup(store_put(before, id, e), other) == lookup(before, other),
        store_put(before, id, e).len() == before.len(),
{
    lemma_store_put(before, id, e);
}

/// What was deleted is gone: the id answers `NotFound` afterwards, every other
/// id answers as before, and the count drops by one when the id was stored.
pub proof fn law_find_after_delete<T>(before: Entries<T>, id: Seq<char>)
    requires
        ids_distinct(before),
    ensures
        lookup(store_remove(before, id), id) is None,
        forall|other: Seq<char>|
            other != id ==> lookup(store_remove(before, id), other) == lookup(before, other),
        store_remove(before, id).len() == if has_id(before, id) {
            before.len() - 1
        } else {
            before.len() as int
        },
{
    lemma_store_remove(before, id);
}

/// A limit keeps the first values only: as many as the limit allows, in order;
/// no limit keeps them all.
pub proof fn law_limit_keeps_prefix<T>(v: Seq<T>, limit: Option<usize>)
    ensures
        take_limit(v, limit).len() == match limit {
            Some(n) => if n < v.len() {
                n as int
            } else {
                v.len() as int
            },
            None => v.len() as int,
        },
        forall|i: int| 0 <= i < take_limit(v, limit).len() ==> #[trigger] take_limit(v, limit)[i] == v[i],
{
}

/// A search returns stored values only, each of them one that the search picks,
/// and every stored value that it picks.
pub proof fn law_search_results_are_picked<T>(v: Seq<T>, pred: spec_fn(T) -> bool)
    ensures
        forall|i: int| 0 <= i < v.filter(pred).len() ==> pred(#[trigger] v.filter(pred)[i]) && v.contains(
            v.filter(pred)[i],
        ),
        forall|i: int| 0 <= i < v.len() && pred(v[i]) ==> #[trigger] v.filter(pred).contains(v[i]),
        v.filter(pred).len() <= v.len(),
{
    v.filter_lemma(pred);
    assert forall|i: int| 0 <= i < v.filter(pred).len() implies pred(#[trigger] v.filter(pred)[i])
        && v.contains(v.filter(pred)[i]) by {
        v.lemma_filter_contains_rev(pred, v.filter(pred)[i]);
    }
}

/// The in-memory store that the repositories build on. Entries keep the order in
/// which their ids were first stored.
pub struct RepositoryBase<T> {
    entities: Vec<(String, T)>,
}

impl<T> RepositoryBase<T> {
    /// The stored entries, ids taken as text.
    pub closed spec fn entries(&self) -> Entries<T> {
        self.entities@.map_values(|p: (String, T)| (p.0@, p.1))
    }

    #[verifier::type_invariant]
    closed spec fn wf(&self) -> bool {
        ids_distinct(self.entries())
    }
}

impl<T: Entity> RepositoryBase<T> {
    /// An empty store.
    pub fn new() -> (r: RepositoryBase<T>)
        ensures
            r.entries() == Seq::<(Seq<char>, T)>::empty(),
            ids_distinct(r.entries()),
    {
        let r = RepositoryBase { entities: Vec::new() };
        assert(r.entries() =~= Seq::<(Seq<char>, T)>::empty());
        r
    }

    /// Moves the entries out, leaving the store empty.
    fn take_entities(&mut self) -> (r: Vec<(String, T)>)
        ensures
            r@.map_values(|p: (String, T)| (p.0@, p.1)) == old(self).entries(),
            final(self).entries() == Seq::<(Seq<char>, T)>::empty(),
    {
        let mut items: Vec<(String, T)> = Vec::new();
        std::mem::swap(&mut items, &mut self.entities);
        assert(self.entries() =~= Seq::<(Seq<char>, T)>::empty());
        items
    }

    /// The position of the entry with this id.
    fn position(&self, id: &String) -> (r: Option<usize>)
        ensures
            match r {
                Some(i) => i < self.entries().len() && self.entries()[i as int].0 == id@ && index_of(
                    self.entries(),
                    id@,
                ) == i,
                None => !has_id(self.entries(), id@),
            },
    {
        proof {
            use_type_invariant(self);
        }
        let n = self.entities.len();
        let mut i: usize = 0;
        while i < n
            invariant
                n == self.entities@.len(),
                n == self.entries().len(),
                i <= n,
                ids_distinct(self.entries()),
                forall|k: int| 0 <= k < i ==> (#[trigger] self.entries()[k]).0 != id@,
            decreases n - i,
        {
            if self.entities[i].0 == *id {
                proof {
                    lemma_index_unique(self.entries(), id@, i as int);
                }
                return Some(i);
            }
            i = i + 1;
        }
        None
    }

    /// Stores `entity` under `id`, replacing what was stored under it.
    pub fn put(&mut self, id: String, entity: T)
        ensures
            final(self).entries() == store_put(old(self).entries(), id@, entity),
            ids_distinct(final(self).entries()),
    {
        proof {
            use_type_invariant(&*self);
        }
        let ghost old_entries = self.entries();
        let pos = self.position(&id);
        proof {
            lemma_store_put(old_entries, id@, entity);
        }
        let mut items = self.take_entities();
        match pos {
            Some(i) => {
                items.set(i, (id, entity));
            },
            None => {
                items.push((id, entity));
            },
        }
        assert(items@.map_values(|p: (String, T)| (p.0@, p.1)) =~= store_put(
            old_entries,
            id@,
            entity,
        ));
        self.entities = items;
    }

    /// The error for an id that is not stored.
    fn not_found(id: &str) -> (r: AppError)
        ensures
            r matches AppError::NotFound(m) && m@ == not_found_message(id@),
    {
        AppError::NotFound(String::from_str("Entity with id ").concat(id).concat(" not found"))
    }

    /// Stores `entity` under `id` and hands it back.
    pub fn create_with_id(&mut self, id: String, entity: T) -> (r: Result<T, AppError>)
        ensures
            r == Ok::<T, AppError>(entity),
            final(self).entries() == store_put(old(self).entries(), id@, entity),
            ids_distinct(final(self).entries()),
    {
        let copy = entity.duplicate();
        self.put(id, entity);
        Ok(copy)
    }

    /// The stored values that `sel` picks, in storage order, at most `limit` of them.
    pub fn find_matching<S: Selector<T>>(&self, sel: &S, limit: Option<usize>) -> (r: Vec<T>)
        ensures
            r@ == take_limit(store_values(self.entries()).filter(sel.pred()), limit),
    {
        let ghost vals = store_values(self.entries());
        let n = self.entities.len();
        let mut out: Vec<T> = Vec::new();
        let mut i: usize = 0;
        assert(vals.take(0).filter(sel.pred()) =~= Seq::<T>::empty()) by {
            reveal(Seq::filter);
        }
        while i < n
            invariant
                n == self.entities@.len(),
                vals == store_values(self.entries()),
                n == vals.len(),
                i <= n,
                out@ == vals.take(i as int).filter(sel.pred()),
            decreases n - i,
        {
            proof {
                lemma_filter_take_step(vals, i as int, sel.pred());
            }
            if sel.matches(&self.entities[i].1) {
                out.push(self.entities[i].1.duplicate());
            }
            i = i + 1;
        }
        assert(vals.take(n as int) =~= vals);
        match limit {
            Some(l) => {
                out.truncate(l);
            },
            None => {},
        }
        assert(out@ =~= take_limit(vals.filter(sel.pred()), limit));
        out
    }

    /// The first stored value, in storage order, that `sel` picks.
    pub fn find_first<S: Selector<T>>(&self, sel: &S) -> (r: Option<T>)
        ensures
            r == first_match(store_values(self.entries()), sel.pred()),
    {
        let ghost vals = store_values(self.entries());
        let n = self.entities.len();
        let mut i: usize = 0;
        assert(vals.skip(0) =~= vals);
        while i < n
            invariant
                n == self.entities@.len(),
                vals == store_values(self.entries()),
                n == vals.len(),
                i <= n,
                first_match(vals, sel.pred()) == first_match(vals.skip(i as int), sel.pred()),
            decreases n - i,
        {
            assert(vals.skip(i as int)[0] == vals[i as int]);
            assert(vals.skip(i as int).drop_first() =~= vals.skip(i + 1));
            if sel.matches(&self.entities[i].1) {
                return Some(self.entities[i].1.duplicate());
            }
            i = i + 1;
        }
        assert(vals.skip(n as int).len() == 0);
        None
    }

    /// Removes every entry.
    pub fn clear(&mut self)
        ensures
            final(self).entries() == Seq::<(Seq<char>, T)>::empty(),
            ids_distinct(final(self).entries()),
    {
        let _ = self.take_entities();
    }
}


impl<T: Entity> Repository<T> for RepositoryBase<T> {
    open spec fn stored(&self) -> Entries<T> {
        self.entries()
    }

    /// A value is stored as it is given.
    open spec fn stores_as(given: T, id: Seq<char>, stored: T) -> bool {
        stored == given
    }

    /// Stores the value under a random id.
    fn create(&mut self, entity: T) -> (r: Result<T, AppError>)
        ensures
            r == Ok::<T, AppError>(entity),
    {
        let id = new_entity_id();
        let ghost key = id@;
        let ghost before = self.stored();
        let r = self.create_with_id(id, entity);
        assert(self.stored() == store_put(before, key, entity));
        assert(stored_under_random_id(before, self.stored(), key, entity) && Self::stores_as(
            entity,
            key,
            entity,
        ));
        assert(r->Ok_0 == entity);
        r
    }

    /// The value stored under `id`, or `NotFound`.
    fn find_by_id(&self, id: &String) -> (r: Result<T, AppError>)
        ensures
            match lookup(self.entries(), id@) {
                Some(e) => r == Ok::<T, AppError>(e),
                None => is_not_found(r, id@),
            },
    {
        match self.position(id) {
            Some(i) => Ok(self.entities[i].1.duplicate()),
            None => Err(Self::not_found(id.as_str())),
        }
    }

    /// The stored values in storage order, at most `limit` of them.
    fn find_all(&self, limit: Option<usize>) -> (r: Result<Vec<T>, AppError>)
        ensures
            r matches Ok(v) && v@ == take_limit(store_values(self.entries()), limit),
    {
        let n = self.entities.len();
        let mut out: Vec<T> = Vec::new();
        let mut i: usize = 0;
        while i < n
            invariant
                n == self.entities@.len(),
                n == self.entries().len(),
                i <= n,
                out@ == store_values(self.entries()).take(i as int),
            decreases n - i,
        {
            out.push(self.entities[i].1.duplicate());
            i = i + 1;
            assert(out@ =~= store_values(self.entries()).take(i as int));
        }
        assert(out@ =~= store_values(self.entries()));
        match limit {
            Some(l) => {
                out.truncate(l);
                assert(out@ =~= take_limit(store_values(self.entries()), limit));
            },
            None => {},
        }
        Ok(out)
    }

    /// Replaces the value stored under `id`; `NotFound` when nothing is stored there.
    fn update(&mut self, id: &String, entity: T) -> (r: Result<T, AppError>)
        ensures
            if has_id(old(self).entries(), id@) {
                &&& r == Ok::<T, AppError>(entity)
                &&& final(self).entries() == store_put(old(self).entries(), id@, entity)
            } else {
                &&& is_not_found(r, id@)
                &&& final(self).entries() == old(self).entries()
            },
            ids_distinct(final(self).entries()),
    {
        proof {
            use_type_invariant(&*self);
        }
        match self.position(id) {
            Some(_) => {
                let copy = entity.duplicate();
                self.put(id.clone(), entity);
                Ok(copy)
            },
            None => Err(Self::not_found(id.as_str())),
        }
    }

    /// Removes and returns the value stored under `id`; `NotFound` when there is none.
    fn delete(&mut self, id: &String) -> (r: Result<T, AppError>)
        ensures
            match lookup(old(self).entries(), id@) {
                Some(e) => r == Ok::<T, AppError>(e),
                None => is_not_found(r, id@),
            },
            final(self).entries() == store_remove(old(self).entries(), id@),
            ids_distinct(final(self).entries()),
    {
        proof {
            use_type_invariant(&*self);
        }
        let ghost old_entries = self.entries();
        match self.position(id) {
            Some(i) => {
                proof {
                    lemma_store_remove(old_entries, id@);
                }
                let mut items = self.take_entities();
                let (_, e) = items.remove(i);
                assert(items@.map_values(|p: (String, T)| (p.0@, p.1)) =~= store_remove(
                    old_entries,
                    id@,
                ));
                self.entities = items;
                Ok(e)
            },
            None => Err(Self::not_found(id.as_str())),
        }
    }

    /// The number of stored entries.
    fn count(&self) -> (r: Result<usize, AppError>)
        ensures
            r == Ok::<usize, AppError>(self.entries().len() as usize),
            ids_distinct(self.entries()),
    {
        proof {
            use_type_invariant(self);
        }
        Ok(self.entities.len())
    }

}

} // verus!
