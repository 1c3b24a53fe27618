//! The tuple-store gateway's own logic: the store as a set of tuples, equality filtering,
//! pagination, write batching, endpoint addressing and the bootstrap decisions.
use crate::config::OpenFGAConfig;
use crate::error::Error;
use crate::names::string_views;
use crate::text::{cat4, owned, str_eq};
use crate::types::{
    filter_admits, key_views, tuple_views, FilterView, ReadRequest, Store, Tuple, TupleKey,
    TupleKeyFilter, TupleKeys, TupleView, WriteRequest,
};
use vstd::prelude::*;

verus! {

/// The tuples a store holds.
pub type StoreState = Set<TupleView>;

/// The store after a write call: the writes added, then the deletes taken out.
pub open spec fn apply_write(s: StoreState, writes: Seq<TupleView>, deletes: Seq<TupleView>) -> StoreState {
    s.union(writes.to_set()).difference(deletes.to_set())
}

/// What a read with a filter returns from a store.
pub open spec fn read_spec(s: StoreState, f: FilterView) -> Set<TupleView> {
    s.filter(|t: TupleView| filter_admits(f, t))
}

pub open spec fn users_of(ts: Seq<TupleView>) -> Seq<Seq<char>> {
    ts.map_values(|t: TupleView| t.0)
}

pub open spec fn objects_of(ts: Seq<TupleView>) -> Seq<Seq<char>> {
    ts.map_values(|t: TupleView| t.2)
}

/// The user of each tuple, in order.
pub fn tuple_users(ts: &Vec<Tuple>) -> (r: Vec<String>)
    ensures
        string_views(r@) == users_of(tuple_views(ts@)),
{
    let mut out: Vec<String> = Vec::new();
    let mut i: usize = 0;
    while i < ts.len()
        invariant
            i <= ts.len(),
            string_views(out@) =~= users_of(tuple_views(ts@)).subrange(0, i as int),
        decreases ts.len() - i,
    {
        let ghost before = string_views(out@);
        out.push(owned(ts[i].key.user.as_str()));
        proof {
            assert(string_views(out@) =~= before.push(ts@[i as int].key.user@));
            assert(users_of(tuple_views(ts@)).subrange(0, i + 1) =~= users_of(tuple_views(ts@)).subrange(0, i as int).push(ts@[i as int].key.user@));
        }
        i = i + 1;
    }
    out
}

/// The object of each tuple, in order.
pub fn tuple_objects(ts: &Vec<Tuple>) -> (r: Vec<String>)
    ensures
        string_views(r@) == objects_of(tuple_views(ts@)),
{
    let mut out: Vec<String> = Vec::new();
    let mut i: usize = 0;
    while i < ts.len()
        invariant
            i <= ts.len(),
            string_views(out@) =~= objects_of(tuple_views(ts@)).subrange(0, i as int),
        decreases ts.len() - i,
    {
        let ghost before = string_views(out@);
        out.push(owned(ts[i].key.object.as_str()));
        proof {
            assert(string_views(out@) =~= before.push(ts@[i as int].key.object@));
            assert(objects_of(tuple_views(ts@)).subrange(0, i + 1) =~= objects_of(tuple_views(ts@)).subrange(0, i as int).push(ts@[i as int].key.object@));
        }
        i = i + 1;
    }
    out
}

/// The keys of two reads, the first read's before the second's.
pub fn collect_keys(first: &Vec<Tuple>, second: &Vec<Tuple>) -> (r: Vec<TupleKey>)
    ensures
        key_views(r@) == tuple_views(first@) + tuple_views(second@),
{
    let mut out: Vec<TupleKey> = Vec::new();
    let mut i: usize = 0;
    while i < first.len()
        invariant
            i <= first.len(),
            key_views(out@) =~= tuple_views(first@).subrange(0, i as int),
        decreases first.len() - i,
    {
        let ghost before = key_views(out@);
        out.push(first[i].key.duplicate());
        proof {
            assert(key_views(out@) =~= before.push(first@[i as int].key@));
            assert(tuple_views(first@).subrange(0, i + 1) =~= tuple_views(first@).subrange(0, i as int).push(first@[i as int].key@));
        }
        i = i + 1;
    }
    let mut j: usize = 0;
    while j < second.len()
        invariant
            j <= second.len(),
            key_views(out@) =~= tuple_views(first@) + tuple_views(second@).subrange(0, j as int),
        decreases second.len() - j,
    {
        let ghost before = key_views(out@);
        out.push(second[j].key.duplicate());
        proof {
            assert(key_views(out@) =~= before.push(second@[j as int].key@));
            assert(tuple_views(second@).subrange(0, j + 1) =~= tuple_views(second@).subrange(0, j as int).push(second@[j as int].key@));
        }
        j = j + 1;
    }
    out
}

fn field_ok(f: &Option<String>, v: &String) -> (r: bool)
    ensures
        r == match f {
            Some(x) => x@ == v@,
            None => true,
        },
{
    match f {
        Some(x) => str_eq(x.as_str(), v.as_str()),
        None => true,
    }
}

/// Whether a tuple passes an equality filter on all three fields.
pub fn admits(f: &TupleKeyFilter, t: &TupleKey) -> (r: bool)
    ensures
        r == filter_admits(f@, t@),
{
    field_ok(&f.user, &t.user) && field_ok(&f.relation, &t.relation) && field_ok(&f.object, &t.object)
}

/// The tuples that a server-side equality filter would return, in their order.
pub fn filter_tuples(ts: Vec<Tuple>, f: &TupleKeyFilter) -> (r: Vec<Tuple>)
    ensures
        tuple_views(r@) == tuple_views(ts@).filter(|t: TupleView| filter_admits(f@, t)),
{
    let ghost pred = |t: TupleView| filter_admits(f@, t);
    let ghost tv = tuple_views(ts@);
    let mut out: Vec<Tuple> = Vec::new();
    let mut i: usize = 0;
    proof {
        assert(tv.subrange(0, 0).filter(pred) =~= Seq::<TupleView>::empty());
        assert(tuple_views(out@) =~= Seq::<TupleView>::empty());
    }
    while i < ts.len()
        invariant
            tv == tuple_views(ts@),
            pred == (|t: TupleView| filter_admits(f@, t)),
            i <= ts.len(),
            tuple_views(out@) == tv.subrange(0, i as int).filter(pred),
        decreases ts.len() - i,
    {
        proof {
            assert(tv.subrange(0, i + 1) =~= tv.subrange(0, i as int).push(tv[i as int]));
            tv.subrange(0, i as int).lemma_filter_push(tv[i as int], pred);
        }
        if admits(f, &ts[i].key) {
            let t = Tuple { key: ts[i].key.duplicate(), timestamp: None };
            let ghost before = tuple_views(out@);
            out.push(t);
            proof {
                assert(tuple_views(out@) =~= before.push(tv[i as int]));
            }
        }
        i = i + 1;
    }
    proof {
        assert(tv.subrange(0, ts.len() as int) =~= tv);
    }
    out
}

/// How a read is carried out: the filter sent to the store and the filter applied to
/// what comes back. The store filters only when the object is given; otherwise the read
/// is unfiltered and the whole filter is applied here.
pub fn split_filter(filter: Option<TupleKeyFilter>) -> (r: (Option<TupleKeyFilter>, Option<TupleKeyFilter>))
    ensures
        match filter {
            Some(f) => if f.object is None {
                r.0 is None && r.1 == Some(f)
            } else {
                r.0 == Some(f) && r.1 is None
            },
            None => r.0 is None && r.1 is None,
        },
{
    match filter {
        Some(f) => {
            if f.object.is_none() {
                (None, Some(f))
            } else {
                (Some(f), None)
            }
        },
        None => (None, None),
    }
}

/// Tuples per read page.
pub const PAGE_SIZE: i32 = 100;

/// The request for one page of a read.
pub fn read_request(filter: &Option<TupleKeyFilter>, continuation_token: &Option<String>) -> (r: ReadRequest)
    ensures
        r.page_size == Some(PAGE_SIZE),
        match (r.tuple_key, *filter) {
            (Some(a), Some(b)) => a@ == b@,
            (None, None) => true,
            _ => false,
        },
        match (r.continuation_token, *continuation_token) {
            (Some(a), Some(b)) => a@ == b@,
            (None, None) => true,
            _ => false,
        },
{
    let tuple_key = match filter {
        Some(f) => Some(copy_filter(f)),
        None => None,
    };
    let continuation_token = match continuation_token {
        Some(t) => Some(owned(t.as_str())),
        None => None,
    };
    ReadRequest { tuple_key, page_size: Some(PAGE_SIZE), continuation_token }
}

fn copy_opt(o: &Option<String>) -> (r: Option<String>)
    ensures
        match (r, *o) {
            (Some(a), Some(b)) => a@ == b@,
            (None, None) => true,
            _ => false,
        },
{
    match o {
        Some(s) => Some(owned(s.as_str())),
        None => None,
    }
}

/// A copy of a filter.
pub fn copy_filter(f: &TupleKeyFilter) -> (r: TupleKeyFilter)
    ensures
        r@ == f@,
{
    TupleKeyFilter { user: copy_opt(&f.user), relation: copy_opt(&f.relation), object: copy_opt(&f.object) }
}

/// The token of the next page, or `None` when the read is complete: a missing or empty
/// token ends it.
pub fn next_page(continuation_token: Option<String>) -> (r: Option<String>)
    ensures
        match continuation_token {
            Some(t) => if t@.len() == 0 {
                r is None
            } else {
                r == Some(t)
            },
            None => r is None,
        },
{
    match continuation_token {
        Some(t) => {
            if t.as_str().is_empty() {
                None
            } else {
                Some(t)
            }
        },
        None => None,
    }
}

/// The request for a write call; `None` when there is nothing to write or delete, in
/// which case no request is made.
pub fn write_request(writes: Vec<TupleKey>, deletes: Vec<TupleKey>, model_id: &Option<String>) -> (r: Option<
    WriteRequest,
>)
    ensures
        (writes@.len() == 0 && deletes@.len() == 0) <==> r is None,
        r matches Some(req) ==> {
            &&& (writes@.len() == 0 <==> req.writes is None)
            &&& (deletes@.len() == 0 <==> req.deletes is None)
            &&& (req.writes matches Some(w) ==> w.tuple_keys@ == writes@)
            &&& (req.deletes matches Some(d) ==> d.tuple_keys@ == deletes@)
            &&& match (req.authorization_model_id, *model_id) {
                (Some(a), Some(b)) => a@ == b@,
                (None, None) => true,
                _ => false,
            }
        },
{
    if writes.len() == 0 && deletes.len() == 0 {
        return None;
    }
    let w = if writes.len() == 0 {
        None
    } else {
        Some(TupleKeys { tuple_keys: writes })
    };
    let d = if deletes.len() == 0 {
        None
    } else {
        Some(TupleKeys { tuple_keys: deletes })
    };
    Some(WriteRequest { writes: w, deletes: d, authorization_model_id: copy_opt(model_id) })
}

/// The URL of a store endpoint, `{api_url}/stores/{store_id}{path}`; fails with
/// `StoreNotFound`, before any request, when no store id is known.
pub fn store_endpoint(config: &OpenFGAConfig, path: &str) -> (r: Result<String, Error>)
    ensures
        config.store_id@.len() == 0 <==> r is Err,
        r matches Err(e) ==> e is StoreNotFound,
        r matches Ok(u) ==> u@ == config.api_url@ + "/stores/"@ + config.store_id@ + path@,
{
    if config.store_id.as_str().is_empty() {
        return Err(Error::StoreNotFound);
    }
    let base = cat4(config.api_url.as_str(), "/stores/", config.store_id.as_str(), path);
    Ok(base)
}

/// The id of the first store named `name`.
pub fn find_store(stores: &Vec<Store>, name: &str) -> (r: Option<String>)
    ensures
        r matches Some(id) ==> exists|i: int|
            0 <= i < stores@.len() && stores@[i].name@ == name@ && stores@[i].id@ == id@ && forall|j: int|
                0 <= j < i ==> stores@[j].name@ != name@,
        r is None ==> forall|i: int| 0 <= i < stores@.len() ==> stores@[i].name@ != name@,
{
    let mut i: usize = 0;
    while i < stores.len()
        invariant
            i <= stores.len(),
            forall|j: int| 0 <= j < i ==> stores@[j].name@ != name@,
        decreases stores.len() - i,
    {
        if str_eq(stores[i].name.as_str(), name) {
            return Some(owned(stores[i].id.as_str()));
        }
        i = i + 1;
    }
    None
}

/// Tuples per bootstrap write.
pub const BATCH_SIZE: usize = 50;

/// Splits tuples into consecutive batches of at most `size`, in order.
pub fn chunk_tuples(tuples: &Vec<TupleKey>, size: usize) -> (r: Vec<Vec<TupleKey>>)
    requires
        size > 0,
    ensures
        forall|i: int| 0 <= i < r@.len() ==> 0 < #[trigger] r@[i]@.len() <= size,
        r@.map_values(|c: Vec<TupleKey>| key_views(c@)).flatten() == key_views(tuples@),
{
    let ghost all = key_views(tuples@);
    let mut out: Vec<Vec<TupleKey>> = Vec::new();
    let mut i: usize = 0;
    proof {
        assert(out@.map_values(|c: Vec<TupleKey>| key_views(c@)) =~= Seq::<Seq<TupleView>>::empty());
        assert(all.subrange(0, 0) =~= Seq::<TupleView>::empty());
    }
    while i < tuples.len()
        invariant
            all == key_views(tuples@),
            size > 0,
            i <= tuples.len(),
            forall|k: int| 0 <= k < out@.len() ==> 0 < #[trigger] out@[k]@.len() <= size,
            out@.map_values(|c: Vec<TupleKey>| key_views(c@)).flatten() == all.subrange(0, i as int),
        decreases tuples.len() - i,
    {
        let end = if tuples.len() - i < size {
            tuples.len()
        } else {
            i + size
        };
        let mut chunk: Vec<TupleKey> = Vec::new();
        let mut j: usize = i;
        while j < end
            invariant
                i <= j <= end <= tuples.len(),
                key_views(chunk@) =~= all.subrange(i as int, j as int),
                all == key_views(tuples@),
            decreases end - j,
        {
            let ghost before = key_views(chunk@);
            chunk.push(tuples[j].duplicate());
            proof {
                assert(key_views(chunk@) =~= before.push(all[j as int]));
            }
            j = j + 1;
        }
        let ghost prev = out@.map_values(|c: Vec<TupleKey>| key_views(c@));
        out.push(chunk);
        proof {
            let now = out@.map_values(|c: Vec<TupleKey>| key_views(c@));
            assert(now =~= prev.push(all.subrange(i as int, end as int)));
            prev.lemma_flatten_push(all.subrange(i as int, end as int));
            assert(all.subrange(0, i as int) + all.subrange(i as int, end as int) =~= all.subrange(0, end as int));
        }
        i = end;
    }
    proof {
        assert(all.subrange(0, tuples.len() as int) =~= all);
    }
    out
}

/// The keys of the tuples of a read, in order.
pub fn tuple_keys(ts: &Vec<Tuple>) -> (r: Vec<TupleKey>)
    ensures
        key_views(r@) == tuple_views(ts@),
{
    let mut out: Vec<TupleKey> = Vec::new();
    let mut i: usize = 0;
    while i < ts.len()
        invariant
            i <= ts.len(),
            key_views(out@) =~= tuple_views(ts@).subrange(0, i as int),
        decreases ts.len() - i,
    {
        let ghost before = key_views(out@);
        out.push(ts[i].key.duplicate());
        proof {
            assert(key_views(out@) =~= before.push(ts@[i as int].key@));
            assert(tuple_views(ts@).subrange(0, i + 1) =~= tuple_views(ts@).subrange(0, i as int).push(ts@[i as int].key@));
        }
        i = i + 1;
    }
    out
}

/// The read whose tuples an org deletion deletes: every tuple on the org object.
pub fn delete_org_tuples(org_id: &str) -> (r: TupleKeyFilter)
    ensures
        r@ == (None::<Seq<char>>, None::<Seq<char>>, Some(crate::codec::org_type_spec(org_id@))),
{
    let org = crate::codec::org_type(org_id);
    TupleKeyFilter::on_object(org.as_str())
}

/// Deleting every tuple that a read returned leaves nothing for the same read to find.
pub proof fn law_deleting_a_read_empties_it(s: StoreState, f: FilterView, ts: Seq<TupleView>)
    requires
        ts.to_set() == read_spec(s, f),
    ensures
        read_spec(apply_write(s, Seq::empty(), ts), f).is_empty(),
{
    assert(read_spec(apply_write(s, Seq::empty(), ts), f) =~= Set::<TupleView>::empty());
}

} // verus!
